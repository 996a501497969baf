use disc::{
    generate_implementation, synthesize, ContractCrate, DiscError, GenerationMode, Generics,
    Implementation, Synthesis, Variant, CONTRACT_CRATE, MAX_VARIANTS,
};

fn no_generics() -> Generics {
    Generics {
        impl_generics: String::new(),
        ty_generics: String::new(),
        where_clause: String::new(),
    }
}

fn units(count: usize) -> Vec<Variant> {
    (0..count)
        .map(|index| Variant {
            name: format!("V{}", index),
            fields: Vec::new(),
            discriminant: None,
        })
        .collect()
}

fn implementation(contract: ContractCrate, bound: u8) -> Implementation {
    Implementation { contract, target: "Color".to_string(), generics: no_generics(), bound }
}

fn synthesize_color(
    mode: GenerationMode,
    count: usize,
    found: Option<ContractCrate>,
) -> Synthesis {
    synthesize(mode, count, &"Color".to_string(), &no_generics(), found)
}

#[test]
fn limits_are_those_of_a_byte() {
    assert_eq!(MAX_VARIANTS, 255);
    assert_eq!(CONTRACT_CRATE, "disc");
}

#[test]
fn synthesize_bounds_the_conversion_by_the_variant_count() {
    let synthesis = synthesize_color(GenerationMode::Automatic, 3, Some(ContractCrate::Itself));
    assert_eq!(
        synthesis,
        Synthesis {
            errors: Vec::new(),
            implementation: Some(implementation(ContractCrate::Itself, 3)),
        }
    );
}

#[test]
fn synthesize_keeps_the_name_of_the_contract_crate() {
    let found = ContractCrate::Named("renamed".to_string());
    let synthesis = synthesize_color(GenerationMode::Automatic, 2, Some(found.clone()));
    assert_eq!(
        synthesis,
        Synthesis { errors: Vec::new(), implementation: Some(implementation(found, 2)) }
    );
}

#[test]
fn synthesize_keeps_name_and_generics() {
    let generics = Generics {
        impl_generics: "<T: Copy>".to_string(),
        ty_generics: "<T>".to_string(),
        where_clause: "where T: Default".to_string(),
    };
    let synthesis = synthesize(
        GenerationMode::Automatic,
        1,
        &"Wrapper".to_string(),
        &generics,
        Some(ContractCrate::Itself),
    );
    let implementation = synthesis.implementation.expect("an implementation");
    assert_eq!(implementation.target, "Wrapper");
    assert_eq!(implementation.generics, generics);
    assert!(synthesis.errors.is_empty());
}

#[test]
fn synthesize_stops_without_the_contract_crate() {
    let synthesis = synthesize_color(GenerationMode::Automatic, 3, None);
    assert_eq!(
        synthesis,
        Synthesis { errors: vec![DiscError::CrateResolution], implementation: None }
    );
}

#[test]
fn synthesize_reports_nothing_else_without_the_contract_crate() {
    let synthesis = synthesize_color(GenerationMode::Explicit, 300, None);
    assert_eq!(
        synthesis,
        Synthesis { errors: vec![DiscError::CrateResolution], implementation: None }
    );
}

#[test]
fn synthesize_refuses_explicit_discriminants() {
    let synthesis = synthesize_color(GenerationMode::Explicit, 3, Some(ContractCrate::Itself));
    assert_eq!(
        synthesis,
        Synthesis { errors: vec![DiscError::UnsupportedMode], implementation: None }
    );
}

#[test]
fn synthesize_accepts_255_variants() {
    let synthesis = synthesize_color(GenerationMode::Automatic, 255, Some(ContractCrate::Itself));
    assert_eq!(
        synthesis,
        Synthesis {
            errors: Vec::new(),
            implementation: Some(implementation(ContractCrate::Itself, 255)),
        }
    );
}

#[test]
fn synthesize_reports_256_variants() {
    let synthesis = synthesize_color(GenerationMode::Automatic, 256, Some(ContractCrate::Itself));
    assert_eq!(
        synthesis,
        Synthesis {
            errors: vec![DiscError::VariantOverflow { count: 256 }],
            implementation: Some(implementation(ContractCrate::Itself, 0)),
        }
    );
}

#[test]
fn synthesize_cuts_the_bound_to_a_byte() {
    let synthesis = synthesize_color(GenerationMode::Automatic, 300, Some(ContractCrate::Itself));
    assert_eq!(
        synthesis,
        Synthesis {
            errors: vec![DiscError::VariantOverflow { count: 300 }],
            implementation: Some(implementation(ContractCrate::Itself, 44)),
        }
    );
}

#[test]
fn synthesize_reports_overflow_before_the_unsupported_mode() {
    let synthesis = synthesize_color(GenerationMode::Explicit, 256, Some(ContractCrate::Itself));
    assert_eq!(
        synthesis,
        Synthesis {
            errors: vec![DiscError::VariantOverflow { count: 256 }, DiscError::UnsupportedMode],
            implementation: None,
        }
    );
}

#[test]
fn synthesize_for_no_variants_bounds_at_zero() {
    let synthesis = synthesize_color(GenerationMode::Automatic, 0, Some(ContractCrate::Itself));
    let implementation = synthesis.implementation.expect("an implementation");
    assert_eq!(implementation.bound, 0);
    for raw in 0..=255u8 {
        assert_eq!(implementation.convert(raw), None);
    }
}

#[test]
fn convert_yields_the_ordinals_below_the_bound() {
    let implementation = implementation(ContractCrate::Itself, 3);
    assert_eq!(implementation.convert(0), Some(0));
    assert_eq!(implementation.convert(1), Some(1));
    assert_eq!(implementation.convert(2), Some(2));
    for raw in 3..=255u8 {
        assert_eq!(implementation.convert(raw), None);
    }
}

#[test]
fn generate_implementation_stops_at_a_fielded_variant() {
    let mut variants = units(3);
    variants[1].fields.push("u8".to_string());
    variants[2].fields.push("u16".to_string());
    let synthesis = generate_implementation(&variants, &"Color".to_string(), &no_generics());
    assert_eq!(
        synthesis,
        Synthesis { errors: vec![DiscError::FieldedVariant { variant: 1 }], implementation: None }
    );
}

#[test]
fn generate_implementation_follows_the_lookup() {
    let synthesis = generate_implementation(&units(3), &"Color".to_string(), &no_generics());
    match synthesis.implementation {
        Some(implementation) => {
            assert!(synthesis.errors.is_empty());
            assert_eq!(implementation.target, "Color");
            assert_eq!(implementation.generics, no_generics());
            assert_eq!(implementation.bound, 3);
        }
        None => assert_eq!(synthesis.errors, vec![DiscError::CrateResolution]),
    }
}

#[test]
fn generate_implementation_never_converts_explicit_discriminants() {
    let mut variants = units(3);
    variants[2].discriminant = Some("10".to_string());
    let synthesis = generate_implementation(&variants, &"Color".to_string(), &no_generics());
    assert_eq!(synthesis.implementation, None);
    assert!(
        synthesis.errors == vec![DiscError::UnsupportedMode]
            || synthesis.errors == vec![DiscError::CrateResolution]
    );
}
