//! Synthesis of the conversion for an enumeration that passed inspection.

use vstd::prelude::*;
use crate::analysis::{
    fields_verdict, generation_mode, mode_of, verify_fields, GenerationMode,
};
use crate::contract::{ordinal_of, try_from_ordinal};
use crate::declaration::{variants_view, Generics, GenericsView, Variant};
use crate::error::DiscError;
use crate::resolve::{find_contract_crate, found_view, ContractCrate, ContractCrateView};

verus! {

/// The most variants a conversion from `u8` tells apart.
pub const MAX_VARIANTS: usize = 255;

/// An implementation of the runtime contract for one enumeration: a
/// function from `u8` that yields nothing for `bound` and above and the
/// variant with that discriminant below it.
#[derive(Clone, Debug, PartialEq, Eq)]
pub struct Implementation {
    /// Where the implemented trait is found.
    pub contract: ContractCrate,
    /// The name of the enumeration.
    pub target: String,
    /// The generics of the enumeration.
    pub generics: Generics,
    /// The first raw value that stands for no variant.
    pub bound: u8,
}

pub struct ImplementationView {
    pub contract: ContractCrateView,
    pub target: Seq<char>,
    pub generics: GenericsView,
    pub bound: u8,
}

impl View for Implementation {
    type V = ImplementationView;

    open spec fn view(&self) -> ImplementationView {
        ImplementationView {
            contract: self.contract@,
            target: self.target@,
            generics: self.generics@,
            bound: self.bound,
        }
    }
}

/// What synthesis arrived at: every error raised on the way, in the order
/// in which they were raised, and the implementation unless an error
/// stopped it.
#[derive(Clone, Debug, PartialEq, Eq)]
pub struct Synthesis {
    pub errors: Vec<DiscError>,
    pub implementation: Option<Implementation>,
}

pub struct SynthesisView {
    pub errors: Seq<DiscError>,
    pub implementation: Option<ImplementationView>,
}

impl View for Synthesis {
    type V = SynthesisView;

    open spec fn view(&self) -> SynthesisView {
        SynthesisView {
            errors: self.errors@,
            implementation: match self.implementation {
                Some(implementation) => Some(implementation@),
                None => None,
            },
        }
    }
}

/// A synthesis stopped by `error` before anything else was raised.
pub open spec fn stopped_by(error: DiscError) -> SynthesisView {
    SynthesisView { errors: seq![error], implementation: None }
}

/// The error raised for an enumeration of `variant_count` variants, if it
/// has too many.
pub open spec fn overflow_of(variant_count: nat) -> Seq<DiscError> {
    if variant_count > MAX_VARIANTS {
        seq![DiscError::VariantOverflow { count: variant_count as usize }]
    } else {
        seq![]
    }
}

/// The bound written into the conversion: the variant count, cut down to
/// the eight bits of the raw type.
pub open spec fn bound_of(variant_count: nat) -> u8 {
    (variant_count % 256) as u8
}

/// What synthesis arrives at once the lookup of the contract's crate has
/// answered `found`.
///
/// A failed lookup stops it at once. Too many variants are reported but do
/// not stop it. An enumeration with discriminants of its own stops it, after
/// that report.
pub open spec fn synthesis_of(
    mode: GenerationMode,
    variant_count: nat,
    name: Seq<char>,
    generics: GenericsView,
    found: Option<ContractCrateView>,
) -> SynthesisView {
    match found {
        None => stopped_by(DiscError::CrateResolution),
        Some(contract) => match mode {
            GenerationMode::Explicit => SynthesisView {
                errors: overflow_of(variant_count).push(DiscError::UnsupportedMode),
                implementation: None,
            },
            GenerationMode::Automatic => SynthesisView {
                errors: overflow_of(variant_count),
                implementation: Some(
                    ImplementationView {
                        contract,
                        target: name,
                        generics,
                        bound: bound_of(variant_count),
                    },
                ),
            },
        },
    }
}

/// A copy of the generics, part by part.
fn copy_generics(generics: &Generics) -> (copy: Generics)
    ensures
        copy@ == generics@,
{
    Generics {
        impl_generics: generics.impl_generics.clone(),
        ty_generics: generics.ty_generics.clone(),
        where_clause: generics.where_clause.clone(),
    }
}

/// Synthesizes the conversion for an enumeration of `variant_count`
/// field-free variants, given what the lookup of the contract's crate
/// answered.
pub fn synthesize(
    mode: GenerationMode,
    variant_count: usize,
    name: &String,
    generics: &Generics,
    found: Option<ContractCrate>,
) -> (synthesis: Synthesis)
    ensures
        synthesis@ == synthesis_of(
            mode,
            variant_count as nat,
            name@,
            generics@,
            found_view(found),
        ),
{
    let contract = match found {
        Some(contract) => contract,
        None => {
            let mut errors: Vec<DiscError> = Vec::new();
            errors.push(DiscError::CrateResolution);
            return Synthesis { errors, implementation: None };
        },
    };
    let mut errors: Vec<DiscError> = Vec::new();
    if variant_count > MAX_VARIANTS {
        errors.push(DiscError::VariantOverflow { count: variant_count });
    }
    match mode {
        GenerationMode::Explicit => {
            errors.push(DiscError::UnsupportedMode);
            Synthesis { errors, implementation: None }
        },
        GenerationMode::Automatic => {
            let bound: u8 = (variant_count % 256) as u8;
            let implementation = Implementation {
                contract,
                target: name.clone(),
                generics: copy_generics(generics),
                bound,
            };
            Synthesis { errors, implementation: Some(implementation) }
        },
    }
}

/// Writes the implementation of the runtime contract for the enumeration
/// `name` with the variants `data`.
///
/// The field check comes first and its verdict does not depend on anything
/// else. Only when it passes is the contract's crate looked up; what follows
/// is [`synthesize`] on the answer, whatever it is.
pub fn generate_implementation(
    data: &Vec<Variant>,
    name: &String,
    generics: &Generics,
) -> (synthesis: Synthesis)
    ensures
        fields_verdict(variants_view(data@)) matches Err(error) ==> synthesis@ == stopped_by(error),
        fields_verdict(variants_view(data@)) is Ok ==> exists|found: Option<ContractCrateView>|
            synthesis@ == #[trigger] synthesis_of(
                mode_of(variants_view(data@)),
                data@.len(),
                name@,
                generics@,
                found,
            ),
{
    match verify_fields(data) {
        Err(error) => {
            let mut errors: Vec<DiscError> = Vec::new();
            errors.push(error);
            return Synthesis { errors, implementation: None };
        },
        Ok(()) => {},
    }
    let found = find_contract_crate();
    let mode = generation_mode(data);
    let synthesis = synthesize(mode, data.len(), name, generics, found);
    assert(synthesis@ == synthesis_of(
        mode_of(variants_view(data@)),
        data@.len(),
        name@,
        generics@,
        found_view(found),
    ));
    synthesis
}

impl Implementation {
    /// What the implemented function returns for `raw`: the position of the
    /// variant it yields, if it yields one.
    pub fn convert(&self, raw: u8) -> (ordinal: Option<u8>)
        ensures
            ordinal == ordinal_of(raw, self.bound),
    {
        try_from_ordinal(raw, self.bound)
    }
}

} // verus!
