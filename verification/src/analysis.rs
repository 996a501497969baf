//! Inspection of a declaration: whether a conversion can be written for it
//! at all, and which strategy it would follow.

use vstd::prelude::*;
use crate::declaration::{variants_view, Declaration, DeclarationView, Kind, Variant, VariantView};
use crate::error::DiscError;

verus! {

/// How the discriminants of an enumeration come about.
#[derive(Clone, Copy, Debug, PartialEq, Eq)]
pub enum GenerationMode {
    /// Every discriminant is the position of its variant.
    Automatic,
    /// At least one discriminant was assigned by the author.
    Explicit,
}

/// What synthesis needs to know of an enumeration that passed inspection,
/// beside its name and generics.
#[derive(Clone, Copy, Debug, PartialEq, Eq)]
pub struct Analysis {
    pub mode: GenerationMode,
    pub variant_count: usize,
}

/// No variant carries a field.
pub open spec fn field_free(variants: Seq<VariantView>) -> bool {
    forall|i: int| 0 <= i < variants.len() ==> (#[trigger] variants[i]).fields.len() == 0
}

/// The variant at `index` carries fields and none before it does.
pub open spec fn is_first_fielded(variants: Seq<VariantView>, index: int) -> bool {
    &&& 0 <= index < variants.len()
    &&& variants[index].fields.len() > 0
    &&& forall|j: int| 0 <= j < index ==> (#[trigger] variants[j]).fields.len() == 0
}

/// The position of the first variant that carries fields, if there is one.
pub open spec fn first_fielded(variants: Seq<VariantView>) -> Option<int> {
    if exists|i: int| is_first_fielded(variants, i) {
        Some(choose|i: int| is_first_fielded(variants, i))
    } else {
        None
    }
}

/// The outcome of the field check: the first offending variant is reported,
/// later ones are not looked at.
pub open spec fn fields_verdict(variants: Seq<VariantView>) -> Result<(), DiscError> {
    match first_fielded(variants) {
        Some(index) => Err(DiscError::FieldedVariant { variant: index as usize }),
        None => Ok(()),
    }
}

/// No variant has a discriminant of its own.
pub open spec fn all_positional(variants: Seq<VariantView>) -> bool {
    forall|i: int| 0 <= i < variants.len() ==> (#[trigger] variants[i]).discriminant is None
}

/// The mode of an enumeration with these variants.
pub open spec fn mode_of(variants: Seq<VariantView>) -> GenerationMode {
    if all_positional(variants) {
        GenerationMode::Automatic
    } else {
        GenerationMode::Explicit
    }
}

/// The verdict on a declaration: anything but an enumeration is turned
/// down, then the first variant with fields; an enumeration without fields
/// passes, with its mode and the number of its variants.
pub open spec fn analysis_of(declaration: DeclarationView) -> Result<Analysis, DiscError> {
    if declaration.kind != Kind::Enum {
        Err(DiscError::UnsupportedKind { kind: declaration.kind })
    } else {
        match fields_verdict(declaration.variants) {
            Err(error) => Err(error),
            Ok(()) => Ok(
                Analysis {
                    mode: mode_of(declaration.variants),
                    variant_count: declaration.variants.len() as usize,
                },
            ),
        }
    }
}

/// At most one variant is the first to carry fields.
pub proof fn lemma_first_fielded_unique(variants: Seq<VariantView>, i: int, j: int)
    requires
        is_first_fielded(variants, i),
        is_first_fielded(variants, j),
    ensures
        i == j,
{
}

/// `first_fielded` is the position singled out by `is_first_fielded`, and it
/// is absent exactly when no variant carries fields.
pub proof fn lemma_first_fielded(variants: Seq<VariantView>)
    ensures
        first_fielded(variants) is None <==> field_free(variants),
        forall|i: int| is_first_fielded(variants, i) <==> first_fielded(variants) == Some(i),
{
    assert forall|i: int| is_first_fielded(variants, i) implies first_fielded(variants) == Some(
        i,
    ) by {
        let chosen = choose|k: int| is_first_fielded(variants, k);
        lemma_first_fielded_unique(variants, i, chosen);
    }
    if !field_free(variants) {
        let fielded = choose|i: int|
            0 <= i < variants.len() && (#[trigger] variants[i]).fields.len() > 0;
        lemma_some_first_fielded(variants, fielded);
    }
}

/// If the variant at `fielded` carries fields, some variant is the first to
/// do so.
proof fn lemma_some_first_fielded(variants: Seq<VariantView>, fielded: int)
    requires
        0 <= fielded < variants.len(),
        variants[fielded].fields.len() > 0,
    ensures
        exists|i: int| is_first_fielded(variants, i),
    decreases fielded,
{
    if exists|j: int| 0 <= j < fielded && (#[trigger] variants[j]).fields.len() > 0 {
        let earlier = choose|j: int| 0 <= j < fielded && (#[trigger] variants[j]).fields.len() > 0;
        lemma_some_first_fielded(variants, earlier);
    } else {
        assert(is_first_fielded(variants, fielded));
    }
}

/// Checks that no variant carries fields, stopping at the first that does.
pub fn verify_fields(data: &Vec<Variant>) -> (verdict: Result<(), DiscError>)
    ensures
        verdict == fields_verdict(variants_view(data@)),
        verdict is Ok <==> field_free(variants_view(data@)),
        verdict matches Err(error) ==> error matches DiscError::FieldedVariant { variant }
            && is_first_fielded(variants_view(data@), variant as int),
{
    let ghost variants = variants_view(data@);
    let mut index: usize = 0;
    while index < data.len()
        invariant
            index <= data.len(),
            variants == variants_view(data@),
            forall|j: int| 0 <= j < index ==> (#[trigger] variants[j]).fields.len() == 0,
        decreases data.len() - index,
    {
        if data[index].fields.len() != 0 {
            proof {
                assert(is_first_fielded(variants, index as int));
                lemma_first_fielded(variants);
            }
            return Err(DiscError::FieldedVariant { variant: index });
        }
        index += 1;
    }
    proof {
        lemma_first_fielded(variants);
    }
    Ok(())
}

/// Classifies an enumeration by whether any of its variants has a
/// discriminant of its own.
pub fn generation_mode(data: &Vec<Variant>) -> (mode: GenerationMode)
    ensures
        mode == mode_of(variants_view(data@)),
{
    let ghost variants = variants_view(data@);
    let mut index: usize = 0;
    while index < data.len()
        invariant
            index <= data.len(),
            variants == variants_view(data@),
            forall|j: int| 0 <= j < index ==> (#[trigger] variants[j]).discriminant is None,
        decreases data.len() - index,
    {
        if data[index].discriminant.is_some() {
            assert(variants[index as int].discriminant is Some);
            return GenerationMode::Explicit;
        }
        index += 1;
    }
    GenerationMode::Automatic
}

/// Inspects a declaration. It is left as it is.
pub fn analyze(declaration: &Declaration) -> (verdict: Result<Analysis, DiscError>)
    ensures
        verdict == analysis_of(declaration@),
{
    match declaration.kind {
        Kind::Enum => {},
        kind => {
            return Err(DiscError::UnsupportedKind { kind });
        },
    }
    match verify_fields(&declaration.variants) {
        Err(error) => Err(error),
        Ok(()) => Ok(
            Analysis {
                mode: generation_mode(&declaration.variants),
                variant_count: declaration.variants.len(),
            },
        ),
    }
}

} // verus!
