//! What holds of every use of the annotation.
//!
//! The laws speak of [`outcome_of`], the outcome that [`disc`] arrives at
//! for each answer of the lookup of the contract's crate, and of
//! [`ExpansionView::variant_for`], the meaning of the emitted function.
//!
//! [`disc`]: crate::expand::disc

use vstd::prelude::*;
use crate::analysis::{all_positional, field_free, lemma_first_fielded};
use crate::contract::ordinal_of;
use crate::declaration::{Declaration, DeclarationView, Kind};
use crate::error::DiscError;
use crate::expand::{outcome_of, ExpansionView, OutcomeView};
use crate::render::implementation_text;
use crate::resolve::{found_view, ContractCrate, ContractCrateView};
use crate::synthesis::MAX_VARIANTS;

verus! {

/// The declaration is one for which a conversion is owed: an enumeration of
/// at most 255 variants, none with fields, none with a discriminant of its
/// own.
pub open spec fn convertible(declaration: DeclarationView) -> bool {
    &&& declaration.kind == Kind::Enum
    &&& field_free(declaration.variants)
    &&& all_positional(declaration.variants)
    &&& declaration.variants.len() <= MAX_VARIANTS
}

/// The text of the implementation that an outcome emits, if it emits one.
pub open spec fn emitted_text(outcome: OutcomeView) -> Option<Seq<char>> {
    match outcome.expansion {
        Some(expansion) => Some(implementation_text(expansion.implementation)),
        None => None,
    }
}

/// For a convertible declaration, annotated without arguments, with the
/// contract's crate found: nothing is reported, the declaration is emitted
/// unchanged, and the emitted function yields a variant for every raw value
/// below the number of variants and nothing for every other raw value.
pub proof fn lemma_conversion_covers_the_variants(
    declaration: DeclarationView,
    found: ContractCrateView,
    raw: u8,
)
    requires
        convertible(declaration),
    ensures
        outcome_of(0, declaration, Some(found)).errors.len() == 0,
        outcome_of(0, declaration, Some(found)).expansion is Some,
        ({
            let expansion = outcome_of(0, declaration, Some(found)).expansion->0;
            &&& expansion.declaration == declaration
            &&& expansion.implementation.bound == declaration.variants.len()
            &&& raw < declaration.variants.len() ==> expansion.variant_for(raw) is Some
            &&& raw >= declaration.variants.len() ==> expansion.variant_for(raw) is None
        }),
{
    lemma_first_fielded(declaration.variants);
}

/// Round trip: under the conditions of
/// [`lemma_conversion_covers_the_variants`], the emitted function turns the
/// position of each variant into exactly that variant.
pub proof fn lemma_position_round_trip(
    declaration: DeclarationView,
    found: ContractCrateView,
    position: int,
)
    requires
        convertible(declaration),
        0 <= position < declaration.variants.len(),
    ensures
        outcome_of(0, declaration, Some(found)).expansion is Some,
        ({
            let expansion = outcome_of(0, declaration, Some(found)).expansion->0;
            &&& ordinal_of(position as u8, expansion.implementation.bound) == Some(position as u8)
            &&& expansion.variant_for(position as u8) == Some(declaration.variants[position])
        }),
{
    lemma_first_fielded(declaration.variants);
}

/// Determinism: two uses of the annotation with as many arguments, on
/// declarations that read the same, with the same answer from the lookup,
/// have the same outcome and emit the same text.
pub proof fn lemma_same_input_same_output(
    first_arguments: Vec<String>,
    first: Declaration,
    first_found: Option<ContractCrate>,
    second_arguments: Vec<String>,
    second: Declaration,
    second_found: Option<ContractCrate>,
)
    requires
        first_arguments@.len() == second_arguments@.len(),
        first@ == second@,
        found_view(first_found) == found_view(second_found),
    ensures
        outcome_of(first_arguments@.len(), first@, found_view(first_found)) == outcome_of(
            second_arguments@.len(),
            second@,
            found_view(second_found),
        ),
        emitted_text(outcome_of(first_arguments@.len(), first@, found_view(first_found)))
            == emitted_text(
            outcome_of(second_arguments@.len(), second@, found_view(second_found)),
        ),
{
}

/// The function emitted for an enumeration without variants yields nothing,
/// whatever the raw value.
pub proof fn lemma_empty_enumeration_yields_nothing(
    declaration: DeclarationView,
    found: ContractCrateView,
    raw: u8,
)
    requires
        declaration.kind == Kind::Enum,
        declaration.variants.len() == 0,
    ensures
        outcome_of(0, declaration, Some(found)).errors.len() == 0,
        outcome_of(0, declaration, Some(found)).expansion is Some,
        outcome_of(0, declaration, Some(found)).expansion->0.variant_for(raw) is None,
{
    lemma_first_fielded(declaration.variants);
}

/// An enumeration without fields, annotated without arguments, with the
/// contract's crate found: too many variants are reported, first of all
/// errors, exactly when there are more than 255 of them.
pub proof fn lemma_overflow_is_reported(declaration: DeclarationView, found: ContractCrateView)
    requires
        declaration.kind == Kind::Enum,
        field_free(declaration.variants),
        declaration.variants.len() <= usize::MAX,
    ensures
        ({
            let errors = outcome_of(0, declaration, Some(found)).errors;
            let count = declaration.variants.len();
            &&& count > MAX_VARIANTS ==> errors.len() > 0 && errors[0] == (
            DiscError::VariantOverflow { count: count as usize })
            &&& count <= MAX_VARIANTS ==> forall|i: int|
                0 <= i < errors.len() ==> !(#[trigger] errors[i] is VariantOverflow)
        }),
{
    lemma_first_fielded(declaration.variants);
}

/// Whatever the input, an outcome that emits nothing reports an error, and
/// an outcome that emits an expansion emits the declaration unchanged, for
/// an enumeration whose variants have neither fields nor discriminants of
/// their own, with the implementation scoped to it and bounded by its
/// number of variants; the only error beside it is that of too many
/// variants.
pub proof fn lemma_all_or_nothing(
    argument_count: nat,
    declaration: DeclarationView,
    found: Option<ContractCrateView>,
)
    ensures
        ({
            let outcome = outcome_of(argument_count, declaration, found);
            &&& outcome.expansion is None ==> outcome.errors.len() > 0
            &&& outcome.expansion is Some ==> {
                let expansion = outcome.expansion->0;
                &&& argument_count == 0
                &&& found is Some
                &&& expansion.declaration == declaration
                &&& declaration.kind == Kind::Enum
                &&& field_free(declaration.variants)
                &&& all_positional(declaration.variants)
                &&& expansion.implementation.target == declaration.name
                &&& expansion.implementation.generics == declaration.generics
                &&& expansion.implementation.contract == found->0
                &&& expansion.implementation.bound <= declaration.variants.len()
                &&& forall|i: int|
                    0 <= i < outcome.errors.len() ==> #[trigger] outcome.errors[i]
                        is VariantOverflow
            }
        }),
{
    lemma_first_fielded(declaration.variants);
}

} // verus!
