//! The annotation's entry point: from an annotated declaration to what is
//! emitted in its place.

use vstd::prelude::*;
use crate::analysis::{analysis_of, analyze};
use crate::contract::ordinal_of;
use crate::declaration::{Declaration, DeclarationView, Variant, VariantView};
use crate::error::DiscError;
use crate::resolve::{find_contract_crate, found_view, ContractCrateView};
use crate::synthesis::{
    synthesis_of, synthesize, Implementation, ImplementationView, Synthesis, SynthesisView,
};

verus! {

/// What takes the place of an annotated enumeration: the declaration as it
/// was written, to be laid out as a `u8`, followed by the implementation of
/// the runtime contract for it.
#[derive(Clone, Debug, PartialEq, Eq)]
pub struct Expansion {
    pub declaration: Declaration,
    pub implementation: Implementation,
}

pub struct ExpansionView {
    pub declaration: DeclarationView,
    pub implementation: ImplementationView,
}

impl View for Expansion {
    type V = ExpansionView;

    open spec fn view(&self) -> ExpansionView {
        ExpansionView {
            declaration: self.declaration@,
            implementation: self.implementation@,
        }
    }
}

/// The result of one use of the annotation: every error to report, in
/// order, and what is emitted. Either both parts of the expansion are
/// emitted or nothing is.
#[derive(Clone, Debug, PartialEq, Eq)]
pub struct Outcome {
    pub errors: Vec<DiscError>,
    pub expansion: Option<Expansion>,
}

pub struct OutcomeView {
    pub errors: Seq<DiscError>,
    pub expansion: Option<ExpansionView>,
}

impl View for Outcome {
    type V = OutcomeView;

    open spec fn view(&self) -> OutcomeView {
        OutcomeView {
            errors: self.errors@,
            expansion: match self.expansion {
                Some(expansion) => Some(expansion@),
                None => None,
            },
        }
    }
}

impl ExpansionView {
    /// The variant that the emitted function yields for `raw`.
    pub open spec fn variant_for(self, raw: u8) -> Option<VariantView> {
        match ordinal_of(raw, self.implementation.bound) {
            Some(ordinal) if ordinal < self.declaration.variants.len() => Some(
                self.declaration.variants[ordinal as int],
            ),
            _ => None,
        }
    }
}

/// An outcome that emits nothing and reports `error` alone.
pub open spec fn refused(error: DiscError) -> OutcomeView {
    OutcomeView { errors: seq![error], expansion: None }
}

/// The outcome for a declaration whose synthesis arrived at `synthesis`:
/// the same errors, and the declaration beside the implementation if there
/// is one.
pub open spec fn emitted(declaration: DeclarationView, synthesis: SynthesisView) -> OutcomeView {
    OutcomeView {
        errors: synthesis.errors,
        expansion: match synthesis.implementation {
            Some(implementation) => Some(ExpansionView { declaration, implementation }),
            None => None,
        },
    }
}

/// The verdict on the arguments of the annotation: it takes none.
pub open spec fn arguments_verdict(argument_count: nat) -> Result<(), DiscError> {
    if argument_count > 0 {
        Err(DiscError::Argument)
    } else {
        Ok(())
    }
}

/// The outcome of the annotation, used with `argument_count` arguments on
/// `declaration`, once the lookup of the contract's crate has answered
/// `found`.
///
/// Arguments are turned down before the declaration is looked at, and the
/// declaration before the lookup matters.
pub open spec fn outcome_of(
    argument_count: nat,
    declaration: DeclarationView,
    found: Option<ContractCrateView>,
) -> OutcomeView {
    match arguments_verdict(argument_count) {
        Err(error) => refused(error),
        Ok(()) => match analysis_of(declaration) {
            Err(error) => refused(error),
            Ok(analysis) => emitted(
                declaration,
                synthesis_of(
                    analysis.mode,
                    analysis.variant_count as nat,
                    declaration.name,
                    declaration.generics,
                    found,
                ),
            ),
        },
    }
}

/// The outcome is settled before the contract's crate is looked up: the
/// arguments or the declaration are turned down.
pub open spec fn decided_without_lookup(argument_count: nat, declaration: DeclarationView) -> bool {
    ||| arguments_verdict(argument_count) is Err
    ||| analysis_of(declaration) is Err
}

fn refuse(error: DiscError) -> (outcome: Outcome)
    ensures
        outcome@ == refused(error),
{
    let mut errors: Vec<DiscError> = Vec::new();
    errors.push(error);
    Outcome { errors, expansion: None }
}

/// Turns down any argument. The declaration plays no part in this, so the
/// check can be made before there is one.
pub fn check_arguments(arguments: &Vec<String>) -> (verdict: Result<(), DiscError>)
    ensures
        verdict == arguments_verdict(arguments@.len()),
{
    if arguments.len() != 0 {
        return Err(DiscError::Argument);
    }
    Ok(())
}

/// Puts the declaration beside the implementation that `synthesis` holds,
/// and hands its errors on.
pub fn emit(declaration: Declaration, synthesis: Synthesis) -> (outcome: Outcome)
    ensures
        outcome@ == emitted(declaration@, synthesis@),
{
    let Synthesis { errors, implementation } = synthesis;
    match implementation {
        Some(implementation) => Outcome {
            errors,
            expansion: Some(Expansion { declaration, implementation }),
        },
        None => Outcome { errors, expansion: None },
    }
}

/// Expands the annotation, used with `arguments` on `declaration`.
///
/// The outcome is fixed by the arguments and the declaration alone when one
/// of them is turned down. Otherwise the contract's crate is looked up, and
/// the outcome is the one that belongs to the answer.
pub fn disc(arguments: &Vec<String>, declaration: Declaration) -> (outcome: Outcome)
    ensures
        decided_without_lookup(arguments@.len(), declaration@) ==> outcome@ == outcome_of(
            arguments@.len(),
            declaration@,
            None,
        ),
        exists|found: Option<ContractCrateView>|
            outcome@ == #[trigger] outcome_of(arguments@.len(), declaration@, found),
{
    match check_arguments(arguments) {
        Err(error) => {
            let outcome = refuse(error);
            assert(outcome@ == outcome_of(arguments@.len(), declaration@, None));
            return outcome;
        },
        Ok(()) => {},
    }
    let analysis = match analyze(&declaration) {
        Err(error) => {
            let outcome = refuse(error);
            assert(outcome@ == outcome_of(arguments@.len(), declaration@, None));
            return outcome;
        },
        Ok(analysis) => analysis,
    };
    let found = find_contract_crate();
    let synthesis = synthesize(
        analysis.mode,
        analysis.variant_count,
        &declaration.name,
        &declaration.generics,
        found,
    );
    let outcome = emit(declaration, synthesis);
    assert(outcome@ == outcome_of(arguments@.len(), declaration@, found_view(found)));
    outcome
}

impl Expansion {
    /// The variant that the emitted function yields for `raw`, if it yields
    /// one.
    pub fn variant_for(&self, raw: u8) -> (variant: Option<&Variant>)
        ensures
            variant matches Some(found) ==> self@.variant_for(raw) == Some(found@),
            variant is None ==> self@.variant_for(raw) is None,
    {
        match self.implementation.convert(raw) {
            Some(ordinal) => {
                let position: usize = ordinal as usize;
                if position < self.declaration.variants.len() {
                    Some(&self.declaration.variants[position])
                } else {
                    None
                }
            },
            None => None,
        }
    }
}

} // verus!
