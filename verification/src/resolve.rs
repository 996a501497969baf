//! Where the runtime contract is found from the crate being compiled.

use vstd::prelude::*;

verus! {

/// The name under which the crate that defines [`FromDiscriminant`] is
/// published.
///
/// [`FromDiscriminant`]: crate::contract::FromDiscriminant
pub const CONTRACT_CRATE: &'static str = "disc";

/// The crate that defines the runtime contract, seen from the crate being
/// compiled.
#[derive(Clone, Debug, PartialEq, Eq)]
pub enum ContractCrate {
    /// It is the crate being compiled.
    Itself,
    /// It is a dependency known under this name.
    Named(String),
}

pub enum ContractCrateView {
    Itself,
    Named(Seq<char>),
}

impl View for ContractCrate {
    type V = ContractCrateView;

    open spec fn view(&self) -> ContractCrateView {
        match self {
            ContractCrate::Itself => ContractCrateView::Itself,
            ContractCrate::Named(name) => ContractCrateView::Named(name@),
        }
    }
}

/// The view of a lookup's result.
pub open spec fn found_view(found: Option<ContractCrate>) -> Option<ContractCrateView> {
    match found {
        Some(contract) => Some(contract@),
        None => None,
    }
}

/// `proc_macro_crate::Error`, the reason why a lookup failed. It is only
/// carried from the lookup to the place that drops it.
#[verifier::external_type_specification]
#[verifier::external_body]
pub struct ExLookupError(proc_macro_crate::Error);

/// Calls `proc_macro_crate::crate_name`, which looks `orig_name` up in the
/// manifest of the crate being compiled.
///
/// The answer depends on that manifest and on the environment of the
/// compiler, so nothing is claimed about it: what callers promise, they
/// promise for every answer.
#[verifier::external_body]
fn crate_name(orig_name: &str) -> (found: Result<ContractCrate, proc_macro_crate::Error>) {
    match proc_macro_crate::crate_name(orig_name) {
        Ok(proc_macro_crate::FoundCrate::Itself) => Ok(ContractCrate::Itself),
        Ok(proc_macro_crate::FoundCrate::Name(name)) => Ok(ContractCrate::Named(name)),
        Err(error) => Err(error),
    }
}

/// Looks up the crate that defines the runtime contract. The answer is the
/// manifest's: nothing is promised of it but what [`answer_of`] makes of it.
pub(crate) fn find_contract_crate() -> (found: Option<ContractCrate>) {
    answer_of(crate_name(CONTRACT_CRATE))
}

/// What a lookup that ended in `result` answers: the crate it found, or
/// nothing. Why a lookup failed is of no consequence to the caller and is
/// dropped.
pub(crate) fn answer_of(
    result: Result<ContractCrate, proc_macro_crate::Error>,
) -> (found: Option<ContractCrate>)
    ensures
        result matches Ok(contract) ==> found == Some(contract),
        result is Err ==> found is None,
{
    match result {
        Ok(contract) => Some(contract),
        Err(_) => None,
    }
}

} // verus!
