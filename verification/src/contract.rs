//! The runtime contract: building a value from its raw discriminant.

use vstd::prelude::*;

verus! {

/// The single capability an annotated enumeration gains: given a raw
/// discriminant of type `T`, optionally produce the value it stands for.
pub trait FromDiscriminant<T>: Sized {
    fn from_discriminant(discriminant: T) -> Option<Self>;
}

/// What the guarded conversion yields for `raw` when the target has
/// `variant_count` variants numbered from zero: the ordinal itself when it
/// names a variant, nothing otherwise.
pub open spec fn ordinal_of(raw: u8, variant_count: u8) -> Option<u8> {
    if raw >= variant_count {
        None
    } else {
        Some(raw)
    }
}

/// The guarded conversion primitive. The range check and the value handed on
/// for reinterpretation are kept in one place: a caller can only ever obtain
/// an ordinal that has passed the check.
pub fn try_from_ordinal(raw: u8, variant_count: u8) -> (ordinal: Option<u8>)
    ensures
        ordinal == ordinal_of(raw, variant_count),
{
    if raw >= variant_count {
        return None;
    }
    Some(raw)
}

} // verus!
