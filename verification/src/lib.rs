//! Conversions from raw discriminants back to the variants of field-free
//! enumerations.
//!
//! An enumeration is described by a [`Declaration`]. [`disc`] decides whether
//! a conversion can be written for it and, if so, hands back an
//! [`Expansion`]: the declaration, to be laid out as a `u8`, together with an
//! implementation of [`FromDiscriminant`] for it.

pub mod analysis;
pub mod contract;
pub mod declaration;
pub mod error;
pub mod expand;
pub mod laws;
pub mod render;
pub mod resolve;
pub mod synthesis;

pub use analysis::{analyze, generation_mode, verify_fields, Analysis, GenerationMode};
pub use contract::{try_from_ordinal, FromDiscriminant};
pub use declaration::{Declaration, Generics, Kind, Variant};
pub use error::{Diagnostic, DiscError, SourceSpan, SpanNote};
pub use expand::{check_arguments, disc, emit, Expansion, Outcome};
pub use render::decimal;
pub use resolve::{ContractCrate, CONTRACT_CRATE};
pub use synthesis::{
    generate_implementation, synthesize, Implementation, Synthesis, MAX_VARIANTS,
};
