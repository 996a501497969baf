//! The ways in which an annotated declaration is turned down.

use vstd::prelude::*;
use vstd::string::StringExecFns;
use crate::declaration::Kind;

verus! {

/// Why no conversion is written, or why the one written must not be used.
#[derive(Clone, Copy, Debug, PartialEq, Eq)]
pub enum DiscError {
    /// Arguments were passed to the annotation, which takes none.
    Argument,
    /// The annotation stands on a declaration of this kind, which has no
    /// discriminant.
    UnsupportedKind { kind: Kind },
    /// The variant at this position carries fields.
    FieldedVariant { variant: usize },
    /// The enumeration has this many variants, more than a `u8` tells apart.
    VariantOverflow { count: usize },
    /// A variant has a discriminant of its own.
    UnsupportedMode,
    /// The crate that defines the runtime contract was not found.
    CrateResolution,
}

/// The part of the annotated source that a report points at.
#[derive(Clone, Copy, Debug, PartialEq, Eq)]
pub enum SourceSpan {
    /// The declaration as a whole.
    Declaration,
    /// The field list of the variant at this position.
    Fields { variant: usize },
}

/// A remark fastened to a part of the source.
#[derive(Clone, Debug, PartialEq, Eq)]
pub struct SpanNote {
    pub span: SourceSpan,
    pub note: String,
}

/// An error as it is shown to the author of the annotated declaration.
#[derive(Clone, Debug, PartialEq, Eq)]
pub struct Diagnostic {
    pub message: String,
    pub span: Option<SpanNote>,
    pub help: Option<String>,
}

pub struct SpanNoteView {
    pub span: SourceSpan,
    pub note: Seq<char>,
}

pub struct DiagnosticView {
    pub message: Seq<char>,
    pub span: Option<SpanNoteView>,
    pub help: Option<Seq<char>>,
}

impl View for SpanNote {
    type V = SpanNoteView;

    open spec fn view(&self) -> SpanNoteView {
        SpanNoteView { span: self.span, note: self.note@ }
    }
}

impl View for Diagnostic {
    type V = DiagnosticView;

    open spec fn view(&self) -> DiagnosticView {
        DiagnosticView {
            message: self.message@,
            span: match self.span {
                Some(note) => Some(note@),
                None => None,
            },
            help: match self.help {
                Some(help) => Some(help@),
                None => None,
            },
        }
    }
}

/// The keyword that introduces a declaration of this kind.
pub open spec fn keyword_of(kind: Kind) -> Seq<char> {
    match kind {
        Kind::Struct => "struct"@,
        Kind::Enum => "enum"@,
        Kind::Union => "union"@,
    }
}

/// A report that consists of its message alone.
pub open spec fn plain(message: Seq<char>) -> DiagnosticView {
    DiagnosticView { message, span: None, help: None }
}

/// How each error is shown.
pub open spec fn diagnostic_of(error: DiscError) -> DiagnosticView {
    match error {
        DiscError::Argument => plain(
            "No arguments are expected. This will be changed in the future so that other types such as u32 can be used."@,
        ),
        DiscError::UnsupportedKind { kind } => DiagnosticView {
            message: "Incompatible data type."@,
            span: Some(
                SpanNoteView {
                    span: SourceSpan::Declaration,
                    note: "`"@ + keyword_of(kind) + "` has no discriminant."@,
                },
            ),
            help: Some("Use `enum` instead."@),
        },
        DiscError::FieldedVariant { variant } => DiagnosticView {
            message: "A disc enumeration cannot have fields."@,
            span: Some(SpanNoteView { span: SourceSpan::Fields { variant }, note: "Here"@ }),
            help: None,
        },
        DiscError::VariantOverflow { count } => plain(
            "Cannot have more than `u8::MAX` (255) variants."@,
        ),
        DiscError::UnsupportedMode => plain("Explicit discriminants are not yet supported."@),
        DiscError::CrateResolution => plain("Couldn't find the crate `disc`."@),
    }
}

impl Kind {
    /// The keyword that introduces a declaration of this kind.
    pub fn keyword(&self) -> (keyword: &'static str)
        ensures
            keyword@ == keyword_of(*self),
    {
        match self {
            Kind::Struct => "struct",
            Kind::Enum => "enum",
            Kind::Union => "union",
        }
    }
}

fn plain_diagnostic(message: &str) -> (diagnostic: Diagnostic)
    ensures
        diagnostic@ == plain(message@),
{
    Diagnostic { message: String::from_str(message), span: None, help: None }
}

impl DiscError {
    /// The report that shows this error.
    pub fn diagnostic(&self) -> (diagnostic: Diagnostic)
        ensures
            diagnostic@ == diagnostic_of(*self),
    {
        match self {
            DiscError::Argument => plain_diagnostic(
                "No arguments are expected. This will be changed in the future so that other types such as u32 can be used.",
            ),
            DiscError::UnsupportedKind { kind } => {
                let mut note = String::from_str("`");
                note.append(kind.keyword());
                note.append("` has no discriminant.");
                Diagnostic {
                    message: String::from_str("Incompatible data type."),
                    span: Some(SpanNote { span: SourceSpan::Declaration, note }),
                    help: Some(String::from_str("Use `enum` instead.")),
                }
            },
            DiscError::FieldedVariant { variant } => Diagnostic {
                message: String::from_str("A disc enumeration cannot have fields."),
                span: Some(
                    SpanNote {
                        span: SourceSpan::Fields { variant: *variant },
                        note: String::from_str("Here"),
                    },
                ),
                help: None,
            },
            DiscError::VariantOverflow { .. } => plain_diagnostic(
                "Cannot have more than `u8::MAX` (255) variants.",
            ),
            DiscError::UnsupportedMode => plain_diagnostic(
                "Explicit discriminants are not yet supported.",
            ),
            DiscError::CrateResolution => plain_diagnostic("Couldn't find the crate `disc`."),
        }
    }
}

} // verus!
