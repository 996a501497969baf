//! The shape of an annotated type declaration, as far as this crate reads it.

use vstd::prelude::*;

verus! {

/// The kind of type a declaration introduces.
#[derive(Clone, Copy, Debug, PartialEq, Eq)]
pub enum Kind {
    Struct,
    Enum,
    Union,
}

/// One alternative of an enumeration.
///
/// Its position in [`Declaration::variants`] is its discriminant unless
/// `discriminant` assigns another one.
#[derive(Clone, Debug, PartialEq, Eq)]
pub struct Variant {
    pub name: String,
    /// The fields the variant carries, each as written.
    pub fields: Vec<String>,
    /// The discriminant the author assigned, as written.
    pub discriminant: Option<String>,
}

/// The generic parameters of a declaration, split the way an `impl` block
/// needs them. Every part is empty for a declaration without generics.
#[derive(Clone, Debug, PartialEq, Eq)]
pub struct Generics {
    /// The parameters with their bounds: `<T: Clone>`.
    pub impl_generics: String,
    /// The parameters as arguments of the type: `<T>`.
    pub ty_generics: String,
    /// The `where` clause, keyword included.
    pub where_clause: String,
}

/// A type declaration.
#[derive(Clone, Debug, PartialEq, Eq)]
pub struct Declaration {
    pub kind: Kind,
    pub name: String,
    pub generics: Generics,
    /// The variants in declaration order. Only an enumeration has any.
    pub variants: Vec<Variant>,
}

pub struct VariantView {
    pub name: Seq<char>,
    pub fields: Seq<Seq<char>>,
    pub discriminant: Option<Seq<char>>,
}

pub struct GenericsView {
    pub impl_generics: Seq<char>,
    pub ty_generics: Seq<char>,
    pub where_clause: Seq<char>,
}

pub struct DeclarationView {
    pub kind: Kind,
    pub name: Seq<char>,
    pub generics: GenericsView,
    pub variants: Seq<VariantView>,
}

impl View for Variant {
    type V = VariantView;

    open spec fn view(&self) -> VariantView {
        VariantView {
            name: self.name@,
            fields: self.fields@.map_values(|field: String| field@),
            discriminant: match self.discriminant {
                Some(value) => Some(value@),
                None => None,
            },
        }
    }
}

impl View for Generics {
    type V = GenericsView;

    open spec fn view(&self) -> GenericsView {
        GenericsView {
            impl_generics: self.impl_generics@,
            ty_generics: self.ty_generics@,
            where_clause: self.where_clause@,
        }
    }
}

impl View for Declaration {
    type V = DeclarationView;

    open spec fn view(&self) -> DeclarationView {
        DeclarationView {
            kind: self.kind,
            name: self.name@,
            generics: self.generics@,
            variants: variants_view(self.variants@),
        }
    }
}

/// The views of a run of variants, in the same order.
pub open spec fn variants_view(variants: Seq<Variant>) -> Seq<VariantView> {
    variants.map_values(|variant: Variant| variant@)
}

} // verus!
