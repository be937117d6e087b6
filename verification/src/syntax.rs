use vstd::prelude::*;

verus! {

/// A type reference as it appears in source, kept as its text. Only the
/// resolver interprets it; this crate passes it through unchanged.
#[derive(Clone, PartialEq, Eq, Debug)]
pub struct TypeRef {
    pub text: String,
}

/// One field of a named-field (record-like) definition: `name: Type`.
/// Either part may be missing in malformed or incomplete source.
#[derive(Clone, PartialEq, Eq, Debug)]
pub struct NamedFieldSyntax {
    pub name: Option<String>,
    pub type_ref: Option<TypeRef>,
}

/// One field of a positional (tuple-like) definition: just a type position.
/// The type reference may be missing in malformed source.
#[derive(Clone, PartialEq, Eq, Debug)]
pub struct PosFieldSyntax {
    pub type_ref: Option<TypeRef>,
}

/// The syntactic form in which a definition declares its fields: positional
/// fields, named fields, or none at all. Field order is declaration order.
#[derive(Clone, PartialEq, Eq, Debug)]
pub enum StructFlavor {
    Tuple(Vec<PosFieldSyntax>),
    Named(Vec<NamedFieldSyntax>),
    Unit,
}

/// The syntax of one struct definition: an optional declared name (absent
/// when the source is anonymous or malformed) and its field flavor.
#[derive(Clone, PartialEq, Eq, Debug)]
pub struct StructDefSyntax {
    pub name: Option<String>,
    pub flavor: StructFlavor,
}

/// The syntax of one enum variant: an optional declared name and the
/// variant's own field flavor.
#[derive(Clone, PartialEq, Eq, Debug)]
pub struct EnumVariantSyntax {
    pub name: Option<String>,
    pub flavor: StructFlavor,
}

/// The syntax of one enum definition. `variant_list` is `None` when the
/// source declares no variant list at all (malformed or forward-declared);
/// otherwise it holds the variants in declaration order.
#[derive(Clone, PartialEq, Eq, Debug)]
pub struct EnumDefSyntax {
    pub name: Option<String>,
    pub variant_list: Option<Vec<EnumVariantSyntax>>,
}

impl StructFlavor {
    /// How many fields the flavor declares.
    pub open spec fn spec_field_count(&self) -> nat {
        match self {
            StructFlavor::Tuple(fields) => fields@.len(),
            StructFlavor::Named(fields) => fields@.len(),
            StructFlavor::Unit => 0,
        }
    }
}

} // verus!
