//! Semantic descriptors for algebraic data type definitions (structs and
//! enums) inside an incremental source-code analysis engine.
//!
//! The crate turns syntax-level definitions into immutable, shareable,
//! field-and-type-resolved models. Construction is a pure function of the
//! definition's syntax, its lexical scope and the resolver's state, so the
//! surrounding query engine may cache and share results freely; cooperative
//! cancellation aborts a construction without ever exposing a partial
//! descriptor, and malformed source degrades to sentinel values instead of
//! failing.

mod adt;
mod db;
mod ids;
mod mock;
mod syntax;
mod ty;

pub use adt::digit_char;
pub use adt::lemma_enum_construction_idempotent;
pub use adt::lemma_enum_variant_order;
pub use adt::lemma_lookup_misses;
pub use adt::lemma_lookup_returns_first_match;
pub use adt::lemma_missing_name_gets_sentinel;
pub use adt::lemma_positional_field_names;
pub use adt::lemma_struct_construction_idempotent;
pub use adt::lemma_unit_shape_empty;
pub use adt::lemma_variant_shape_complete;
pub use adt::positional_name;
pub use adt::sentinel_name;
pub use adt::spec_enum_data;
pub use adt::spec_enum_variant_name;
pub use adt::spec_field_lookup;
pub use adt::spec_named_field;
pub use adt::spec_pos_field;
pub use adt::spec_opt_name;
pub use adt::spec_struct_data;
pub use adt::spec_variant_data;
pub use adt::Enum;
pub use adt::EnumData;
pub use adt::EnumDataView;
pub use adt::Struct;
pub use adt::StructData;
pub use adt::StructDataView;
pub use adt::StructField;
pub use adt::StructFieldView;
pub use adt::VariantData;
pub use adt::VariantDataView;
pub use db::HirDatabase;
pub use db::TypeResolver;
pub use mock::spec_type_lookup;
pub use mock::unknown_enum_def;
pub use mock::unknown_struct_def;
pub use mock::MockDatabase;

pub use syntax::EnumDefSyntax;
pub use syntax::EnumVariantSyntax;
pub use syntax::NamedFieldSyntax;
pub use syntax::PosFieldSyntax;
pub use syntax::StructDefSyntax;
pub use syntax::StructFlavor;
pub use syntax::TypeRef;
pub use ty::Ty;

pub use ids::Cancelable;
pub use ids::Canceled;
pub use ids::DefId;
pub use ids::Module;
