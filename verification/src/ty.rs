use vstd::prelude::*;
use crate::ids::DefId;

verus! {

/// A resolved semantic type, as handed back by the type resolver.
///
/// Resolution itself is an external collaborator of this crate: the resolver
/// is total and never fails, mapping a missing or unresolvable type reference
/// to [`Ty::Unknown`]. Descriptors only carry these values; they never
/// interpret them.
#[derive(Clone, Copy, PartialEq, Eq, Debug, Structural)]
pub enum Ty {
    /// A primitive integer type.
    Int,
    /// The primitive boolean type.
    Bool,
    /// A user-defined algebraic data type, named by its definition site.
    Adt(DefId),
    /// The error/unknown type: the safe default for absent or unresolvable
    /// type references in malformed source.
    Unknown,
}

} // verus!
