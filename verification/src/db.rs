use vstd::prelude::*;
use std::sync::Arc;
use crate::adt::spec_enum_data;
use crate::adt::spec_struct_data;
use crate::adt::EnumData;
use crate::adt::StructData;
use crate::ids::Cancelable;
use crate::ids::DefId;
use crate::ids::Module;
use crate::syntax::EnumDefSyntax;
use crate::syntax::StructDefSyntax;
use crate::syntax::TypeRef;
use crate::ty::Ty;

verus! {

/// The external type resolver, as descriptor construction sees it.
///
/// `resolver` models the resolver's state; `resolve_type` either answers
/// exactly from that state or signals cancellation (`Err(Canceled)`) because
/// the computation went stale while the source changed. Nothing is promised
/// about when cancellation happens — the implementation decides it; this
/// crate only propagates it and never exposes a partial result.
pub trait TypeResolver: Sized {
    /// Model of the resolver's state: the semantic type it maps a type
    /// reference (or its absence) to inside a scope. Total: unresolvable
    /// input maps to an error/unknown type value rather than failing.
    spec fn resolver(&self) -> spec_fn(Module, Option<TypeRef>) -> Ty;

    /// Resolve one type reference. On success the value is exactly what the
    /// resolver's state prescribes; `Err` means the query went stale and the
    /// caller must abort and retry from scratch.
    fn resolve_type(&self, module: Module, type_ref: &Option<TypeRef>) -> (r: Cancelable<Ty>)
        ensures
            r is Ok ==> r->Ok_0 == (self.resolver())(module, *type_ref),
    ;
}

/// The incremental query engine a descriptor query runs against.
///
/// The uninterpreted spec functions model the state the engine serves a
/// query from: which definition syntax and lexical scope a definition site
/// carries, on top of the resolver state of [`TypeResolver`]. Over that
/// state, [`spec_struct_data`] and [`spec_enum_data`] define the descriptor
/// each definition constructs — a pure function of it, which is what lets
/// the engine cache one construction per identifier and share the immutable
/// result across readers. Cancellation propagates through the query methods
/// exactly as through `resolve_type`.
pub trait HirDatabase: TypeResolver {
    /// The struct definition syntax stored at a definition site.
    spec fn struct_def_syntax(&self, def_id: DefId) -> StructDefSyntax;

    /// The enum definition syntax stored at a definition site.
    spec fn enum_def_syntax(&self, def_id: DefId) -> EnumDefSyntax;

    /// The lexical scope a definition site lives in.
    spec fn module_of(&self, def_id: DefId) -> Module;

    /// The memoized struct descriptor for a definition site: on success,
    /// exactly the descriptor constructed from the stored syntax, scope and
    /// resolver state.
    fn struct_data(&self, def_id: DefId) -> (r: Cancelable<Arc<StructData>>)
        ensures
            r is Ok ==> (r->Ok_0)@ == spec_struct_data(
                self.resolver(),
                self.module_of(def_id),
                self.struct_def_syntax(def_id),
            ),
    ;

    /// The memoized enum descriptor for a definition site: on success,
    /// exactly the descriptor constructed from the stored syntax, scope and
    /// resolver state.
    fn enum_data(&self, def_id: DefId) -> (r: Cancelable<Arc<EnumData>>)
        ensures
            r is Ok ==> (r->Ok_0)@ == spec_enum_data(
                self.resolver(),
                self.module_of(def_id),
                self.enum_def_syntax(def_id),
            ),
    ;
}

} // verus!
