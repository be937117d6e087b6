use vstd::prelude::*;
use std::sync::Arc;
use crate::adt::EnumData;
use crate::adt::StructData;
use crate::db::HirDatabase;
use crate::db::TypeResolver;
use crate::ids::Cancelable;
use crate::ids::Canceled;
use crate::ids::DefId;
use crate::ids::Module;
use crate::syntax::EnumDefSyntax;
use crate::syntax::StructDefSyntax;
use crate::syntax::StructFlavor;
use crate::syntax::TypeRef;
use crate::ty::Ty;

verus! {

/// The struct definition served for a definition site the database holds no
/// definition at: anonymous, with no fields.
pub open spec fn unknown_struct_def() -> StructDefSyntax {
    StructDefSyntax { name: None, flavor: StructFlavor::Unit }
}

/// The enum definition served for a definition site the database holds no
/// definition at: anonymous, without a variant list.
pub open spec fn unknown_enum_def() -> EnumDefSyntax {
    EnumDefSyntax { name: None, variant_list: None }
}

/// First-match lookup in the mock resolver's table; anything the table does
/// not know resolves to the unknown type.
pub open spec fn spec_type_lookup(entries: Seq<(String, Ty)>, text: Seq<char>) -> Ty
    decreases entries.len(),
{
    if entries.len() == 0 {
        Ty::Unknown
    } else if entries[0].0@ == text {
        entries[0].1
    } else {
        spec_type_lookup(entries.drop_first(), text)
    }
}

/// A self-contained stand-in for the surrounding engine: it serves fixed
/// syntax and scope data, resolves type references through a fixed table,
/// and can simulate a query going stale by cancelling on one designated
/// type-reference text. It is the substitution point the
/// context-parameterized design exists for: every accessor of the
/// definition handles can be exercised against it.
pub struct MockDatabase {
    /// The one lexical scope every definition is served in.
    pub module: Module,
    /// The definition site the struct definition below is stored at.
    pub struct_id: DefId,
    /// The struct definition's syntax.
    pub struct_def: StructDefSyntax,
    /// The definition site the enum definition below is stored at.
    pub enum_id: DefId,
    /// The enum definition's syntax.
    pub enum_def: EnumDefSyntax,
    /// Resolver table, from type-reference text to resolved type; first
    /// match wins, any other text resolves to the unknown type.
    pub types: Vec<(String, Ty)>,
    /// When set, resolving a type reference with exactly this text signals
    /// cancellation, as if the source changed while the query ran.
    pub cancel_on: Option<String>,
}

impl MockDatabase {
    /// Linear first-match scan of the resolver table.
    fn lookup_type(&self, text: &String) -> (r: Ty)
        ensures
            r == spec_type_lookup(self.types@, text@),
    {
        let ghost tv = self.types@;
        proof {
            assert(tv.skip(0) =~= tv);
        }
        let mut i: usize = 0;
        while i < self.types.len()
            invariant
                i <= tv.len(),
                tv == self.types@,
                spec_type_lookup(tv, text@) == spec_type_lookup(tv.skip(i as int), text@),
            decreases tv.len() - i,
        {
            if self.types[i].0 == *text {
                return self.types[i].1;
            }
            proof {
                assert(tv.skip(i as int).drop_first() =~= tv.skip(i as int + 1));
            }
            i += 1;
        }
        proof {
            assert(tv.skip(tv.len() as int) =~= Seq::<(String, Ty)>::empty());
        }
        Ty::Unknown
    }
}

impl TypeResolver for MockDatabase {
    open spec fn resolver(&self) -> spec_fn(Module, Option<TypeRef>) -> Ty {
        |m: Module, tr: Option<TypeRef>|
            match tr {
                Some(t) => spec_type_lookup(self.types@, t.text@),
                None => Ty::Unknown,
            }
    }

    fn resolve_type(&self, module: Module, type_ref: &Option<TypeRef>) -> (r: Cancelable<Ty>) {
        if let Some(cancel) = &self.cancel_on {
            if let Some(t) = type_ref {
                if t.text == *cancel {
                    return Err(Canceled);
                }
            }
        }
        match type_ref {
            Some(t) => Ok(self.lookup_type(&t.text)),
            None => Ok(Ty::Unknown),
        }
    }
}

impl HirDatabase for MockDatabase {
    open spec fn struct_def_syntax(&self, def_id: DefId) -> StructDefSyntax {
        if def_id == self.struct_id {
            self.struct_def
        } else {
            unknown_struct_def()
        }
    }

    open spec fn enum_def_syntax(&self, def_id: DefId) -> EnumDefSyntax {
        if def_id == self.enum_id {
            self.enum_def
        } else {
            unknown_enum_def()
        }
    }

    open spec fn module_of(&self, def_id: DefId) -> Module {
        self.module
    }

    fn struct_data(&self, def_id: DefId) -> (r: Cancelable<Arc<StructData>>) {
        let data = if def_id == self.struct_id {
            StructData::new(self, self.module, &self.struct_def)
        } else {
            let unknown = StructDefSyntax { name: None, flavor: StructFlavor::Unit };
            StructData::new(self, self.module, &unknown)
        };
        match data {
            Ok(sd) => Ok(Arc::new(sd)),
            Err(c) => Err(c),
        }
    }

    fn enum_data(&self, def_id: DefId) -> (r: Cancelable<Arc<EnumData>>) {
        let data = if def_id == self.enum_id {
            EnumData::new(self, self.module, &self.enum_def)
        } else {
            let unknown = EnumDefSyntax { name: None, variant_list: None };
            EnumData::new(self, self.module, &unknown)
        };
        match data {
            Ok(ed) => Ok(Arc::new(ed)),
            Err(c) => Err(c),
        }
    }
}

} // verus!
