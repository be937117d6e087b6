use vstd::prelude::*;
use vstd::string::StringExecFns;
use std::sync::Arc;
use crate::db::HirDatabase;
use crate::db::TypeResolver;
use crate::ids::Cancelable;
use crate::ids::DefId;
use crate::ids::Module;
use crate::syntax::EnumDefSyntax;
use crate::syntax::EnumVariantSyntax;
use crate::syntax::NamedFieldSyntax;
use crate::syntax::PosFieldSyntax;
use crate::syntax::StructDefSyntax;
use crate::syntax::StructFlavor;
use crate::syntax::TypeRef;
use crate::ty::Ty;

verus! {

// ---------------------------------------------------------------------------
// Field names: the positional scheme and the sentinel for malformed source.
// ---------------------------------------------------------------------------
/// The reserved placeholder substituted when source lacks a parsable
/// identifier. It may collide with declared names; lookup stays first-match.
pub open spec fn sentinel_name() -> Seq<char> {
    "[error]"@
}

/// The character for one decimal digit.
pub open spec fn digit_char(d: nat) -> char {
    if d == 0 {
        '0'
    } else if d == 1 {
        '1'
    } else if d == 2 {
        '2'
    } else if d == 3 {
        '3'
    } else if d == 4 {
        '4'
    } else if d == 5 {
        '5'
    } else if d == 6 {
        '6'
    } else if d == 7 {
        '7'
    } else if d == 8 {
        '8'
    } else {
        '9'
    }
}

/// The name synthesized for a positional field: the decimal spelling of its
/// zero-based declaration index, making named and positional lookup uniform.
pub open spec fn positional_name(n: nat) -> Seq<char>
    decreases n,
{
    if n < 10 {
        seq![digit_char(n)]
    } else {
        positional_name(n / 10).push(digit_char(n % 10))
    }
}

/// A fresh owned copy of the sentinel name.
fn sentinel_string() -> (s: String)
    ensures
        s@ == sentinel_name(),
{
    "[error]".to_owned()
}

/// The literal for one decimal digit.
fn digit_str(d: usize) -> (r: &'static str)
    requires
        d < 10,
    ensures
        r@ == seq![digit_char(d as nat)],
{
    let r: &'static str = if d == 0 {
        "0"
    } else if d == 1 {
        "1"
    } else if d == 2 {
        "2"
    } else if d == 3 {
        "3"
    } else if d == 4 {
        "4"
    } else if d == 5 {
        "5"
    } else if d == 6 {
        "6"
    } else if d == 7 {
        "7"
    } else if d == 8 {
        "8"
    } else {
        "9"
    };
    proof {
        reveal_strlit("0");
        reveal_strlit("1");
        reveal_strlit("2");
        reveal_strlit("3");
        reveal_strlit("4");
        reveal_strlit("5");
        reveal_strlit("6");
        reveal_strlit("7");
        reveal_strlit("8");
        reveal_strlit("9");
        assert(r@ =~= seq![digit_char(d as nat)]);
    }
    r
}

/// The decimal spelling of a positional field's index.
fn positional_field_name(i: usize) -> (s: String)
    ensures
        s@ == positional_name(i as nat),
    decreases i,
{
    if i < 10 {
        digit_str(i).to_owned()
    } else {
        let mut s = positional_field_name(i / 10);
        s.append(digit_str(i % 10));
        proof {
            assert(s@ =~= positional_name(i as nat));
        }
        s
    }
}

// ---------------------------------------------------------------------------
// Field model.
// ---------------------------------------------------------------------------
/// A single field of an enum variant or struct.
#[derive(Clone, PartialEq, Eq, Debug)]
pub struct StructField {
    name: String,
    ty: Ty,
}

/// Mathematical model of a field: its name and resolved type.
pub struct StructFieldView {
    pub name: Seq<char>,
    pub ty: Ty,
}

impl View for StructField {
    type V = StructFieldView;

    closed spec fn view(&self) -> StructFieldView {
        StructFieldView { name: self.name@, ty: self.ty }
    }
}

impl StructField {
    pub fn name(&self) -> (r: String)
        ensures
            r@ == self@.name,
    {
        self.name.clone()
    }

    pub fn ty(&self) -> (r: Ty)
        ensures
            r == self@.ty,
    {
        self.ty
    }
}

// ---------------------------------------------------------------------------
// Variant shape model.
// ---------------------------------------------------------------------------
/// Fields of an enum variant or struct: named fields, positional fields, or
/// no fields, with the field list in declaration order.
#[derive(Clone, PartialEq, Eq, Debug)]
pub enum VariantData {
    Struct(Vec<StructField>),
    Tuple(Vec<StructField>),
    Unit,
}

/// Mathematical model of a variant shape.
pub enum VariantDataView {
    Struct(Seq<StructFieldView>),
    Tuple(Seq<StructFieldView>),
    Unit,
}

impl View for VariantData {
    type V = VariantDataView;

    open spec fn view(&self) -> VariantDataView {
        match self {
            VariantData::Struct(fields) => VariantDataView::Struct(
                fields@.map_values(|f: StructField| f@),
            ),
            VariantData::Tuple(fields) => VariantDataView::Tuple(
                fields@.map_values(|f: StructField| f@),
            ),
            VariantData::Unit => VariantDataView::Unit,
        }
    }
}

impl VariantDataView {
    /// The field list of a shape; empty for the no-fields shape.
    pub open spec fn fields(self) -> Seq<StructFieldView> {
        match self {
            VariantDataView::Struct(fields) => fields,
            VariantDataView::Tuple(fields) => fields,
            VariantDataView::Unit => Seq::empty(),
        }
    }
}

/// First-match lookup of a field's resolved type by name, in declaration
/// order; `None` when no field carries the name.
pub open spec fn spec_field_lookup(fields: Seq<StructFieldView>, name: Seq<char>) -> Option<Ty>
    decreases fields.len(),
{
    if fields.len() == 0 {
        None
    } else if fields[0].name == name {
        Some(fields[0].ty)
    } else {
        spec_field_lookup(fields.drop_first(), name)
    }
}

// ---------------------------------------------------------------------------
// Construction: the pure function a descriptor is the value of, over the
// resolver state the engine models (see `TypeResolver::resolver`).
// ---------------------------------------------------------------------------
/// The field a positional declaration at index `idx` constructs: the decimal
/// spelling of the index, and whatever the resolver yields for its type.
pub open spec fn spec_pos_field(
    resolve: spec_fn(Module, Option<TypeRef>) -> Ty,
    module: Module,
    idx: int,
    fd: PosFieldSyntax,
) -> StructFieldView {
    StructFieldView { name: positional_name(idx as nat), ty: resolve(module, fd.type_ref) }
}

/// The field a named declaration constructs: the declared identifier, or the
/// sentinel when the source lacks one.
pub open spec fn spec_named_field(
    resolve: spec_fn(Module, Option<TypeRef>) -> Ty,
    module: Module,
    fd: NamedFieldSyntax,
) -> StructFieldView {
    StructFieldView {
        name: match fd.name {
            Some(n) => n@,
            None => sentinel_name(),
        },
        ty: resolve(module, fd.type_ref),
    }
}

/// The variant shape a field-declaration flavor constructs, field order
/// exactly declaration order.
pub open spec fn spec_variant_data(
    resolve: spec_fn(Module, Option<TypeRef>) -> Ty,
    module: Module,
    flavor: StructFlavor,
) -> VariantDataView {
    match flavor {
        StructFlavor::Tuple(fields) => VariantDataView::Tuple(
            Seq::new(fields@.len(), |j: int| spec_pos_field(resolve, module, j, fields@[j])),
        ),
        StructFlavor::Named(fields) => VariantDataView::Struct(
            fields@.map_values(|fd: NamedFieldSyntax| spec_named_field(resolve, module, fd)),
        ),
        StructFlavor::Unit => VariantDataView::Unit,
    }
}

/// The struct descriptor a definition's syntax constructs.
pub open spec fn spec_struct_data(
    resolve: spec_fn(Module, Option<TypeRef>) -> Ty,
    module: Module,
    def: StructDefSyntax,
) -> StructDataView {
    StructDataView {
        name: spec_opt_name(def.name),
        variant_data: spec_variant_data(resolve, module, def.flavor),
    }
}

/// The enum descriptor a definition's syntax constructs: one (name, shape)
/// pair per declared variant, in declaration order; an absent variant list
/// constructs an empty list.
pub open spec fn spec_enum_data(
    resolve: spec_fn(Module, Option<TypeRef>) -> Ty,
    module: Module,
    def: EnumDefSyntax,
) -> EnumDataView {
    EnumDataView {
        name: spec_opt_name(def.name),
        variants: match def.variant_list {
            Some(vl) => vl@.map_values(
                |v: EnumVariantSyntax|
                    (spec_enum_variant_name(v.name), spec_variant_data(resolve, module, v.flavor)),
            ),
            None => Seq::empty(),
        },
    }
}

impl VariantData {
    /// Build the variant shape for one field-declaration flavor, resolving
    /// each declared field's type in declaration order.
    ///
    /// A success is the complete shape the modelled state prescribes; a
    /// cancellation raised by any resolution aborts the whole construction,
    /// so no partially filled shape ever escapes. A flavor that declares no
    /// field resolves nothing and therefore always succeeds.
    pub fn new<D: TypeResolver>(db: &D, module: Module, flavor: &StructFlavor) -> (r: Cancelable<
        VariantData,
    >)
        ensures
            r is Ok ==> (r->Ok_0)@ == spec_variant_data(db.resolver(), module, *flavor),
            flavor.spec_field_count() == 0 ==> r is Ok,
    {
        match flavor {
            StructFlavor::Tuple(fl) => {
                let mut fields: Vec<StructField> = Vec::new();
                let mut i: usize = 0;
                while i < fl.len()
                    invariant
                        *flavor == StructFlavor::Tuple(*fl),
                        i <= fl@.len(),
                        fields@.len() == i,
                        forall|j: int|
                            0 <= j < i ==> #[trigger] fields@[j]@ == spec_pos_field(
                                db.resolver(),
                                module,
                                j,
                                fl@[j],
                            ),
                    decreases fl@.len() - i,
                {
                    let ty = match db.resolve_type(module, &fl[i].type_ref) {
                        Ok(ty) => ty,
                        Err(c) => { return Err(c); },
                    };
                    let name = positional_field_name(i);
                    fields.push(StructField { name, ty });
                    i += 1;
                }
                proof {
                    assert(fields@.map_values(|f: StructField| f@) =~= Seq::new(
                        fl@.len(),
                        |j: int| spec_pos_field(db.resolver(), module, j, fl@[j]),
                    ));
                }
                Ok(VariantData::Tuple(fields))
            },
            StructFlavor::Named(fl) => {
                let mut fields: Vec<StructField> = Vec::new();
                let mut i: usize = 0;
                while i < fl.len()
                    invariant
                        *flavor == StructFlavor::Named(*fl),
                        i <= fl@.len(),
                        fields@.len() == i,
                        forall|j: int|
                            0 <= j < i ==> #[trigger] fields@[j]@ == spec_named_field(
                                db.resolver(),
                                module,
                                fl@[j],
                            ),
                    decreases fl@.len() - i,
                {
                    let ty = match db.resolve_type(module, &fl[i].type_ref) {
                        Ok(ty) => ty,
                        Err(c) => { return Err(c); },
                    };
                    let name = match &fl[i].name {
                        Some(n) => n.clone(),
                        None => sentinel_string(),
                    };
                    fields.push(StructField { name, ty });
                    i += 1;
                }
                proof {
                    assert(fields@.map_values(|f: StructField| f@) =~= fl@.map_values(
                        |fd: NamedFieldSyntax| spec_named_field(db.resolver(), module, fd),
                    ));
                }
                Ok(VariantData::Struct(fields))
            },
            StructFlavor::Unit => Ok(VariantData::Unit),
        }
    }

    /// First-match lookup of a field's resolved type by name; misses on the
    /// no-fields shape and on names no field carries. Deliberately a linear
    /// scan: field counts are small, an index would buy nothing.
    pub fn get_field_ty(&self, field_name: &str) -> (r: Option<Ty>)
        ensures
            r == spec_field_lookup(self@.fields(), field_name@),
    {
        match self {
            VariantData::Struct(fields) => lookup_in(fields, field_name),
            VariantData::Tuple(fields) => lookup_in(fields, field_name),
            VariantData::Unit => None,
        }
    }

    /// The field list in declaration order; empty for the no-fields shape.
    pub fn fields(&self) -> (r: &[StructField])
        ensures
            r@.map_values(|f: StructField| f@) == self@.fields(),
    {
        let r: &[StructField] = match self {
            VariantData::Struct(fields) => fields.as_slice(),
            VariantData::Tuple(fields) => fields.as_slice(),
            VariantData::Unit => &[],
        };
        proof {
            assert(r@.map_values(|f: StructField| f@) =~= self@.fields());
        }
        r
    }

    /// Whether the shape is named fields.
    pub fn is_struct(&self) -> (r: bool)
        ensures
            r == (self@ is Struct),
    {
        match self {
            VariantData::Struct(..) => true,
            _ => false,
        }
    }

    /// Whether the shape is positional fields.
    pub fn is_tuple(&self) -> (r: bool)
        ensures
            r == (self@ is Tuple),
    {
        match self {
            VariantData::Tuple(..) => true,
            _ => false,
        }
    }

    /// Whether the shape has no fields.
    pub fn is_unit(&self) -> (r: bool)
        ensures
            r == (self@ is Unit),
    {
        match self {
            VariantData::Unit => true,
            _ => false,
        }
    }
}

/// Linear first-match scan over a field list.
fn lookup_in(fields: &Vec<StructField>, field_name: &str) -> (r: Option<Ty>)
    ensures
        r == spec_field_lookup(fields@.map_values(|f: StructField| f@), field_name@),
{
    let ghost fv = fields@.map_values(|f: StructField| f@);
    let key: String = field_name.to_owned();
    proof {
        assert(fv.skip(0) =~= fv);
    }
    let mut i: usize = 0;
    while i < fields.len()
        invariant
            i <= fields@.len(),
            fv == fields@.map_values(|f: StructField| f@),
            key@ == field_name@,
            spec_field_lookup(fv, field_name@) == spec_field_lookup(
                fv.skip(i as int),
                field_name@,
            ),
        decreases fields@.len() - i,
    {
        if fields[i].name == key {
            proof {
                assert(fv.skip(i as int)[0] == fv[i as int]);
            }
            return Some(fields[i].ty);
        }
        proof {
            assert(fv.skip(i as int).drop_first() =~= fv.skip(i as int + 1));
        }
        i += 1;
    }
    proof {
        assert(fv.skip(fields@.len() as int) =~= Seq::<StructFieldView>::empty());
    }
    None
}

// ---------------------------------------------------------------------------
// Struct and enum descriptors.
// ---------------------------------------------------------------------------
/// The declared name a definition constructs: `None` when the source is
/// anonymous or malformed.
pub open spec fn spec_opt_name(name: Option<String>) -> Option<Seq<char>> {
    match name {
        Some(n) => Some(n@),
        None => None,
    }
}

/// The name an enum variant constructs: the declared identifier, or the
/// sentinel when the source lacks one.
pub open spec fn spec_enum_variant_name(name: Option<String>) -> Seq<char> {
    match name {
        Some(n) => n@,
        None => sentinel_name(),
    }
}

/// Immutable, shared descriptor of one struct definition: its optional
/// declared name and its variant shape.
#[derive(Clone, PartialEq, Eq, Debug)]
pub struct StructData {
    name: Option<String>,
    variant_data: Arc<VariantData>,
}

/// Mathematical model of a struct descriptor.
pub struct StructDataView {
    pub name: Option<Seq<char>>,
    pub variant_data: VariantDataView,
}

impl View for StructData {
    type V = StructDataView;

    closed spec fn view(&self) -> StructDataView {
        StructDataView { name: spec_opt_name(self.name), variant_data: self.variant_data@ }
    }
}

impl StructData {
    /// Build the descriptor for one struct definition. A success is the
    /// complete descriptor the modelled state prescribes; cancellation while
    /// resolving any field aborts the whole construction. A definition with
    /// no fields always succeeds.
    pub fn new<D: TypeResolver>(db: &D, module: Module, struct_def: &StructDefSyntax) -> (r:
        Cancelable<StructData>)
        ensures
            r is Ok ==> (r->Ok_0)@ == spec_struct_data(db.resolver(), module, *struct_def),
            struct_def.flavor.spec_field_count() == 0 ==> r is Ok,
    {
        let name = match &struct_def.name {
            Some(n) => Some(n.clone()),
            None => None,
        };
        let variant_data = match VariantData::new(db, module, &struct_def.flavor) {
            Ok(v) => v,
            Err(c) => { return Err(c); },
        };
        Ok(StructData { name, variant_data: Arc::new(variant_data) })
    }

    /// The declared name, if the source has one.
    pub fn name(&self) -> (r: Option<&String>)
        ensures
            r is Some <==> self@.name is Some,
            r is Some ==> (r->Some_0)@ == self@.name->Some_0,
    {
        self.name.as_ref()
    }

    /// The shared variant shape.
    pub fn variant_data(&self) -> (r: &Arc<VariantData>)
        ensures
            r@ == self@.variant_data,
    {
        &self.variant_data
    }
}

/// Immutable, shared descriptor of one enum definition: its optional
/// declared name and one (name, shape) pair per variant, in declaration
/// order. Variant names need not be unique: malformed source may repeat or
/// omit them.
#[derive(Clone, PartialEq, Eq, Debug)]
pub struct EnumData {
    name: Option<String>,
    variants: Vec<(String, Arc<VariantData>)>,
}

/// Mathematical model of an enum descriptor.
pub struct EnumDataView {
    pub name: Option<Seq<char>>,
    pub variants: Seq<(Seq<char>, VariantDataView)>,
}

impl View for EnumData {
    type V = EnumDataView;

    closed spec fn view(&self) -> EnumDataView {
        EnumDataView {
            name: spec_opt_name(self.name),
            variants: self.variants@.map_values(
                |p: (String, Arc<VariantData>)| (p.0@, p.1@),
            ),
        }
    }
}

impl EnumData {
    /// Build the descriptor for one enum definition: each declared variant's
    /// name (sentinel when missing) and shape, in declaration order; an
    /// absent variant list yields an empty list. A success is the complete
    /// descriptor; cancellation while resolving any field of any variant
    /// aborts the whole construction. A definition whose variants declare no
    /// field — in particular one without a variant list — always succeeds.
    pub fn new<D: TypeResolver>(db: &D, module: Module, enum_def: &EnumDefSyntax) -> (r: Cancelable<
        EnumData,
    >)
        ensures
            r is Ok ==> (r->Ok_0)@ == spec_enum_data(db.resolver(), module, *enum_def),
            enum_def.variant_list is None ==> r is Ok,
            (enum_def.variant_list matches Some(vl) && (forall|j: int|
                0 <= j < vl@.len() ==> (#[trigger] vl@[j].flavor).spec_field_count() == 0))
                ==> r is Ok,
    {
        let name = match &enum_def.name {
            Some(n) => Some(n.clone()),
            None => None,
        };
        let variants: Vec<(String, Arc<VariantData>)> = match &enum_def.variant_list {
            Some(vl) => {
                let mut acc: Vec<(String, Arc<VariantData>)> = Vec::new();
                let mut i: usize = 0;
                while i < vl.len()
                    invariant
                        enum_def.variant_list == Some(*vl),
                        i <= vl@.len(),
                        acc@.len() == i,
                        forall|j: int|
                            0 <= j < i ==> (#[trigger] acc@[j]).0@ == spec_enum_variant_name(
                                vl@[j].name,
                            ) && acc@[j].1@ == spec_variant_data(db.resolver(), module, vl@[j].flavor),
                    decreases vl@.len() - i,
                {
                    let vname = match &vl[i].name {
                        Some(n) => n.clone(),
                        None => sentinel_string(),
                    };
                    let vdata = match VariantData::new(db, module, &vl[i].flavor) {
                        Ok(v) => v,
                        Err(c) => { return Err(c); },
                    };
                    acc.push((vname, Arc::new(vdata)));
                    i += 1;
                }
                acc
            },
            None => Vec::new(),
        };
        proof {
            assert((EnumData { name, variants })@.variants =~= spec_enum_data(
                db.resolver(),
                module,
                *enum_def,
            ).variants);
        }
        Ok(EnumData { name, variants })
    }

    /// The declared name, if the source has one.
    pub fn name(&self) -> (r: Option<&String>)
        ensures
            r is Some <==> self@.name is Some,
            r is Some ==> (r->Some_0)@ == self@.name->Some_0,
    {
        self.name.as_ref()
    }

    /// The (name, shape) pairs, in declaration order.
    pub fn variants(&self) -> (r: &[(String, Arc<VariantData>)])
        ensures
            r@.map_values(|p: (String, Arc<VariantData>)| (p.0@, p.1@)) == self@.variants,
    {
        self.variants.as_slice()
    }
}

// ---------------------------------------------------------------------------
// Definition handles: thin, copyable proxies over an identifier.
// ---------------------------------------------------------------------------
/// Relies on `std::sync::Arc::clone`: the returned handle shares the same
/// allocation as the argument, so it carries the same value.
#[verifier::external_body]
fn arc_clone<T>(a: &Arc<T>) -> (r: Arc<T>)
    ensures
        r == *a,
{
    Arc::clone(a)
}

/// Handle for one struct definition: carries only the identifier and fetches
/// every answer from the query engine, propagating cancellation unchanged.
#[derive(Clone, Copy, PartialEq, Eq, Hash, Debug, Structural)]
pub struct Struct {
    def_id: DefId,
}

impl View for Struct {
    type V = DefId;

    closed spec fn view(&self) -> DefId {
        self.def_id
    }
}

impl Struct {
    pub fn new(def_id: DefId) -> (r: Struct)
        ensures
            r@ == def_id,
    {
        Struct { def_id }
    }

    pub fn def_id(&self) -> (r: DefId)
        ensures
            r == self@,
    {
        self.def_id
    }

    /// The definition's variant shape, shared with the cached descriptor.
    pub fn variant_data<D: HirDatabase>(&self, db: &D) -> (r: Cancelable<Arc<VariantData>>)
        ensures
            r is Ok ==> (r->Ok_0)@ == spec_struct_data(
                db.resolver(),
                db.module_of(self@),
                db.struct_def_syntax(self@),
            ).variant_data,
    {
        match db.struct_data(self.def_id) {
            Ok(sd) => Ok(arc_clone(sd.variant_data())),
            Err(c) => Err(c),
        }
    }

    /// The definition's full cached descriptor.
    pub fn struct_data<D: HirDatabase>(&self, db: &D) -> (r: Cancelable<Arc<StructData>>)
        ensures
            r is Ok ==> (r->Ok_0)@ == spec_struct_data(
                db.resolver(),
                db.module_of(self@),
                db.struct_def_syntax(self@),
            ),
    {
        db.struct_data(self.def_id)
    }

    /// The definition's declared name, if the source has one.
    pub fn name<D: HirDatabase>(&self, db: &D) -> (r: Cancelable<Option<String>>)
        ensures
            r is Ok ==> spec_opt_name(r->Ok_0) == spec_struct_data(
                db.resolver(),
                db.module_of(self@),
                db.struct_def_syntax(self@),
            ).name,
    {
        match db.struct_data(self.def_id) {
            Ok(sd) => Ok(
                match sd.name() {
                    Some(n) => Some(n.clone()),
                    None => None,
                },
            ),
            Err(c) => Err(c),
        }
    }
}

/// Handle for one enum definition: carries only the identifier and fetches
/// every answer from the query engine, propagating cancellation unchanged.
#[derive(Clone, Copy, PartialEq, Eq, Hash, Debug, Structural)]
pub struct Enum {
    def_id: DefId,
}

impl View for Enum {
    type V = DefId;

    closed spec fn view(&self) -> DefId {
        self.def_id
    }
}

impl Enum {
    pub fn new(def_id: DefId) -> (r: Enum)
        ensures
            r@ == def_id,
    {
        Enum { def_id }
    }

    pub fn def_id(&self) -> (r: DefId)
        ensures
            r == self@,
    {
        self.def_id
    }

    /// The definition's full cached descriptor.
    pub fn enum_data<D: HirDatabase>(&self, db: &D) -> (r: Cancelable<Arc<EnumData>>)
        ensures
            r is Ok ==> (r->Ok_0)@ == spec_enum_data(
                db.resolver(),
                db.module_of(self@),
                db.enum_def_syntax(self@),
            ),
    {
        db.enum_data(self.def_id)
    }

    /// The definition's declared name, if the source has one.
    pub fn name<D: HirDatabase>(&self, db: &D) -> (r: Cancelable<Option<String>>)
        ensures
            r is Ok ==> spec_opt_name(r->Ok_0) == spec_enum_data(
                db.resolver(),
                db.module_of(self@),
                db.enum_def_syntax(self@),
            ).name,
    {
        match db.enum_data(self.def_id) {
            Ok(ed) => Ok(
                match ed.name() {
                    Some(n) => Some(n.clone()),
                    None => None,
                },
            ),
            Err(c) => Err(c),
        }
    }
}


// ---------------------------------------------------------------------------
// Laws: what the construction and lookup model guarantees.
// ---------------------------------------------------------------------------
/// Idempotence of struct construction: the descriptor is a pure function of
/// the definition's syntax, its scope and the resolver state, so repeated
/// construction for the same identifier over unchanged source yields
/// structurally equal descriptors.
pub proof fn lemma_struct_construction_idempotent(
    resolve: spec_fn(Module, Option<TypeRef>) -> Ty,
    module: Module,
    def: StructDefSyntax,
    first: StructDataView,
    second: StructDataView,
)
    requires
        first == spec_struct_data(resolve, module, def),
        second == spec_struct_data(resolve, module, def),
    ensures
        first == second,
{
}

/// Idempotence of enum construction, as for structs.
pub proof fn lemma_enum_construction_idempotent(
    resolve: spec_fn(Module, Option<TypeRef>) -> Ty,
    module: Module,
    def: EnumDefSyntax,
    first: EnumDataView,
    second: EnumDataView,
)
    requires
        first == spec_enum_data(resolve, module, def),
        second == spec_enum_data(resolve, module, def),
    ensures
        first == second,
{
}

/// Order preservation for positional fields: a positional variant yields one
/// field per declared field, in declaration order, each named the decimal
/// spelling of its zero-based index.
pub proof fn lemma_positional_field_names(
    resolve: spec_fn(Module, Option<TypeRef>) -> Ty,
    module: Module,
    flavor: StructFlavor,
)
    requires
        flavor is Tuple,
    ensures
        spec_variant_data(resolve, module, flavor).fields().len() == flavor->Tuple_0@.len(),
        forall|i: int|
            0 <= i < flavor->Tuple_0@.len() ==> (#[trigger] spec_variant_data(
                resolve,
                module,
                flavor,
            ).fields()[i]).name == positional_name(i as nat),
{
}

/// A named field whose identifier the source lacks is constructed under the
/// reserved sentinel name, its type resolved like any other.
pub proof fn lemma_missing_name_gets_sentinel(
    resolve: spec_fn(Module, Option<TypeRef>) -> Ty,
    module: Module,
    fd: NamedFieldSyntax,
)
    requires
        fd.name is None,
    ensures
        spec_named_field(resolve, module, fd).name == sentinel_name(),
        spec_named_field(resolve, module, fd).ty == resolve(module, fd.type_ref),
{
}

/// Lookup by a name several fields carry — sentinel collisions included —
/// consistently returns the first such field's type, by declaration order.
pub proof fn lemma_lookup_returns_first_match(
    fields: Seq<StructFieldView>,
    name: Seq<char>,
    i: int,
)
    requires
        0 <= i < fields.len(),
        fields[i].name == name,
        forall|j: int| 0 <= j < i ==> (#[trigger] fields[j]).name != name,
    ensures
        spec_field_lookup(fields, name) == Some(fields[i].ty),
    decreases i,
{
    if i > 0 {
        let rest = fields.drop_first();
        assert(rest[i - 1] == fields[i]);
        assert forall|j: int| 0 <= j < i - 1 implies (#[trigger] rest[j]).name != name by {
            assert(rest[j] == fields[j + 1]);
        }
        lemma_lookup_returns_first_match(rest, name, i - 1);
    }
}

/// Lookup misses exactly when no field carries the name.
pub proof fn lemma_lookup_misses(fields: Seq<StructFieldView>, name: Seq<char>)
    requires
        forall|j: int| 0 <= j < fields.len() ==> (#[trigger] fields[j]).name != name,
    ensures
        spec_field_lookup(fields, name) is None,
    decreases fields.len(),
{
    if fields.len() > 0 {
        let rest = fields.drop_first();
        assert forall|j: int| 0 <= j < rest.len() implies (#[trigger] rest[j]).name != name by {
            assert(rest[j] == fields[j + 1]);
        }
        lemma_lookup_misses(rest, name);
    }
}

/// The no-fields shape has an empty field list, and lookup by any name on it
/// misses.
pub proof fn lemma_unit_shape_empty(shape: VariantDataView, name: Seq<char>)
    requires
        shape is Unit,
    ensures
        shape.fields().len() == 0,
        spec_field_lookup(shape.fields(), name) is None,
{
}

/// Enum variants keep declaration order: the descriptor lists exactly one
/// (name, shape) pair per declared variant, the i-th pair built from the
/// i-th declared variant, whatever each variant's own shape.
pub proof fn lemma_enum_variant_order(
    resolve: spec_fn(Module, Option<TypeRef>) -> Ty,
    module: Module,
    def: EnumDefSyntax,
)
    requires
        def.variant_list is Some,
    ensures
        spec_enum_data(resolve, module, def).variants.len() == def.variant_list->Some_0@.len(),
        forall|i: int|
            0 <= i < def.variant_list->Some_0@.len() ==> #[trigger] spec_enum_data(
                resolve,
                module,
                def,
            ).variants[i] == (
                spec_enum_variant_name(def.variant_list->Some_0@[i].name),
                spec_variant_data(resolve, module, def.variant_list->Some_0@[i].flavor),
            ),
{
}

/// Cancellation atomicity, seen from the model: every constructed shape is
/// complete, holding exactly one field per declared field. Construction
/// returns either this complete descriptor or the bare cancellation outcome,
/// so a partially resolved definition can never surface.
pub proof fn lemma_variant_shape_complete(
    resolve: spec_fn(Module, Option<TypeRef>) -> Ty,
    module: Module,
    flavor: StructFlavor,
)
    ensures
        spec_variant_data(resolve, module, flavor).fields().len() == flavor.spec_field_count(),
{
}

} // verus!
