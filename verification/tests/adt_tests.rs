use hir_adt::Cancelable;
use hir_adt::Canceled;
use hir_adt::DefId;
use hir_adt::Enum;
use hir_adt::EnumDefSyntax;
use hir_adt::EnumVariantSyntax;
use hir_adt::HirDatabase;
use hir_adt::MockDatabase;
use hir_adt::Module;
use hir_adt::NamedFieldSyntax;
use hir_adt::PosFieldSyntax;
use hir_adt::Struct;
use hir_adt::StructData;
use hir_adt::StructDefSyntax;
use hir_adt::StructFlavor;
use hir_adt::Ty;
use hir_adt::TypeRef;
use hir_adt::TypeResolver;

const STRUCT_ID: u32 = 1;
const ENUM_ID: u32 = 2;

fn type_ref(text: &str) -> Option<TypeRef> {
    Some(TypeRef { text: text.to_owned() })
}

fn named_field(name: Option<&str>, ty: Option<&str>) -> NamedFieldSyntax {
    NamedFieldSyntax {
        name: name.map(|n| n.to_owned()),
        type_ref: ty.and_then(type_ref),
    }
}

fn pos_field(ty: Option<&str>) -> PosFieldSyntax {
    PosFieldSyntax { type_ref: ty.and_then(type_ref) }
}

fn db_with(struct_def: StructDefSyntax, enum_def: EnumDefSyntax) -> MockDatabase {
    MockDatabase {
        module: Module(0),
        struct_id: DefId(STRUCT_ID),
        struct_def,
        enum_id: DefId(ENUM_ID),
        enum_def,
        types: vec![
            ("i32".to_owned(), Ty::Int),
            ("bool".to_owned(), Ty::Bool),
        ],
        cancel_on: None,
    }
}

fn empty_enum_def() -> EnumDefSyntax {
    EnumDefSyntax { name: None, variant_list: None }
}

fn point_def() -> StructDefSyntax {
    StructDefSyntax {
        name: Some("Point".to_owned()),
        flavor: StructFlavor::Named(vec![
            named_field(Some("x"), Some("i32")),
            named_field(Some("y"), Some("i32")),
        ]),
    }
}

#[test]
fn named_struct_descriptor() {
    let db = db_with(point_def(), empty_enum_def());
    let handle = Struct::new(DefId(STRUCT_ID));
    assert_eq!(handle.def_id(), DefId(STRUCT_ID));

    let name = handle.name(&db).unwrap();
    assert_eq!(name, Some("Point".to_owned()));

    let data = handle.struct_data(&db).unwrap();
    assert_eq!(data.name(), Some(&"Point".to_owned()));

    let shape = handle.variant_data(&db).unwrap();
    assert!(shape.is_struct());
    assert!(!shape.is_tuple());
    assert!(!shape.is_unit());

    let fields = shape.fields();
    assert_eq!(fields.len(), 2);
    assert_eq!(fields[0].name(), "x".to_owned());
    assert_eq!(fields[0].ty(), Ty::Int);
    assert_eq!(fields[1].name(), "y".to_owned());
    assert_eq!(fields[1].ty(), Ty::Int);

    assert_eq!(shape.get_field_ty("x"), Some(Ty::Int));
    assert_eq!(shape.get_field_ty("y"), Some(Ty::Int));
    assert_eq!(shape.get_field_ty("z"), None);
}

#[test]
fn positional_names_in_declaration_order() {
    let def = StructDefSyntax {
        name: Some("Triple".to_owned()),
        flavor: StructFlavor::Tuple(vec![
            pos_field(Some("i32")),
            pos_field(Some("bool")),
            pos_field(Some("i32")),
        ]),
    };
    let db = db_with(def, empty_enum_def());
    let shape = Struct::new(DefId(STRUCT_ID)).variant_data(&db).unwrap();
    assert!(shape.is_tuple());
    let names: Vec<String> = shape.fields().iter().map(|f| f.name()).collect();
    assert_eq!(names, vec!["0".to_owned(), "1".to_owned(), "2".to_owned()]);
    assert_eq!(shape.get_field_ty("1"), Some(Ty::Bool));
}

#[test]
fn positional_names_reach_two_digits() {
    let def = StructDefSyntax {
        name: None,
        flavor: StructFlavor::Tuple((0..12).map(|_| pos_field(Some("i32"))).collect()),
    };
    let db = db_with(def, empty_enum_def());
    let shape = Struct::new(DefId(STRUCT_ID)).variant_data(&db).unwrap();
    let fields = shape.fields();
    assert_eq!(fields.len(), 12);
    assert_eq!(fields[9].name(), "9".to_owned());
    assert_eq!(fields[10].name(), "10".to_owned());
    assert_eq!(fields[11].name(), "11".to_owned());
    assert_eq!(shape.get_field_ty("11"), Some(Ty::Int));
}

#[test]
fn sentinel_name_and_first_match_lookup() {
    let def = StructDefSyntax {
        name: Some("Broken".to_owned()),
        flavor: StructFlavor::Named(vec![
            named_field(None, Some("i32")),
            named_field(None, Some("bool")),
            named_field(Some("z"), Some("bool")),
        ]),
    };
    let db = db_with(def, empty_enum_def());
    let shape = Struct::new(DefId(STRUCT_ID)).variant_data(&db).unwrap();
    let fields = shape.fields();
    assert_eq!(fields[0].name(), "[error]".to_owned());
    assert_eq!(fields[1].name(), "[error]".to_owned());
    // Both colliding sentinel fields are present; lookup resolves to the
    // first in declaration order, consistently across calls.
    assert_eq!(shape.get_field_ty("[error]"), Some(Ty::Int));
    assert_eq!(shape.get_field_ty("[error]"), Some(Ty::Int));
    assert_eq!(shape.get_field_ty("z"), Some(Ty::Bool));
}

#[test]
fn unit_shape_is_empty_and_always_misses() {
    let def = StructDefSyntax { name: Some("Marker".to_owned()), flavor: StructFlavor::Unit };
    let db = db_with(def, empty_enum_def());
    let shape = Struct::new(DefId(STRUCT_ID)).variant_data(&db).unwrap();
    assert!(shape.is_unit());
    assert!(!shape.is_struct());
    assert!(!shape.is_tuple());
    assert!(shape.fields().is_empty());
    assert_eq!(shape.get_field_ty("anything"), None);
    assert_eq!(shape.get_field_ty("[error]"), None);
    assert_eq!(shape.get_field_ty(""), None);
}

fn abc_enum_def() -> EnumDefSyntax {
    EnumDefSyntax {
        name: Some("Shape".to_owned()),
        variant_list: Some(vec![
            EnumVariantSyntax { name: Some("A".to_owned()), flavor: StructFlavor::Unit },
            EnumVariantSyntax {
                name: Some("B".to_owned()),
                flavor: StructFlavor::Tuple(vec![pos_field(Some("i32"))]),
            },
            EnumVariantSyntax {
                name: Some("C".to_owned()),
                flavor: StructFlavor::Named(vec![named_field(Some("z"), Some("bool"))]),
            },
        ]),
    }
}

#[test]
fn enum_variants_keep_declaration_order() {
    let db = db_with(point_def(), abc_enum_def());
    let handle = Enum::new(DefId(ENUM_ID));
    assert_eq!(handle.def_id(), DefId(ENUM_ID));
    assert_eq!(handle.name(&db).unwrap(), Some("Shape".to_owned()));

    let data = handle.enum_data(&db).unwrap();
    let names: Vec<String> = data.variants().iter().map(|(n, _)| n.clone()).collect();
    assert_eq!(names, vec!["A".to_owned(), "B".to_owned(), "C".to_owned()]);
}

#[test]
fn enum_variant_shapes_follow_each_declaration() {
    let db = db_with(point_def(), abc_enum_def());
    let data = Enum::new(DefId(ENUM_ID)).enum_data(&db).unwrap();
    let variants = data.variants();
    assert_eq!(variants.len(), 3);

    assert!(variants[0].1.is_unit());
    assert!(variants[0].1.fields().is_empty());

    assert!(variants[1].1.is_tuple());
    assert_eq!(variants[1].1.fields().len(), 1);
    assert_eq!(variants[1].1.fields()[0].name(), "0".to_owned());
    assert_eq!(variants[1].1.fields()[0].ty(), Ty::Int);

    assert!(variants[2].1.is_struct());
    assert_eq!(variants[2].1.fields().len(), 1);
    assert_eq!(variants[2].1.fields()[0].name(), "z".to_owned());
    assert_eq!(variants[2].1.fields()[0].ty(), Ty::Bool);
}

#[test]
fn repeated_queries_yield_equal_descriptors() {
    let db = db_with(point_def(), abc_enum_def());
    let first = db.struct_data(DefId(STRUCT_ID)).unwrap();
    let second = db.struct_data(DefId(STRUCT_ID)).unwrap();
    assert_eq!(*first, *second);

    let e_first = db.enum_data(DefId(ENUM_ID)).unwrap();
    let e_second = db.enum_data(DefId(ENUM_ID)).unwrap();
    assert_eq!(*e_first, *e_second);
}

#[test]
fn repeated_direct_constructions_yield_equal_descriptors() {
    let db = db_with(point_def(), empty_enum_def());
    let def = point_def();
    let first: Cancelable<StructData> = StructData::new(&db, Module(0), &def);
    let second: Cancelable<StructData> = StructData::new(&db, Module(0), &def);
    assert_eq!(first.unwrap(), second.unwrap());
}

#[test]
fn cancellation_aborts_the_whole_struct_query() {
    let def = StructDefSyntax {
        name: Some("Wide".to_owned()),
        flavor: StructFlavor::Named(vec![
            named_field(Some("a"), Some("i32")),
            named_field(Some("b"), Some("i32")),
            named_field(Some("c"), Some("stale")),
            named_field(Some("d"), Some("i32")),
            named_field(Some("e"), Some("i32")),
        ]),
    };
    let mut db = db_with(def, abc_enum_def());
    // The first two fields resolve; the third raises cancellation. The query
    // yields only the cancellation outcome, never a two-field descriptor.
    db.cancel_on = Some("stale".to_owned());
    let handle = Struct::new(DefId(STRUCT_ID));
    assert_eq!(handle.struct_data(&db), Err(Canceled));
    assert_eq!(handle.variant_data(&db), Err(Canceled));
    assert_eq!(handle.name(&db), Err(Canceled));

    // Once the source settles, the retried query succeeds from scratch.
    db.cancel_on = None;
    let shape = handle.variant_data(&db).unwrap();
    assert_eq!(shape.fields().len(), 5);
    assert_eq!(shape.get_field_ty("c"), Some(Ty::Unknown));
}

#[test]
fn cancellation_propagates_through_enum_queries() {
    let mut db = db_with(point_def(), abc_enum_def());
    db.cancel_on = Some("bool".to_owned());
    let handle = Enum::new(DefId(ENUM_ID));
    assert_eq!(handle.enum_data(&db), Err(Canceled));
    assert_eq!(handle.name(&db), Err(Canceled));
}

#[test]
fn cancellation_surfaces_from_the_resolver() {
    let mut db = db_with(point_def(), empty_enum_def());
    db.cancel_on = Some("bool".to_owned());
    assert_eq!(db.resolve_type(Module(0), &type_ref("bool")), Err(Canceled));
    assert_eq!(db.resolve_type(Module(0), &type_ref("i32")), Ok(Ty::Int));
}

#[test]
fn malformed_types_degrade_to_unknown() {
    let def = StructDefSyntax {
        name: Some("Partial".to_owned()),
        flavor: StructFlavor::Named(vec![
            named_field(Some("x"), None),
            named_field(Some("y"), Some("NoSuchType")),
        ]),
    };
    let db = db_with(def, empty_enum_def());
    let shape = Struct::new(DefId(STRUCT_ID)).variant_data(&db).unwrap();
    assert_eq!(shape.get_field_ty("x"), Some(Ty::Unknown));
    assert_eq!(shape.get_field_ty("y"), Some(Ty::Unknown));
}

#[test]
fn anonymous_struct_has_no_name() {
    let def = StructDefSyntax { name: None, flavor: StructFlavor::Unit };
    let db = db_with(def, empty_enum_def());
    let handle = Struct::new(DefId(STRUCT_ID));
    assert_eq!(handle.name(&db).unwrap(), None);
    assert_eq!(handle.struct_data(&db).unwrap().name(), None);
}

#[test]
fn enum_without_variant_list_is_empty() {
    let def = EnumDefSyntax { name: Some("Forward".to_owned()), variant_list: None };
    let db = db_with(point_def(), def);
    let data = Enum::new(DefId(ENUM_ID)).enum_data(&db).unwrap();
    assert_eq!(data.name(), Some(&"Forward".to_owned()));
    assert!(data.variants().is_empty());
}

#[test]
fn unnamed_enum_variant_gets_sentinel_name() {
    let def = EnumDefSyntax {
        name: Some("Odd".to_owned()),
        variant_list: Some(vec![
            EnumVariantSyntax { name: None, flavor: StructFlavor::Unit },
            EnumVariantSyntax { name: Some("Named".to_owned()), flavor: StructFlavor::Unit },
        ]),
    };
    let db = db_with(point_def(), def);
    let data = Enum::new(DefId(ENUM_ID)).enum_data(&db).unwrap();
    assert_eq!(data.variants()[0].0, "[error]".to_owned());
    assert_eq!(data.variants()[1].0, "Named".to_owned());
}

#[test]
fn unknown_definition_site_serves_the_degraded_default() {
    let db = db_with(point_def(), abc_enum_def());
    let stranger = Struct::new(DefId(99));
    assert_eq!(stranger.name(&db).unwrap(), None);
    let shape = stranger.variant_data(&db).unwrap();
    assert!(shape.is_unit());

    let stranger_enum = Enum::new(DefId(98));
    assert_eq!(stranger_enum.name(&db).unwrap(), None);
    assert!(stranger_enum.enum_data(&db).unwrap().variants().is_empty());
}

#[test]
fn shared_shape_is_one_allocation() {
    let db = db_with(point_def(), empty_enum_def());
    let handle = Struct::new(DefId(STRUCT_ID));
    let data = handle.struct_data(&db).unwrap();
    let shape = handle.variant_data(&db).unwrap();
    // The handle's shape accessor shares the descriptor's own shape value.
    assert_eq!(*data.variant_data().as_ref(), *shape.as_ref());
}
