//! Tests of the schema synthesis engine on concrete descriptors.

use schematize::descriptor::{
    FieldDescriptor, GenericArgument, PathSegment, SegmentArguments, TypeData, TypeDescriptor,
    VariantDescriptor, VariantPayload,
};
use schematize::error::Error;
use schematize::maps::{map_enum, map_id, map_path, map_struct, map_tuple, map_ty, map_union};
use schematize::namespace::resolve;
use schematize::render::{decimal_string, render_ty, tuple_name};
use schematize::schema::{Deferred, SchemaValue};
use schematize::{derive_enum, derive_struct};

fn s(x: &str) -> String {
    x.to_string()
}

fn prim(name: &str) -> TypeDescriptor {
    TypeDescriptor::Primitive(s(name))
}

fn plain_seg(name: &str) -> PathSegment {
    PathSegment { name: s(name), arguments: SegmentArguments::Missing }
}

fn named(name: &str) -> TypeDescriptor {
    TypeDescriptor::Named(vec![plain_seg(name)])
}

fn generic_seg(name: &str, args: Vec<GenericArgument>) -> PathSegment {
    PathSegment { name: s(name), arguments: SegmentArguments::AngleBracketed(args) }
}

fn wrapped(wrapper: &str, t: TypeDescriptor) -> TypeDescriptor {
    TypeDescriptor::Named(vec![generic_seg(
        wrapper,
        vec![GenericArgument::TypeArgument(Box::new(t))],
    )])
}

fn field(name: &str, ty: TypeDescriptor) -> FieldDescriptor {
    FieldDescriptor { name: Some(s(name)), ty, excluded: false }
}

fn excluded_field(name: &str, ty: TypeDescriptor) -> FieldDescriptor {
    FieldDescriptor { name: Some(s(name)), ty, excluded: true }
}

fn unit_variant(name: &str) -> VariantDescriptor {
    VariantDescriptor { name: s(name), payload: VariantPayload::Unit, excluded: false }
}

fn call(path: &[&str], namespace: &str) -> SchemaValue {
    SchemaValue::Deferred(Deferred::Call {
        path: path.iter().map(|p| s(p)).collect(),
        namespace: s(namespace),
        parameter: None,
    })
}

#[test]
fn resolve_without_parent() {
    assert_eq!(resolve(&None, &s("Person")), s("Person"));
}

#[test]
fn resolve_with_parent() {
    assert_eq!(resolve(&Some(s("com.example")), &s("Person")), s("com.example.Person"));
}

#[test]
fn primitive_defers_with_current_namespace() {
    let r = map_ty(&s("N"), &prim("i32")).unwrap();
    assert_eq!(r, call(&["i32"], "N"));
}

#[test]
fn text_defers_as_string() {
    let r = map_ty(&s("N"), &TypeDescriptor::Text).unwrap();
    assert_eq!(r, call(&["String"], "N"));
}

#[test]
fn named_type_defers_with_current_namespace() {
    let r = map_ty(&s("app.Root"), &named("City")).unwrap();
    assert_eq!(r, call(&["City"], "app.Root"));
}

#[test]
fn map_id_builds_a_deferred_call() {
    assert_eq!(map_id(&s("N"), &s("City")), call(&["City"], "N"));
}

#[test]
fn indirection_is_transparent() {
    let inner = map_ty(&s("N"), &named("City")).unwrap();
    let boxed = map_ty(&s("N"), &wrapped("Box", named("City"))).unwrap();
    assert_eq!(boxed, inner);
}

#[test]
fn double_indirection_is_transparent() {
    let inner = map_ty(&s("N"), &prim("u32")).unwrap();
    let boxed = map_ty(&s("N"), &wrapped("Box", wrapped("Box", prim("u32")))).unwrap();
    assert_eq!(boxed, inner);
}

#[test]
fn list_wraps_in_array() {
    let r = map_ty(&s("N"), &wrapped("Vec", prim("i32"))).unwrap();
    assert_eq!(r, SchemaValue::Array(Box::new(call(&["i32"], "N"))));
}

#[test]
fn nested_lists_nest_arrays() {
    let r = map_ty(&s("N"), &wrapped("Vec", wrapped("Vec", prim("i32")))).unwrap();
    assert_eq!(
        r,
        SchemaValue::Array(Box::new(SchemaValue::Array(Box::new(call(&["i32"], "N")))))
    );
}

#[test]
fn fixed_array_wraps_in_array() {
    let r = map_ty(&s("N"), &TypeDescriptor::FixedArray(Box::new(prim("bool")))).unwrap();
    assert_eq!(r, SchemaValue::Array(Box::new(call(&["bool"], "N"))));
}

#[test]
fn optional_becomes_union_with_null() {
    let r = map_ty(&s("N"), &wrapped("Option", named("City"))).unwrap();
    assert_eq!(r, SchemaValue::Union(vec![SchemaValue::Null, call(&["City"], "N")]));
}

#[test]
fn unknown_generic_defers_with_parameter() {
    let r = map_ty(&s("N"), &wrapped("Wrapper", prim("i64"))).unwrap();
    match r {
        SchemaValue::Deferred(Deferred::Call { path, namespace, parameter }) => {
            assert_eq!(path, vec![s("Wrapper")]);
            assert_eq!(namespace, s("N"));
            assert_eq!(parameter, Some(Box::new(prim("i64"))));
        },
        other => panic!("expected a deferred call, got {:?}", other),
    }
}

#[test]
fn qualified_path_stays_opaque() {
    let d = TypeDescriptor::Named(vec![plain_seg("chrono"), plain_seg("DateTime")]);
    let r = map_ty(&s("N"), &d).unwrap();
    assert_eq!(
        r,
        SchemaValue::Deferred(Deferred::Opaque { path: vec![s("chrono"), s("DateTime")] })
    );
}

#[test]
fn empty_path_is_an_error() {
    let r = map_ty(&s("N"), &TypeDescriptor::Named(vec![]));
    assert_eq!(r, Err(Error::EmptyPath(s(""))));
}

#[test]
fn list_without_arguments_is_missing_args() {
    let d = TypeDescriptor::Named(vec![generic_seg("Vec", vec![])]);
    assert_eq!(map_ty(&s("N"), &d), Err(Error::MissingArgs(s("Vec<>"))));
}

#[test]
fn list_with_two_arguments_is_multiple_args() {
    let d = TypeDescriptor::Named(vec![generic_seg(
        "Vec",
        vec![
            GenericArgument::TypeArgument(Box::new(prim("i32"))),
            GenericArgument::TypeArgument(Box::new(named("U"))),
        ],
    )]);
    assert_eq!(map_ty(&s("N"), &d), Err(Error::MultipleArgs(s("Vec<i32,U>"))));
}

#[test]
fn non_type_argument_is_rejected() {
    let d = TypeDescriptor::Named(vec![generic_seg(
        "Box",
        vec![GenericArgument::NonType(s("'a"))],
    )]);
    assert_eq!(map_ty(&s("N"), &d), Err(Error::NonTypeGenericArgument(s("Box<'a>"))));
}

#[test]
fn bare_list_identifier_is_missing_angle_brackets() {
    assert_eq!(map_ty(&s("N"), &named("Vec")), Err(Error::MissingAngleBrackets(s("Vec"))));
}

#[test]
fn bare_option_and_box_identifiers_are_missing_angle_brackets() {
    assert_eq!(map_ty(&s("N"), &named("Option")), Err(Error::MissingAngleBrackets(s("Option"))));
    assert_eq!(map_ty(&s("N"), &named("Box")), Err(Error::MissingAngleBrackets(s("Box"))));
}

#[test]
fn errors_carry_messages() {
    let e = map_ty(&s("N"), &named("Vec")).unwrap_err();
    assert_eq!(e.text(), &s("Vec"));
    assert_eq!(e.message(), s("missing angle brackets: Vec"));
}

#[test]
fn tuple_round_trip() {
    let r = map_ty(&s("N"), &TypeDescriptor::Tuple(vec![prim("i32"), TypeDescriptor::Text]))
        .unwrap();
    match r {
        SchemaValue::Record(rec) => {
            assert_eq!(rec.name, s("Tuple(i32,String)"));
            assert_eq!(rec.namespace, s("N"));
            assert_eq!(rec.fields.len(), 2);
            assert_eq!(rec.fields[0].name, s("0"));
            assert_eq!(rec.fields[0].position, 0);
            assert_eq!(rec.fields[0].schema, call(&["i32"], "N"));
            assert_eq!(rec.fields[1].name, s("1"));
            assert_eq!(rec.fields[1].position, 1);
            assert_eq!(rec.fields[1].schema, call(&["String"], "N"));
            assert_eq!(rec.lookup, vec![(s("0"), 0), (s("1"), 1)]);
        },
        other => panic!("expected a record, got {:?}", other),
    }
}

#[test]
fn tuple_variant_namespace_appends_variant_name() {
    let r = map_tuple(&s("E"), Some(&s("V")), &vec![prim("i32")]).unwrap();
    assert_eq!(r.namespace, s("E.V"));
    assert_eq!(r.fields[0].schema, call(&["i32"], "E.V"));
}

#[test]
fn tuple_error_fails_fast() {
    let r = map_tuple(&s("N"), None, &vec![prim("i32"), named("Vec")]);
    assert_eq!(r.unwrap_err(), Error::MissingAngleBrackets(s("Vec")));
}

#[test]
fn decimal_names_go_past_nine() {
    assert_eq!(decimal_string(0), s("0"));
    assert_eq!(decimal_string(7), s("7"));
    assert_eq!(decimal_string(10), s("10"));
    assert_eq!(decimal_string(305), s("305"));
}

#[test]
fn render_shows_type_expressions() {
    assert_eq!(render_ty(&wrapped("Vec", prim("i32"))), s("Vec<i32>"));
    assert_eq!(render_ty(&TypeDescriptor::FixedArray(Box::new(prim("u32")))), s("[u32]"));
    assert_eq!(
        render_ty(&TypeDescriptor::Tuple(vec![prim("i32"), TypeDescriptor::Text])),
        s("(i32,String)")
    );
    assert_eq!(
        render_ty(&TypeDescriptor::Named(vec![plain_seg("a"), plain_seg("b")])),
        s("a::b")
    );
    assert_eq!(tuple_name(&vec![prim("f32"), prim("f64")]), s("Tuple(f32,f64)"));
}

#[test]
fn record_positions_skip_excluded_fields() {
    let fields = vec![
        field("id", prim("i64")),
        excluded_field("secret", TypeDescriptor::Text),
        field("name", TypeDescriptor::Text),
    ];
    let rec = map_struct(&s("User"), &s("app.User"), &fields).unwrap();
    assert_eq!(rec.name, s("User"));
    assert_eq!(rec.namespace, s("app.User"));
    assert_eq!(rec.fields.len(), 2);
    assert_eq!(rec.fields[0].name, s("id"));
    assert_eq!(rec.fields[0].position, 0);
    assert_eq!(rec.fields[1].name, s("name"));
    assert_eq!(rec.fields[1].position, 1);
    assert_eq!(rec.lookup, vec![(s("id"), 0), (s("name"), 1)]);
}

#[test]
fn excluding_a_field_never_shifts_siblings() {
    let with_excluded = vec![
        field("a", prim("i32")),
        excluded_field("gone", prim("i32")),
        field("b", prim("i32")),
    ];
    let without = vec![field("a", prim("i32")), field("b", prim("i32"))];
    assert_eq!(
        map_struct(&s("R"), &s("R"), &with_excluded),
        map_struct(&s("R"), &s("R"), &without)
    );
}

#[test]
fn unnamed_field_is_an_error() {
    let fields = vec![
        field("ok", prim("i32")),
        FieldDescriptor { name: None, ty: prim("u32"), excluded: false },
    ];
    let r = map_struct(&s("R"), &s("R"), &fields);
    assert_eq!(r.unwrap_err(), Error::NamedFieldMissingIdent(s("u32")));
}

#[test]
fn excluded_unnamed_field_is_skipped_not_an_error() {
    let fields = vec![
        field("ok", prim("i32")),
        FieldDescriptor { name: None, ty: prim("u32"), excluded: true },
    ];
    assert!(map_struct(&s("R"), &s("R"), &fields).is_ok());
}

#[test]
fn namespace_chains_through_field_names() {
    let fields = vec![field("addr", named("City"))];
    let r = derive_struct(&s("Person"), &Some(s("com.example")), &fields).unwrap();
    match r {
        SchemaValue::Record(rec) => {
            assert_eq!(rec.namespace, s("com.example.Person"));
            assert_eq!(rec.fields[0].schema, call(&["City"], "com.example.Person.addr"));
        },
        other => panic!("expected a record, got {:?}", other),
    }
}

#[test]
fn all_unit_enum_becomes_enumeration() {
    let variants = vec![unit_variant("A"), unit_variant("B"), unit_variant("C")];
    let r = derive_enum(&s("E"), &None, &variants).unwrap();
    match r {
        SchemaValue::Enum(e) => {
            assert_eq!(e.name, s("E"));
            assert_eq!(e.namespace, s("E"));
            assert_eq!(e.symbols, vec![s("A"), s("B"), s("C")]);
        },
        other => panic!("expected an enumeration, got {:?}", other),
    }
}

#[test]
fn one_non_unit_variant_forces_the_union() {
    let mut variants = vec![unit_variant("A"), unit_variant("B"), unit_variant("C")];
    variants.push(VariantDescriptor {
        name: s("D"),
        payload: VariantPayload::Tuple(vec![prim("i32")]),
        excluded: false,
    });
    let r = derive_enum(&s("E"), &None, &variants).unwrap();
    match r {
        SchemaValue::Union(branches) => {
            assert_eq!(branches.len(), 4);
            assert_eq!(branches[0], SchemaValue::Null);
            assert_eq!(branches[1], SchemaValue::Null);
            assert_eq!(branches[2], SchemaValue::Null);
            match &branches[3] {
                SchemaValue::Record(rec) => {
                    assert_eq!(rec.name, s("Tuple(i32)"));
                    assert_eq!(rec.namespace, s("E.D"));
                },
                other => panic!("expected a record branch, got {:?}", other),
            }
        },
        other => panic!("expected a union, got {:?}", other),
    }
}

#[test]
fn excluded_variant_contributes_nothing() {
    let variants = vec![
        unit_variant("A"),
        VariantDescriptor { name: s("Hidden"), payload: VariantPayload::Unit, excluded: true },
        unit_variant("B"),
    ];
    let e = map_enum(&s("E"), &None, &variants);
    assert_eq!(e.symbols, vec![s("A"), s("B")]);
}

#[test]
fn struct_variant_becomes_named_record_branch() {
    let variants = vec![
        unit_variant("None"),
        VariantDescriptor {
            name: s("Point"),
            payload: VariantPayload::Struct(vec![field("x", prim("i32")), field(
                "y",
                prim("i32"),
            )]),
            excluded: false,
        },
    ];
    let r = map_union(&s("Shape"), &variants).unwrap();
    match r {
        SchemaValue::Union(branches) => {
            assert_eq!(branches.len(), 2);
            assert_eq!(branches[0], SchemaValue::Null);
            match &branches[1] {
                SchemaValue::Record(rec) => {
                    assert_eq!(rec.name, s("Point"));
                    assert_eq!(rec.namespace, s("Shape.Point"));
                    assert_eq!(rec.fields.len(), 2);
                    assert_eq!(rec.fields[0].schema, call(&["i32"], "Shape.Point.x"));
                },
                other => panic!("expected a record branch, got {:?}", other),
            }
        },
        other => panic!("expected a union, got {:?}", other),
    }
}

#[test]
fn union_fails_fast_on_a_bad_variant() {
    let variants = vec![
        unit_variant("A"),
        VariantDescriptor {
            name: s("Bad"),
            payload: VariantPayload::Tuple(vec![named("Vec")]),
            excluded: false,
        },
    ];
    assert_eq!(map_union(&s("E"), &variants), Err(Error::MissingAngleBrackets(s("Vec"))));
}

#[test]
fn empty_struct_gives_empty_record() {
    let rec = map_struct(&s("Unit"), &s("Unit"), &vec![]).unwrap();
    assert_eq!(rec.fields.len(), 0);
    assert_eq!(rec.lookup.len(), 0);
}

#[test]
fn empty_enum_gives_empty_enumeration() {
    let r = derive_enum(&s("Never"), &None, &vec![]).unwrap();
    match r {
        SchemaValue::Enum(e) => assert_eq!(e.symbols.len(), 0),
        other => panic!("expected an enumeration, got {:?}", other),
    }
}

#[test]
fn derive_dispatches_on_the_data_shape() {
    let st = TypeData::Struct(vec![field("id", prim("i64"))]);
    let en = TypeData::Enum(vec![unit_variant("A")]);
    assert!(matches!(schematize::derive(&s("S"), &None, &st), Ok(SchemaValue::Record(_))));
    assert!(matches!(schematize::derive(&s("E"), &None, &en), Ok(SchemaValue::Enum(_))));
}

#[test]
fn derive_struct_fails_fast_on_a_bad_field() {
    let fields = vec![field("bad", TypeDescriptor::Named(vec![]))];
    assert_eq!(derive_struct(&s("S"), &None, &fields), Err(Error::EmptyPath(s(""))));
}

#[test]
fn map_path_keeps_only_plain_segments_of_qualified_paths() {
    let segs = vec![
        plain_seg("std"),
        generic_seg("vec", vec![GenericArgument::TypeArgument(Box::new(prim("i32")))]),
        plain_seg("Vec"),
    ];
    let r = map_path(&s("N"), &segs).unwrap();
    assert_eq!(r, SchemaValue::Deferred(Deferred::Opaque { path: vec![s("std"), s("Vec")] }));
}

#[test]
fn eleven_element_tuple_uses_two_digit_names() {
    let elems: Vec<TypeDescriptor> = (0..11).map(|_| prim("i32")).collect();
    let rec = map_tuple(&s("N"), None, &elems).unwrap();
    assert_eq!(rec.fields.len(), 11);
    assert_eq!(rec.fields[10].name, s("10"));
    assert_eq!(rec.fields[10].position, 10);
    assert_eq!(rec.lookup[10], (s("10"), 10));
}

#[test]
fn excluding_a_variant_never_shifts_union_branches() {
    let tuple_variant = |name: &str| VariantDescriptor {
        name: s(name),
        payload: VariantPayload::Tuple(vec![prim("i32")]),
        excluded: false,
    };
    let with_excluded = vec![
        unit_variant("A"),
        VariantDescriptor {
            name: s("Hidden"),
            payload: VariantPayload::Tuple(vec![prim("u32")]),
            excluded: true,
        },
        tuple_variant("B"),
    ];
    let without = vec![unit_variant("A"), tuple_variant("B")];
    assert_eq!(
        derive_enum(&s("E"), &None, &with_excluded),
        derive_enum(&s("E"), &None, &without)
    );
}
