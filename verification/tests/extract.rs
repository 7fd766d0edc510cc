use flusty::error::{ConversionErrorKind, Descriptable, RsPosition, RsSpan};
use flusty::extract::extract;
use flusty::parse::parse_source;
use flusty::raw::{RawArg, RawField, RawItem, RawMod, RawPathArgs, RawSegment, RawType, RawVariant};
use flusty::types::{
    RsEnum, RsField, RsFn, RsPointer, RsPrimitive, RsStruct, RsType, RsVariant,
};

fn named(name: &str) -> RawType {
    RawType::Path { segments: vec![RawSegment { ident: name.to_string(), args: RawPathArgs::Empty }] }
}

fn span(a: usize, b: usize, c: usize, d: usize) -> RsSpan {
    RsSpan { start: RsPosition { line: a, column: b }, end: RsPosition { line: c, column: d } }
}

fn prim(p: RsPrimitive) -> RsType {
    RsType::Primitive(p)
}

fn field(name: &str, p: RsPrimitive) -> RsField {
    RsField::new(name.to_string(), prim(p))
}

fn items(text: &str) -> Vec<RawItem> {
    parse_source(text).unwrap().items
}

#[test]
fn a_struct_with_named_fields_is_extracted() {
    let all = items("pub struct Foo { pub x: i32, y: Option<bool> }");
    assert_eq!(all.len(), 1);
    let expected = RsStruct::new(
        "Foo".to_string(),
        vec![
            field("x", RsPrimitive::I32),
            RsField::new("y".to_string(), RsType::Pointer(RsPointer::new(prim(RsPrimitive::Bool), true))),
        ],
    );
    assert_eq!(extract(&all[0]), Ok(RsType::Struct(expected)));
}

#[test]
fn a_field_of_option_of_i32_is_a_mutable_pointer() {
    let all = items("struct S { f: Option<i32> }");
    match extract(&all[0]) {
        Ok(RsType::Struct(s)) => {
            assert_eq!(s.fields.len(), 1);
            assert_eq!(s.fields[0].name, "f");
            assert_eq!(s.fields[0].ty, RsType::Pointer(RsPointer::new(prim(RsPrimitive::I32), true)));
        }
        other => panic!("{:?}", other),
    }
}

#[test]
fn a_unit_struct_has_no_fields() {
    let all = items("struct Unit;");
    assert_eq!(extract(&all[0]), Ok(RsType::Struct(RsStruct::new("Unit".to_string(), vec![]))));
}

#[test]
fn a_struct_with_a_positional_field_gives_unnamed_field() {
    let all = items("struct Pair(i32, bool);");
    let e = extract(&all[0]).unwrap_err();
    assert_eq!(e.kind, ConversionErrorKind::UnnamedField);
    assert_eq!(e.dst.as_deref(), Some("RsStruct"));
    assert_eq!(e.data.as_deref(), Some("struct Pair"));
    assert_eq!(e.src.as_deref(), Some("Field"));
    let inner = e.source.as_ref().unwrap();
    assert_eq!(inner.kind, ConversionErrorKind::UnnamedField);
    assert_eq!(inner.src.as_deref(), Some("Field"));
    assert_eq!(inner.dst.as_deref(), Some("RsField"));
    assert_eq!(inner.msg.as_deref(), Some("Field must have an identifier"));
    assert_eq!(inner.data.as_deref(), Some("field _: i32"));
    assert_eq!(inner.source, None);
}

#[test]
fn one_bad_field_fails_the_whole_struct() {
    let all = items("struct Foo {\n    a: i32,\n    b: Unknown,\n    c: u8,\n}");
    let e = extract(&all[0]).unwrap_err();
    assert_eq!(e.kind, ConversionErrorKind::UnknownPrimitive);
    assert_eq!(e.src.as_deref(), Some("Unknown"));
    assert_eq!(e.dst.as_deref(), Some("RsStruct"));
    assert_eq!(e.data.as_deref(), Some("struct Foo"));
    assert_eq!(e.span, Some(span(1, 0, 5, 1)));
    let layer = e.source.as_ref().unwrap();
    assert_eq!(layer.dst.as_deref(), Some("RsField"));
    assert_eq!(layer.data.as_deref(), Some("field b: Unknown"));
    assert_eq!(layer.span, Some(span(3, 4, 3, 14)));
    let root = e.root_cause();
    assert_eq!(root.kind, ConversionErrorKind::UnknownPrimitive);
    assert_eq!(root.src.as_deref(), Some("Unknown"));
    assert_eq!(root.source, None);
    assert_eq!(layer.source.as_deref(), Some(root));
}

#[test]
fn the_first_bad_field_in_declaration_order_is_reported() {
    let all = items("struct Foo { a: First, b: Second }");
    let e = extract(&all[0]).unwrap_err();
    assert_eq!(e.root_cause().src.as_deref(), Some("First"));
}

#[test]
fn a_field_with_an_empty_name_counts_as_unnamed() {
    let f = RawField { name: Some(String::new()), ty: named("i32"), span: span(1, 1, 1, 2) };
    let e = RsField::try_from(&f).unwrap_err();
    assert_eq!(e.kind, ConversionErrorKind::UnnamedField);
    assert_eq!(e.span, Some(span(1, 1, 1, 2)));
    let ok = RsField::try_from_positional(&f, 3).unwrap();
    assert_eq!(ok, field("3", RsPrimitive::I32));
}

#[test]
fn an_enum_with_all_kinds_of_variants_is_extracted() {
    let all = items("enum Shape { Empty, Circle(f64), Rect { w: f32, h: f32 }, Pair(i8, u8) }");
    let expected = RsEnum::new(
        "Shape".to_string(),
        vec![
            RsVariant::new("Empty".to_string(), vec![]),
            RsVariant::new("Circle".to_string(), vec![field("0", RsPrimitive::F64)]),
            RsVariant::new("Rect".to_string(), vec![field("w", RsPrimitive::F32), field("h", RsPrimitive::F32)]),
            RsVariant::new("Pair".to_string(), vec![field("0", RsPrimitive::I8), field("1", RsPrimitive::U8)]),
        ],
    );
    assert_eq!(extract(&all[0]), Ok(RsType::Enum(expected)));
}

#[test]
fn positional_fields_are_named_by_their_position() {
    let v = RawVariant {
        name: "V".to_string(),
        fields: (0..12)
            .map(|_| RawField { name: None, ty: named("u8"), span: span(1, 0, 1, 1) })
            .collect(),
        span: span(1, 0, 1, 1),
    };
    let out = RsVariant::try_from(&v).unwrap();
    let names: Vec<&str> = out.fields.iter().map(|f| f.name.as_str()).collect();
    assert_eq!(names, vec!["0", "1", "2", "3", "4", "5", "6", "7", "8", "9", "10", "11"]);
}

#[test]
fn one_bad_variant_fails_the_whole_enum() {
    let all = items("enum E { A, B(Unknown), C }");
    let e = extract(&all[0]).unwrap_err();
    assert_eq!(e.dst.as_deref(), Some("RsEnum"));
    assert_eq!(e.data.as_deref(), Some("enum E { A(), B(field _: Unknown), C() }"));
    let variant = e.source.as_ref().unwrap();
    assert_eq!(variant.dst.as_deref(), Some("RsVariant"));
    assert_eq!(variant.data.as_deref(), Some("B(field _: Unknown)"));
    let fld = variant.source.as_ref().unwrap();
    assert_eq!(fld.dst.as_deref(), Some("RsField"));
    assert_eq!(e.root_cause().src.as_deref(), Some("Unknown"));
    assert_eq!(e.kind, ConversionErrorKind::UnknownPrimitive);
}

#[test]
fn a_function_is_extracted_with_its_arguments_and_return_type() {
    let all = items("pub fn add(a: i32, b: i32) -> i64 { 0 }");
    let expected = RsFn::new(
        "add".to_string(),
        vec![field("a", RsPrimitive::I32), field("b", RsPrimitive::I32)],
        prim(RsPrimitive::I64),
    );
    assert_eq!(extract(&all[0]), Ok(RsType::Func(expected)));
}

#[test]
fn a_function_without_a_return_type_returns_unit() {
    let all = items("fn nothing() {}");
    match extract(&all[0]) {
        Ok(RsType::Func(f)) => {
            assert_eq!(f.name, "nothing");
            assert!(f.args.is_empty());
            assert_eq!(*f.ret, prim(RsPrimitive::Unit));
        }
        other => panic!("{:?}", other),
    }
}

#[test]
fn a_receiver_gives_receiver_field() {
    let all = items("fn method(&self, x: i32) {}");
    let e = extract(&all[0]).unwrap_err();
    assert_eq!(e.kind, ConversionErrorKind::ReceiverField);
    assert_eq!(e.dst.as_deref(), Some("RsFn"));
    assert_eq!(e.data.as_deref(), Some("fn method(self, x: i32)"));
    let inner = e.source.as_ref().unwrap();
    assert_eq!(inner.kind, ConversionErrorKind::ReceiverField);
    assert_eq!(inner.src.as_deref(), Some("FnArg"));
    assert_eq!(inner.dst.as_deref(), Some("RsField"));
    assert_eq!(inner.msg.as_deref(), Some("FnArg::Receiver is not supported"));
    assert_eq!(inner.data.as_deref(), Some("self"));
    assert_eq!(inner.span, Some(span(1, 10, 1, 15)));
    let direct = RsField::try_from_arg(&RawArg::Receiver { span: span(1, 10, 1, 15) }).unwrap_err();
    assert_eq!(&direct, inner.as_ref());
}

#[test]
fn an_argument_whose_pattern_is_no_identifier_gives_unnamed_field() {
    let all = items("fn f((a, b): (i32, i32)) {}");
    let e = extract(&all[0]).unwrap_err();
    assert_eq!(e.kind, ConversionErrorKind::UnnamedField);
    let inner = e.source.as_ref().unwrap();
    assert_eq!(inner.msg.as_deref(), Some("FnArg::Typed must have an identifier"));
    assert_eq!(inner.data.as_deref(), Some("_: (i32, i32)"));
}

#[test]
fn a_bad_return_type_fails_the_function() {
    let all = items("fn f(a: i32) -> Vec<u8> {}");
    let e = extract(&all[0]).unwrap_err();
    assert_eq!(e.kind, ConversionErrorKind::GenericType);
    assert_eq!(e.dst.as_deref(), Some("RsFn"));
    assert_eq!(e.data.as_deref(), Some("fn f(a: i32) -> Vec<u8>"));
    assert_eq!(e.source.as_ref().unwrap().source, None);
}

#[test]
fn the_arguments_fail_before_the_return_type() {
    let all = items("fn f(a: Foo) -> Bar {}");
    let e = extract(&all[0]).unwrap_err();
    assert_eq!(e.root_cause().src.as_deref(), Some("Foo"));
}

#[test]
fn other_items_declare_nothing() {
    let all = items("mod m; use std::fmt; const X: u8 = 1; impl Foo {} type T = u8; trait Tr {}");
    assert_eq!(all.len(), 6);
    assert_eq!(all[0], RawItem::Mod(RawMod { name: "m".to_string(), public: false }));
    for item in &all[1..] {
        assert_eq!(item, &RawItem::Other);
    }
    for item in &all {
        let e = extract(item).unwrap_err();
        assert_eq!(e.kind, ConversionErrorKind::UnknownType);
        assert_eq!(e.src.as_deref(), Some("Item"));
        assert_eq!(e.dst.as_deref(), Some("RsType"));
        assert_eq!(e.msg.as_deref(), Some("Item declares no function, struct or enum"));
    }
}

#[test]
fn items_describe_themselves() {
    let all = items("struct Foo { a: i32 }\nenum E { A, B(u8), C { x: bool } }\nfn f(a: i32, b: [u8; 2]) -> bool {}\nfn g() {}");
    match &all[0] {
        RawItem::Struct(s) => {
            assert_eq!(s.description(), "struct Foo");
            assert_eq!(s.fields[0].description(), "field a: i32");
        }
        other => panic!("{:?}", other),
    }
    match &all[1] {
        RawItem::Enum(e) => {
            assert_eq!(e.description(), "enum E { A(), B(field _: u8), C(field x: bool) }");
            assert_eq!(e.variants[1].description(), "B(field _: u8)");
        }
        other => panic!("{:?}", other),
    }
    match &all[2] {
        RawItem::Fn(f) => {
            assert_eq!(f.description(), "fn f(a: i32, b: [u8; 2]) -> bool");
            assert_eq!(f.args[1].description(), "b: [u8; 2]");
        }
        other => panic!("{:?}", other),
    }
    match &all[3] {
        RawItem::Fn(f) => assert_eq!(f.description(), "fn g()"),
        other => panic!("{:?}", other),
    }
}
