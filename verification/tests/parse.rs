use flusty::error::{RsPosition, RsSpan};
use flusty::parse::{parse_source, parse_type};
use flusty::raw::{
    RawArg, RawAttr, RawAttrForm, RawEnum, RawField, RawFile, RawFn, RawItem, RawMod,
    RawPathArgs, RawSegment, RawStruct, RawType, RawVariant,
};

fn named(name: &str) -> RawType {
    RawType::Path { segments: vec![RawSegment { ident: name.to_string(), args: RawPathArgs::Empty }] }
}

fn span(a: usize, b: usize, c: usize, d: usize) -> RsSpan {
    RsSpan { start: RsPosition { line: a, column: b }, end: RsPosition { line: c, column: d } }
}

#[test]
fn a_text_that_is_no_source_is_not_parsed() {
    assert_eq!(parse_source("pub fn {"), None);
    assert_eq!(parse_source("struct"), None);
    assert_eq!(parse_source("}"), None);
}

#[test]
fn an_empty_text_is_an_empty_file() {
    assert_eq!(parse_source(""), Some(RawFile { items: vec![] }));
    assert_eq!(parse_source("// only a comment\n"), Some(RawFile { items: vec![] }));
}

#[test]
fn a_byte_order_mark_and_a_shebang_are_passed_over() {
    let file = parse_source("\u{feff}#!/usr/bin/env run\nmod a;").unwrap();
    assert_eq!(file.items, vec![RawItem::Mod(RawMod { name: "a".to_string(), public: false })]);
}

#[test]
fn a_struct_is_read_with_all_its_parts() {
    let file = parse_source("#[first]\n#[second(x)]\npub struct Foo {\n    pub a: i32,\n    b: bool,\n}\n").unwrap();
    let expected = RawStruct {
        name: "Foo".to_string(),
        fields: vec![
            RawField { name: Some("a".to_string()), ty: named("i32"), span: span(4, 4, 4, 14) },
            RawField { name: Some("b".to_string()), ty: named("bool"), span: span(5, 4, 5, 11) },
        ],
        public: true,
        attrs: vec![
            RawAttr { form: RawAttrForm::Path, ident: Some("first".to_string()) },
            RawAttr { form: RawAttrForm::List, ident: Some("second".to_string()) },
        ],
        span: span(1, 0, 6, 1),
    };
    assert_eq!(file.items, vec![RawItem::Struct(expected)]);
}

#[test]
fn a_function_is_read_with_all_its_parts() {
    let file = parse_source("fn f(self, a: u8, (x, y): (u8, u8)) -> bool { true }").unwrap();
    let expected = RawFn {
        name: "f".to_string(),
        args: vec![
            RawArg::Receiver { span: span(1, 5, 1, 9) },
            RawArg::Typed { name: Some("a".to_string()), ty: named("u8"), span: span(1, 11, 1, 16) },
            RawArg::Typed {
                name: None,
                ty: RawType::Tuple { elems: vec![named("u8"), named("u8")] },
                span: span(1, 18, 1, 34),
            },
        ],
        ret: Some(named("bool")),
        public: false,
        attrs: vec![],
        span: span(1, 0, 1, 52),
    };
    assert_eq!(file.items, vec![RawItem::Fn(expected)]);
}

#[test]
fn an_enum_is_read_with_all_its_parts() {
    let file = parse_source("pub enum E { A, B(u8), C { x: i8 } }").unwrap();
    let expected = RawEnum {
        name: "E".to_string(),
        variants: vec![
            RawVariant { name: "A".to_string(), fields: vec![], span: span(1, 13, 1, 14) },
            RawVariant {
                name: "B".to_string(),
                fields: vec![RawField { name: None, ty: named("u8"), span: span(1, 18, 1, 20) }],
                span: span(1, 16, 1, 21),
            },
            RawVariant {
                name: "C".to_string(),
                fields: vec![RawField { name: Some("x".to_string()), ty: named("i8"), span: span(1, 27, 1, 32) }],
                span: span(1, 23, 1, 34),
            },
        ],
        public: true,
        attrs: vec![],
        span: span(1, 0, 1, 36),
    };
    assert_eq!(file.items, vec![RawItem::Enum(expected)]);
}

#[test]
fn the_forms_of_an_attribute_are_told_apart() {
    let file = parse_source("#[a] #[b(c)] #[d = \"e\"] #[f::g] #[h::i(j)] #[::k] fn f() {}").unwrap();
    match &file.items[0] {
        RawItem::Fn(f) => assert_eq!(
            f.attrs,
            vec![
                RawAttr { form: RawAttrForm::Path, ident: Some("a".to_string()) },
                RawAttr { form: RawAttrForm::List, ident: Some("b".to_string()) },
                RawAttr { form: RawAttrForm::NameValue, ident: Some("d".to_string()) },
                RawAttr { form: RawAttrForm::Path, ident: None },
                RawAttr { form: RawAttrForm::List, ident: None },
                RawAttr { form: RawAttrForm::Path, ident: None },
            ]
        ),
        other => panic!("{:?}", other),
    }
}

#[test]
fn a_documentation_comment_is_an_attribute_with_a_value() {
    let file = parse_source("/// export\npub fn f() {}").unwrap();
    match &file.items[0] {
        RawItem::Fn(f) => {
            assert_eq!(f.attrs, vec![RawAttr { form: RawAttrForm::NameValue, ident: Some("doc".to_string()) }])
        }
        other => panic!("{:?}", other),
    }
}

#[test]
fn only_plain_pub_is_public() {
    let file = parse_source("pub mod a; mod b; pub(crate) mod c; pub(in crate::x) mod d; pub(super) mod e;").unwrap();
    let flags: Vec<(String, bool)> = file
        .items
        .iter()
        .map(|i| match i {
            RawItem::Mod(m) => (m.name.clone(), m.public),
            other => panic!("{:?}", other),
        })
        .collect();
    assert_eq!(
        flags,
        vec![
            ("a".to_string(), true),
            ("b".to_string(), false),
            ("c".to_string(), false),
            ("d".to_string(), false),
            ("e".to_string(), false)
        ]
    );
}

#[test]
fn a_raw_identifier_keeps_its_prefix() {
    let file = parse_source("pub mod r#type; #[r#export] pub fn r#fn() {}").unwrap();
    assert_eq!(file.items[0], RawItem::Mod(RawMod { name: "r#type".to_string(), public: true }));
    match &file.items[1] {
        RawItem::Fn(f) => {
            assert_eq!(f.name, "r#fn");
            assert_eq!(f.attrs[0].ident.as_deref(), Some("r#export"));
        }
        other => panic!("{:?}", other),
    }
}

#[test]
fn items_come_in_declaration_order() {
    let file = parse_source("fn a() {}\nstruct B;\nenum C {}\nmod d;\nconst E: u8 = 0;\nfn f() {}").unwrap();
    let kinds: Vec<&str> = file
        .items
        .iter()
        .map(|i| match i {
            RawItem::Fn(_) => "fn",
            RawItem::Struct(_) => "struct",
            RawItem::Enum(_) => "enum",
            RawItem::Mod(_) => "mod",
            RawItem::Other => "other",
        })
        .collect();
    assert_eq!(kinds, vec!["fn", "struct", "enum", "mod", "other", "fn"]);
}

fn nested(levels: usize) -> (String, RawType) {
    let mut text = String::from("u8");
    let mut expected = named("u8");
    for _ in 0..levels {
        text = format!("[{}]", text);
        expected = RawType::Slice { elem: Box::new(expected) };
    }
    (text, expected)
}

#[test]
fn the_reader_follows_a_type_as_deep_as_it_nests() {
    let (text, expected) = nested(70);
    assert_eq!(parse_type(&text), Some(expected));
}

#[test]
fn the_reader_follows_the_type_of_a_field_as_deep_as_it_nests() {
    let (text, expected) = nested(30);
    let file = parse_source(&format!("struct S {{ deep: {} }}", text)).unwrap();
    match &file.items[0] {
        RawItem::Struct(s) => assert_eq!(s.fields[0].ty, expected),
        other => panic!("{:?}", other),
    }
}

#[test]
fn the_same_text_is_read_as_the_same_file() {
    let text = "#[m] pub fn f(a: Option<[u8; 4]>) -> bool {}\npub mod x;\nstruct S(i8);";
    assert_eq!(parse_source(text), parse_source(text));
    assert_eq!(parse_type("*const (u8, i8)"), parse_type("*const (u8, i8)"));
}
