use flusty::dart::{DartField, DartFileBuilder, DartFn, DartType, ToDart, DART_TEMPLATE};
use flusty::error::ConversionErrorKind;
use flusty::extract::extract;
use flusty::parse::parse_source;
use flusty::types::{
    RsArray, RsEnum, RsField, RsFn, RsPointer, RsPrimitive, RsSlice, RsStruct, RsTuple, RsType,
    RsVariant,
};

fn prim(p: RsPrimitive) -> RsType {
    RsType::Primitive(p)
}

fn field(name: &str, p: RsPrimitive) -> RsField {
    RsField::new(name.to_string(), prim(p))
}

fn names(a: &str, b: &str, c: &str) -> (String, String, String) {
    (a.to_string(), b.to_string(), c.to_string())
}

const ALL: [RsPrimitive; 17] = [
    RsPrimitive::I8,
    RsPrimitive::I16,
    RsPrimitive::I32,
    RsPrimitive::I64,
    RsPrimitive::I128,
    RsPrimitive::U8,
    RsPrimitive::U16,
    RsPrimitive::U32,
    RsPrimitive::U64,
    RsPrimitive::U128,
    RsPrimitive::F32,
    RsPrimitive::F64,
    RsPrimitive::Bool,
    RsPrimitive::Char,
    RsPrimitive::Str,
    RsPrimitive::String,
    RsPrimitive::Unit,
];

#[test]
fn every_primitive_but_three_has_names() {
    for p in ALL {
        let unsupported = matches!(p, RsPrimitive::I128 | RsPrimitive::U64 | RsPrimitive::U128);
        assert_eq!(p.name().is_err(), unsupported, "{:?}", p);
        assert_eq!(prim(p).name().is_err(), unsupported, "{:?}", p);
    }
}

#[test]
fn the_names_of_the_primitives() {
    assert_eq!(RsPrimitive::I8.name(), Ok(names("i8", "ffi.Int8", "int")));
    assert_eq!(RsPrimitive::I16.name(), Ok(names("i16", "ffi.Int16", "int")));
    assert_eq!(RsPrimitive::I32.name(), Ok(names("i32", "ffi.Int32", "int")));
    assert_eq!(RsPrimitive::I64.name(), Ok(names("i64", "ffi.Int64", "int")));
    assert_eq!(RsPrimitive::U8.name(), Ok(names("u8", "ffi.Uint8", "int")));
    assert_eq!(RsPrimitive::U16.name(), Ok(names("u16", "ffi.Uint16", "int")));
    assert_eq!(RsPrimitive::U32.name(), Ok(names("u32", "ffi.Uint32", "int")));
    assert_eq!(RsPrimitive::F32.name(), Ok(names("f32", "ffi.Float", "double")));
    assert_eq!(RsPrimitive::F64.name(), Ok(names("f64", "ffi.Double", "double")));
    assert_eq!(RsPrimitive::Bool.name(), Ok(names("bool", "ffi.Uint8", "bool")));
    assert_eq!(RsPrimitive::Char.name(), Ok(names("char", "ffi.Int32", "String")));
    assert_eq!(RsPrimitive::Str.name(), Ok(names("str", "ffi.Pointer<ffi.Utf8>", "String")));
    assert_eq!(RsPrimitive::String.name(), Ok(names("String", "ffi.Pointer<ffi.Utf8>", "String")));
    assert_eq!(RsPrimitive::Unit.name(), Ok(names("()", "ffi.Void", "void")));
}

#[test]
fn an_unsupported_primitive_is_named_in_the_failure() {
    for (p, text) in [(RsPrimitive::I128, "i128"), (RsPrimitive::U64, "u64"), (RsPrimitive::U128, "u128")] {
        let e = p.name().unwrap_err();
        assert_eq!(e.kind, ConversionErrorKind::UnsupportedPrimitive);
        assert_eq!(e.src.as_deref(), Some(text));
        assert_eq!(e.dst.as_deref(), Some("DartType"));
        assert_eq!(e.msg.as_deref(), Some("Primitive has no mapping at the foreign boundary"));
        assert_eq!(e.source, None);
    }
}

#[test]
fn a_struct_is_known_by_its_name() {
    let s = RsType::Struct(RsStruct::new("HelloWorld".to_string(), vec![field("x", RsPrimitive::I32)]));
    assert_eq!(s.name(), Ok(names("HelloWorld", "HelloWorld", "HelloWorld")));
    let e = RsType::Enum(RsEnum::new("Kind".to_string(), vec![RsVariant::new("A".to_string(), vec![field("0", RsPrimitive::U8)])]));
    assert_eq!(e.name(), Ok(names("Kind", "Kind", "Kind")));
}

#[test]
fn a_struct_with_a_field_of_u128_has_no_names() {
    let parsed = parse_source("pub struct Foo { a: i32, big: u128, c: u64 }").unwrap();
    let ty = extract(&parsed.items[0]).unwrap();
    let e = ty.name().unwrap_err();
    assert_eq!(e.kind, ConversionErrorKind::UnsupportedPrimitive);
    assert_eq!(e.dst.as_deref(), Some("Foo"));
    assert_eq!(e.src.as_deref(), Some("u128"));
    let root = e.root_cause();
    assert_eq!(root.src.as_deref(), Some("u128"));
    assert_eq!(root.kind, ConversionErrorKind::UnsupportedPrimitive);
    assert_eq!(root.source, None);
    assert_eq!(e.source.as_deref(), Some(root));
}

#[test]
fn a_failure_deep_inside_is_wrapped_by_every_type_around_it() {
    let inner = RsType::Struct(RsStruct::new("Inner".to_string(), vec![field("v", RsPrimitive::U64)]));
    let outer = RsType::Struct(RsStruct::new(
        "Outer".to_string(),
        vec![RsField::new("p".to_string(), RsType::Pointer(RsPointer::new(inner, true)))],
    ));
    let e = outer.name().unwrap_err();
    assert_eq!(e.dst.as_deref(), Some("Outer"));
    let pointer = e.source.as_ref().unwrap();
    assert_eq!(pointer.dst.as_deref(), Some("pointer"));
    let inner = pointer.source.as_ref().unwrap();
    assert_eq!(inner.dst.as_deref(), Some("Inner"));
    let root = inner.source.as_ref().unwrap();
    assert_eq!(root.src.as_deref(), Some("u64"));
    assert_eq!(root.source, None);
    assert_eq!(e.root_cause(), root.as_ref());
    assert_eq!(e.src.as_deref(), Some("u64"));
}

#[test]
fn an_enum_with_a_bad_variant_has_no_names() {
    let e = RsType::Enum(RsEnum::new(
        "Kind".to_string(),
        vec![
            RsVariant::new("A".to_string(), vec![]),
            RsVariant::new("B".to_string(), vec![field("0", RsPrimitive::I128)]),
        ],
    ));
    let err = e.name().unwrap_err();
    assert_eq!(err.dst.as_deref(), Some("Kind"));
    assert_eq!(err.source.as_ref().unwrap().dst.as_deref(), Some("B"));
    assert_eq!(err.root_cause().src.as_deref(), Some("i128"));
}

#[test]
fn compound_types_are_spelled_from_what_they_hold() {
    let ptr = RsType::Pointer(RsPointer::new(prim(RsPrimitive::I32), true));
    assert_eq!(ptr.name(), Ok(names("*mut i32", "ffi.Pointer<ffi.Int32>", "ffi.Pointer<int>")));
    let ptr = RsType::Pointer(RsPointer::new(prim(RsPrimitive::Bool), false));
    assert_eq!(ptr.name(), Ok(names("*const bool", "ffi.Pointer<ffi.Uint8>", "ffi.Pointer<bool>")));
    let arr = RsType::Array(RsArray::new(prim(RsPrimitive::U8), 16));
    assert_eq!(arr.name(), Ok(names("[u8; 16]", "ffi.Array<ffi.Uint8>", "ffi.Array<ffi.Uint8>")));
    let slice = RsType::Slice(RsSlice::new(prim(RsPrimitive::F64)));
    assert_eq!(slice.name(), Ok(names("[f64]", "ffi.Pointer<ffi.Double>", "ffi.Pointer<ffi.Double>")));
    let tuple = RsType::Tuple(RsTuple::new(vec![prim(RsPrimitive::I32), prim(RsPrimitive::Bool)]));
    assert_eq!(tuple.name(), Ok(names("(i32, bool)", "ffi.Struct", "(int, bool)")));
    let empty = RsType::Tuple(RsTuple::new(vec![]));
    assert_eq!(empty.name(), Ok(names("()", "ffi.Struct", "()")));
}

#[test]
fn compound_types_wrap_the_failure_of_what_they_hold() {
    let cases = [
        (RsType::Array(RsArray::new(prim(RsPrimitive::U64), 2)), "array"),
        (RsType::Slice(RsSlice::new(prim(RsPrimitive::U64))), "slice"),
        (RsType::Pointer(RsPointer::new(prim(RsPrimitive::U64), false)), "pointer"),
        (RsType::Tuple(RsTuple::new(vec![prim(RsPrimitive::I8), prim(RsPrimitive::U64)])), "tuple"),
    ];
    for (ty, dst) in cases {
        let e = ty.name().unwrap_err();
        assert_eq!(e.dst.as_deref(), Some(dst));
        assert_eq!(e.kind, ConversionErrorKind::UnsupportedPrimitive);
        assert_eq!(e.root_cause().src.as_deref(), Some("u64"));
    }
}

#[test]
fn a_function_is_known_by_its_name_in_snake_and_pascal_form() {
    let f = RsType::Func(RsFn::new("add_two".to_string(), vec![field("a", RsPrimitive::I32)], prim(RsPrimitive::I32)));
    assert_eq!(f.name(), Ok(names("add_two", "add_two", "AddTwo")));
    let bad_arg = RsType::Func(RsFn::new("f".to_string(), vec![field("a", RsPrimitive::U64)], prim(RsPrimitive::I128)));
    let e = bad_arg.name().unwrap_err();
    assert_eq!(e.dst.as_deref(), Some("f"));
    assert_eq!(e.root_cause().src.as_deref(), Some("u64"));
    let bad_ret = RsType::Func(RsFn::new("f".to_string(), vec![], prim(RsPrimitive::I128)));
    assert_eq!(bad_ret.name().unwrap_err().root_cause().src.as_deref(), Some("i128"));
}

#[test]
fn to_dart_is_the_host_name() {
    assert_eq!(prim(RsPrimitive::F32).to_dart(), Ok("double".to_string()));
    assert_eq!(prim(RsPrimitive::U64).to_dart().unwrap_err().kind, ConversionErrorKind::UnsupportedPrimitive);
}

#[test]
fn a_field_is_displayed_for_both_sides() {
    let f = field("my_value", RsPrimitive::I32);
    assert_eq!(
        f.display(false),
        Ok(names("ffi.Int32 my_value", "int myValue", "@ffi.Int32() external int myValue;"))
    );
    assert_eq!(f.display(true), Ok(names("ffi.Int32", "int", "@ffi.Int32() external int myValue;")));
    let bad = field("x", RsPrimitive::U128);
    let e = bad.display(true).unwrap_err();
    assert_eq!(e.src.as_deref(), Some("u128"));
    assert_eq!(e.source, None);
    assert_eq!(bad.display(false), Err(e));
}

#[test]
fn a_function_is_declared_for_both_sides() {
    let f = RsFn::new(
        "add_numbers".to_string(),
        vec![field("left_side", RsPrimitive::I32), field("r", RsPrimitive::F64)],
        prim(RsPrimitive::Bool),
    );
    let (ffi, dart, linker) = f.typedef().unwrap();
    assert_eq!(ffi, "typedef add_numbers = ffi.Uint8 Function(ffi.Int32, ffi.Double);");
    assert_eq!(dart, "typedef AddNumbers = bool Function(int, double);");
    assert_eq!(
        linker,
        "final AddNumbers addNumbers = dylib().lookup<ffi.NativeFunction<add_numbers>>('add_numbers').asFunction();"
    );
}

#[test]
fn a_function_without_arguments_is_declared_with_an_empty_list() {
    let f = RsFn::new("do_nothing".to_string(), vec![], prim(RsPrimitive::Unit));
    let (ffi, dart, linker) = f.typedef().unwrap();
    assert_eq!(ffi, "typedef do_nothing = ffi.Void Function();");
    assert_eq!(dart, "typedef DoNothing = void Function();");
    assert_eq!(
        linker,
        "final DoNothing doNothing = dylib().lookup<ffi.NativeFunction<do_nothing>>('do_nothing').asFunction();"
    );
}

#[test]
fn a_function_with_an_unsupported_type_has_no_declaration() {
    let f = RsFn::new("f".to_string(), vec![field("a", RsPrimitive::I8), field("b", RsPrimitive::U64)], prim(RsPrimitive::U128));
    let e = f.typedef().unwrap_err();
    assert_eq!(e.src.as_deref(), Some("u64"));
    let g = RsFn::new("g".to_string(), vec![field("a", RsPrimitive::I8)], prim(RsPrimitive::U128));
    assert_eq!(g.typedef().unwrap_err().src.as_deref(), Some("u128"));
}

#[test]
fn a_new_file_builder_holds_nothing() {
    let b = DartFileBuilder::new();
    assert!(b.type_defs.is_empty());
    assert_eq!(b.module_name, None);
    assert!(b.lib_path.is_empty());
    assert_eq!(b.lib_name, None);
    assert!(b.fn_linkers.is_empty());
}

#[test]
fn a_file_without_a_module_name_or_a_library_name_is_not_built() {
    let mut b = DartFileBuilder::new();
    let e = b.build().unwrap_err();
    assert_eq!(e.kind, ConversionErrorKind::MissingModuleName);
    assert_eq!(e.msg.as_deref(), Some("Missing module name"));
    b.set_lib_name("libnative");
    assert_eq!(b.build().unwrap_err().kind, ConversionErrorKind::MissingModuleName);
    let mut b = DartFileBuilder::new();
    b.set_module_name("Flusty");
    let e = b.build().unwrap_err();
    assert_eq!(e.kind, ConversionErrorKind::MissingLibName);
    assert_eq!(e.msg.as_deref(), Some("Missing library name"));
    assert_eq!(e.src, None);
    assert_eq!(e.source, None);
}

#[test]
fn add_fn_adds_two_type_definitions_and_a_lookup_line() {
    let mut b = DartFileBuilder::new();
    let f = RsFn::new("do_nothing".to_string(), vec![], prim(RsPrimitive::Unit));
    let g = RsFn::new("get".to_string(), vec![], prim(RsPrimitive::I8));
    assert_eq!(b.add_fn(&f), Ok(()));
    assert_eq!(b.add_fn(&g), Ok(()));
    assert_eq!(
        b.type_defs,
        vec![
            "typedef do_nothing = ffi.Void Function();",
            "typedef DoNothing = void Function();",
            "typedef get = ffi.Int8 Function();",
            "typedef Get = int Function();",
        ]
    );
    assert_eq!(b.fn_linkers.len(), 2);
    let bad = RsFn::new("bad".to_string(), vec![], prim(RsPrimitive::U64));
    assert!(b.add_fn(&bad).is_err());
    assert_eq!(b.type_defs.len(), 4);
    assert_eq!(b.fn_linkers.len(), 2);
}

#[test]
fn the_setters_of_the_file_builder() {
    let mut b = DartFileBuilder::new();
    b.set_module_name("A");
    b.set_module_name("B");
    b.set_lib_name("lib");
    b.add_lib_path("x");
    b.add_lib_path("y");
    assert_eq!(b.module_name.as_deref(), Some("B"));
    assert_eq!(b.lib_name.as_deref(), Some("lib"));
    assert_eq!(b.lib_path, vec!["x", "y"]);
    b.set_lib_path(&["target", "release"]);
    assert_eq!(b.lib_path, vec!["target", "release"]);
    b.set_lib_path(&[]);
    assert!(b.lib_path.is_empty());
}

#[test]
fn the_file_is_the_frame_with_its_words_replaced() {
    let mut b = DartFileBuilder::new();
    b.set_module_name("Flusty");
    b.set_lib_name("libnative");
    b.add_lib_path("native");
    b.add_lib_path("target");
    let f = RsFn::new("do_nothing".to_string(), vec![], prim(RsPrimitive::Unit));
    b.add_fn(&f).unwrap();
    let out = b.build().unwrap();
    let expected = DART_TEMPLATE
        .replace("#TYPE_DEFS#", "typedef do_nothing = ffi.Void Function();\ntypedef DoNothing = void Function();")
        .replace("#MODULE_NAME#", "Flusty")
        .replace("#LIB_PATH#", "'native', 'target', ")
        .replace("#LIB_NAME#", "libnative")
        .replace(
            "#FN_LINKERS#",
            "final DoNothing doNothing = dylib().lookup<ffi.NativeFunction<do_nothing>>('do_nothing').asFunction();",
        );
    assert_eq!(out, expected);
    assert!(out.starts_with("\nimport 'dart:ffi' as ffi;\n"));
    assert!(out.contains("final class Flusty {"));
    assert!(out.contains("            'native', 'target', \n            'libnative.so'\n"));
    assert!(out.contains("'libnative.dylib'"));
    assert!(out.contains("'libnative.dll'"));
    assert!(!out.contains('#'));
    assert!(out.ends_with("('do_nothing').asFunction();\n}\n"));
}

#[test]
fn a_file_without_a_path_and_without_functions() {
    let mut b = DartFileBuilder::new();
    b.set_module_name("M");
    b.set_lib_name("l");
    let out = b.build().unwrap();
    let expected = DART_TEMPLATE
        .replace("#TYPE_DEFS#", "")
        .replace("#MODULE_NAME#", "M")
        .replace("#LIB_PATH#", "")
        .replace("#LIB_NAME#", "l")
        .replace("#FN_LINKERS#", "");
    assert_eq!(out, expected);
    assert!(out.contains("            \n            'l.so'\n"));
}

#[test]
fn a_word_of_the_frame_in_a_name_is_replaced_in_turn() {
    let mut b = DartFileBuilder::new();
    b.set_module_name("#LIB_NAME#");
    b.set_lib_name("x");
    let out = b.build().unwrap();
    assert!(out.contains("final class x {"));
}

#[test]
fn the_frame_is_the_one_of_the_generator() {
    assert_eq!(DART_TEMPLATE.len(), 928);
    assert_eq!(DART_TEMPLATE.matches("#LIB_PATH#").count(), 3);
    assert_eq!(DART_TEMPLATE.matches("#LIB_NAME#").count(), 3);
    assert_eq!(DART_TEMPLATE.matches("#TYPE_DEFS#").count(), 1);
    assert_eq!(DART_TEMPLATE.matches("#MODULE_NAME#").count(), 1);
    assert_eq!(DART_TEMPLATE.matches("#FN_LINKERS#").count(), 1);
}

#[test]
fn a_variant_on_its_own_is_known_by_its_name() {
    let v = RsType::Variant(RsVariant::new("Circle".to_string(), vec![field("0", RsPrimitive::F64)]));
    assert_eq!(v.name(), Ok(names("Circle", "Circle", "Circle")));
    let bad = RsType::Variant(RsVariant::new("Big".to_string(), vec![field("0", RsPrimitive::U128)]));
    let e = bad.name().unwrap_err();
    assert_eq!(e.dst.as_deref(), Some("Big"));
    assert_eq!(e.root_cause().src.as_deref(), Some("u128"));
}
