use flusty::module::{RsModule, RsModuleType};
use flusty::types::{
    RsArray, RsEnum, RsField, RsFn, RsPointer, RsPrimitive, RsSlice, RsStruct, RsTuple, RsType,
    RsVariant,
};

fn prim(p: RsPrimitive) -> RsType {
    RsType::Primitive(p)
}

fn field(name: &str, p: RsPrimitive) -> RsField {
    RsField::new(name.to_string(), prim(p))
}

#[test]
fn primitives_are_written_as_in_the_source() {
    let table = [
        (RsPrimitive::I8, "i8"),
        (RsPrimitive::I16, "i16"),
        (RsPrimitive::I32, "i32"),
        (RsPrimitive::I64, "i64"),
        (RsPrimitive::I128, "i128"),
        (RsPrimitive::U8, "u8"),
        (RsPrimitive::U16, "u16"),
        (RsPrimitive::U32, "u32"),
        (RsPrimitive::U64, "u64"),
        (RsPrimitive::U128, "u128"),
        (RsPrimitive::F32, "f32"),
        (RsPrimitive::F64, "f64"),
        (RsPrimitive::Bool, "bool"),
        (RsPrimitive::Char, "char"),
        (RsPrimitive::Str, "str"),
        (RsPrimitive::String, "String"),
        (RsPrimitive::Unit, "()"),
    ];
    for (p, text) in table {
        assert_eq!(p.render(), text);
        assert_eq!(prim(p).render(), format!("type {}", text));
    }
}

#[test]
fn a_field_is_written_with_its_type() {
    assert_eq!(field("x", RsPrimitive::I32).render(), "x: type i32");
}

#[test]
fn a_struct_is_written_with_its_fields() {
    let s = RsStruct::new("Foo".to_string(), vec![field("a", RsPrimitive::I8), field("b", RsPrimitive::Bool)]);
    assert_eq!(s.render(), "struct Foo (a: type i8, b: type bool)");
    assert_eq!(RsType::Struct(s).render(), "type struct Foo (a: type i8, b: type bool)");
    assert_eq!(RsStruct::new("E".to_string(), vec![]).render(), "struct E ()");
}

#[test]
fn an_enum_is_written_with_its_variants() {
    let e = RsEnum::new(
        "Kind".to_string(),
        vec![RsVariant::new("A".to_string(), vec![]), RsVariant::new("B".to_string(), vec![field("0", RsPrimitive::U8)])],
    );
    assert_eq!(e.variants[1].render(), "B (0: type u8)");
    assert_eq!(e.render(), "enum Kind (A (), B (0: type u8))");
    assert_eq!(RsType::Enum(e).render(), "type enum Kind (A (), B (0: type u8))");
}

#[test]
fn a_function_is_written_with_its_arguments_and_return_type() {
    let f = RsFn::new("add".to_string(), vec![field("a", RsPrimitive::I32), field("b", RsPrimitive::I32)], prim(RsPrimitive::I64));
    assert_eq!(f.render(), "fn add(a: type i32, b: type i32) -> type i64");
    assert_eq!(RsType::Func(f).render(), "type fn add(a: type i32, b: type i32) -> type i64");
}

#[test]
fn compound_types_are_written_around_what_they_hold() {
    assert_eq!(RsArray::new(prim(RsPrimitive::Bool), 4).render(), "[type bool; 4]");
    assert_eq!(RsSlice::new(prim(RsPrimitive::U8)).render(), "[type u8]");
    assert_eq!(RsPointer::new(prim(RsPrimitive::U8), true).render(), "pointer (*mut type u8)");
    assert_eq!(RsPointer::new(prim(RsPrimitive::U8), false).render(), "pointer (*const type u8)");
    assert_eq!(RsTuple::new(vec![prim(RsPrimitive::U8), prim(RsPrimitive::I8)]).render(), "tuple (type u8, type i8)");
    assert_eq!(RsTuple::new(vec![]).render(), "tuple ()");
    let nested = RsType::Pointer(RsPointer::new(RsType::Array(RsArray::new(prim(RsPrimitive::F32), 12)), true));
    assert_eq!(nested.render(), "type pointer (*mut type [type f32; 12])");
}

#[test]
fn a_module_record_is_written_with_its_counts() {
    assert_eq!(RsModuleType::CrateModule.render(), "crate");
    assert_eq!(RsModuleType::SubModule { parent: "lib".to_string() }.render(), "submodule of lib");
    let types = vec![
        RsType::Struct(RsStruct::new("S".to_string(), vec![])),
        RsType::Func(RsFn::new("f".to_string(), vec![], prim(RsPrimitive::Unit))),
        RsType::Func(RsFn::new("g".to_string(), vec![], prim(RsPrimitive::Unit))),
    ];
    let m = RsModule::new("lib".to_string(), RsModuleType::CrateModule, vec![], types);
    assert_eq!(m.render(), "crate lib (#structs: 1, #enums: 0, $funcs: 2)");
    let sub = RsModule::new("m".to_string(), RsModuleType::SubModule { parent: "lib".to_string() }, vec![], vec![]);
    assert_eq!(sub.render(), "submodule of lib m (#structs: 0, #enums: 0, $funcs: 0)");
}

#[test]
fn clones_are_equal_to_what_they_copy() {
    let s = RsStruct::new(
        "Foo".to_string(),
        vec![RsField::new(
            "p".to_string(),
            RsType::Pointer(RsPointer::new(RsType::Tuple(RsTuple::new(vec![prim(RsPrimitive::I8)])), false)),
        )],
    );
    let e = RsEnum::new("E".to_string(), vec![RsVariant::new("A".to_string(), vec![field("0", RsPrimitive::U8)])]);
    let f = RsFn::new("f".to_string(), vec![field("a", RsPrimitive::U8)], RsType::Slice(RsSlice::new(prim(RsPrimitive::U8))));
    let a = RsArray::new(RsType::Struct(s.clone()), 3);
    assert_eq!(s.clone(), s);
    assert_eq!(e.clone(), e);
    assert_eq!(e.variants[0].clone(), e.variants[0]);
    assert_eq!(f.clone(), f);
    assert_eq!(f.args[0].clone(), f.args[0]);
    assert_eq!(a.clone(), a);
    let all = RsType::Tuple(RsTuple::new(vec![
        RsType::Struct(s),
        RsType::Enum(e),
        RsType::Func(f),
        RsType::Array(a),
    ]));
    assert_eq!(all.clone(), all);
    assert_eq!(RsModuleType::SubModule { parent: "p".to_string() }.clone(), RsModuleType::SubModule { parent: "p".to_string() });
}

#[test]
fn each_kind_of_type_converts_into_a_type() {
    let s = RsStruct::new("S".to_string(), vec![]);
    assert_eq!(RsType::from(s.clone()), RsType::Struct(s));
    let e = RsEnum::new("E".to_string(), vec![]);
    assert_eq!(RsType::from(e.clone()), RsType::Enum(e));
    let f = RsFn::new("f".to_string(), vec![], prim(RsPrimitive::Unit));
    assert_eq!(RsType::from(f.clone()), RsType::Func(f));
    let a = RsArray::new(prim(RsPrimitive::U8), 2);
    assert_eq!(RsType::from(a.clone()), RsType::Array(a));
    let p = RsPointer::new(prim(RsPrimitive::U8), true);
    assert_eq!(RsType::from(p.clone()), RsType::Pointer(p));
    let t = RsTuple::new(vec![]);
    assert_eq!(RsType::from(t.clone()), RsType::Tuple(t));
    let l = RsSlice::new(prim(RsPrimitive::U8));
    assert_eq!(RsType::from(l.clone()), RsType::Slice(l));
    let converted: RsType = RsPrimitive::Bool.into();
    assert_eq!(converted, prim(RsPrimitive::Bool));
}

#[test]
fn a_variant_on_its_own_is_a_type() {
    let v = RsVariant::new("Circle".to_string(), vec![field("0", RsPrimitive::F64)]);
    let ty = RsType::from(v.clone());
    assert_eq!(ty, RsType::Variant(v.clone()));
    assert_eq!(ty.render(), "type Circle (0: type f64)");
    assert_eq!(ty.clone(), ty);
}
