use flusty::config::{Config, DEFAULT_CONFIG_DIR, DEFAULT_DART_OUT, DEFAULT_RUST_ENTRY};
use flusty::conversion::{DartConversionErr, ToDartAnnotation, ToDartFfi};
use flusty::types::{
    RsEnum, RsField, RsFn, RsPointer, RsPrimitive, RsStruct, RsTuple, RsType, RsVariant,
};

fn prim(p: RsPrimitive) -> RsType {
    RsType::Primitive(p)
}

#[test]
fn the_words_of_the_primitives() {
    let table = [
        (RsPrimitive::I8, Some("ffi.Int8"), Some("@Int8()")),
        (RsPrimitive::I16, Some("ffi.Int16"), Some("@Int16()")),
        (RsPrimitive::I32, Some("ffi.Int32"), Some("@Int32()")),
        (RsPrimitive::I64, Some("ffi.Int64"), Some("@Int64()")),
        (RsPrimitive::I128, None, None),
        (RsPrimitive::U8, Some("ffi.Uint8"), Some("@Uint8()")),
        (RsPrimitive::U16, Some("ffi.Uint16"), Some("@Uint16()")),
        (RsPrimitive::U32, Some("ffi.Uint32"), Some("@Uint32()")),
        (RsPrimitive::U64, None, None),
        (RsPrimitive::U128, None, None),
        (RsPrimitive::F32, Some("ffi.Float"), Some("@Float()")),
        (RsPrimitive::F64, Some("ffi.Double"), Some("@Double()")),
        (RsPrimitive::Bool, Some("ffi.Bool"), Some("@Bool()")),
        (RsPrimitive::Char, Some("ffi.Char"), None),
        (RsPrimitive::Str, Some("ffi.Pointer<ffi.Utf8>"), None),
        (RsPrimitive::String, Some("ffi.String"), None),
        (RsPrimitive::Unit, Some("ffi.Void"), None),
    ];
    for (p, ffi, annotation) in table {
        match ffi {
            Some(w) => assert_eq!(p.to_dart_ffi(), Ok(w.to_string())),
            None => assert_eq!(p.to_dart_ffi(), Err(DartConversionErr::UnsupportedPrimitive(p))),
        }
        assert_eq!(p.to_dart_annotation().as_deref(), annotation);
        assert_eq!(prim(p).to_dart_annotation().as_deref(), annotation);
        assert_eq!(prim(p).to_dart_ffi().ok().as_deref(), ffi);
    }
}

#[test]
fn a_pointer_is_named_after_what_it_points_to() {
    let p = RsType::Pointer(RsPointer::new(prim(RsPrimitive::I32), true));
    assert_eq!(p.to_dart_ffi(), Ok("ffi.Pointer<ffi.Int32>".to_string()));
    assert_eq!(p.to_dart_annotation().as_deref(), Some("@Int32()"));
    let bad = RsType::Pointer(RsPointer::new(prim(RsPrimitive::U64), true));
    assert_eq!(bad.to_dart_ffi(), Err(DartConversionErr::UnsupportedPrimitive(RsPrimitive::U64)));
}

#[test]
fn other_types_are_handed_back() {
    let t = RsType::Tuple(RsTuple::new(vec![prim(RsPrimitive::I8)]));
    assert_eq!(t.to_dart_ffi(), Err(DartConversionErr::UnsupportedType(t.clone())));
    assert_eq!(t.to_dart_annotation().as_deref(), Some("ffi.Packed"));
    let empty = RsType::Tuple(RsTuple::new(vec![]));
    assert_eq!(empty.to_dart_annotation(), None);
    let s = RsStruct::new("S".to_string(), vec![]);
    assert_eq!(s.to_dart_ffi(), Err(DartConversionErr::UnsupportedStruct(s.clone())));
    let ty = RsType::Struct(s.clone());
    assert_eq!(ty.to_dart_ffi(), Err(DartConversionErr::UnsupportedStruct(s)));
    assert_eq!(ty.to_dart_annotation(), None);
    let v = RsVariant::new("V".to_string(), vec![]);
    assert_eq!(v.to_dart_ffi(), Err(DartConversionErr::UnsupportedVariant(v.clone())));
    assert_eq!(
        RsType::Variant(v.clone()).to_dart_ffi(),
        Err(DartConversionErr::UnsupportedVariant(v.clone()))
    );
    assert_eq!(RsType::Variant(v.clone()).to_dart_annotation(), None);
    let e = RsEnum::new("E".to_string(), vec![v]);
    assert_eq!(e.to_dart_ffi(), Err(DartConversionErr::UnsupportedEnum(e.clone())));
    assert_eq!(RsType::Enum(e.clone()).to_dart_ffi(), Err(DartConversionErr::UnsupportedEnum(e)));
    let f = RsFn::new("f".to_string(), vec![], prim(RsPrimitive::Unit));
    assert_eq!(f.to_dart_ffi(), Err(DartConversionErr::UnsupportedFn(f.clone())));
    assert_eq!(RsType::Func(f.clone()).to_dart_ffi(), Err(DartConversionErr::UnsupportedFn(f)));
    let inside = RsType::Pointer(RsPointer::new(RsType::Struct(RsStruct::new("S".to_string(), vec![])), true));
    assert_eq!(
        inside.to_dart_ffi(),
        Err(DartConversionErr::UnsupportedStruct(RsStruct::new("S".to_string(), vec![])))
    );
}

#[test]
fn a_field_is_named_with_its_type() {
    let f = RsField::new("x".to_string(), prim(RsPrimitive::F64));
    assert_eq!(f.to_dart_ffi(), Ok("x ffi.Double".to_string()));
    let bad = RsField::new("x".to_string(), prim(RsPrimitive::I128));
    assert_eq!(bad.to_dart_ffi(), Err(DartConversionErr::UnsupportedPrimitive(RsPrimitive::I128)));
    let held = RsField::new("s".to_string(), RsType::Struct(RsStruct::new("S".to_string(), vec![])));
    assert_eq!(
        held.to_dart_ffi(),
        Err(DartConversionErr::UnsupportedStruct(RsStruct::new("S".to_string(), vec![])))
    );
}

#[test]
fn settings_fall_back_to_their_defaults() {
    let mut c = Config::default();
    assert_eq!(c.rust_entry(), "native/src/");
    assert_eq!(c.dart_out(), "lib/gen/");
    assert_eq!(DEFAULT_RUST_ENTRY, "native/src/");
    assert_eq!(DEFAULT_DART_OUT, "lib/gen/");
    assert_eq!(DEFAULT_CONFIG_DIR, "flusty.toml");
    c.set_rust_entry("example/native/src/");
    assert_eq!(c.rust_entry(), "example/native/src/");
    assert_eq!(c.dart_out(), "lib/gen/");
    c.set_dart_out("example/lib/flusty.dart");
    assert_eq!(c.dart_out(), "example/lib/flusty.dart");
    assert_eq!(c.clone(), c);
    assert_eq!(c.rust_entry.as_deref(), Some("example/native/src/"));
}
