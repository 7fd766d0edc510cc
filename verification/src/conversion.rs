//! A plain bridge to the host language: one name at a time, a
//! table of annotations for the fields of a host class, and failures that
//! hold the value that has no name.
use vstd::prelude::*;
use vstd::string::*;
use crate::types::{
    RsEnum, RsField, RsFn, RsPrimitive, RsStruct, RsType, RsVariant, TypeModel,
};

verus! {

/// A value that has no name in the host language.
#[derive(Debug, PartialEq, Eq, Hash)]
pub enum DartConversionErr {
    UnsupportedType(RsType),
    UnsupportedStruct(RsStruct),
    UnsupportedEnum(RsEnum),
    UnsupportedVariant(RsVariant),
    UnsupportedFn(RsFn),
    UnsupportedPrimitive(RsPrimitive),
    UnsupportedField(RsField),
}

/// The mathematical value of a `DartConversionErr`: the value of what has no
/// name.
pub enum UnsupportedModel {
    Type(TypeModel),
    Struct(TypeModel),
    Enum(TypeModel),
    Variant(crate::types::VariantModel),
    Function(TypeModel),
    Primitive(RsPrimitive),
    Field(crate::types::FieldModel),
}

impl View for DartConversionErr {
    type V = UnsupportedModel;

    open spec fn view(&self) -> UnsupportedModel {
        match self {
            DartConversionErr::UnsupportedType(t) => UnsupportedModel::Type(t@),
            DartConversionErr::UnsupportedStruct(s) => UnsupportedModel::Struct(s@),
            DartConversionErr::UnsupportedEnum(e) => UnsupportedModel::Enum(e@),
            DartConversionErr::UnsupportedVariant(v) => UnsupportedModel::Variant(v@),
            DartConversionErr::UnsupportedFn(f) => UnsupportedModel::Function(f@),
            DartConversionErr::UnsupportedPrimitive(p) => UnsupportedModel::Primitive(*p),
            DartConversionErr::UnsupportedField(f) => UnsupportedModel::Field(f@),
        }
    }
}

/// The name of a primitive in the foreign interface of this bridge, if it
/// has one.
pub open spec fn ffi_word(p: RsPrimitive) -> Option<Seq<char>> {
    match p {
        RsPrimitive::I8 => Some("ffi.Int8"@),
        RsPrimitive::I16 => Some("ffi.Int16"@),
        RsPrimitive::I32 => Some("ffi.Int32"@),
        RsPrimitive::I64 => Some("ffi.Int64"@),
        RsPrimitive::I128 => None,
        RsPrimitive::U8 => Some("ffi.Uint8"@),
        RsPrimitive::U16 => Some("ffi.Uint16"@),
        RsPrimitive::U32 => Some("ffi.Uint32"@),
        RsPrimitive::U64 => None,
        RsPrimitive::U128 => None,
        RsPrimitive::F32 => Some("ffi.Float"@),
        RsPrimitive::F64 => Some("ffi.Double"@),
        RsPrimitive::Bool => Some("ffi.Bool"@),
        RsPrimitive::Char => Some("ffi.Char"@),
        RsPrimitive::Str => Some("ffi.Pointer<ffi.Utf8>"@),
        RsPrimitive::String => Some("ffi.String"@),
        RsPrimitive::Unit => Some("ffi.Void"@),
    }
}

/// The annotation of a field of this primitive type in a host class, if it
/// needs one.
pub open spec fn annotation_word(p: RsPrimitive) -> Option<Seq<char>> {
    match p {
        RsPrimitive::I8 => Some("@Int8()"@),
        RsPrimitive::I16 => Some("@Int16()"@),
        RsPrimitive::I32 => Some("@Int32()"@),
        RsPrimitive::I64 => Some("@Int64()"@),
        RsPrimitive::U8 => Some("@Uint8()"@),
        RsPrimitive::U16 => Some("@Uint16()"@),
        RsPrimitive::U32 => Some("@Uint32()"@),
        RsPrimitive::F32 => Some("@Float()"@),
        RsPrimitive::F64 => Some("@Double()"@),
        RsPrimitive::Bool => Some("@Bool()"@),
        _ => None,
    }
}

/// The name of a type in the foreign interface of this bridge: the word of
/// a primitive, a pointer to what a pointer points to. A struct, an enum, a
/// variant and a function have no name here, nor has any other type; each
/// is handed back in the failure.
pub open spec fn ffi_text(m: TypeModel) -> Result<Seq<char>, UnsupportedModel>
    decreases m,
{
    match m {
        TypeModel::Primitive(p) => match ffi_word(p) {
            Some(w) => Ok(w),
            None => Err(UnsupportedModel::Primitive(p)),
        },
        TypeModel::Pointer { pointee, mutable } => match ffi_text(*pointee) {
            Ok(w) => Ok("ffi.Pointer<"@ + w + ">"@),
            Err(e) => Err(e),
        },
        TypeModel::Struct { .. } => Err(UnsupportedModel::Struct(m)),
        TypeModel::Enum { .. } => Err(UnsupportedModel::Enum(m)),
        TypeModel::Variant { name, fields } => Err(
            UnsupportedModel::Variant(crate::types::VariantModel { name: name, fields: fields }),
        ),
        TypeModel::Function { .. } => Err(UnsupportedModel::Function(m)),
        _ => Err(UnsupportedModel::Type(m)),
    }
}

/// The annotation of a field of this type in a host class: that of a
/// primitive, that of what a pointer points to, `ffi.Packed` for a tuple that
/// is not empty, none for the rest.
pub open spec fn annotation_text(m: TypeModel) -> Option<Seq<char>>
    decreases m,
{
    match m {
        TypeModel::Primitive(p) => annotation_word(p),
        TypeModel::Pointer { pointee, mutable } => annotation_text(*pointee),
        TypeModel::Tuple { elements } => if elements.len() == 0 {
            None
        } else {
            Some("ffi.Packed"@)
        },
        _ => None,
    }
}

/// The value of the result of this bridge.
pub open spec fn named(r: Result<String, DartConversionErr>) -> Result<
    Seq<char>,
    UnsupportedModel,
> {
    match r {
        Ok(s) => Ok(s@),
        Err(e) => Err(e@),
    }
}

/// Something that has a name in the foreign interface.
pub trait ToDartFfi {
    /// What `to_dart_ffi` returns.
    spec fn ffi_model(&self) -> Result<Seq<char>, UnsupportedModel>;

    /// Returns the name in the foreign interface.
    fn to_dart_ffi(&self) -> (r: Result<String, DartConversionErr>)
        ensures
            named(r) == self.ffi_model(),
    ;
}

/// Something that may need an annotation as a field of a host class.
pub trait ToDartAnnotation {
    /// What `to_dart_annotation` returns.
    spec fn annotation_model(&self) -> Option<Seq<char>>;

    /// Returns the annotation, if one is needed.
    fn to_dart_annotation(&self) -> (r: Option<String>)
        ensures
            crate::error::text_of(r) == self.annotation_model(),
    ;
}

impl ToDartFfi for RsPrimitive {
    open spec fn ffi_model(&self) -> Result<Seq<char>, UnsupportedModel> {
        ffi_text(TypeModel::Primitive(*self))
    }

    fn to_dart_ffi(&self) -> (r: Result<String, DartConversionErr>) {
        match self {
            RsPrimitive::I8 => Ok(String::from_str("ffi.Int8")),
            RsPrimitive::I16 => Ok(String::from_str("ffi.Int16")),
            RsPrimitive::I32 => Ok(String::from_str("ffi.Int32")),
            RsPrimitive::I64 => Ok(String::from_str("ffi.Int64")),
            RsPrimitive::I128 => Err(DartConversionErr::UnsupportedPrimitive(RsPrimitive::I128)),
            RsPrimitive::U8 => Ok(String::from_str("ffi.Uint8")),
            RsPrimitive::U16 => Ok(String::from_str("ffi.Uint16")),
            RsPrimitive::U32 => Ok(String::from_str("ffi.Uint32")),
            RsPrimitive::U64 => Err(DartConversionErr::UnsupportedPrimitive(RsPrimitive::U64)),
            RsPrimitive::U128 => Err(DartConversionErr::UnsupportedPrimitive(RsPrimitive::U128)),
            RsPrimitive::F32 => Ok(String::from_str("ffi.Float")),
            RsPrimitive::F64 => Ok(String::from_str("ffi.Double")),
            RsPrimitive::Bool => Ok(String::from_str("ffi.Bool")),
            RsPrimitive::Char => Ok(String::from_str("ffi.Char")),
            RsPrimitive::Str => Ok(String::from_str("ffi.Pointer<ffi.Utf8>")),
            RsPrimitive::String => Ok(String::from_str("ffi.String")),
            RsPrimitive::Unit => Ok(String::from_str("ffi.Void")),
        }
    }
}

impl ToDartAnnotation for RsPrimitive {
    open spec fn annotation_model(&self) -> Option<Seq<char>> {
        annotation_word(*self)
    }

    fn to_dart_annotation(&self) -> (r: Option<String>) {
        match self {
            RsPrimitive::I8 => Some(String::from_str("@Int8()")),
            RsPrimitive::I16 => Some(String::from_str("@Int16()")),
            RsPrimitive::I32 => Some(String::from_str("@Int32()")),
            RsPrimitive::I64 => Some(String::from_str("@Int64()")),
            RsPrimitive::I128 => None,
            RsPrimitive::U8 => Some(String::from_str("@Uint8()")),
            RsPrimitive::U16 => Some(String::from_str("@Uint16()")),
            RsPrimitive::U32 => Some(String::from_str("@Uint32()")),
            RsPrimitive::U64 => None,
            RsPrimitive::U128 => None,
            RsPrimitive::F32 => Some(String::from_str("@Float()")),
            RsPrimitive::F64 => Some(String::from_str("@Double()")),
            RsPrimitive::Bool => Some(String::from_str("@Bool()")),
            RsPrimitive::Char => None,
            RsPrimitive::Str => None,
            RsPrimitive::String => None,
            RsPrimitive::Unit => None,
        }
    }
}

fn ffi_of(ty: &RsType) -> (r: Result<String, DartConversionErr>)
    ensures
        named(r) == ffi_text(ty@),
    decreases ty,
{
    match ty {
        RsType::Primitive(p) => p.to_dart_ffi(),
        RsType::Pointer(p) => match ffi_of(&p.ty) {
            Ok(w) => {
                let mut out = String::from_str("ffi.Pointer<");
                out.append(w.as_str());
                out.append(">");
                Ok(out)
            },
            Err(e) => Err(e),
        },
        RsType::Struct(s) => s.to_dart_ffi(),
        RsType::Enum(e) => e.to_dart_ffi(),
        RsType::Variant(v) => v.to_dart_ffi(),
        RsType::Func(f) => f.to_dart_ffi(),
        _ => Err(DartConversionErr::UnsupportedType(ty.clone())),
    }
}

impl ToDartFfi for RsStruct {
    open spec fn ffi_model(&self) -> Result<Seq<char>, UnsupportedModel> {
        Err(UnsupportedModel::Struct(self@))
    }

    fn to_dart_ffi(&self) -> (r: Result<String, DartConversionErr>) {
        Err(DartConversionErr::UnsupportedStruct(self.clone()))
    }
}

impl ToDartFfi for RsEnum {
    open spec fn ffi_model(&self) -> Result<Seq<char>, UnsupportedModel> {
        Err(UnsupportedModel::Enum(self@))
    }

    fn to_dart_ffi(&self) -> (r: Result<String, DartConversionErr>) {
        Err(DartConversionErr::UnsupportedEnum(self.clone()))
    }
}

impl ToDartFfi for RsVariant {
    open spec fn ffi_model(&self) -> Result<Seq<char>, UnsupportedModel> {
        Err(UnsupportedModel::Variant(self@))
    }

    fn to_dart_ffi(&self) -> (r: Result<String, DartConversionErr>) {
        Err(DartConversionErr::UnsupportedVariant(self.clone()))
    }
}

impl ToDartFfi for RsFn {
    open spec fn ffi_model(&self) -> Result<Seq<char>, UnsupportedModel> {
        Err(UnsupportedModel::Function(self@))
    }

    fn to_dart_ffi(&self) -> (r: Result<String, DartConversionErr>) {
        Err(DartConversionErr::UnsupportedFn(self.clone()))
    }
}

fn annotation_of(ty: &RsType) -> (r: Option<String>)
    ensures
        crate::error::text_of(r) == annotation_text(ty@),
    decreases ty,
{
    match ty {
        RsType::Primitive(p) => p.to_dart_annotation(),
        RsType::Pointer(p) => annotation_of(&p.ty),
        RsType::Tuple(t) => {
            if t.types.len() == 0 {
                assert(crate::types::types_model(t.types@).len() == 0);
                None
            } else {
                assert(crate::types::types_model(t.types@).len() > 0);
                Some(String::from_str("ffi.Packed"))
            }
        },
        _ => None,
    }
}

impl ToDartFfi for RsType {
    open spec fn ffi_model(&self) -> Result<Seq<char>, UnsupportedModel> {
        ffi_text(self@)
    }

    fn to_dart_ffi(&self) -> (r: Result<String, DartConversionErr>) {
        ffi_of(self)
    }
}

impl ToDartAnnotation for RsType {
    open spec fn annotation_model(&self) -> Option<Seq<char>> {
        annotation_text(self@)
    }

    fn to_dart_annotation(&self) -> (r: Option<String>) {
        annotation_of(self)
    }
}

impl ToDartFfi for RsField {
    open spec fn ffi_model(&self) -> Result<Seq<char>, UnsupportedModel> {
        match ffi_text(self@.ty) {
            Ok(w) => Ok(self@.name + " "@ + w),
            Err(e) => Err(e),
        }
    }

    fn to_dart_ffi(&self) -> (r: Result<String, DartConversionErr>) {
        match self.ty.to_dart_ffi() {
            Ok(w) => {
                let mut out = self.name.clone();
                out.append(" ");
                out.append(w.as_str());
                Ok(out)
            },
            Err(e) => Err(e),
        }
    }
}

} // verus!
