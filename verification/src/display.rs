//! How the values of the type model are written for a reader.
use vstd::prelude::*;
use vstd::string::*;
use crate::module::{KindModel, RsModule, RsModuleType};
use crate::text::{join, push_decimal};
use crate::types::{
    FieldModel, RsArray, RsEnum, RsField, RsFn, RsPointer, RsPrimitive, RsSlice, RsStruct,
    RsTuple, RsType, RsVariant, TypeModel, VariantModel,
};

verus! {

/// How a type is written without the leading word `type`.
pub open spec fn bare_text(m: TypeModel) -> Seq<char>
    decreases m, 0nat,
{
    match m {
        TypeModel::Primitive(p) => crate::dart::primitive_text(p),
        TypeModel::Struct { name, fields } => "struct "@ + name + " ("@
            + crate::text::join_spec(field_texts(fields), ", "@) + ")"@,
        TypeModel::Enum { name, variants } => "enum "@ + name + " ("@ + crate::text::join_spec(
            variant_texts(variants),
            ", "@,
        ) + ")"@,
        TypeModel::Variant { name, fields } => name + " ("@ + crate::text::join_spec(
            field_texts(fields),
            ", "@,
        ) + ")"@,
        TypeModel::Tuple { elements } => "tuple ("@ + crate::text::join_spec(
            type_texts(elements),
            ", "@,
        ) + ")"@,
        TypeModel::Array { element, length } => "["@ + type_text(*element) + "; "@
            + crate::text::decimal_spec(length) + "]"@,
        TypeModel::Slice { element } => "["@ + type_text(*element) + "]"@,
        TypeModel::Function { name, args, ret } => "fn "@ + name + "("@
            + crate::text::join_spec(field_texts(args), ", "@) + ") -> "@ + type_text(*ret),
        TypeModel::Pointer { pointee, mutable } => (if mutable {
            "pointer (*mut "@
        } else {
            "pointer (*const "@
        }) + type_text(*pointee) + ")"@,
    }
}

/// How a type is written: the word `type` and the type.
pub open spec fn type_text(m: TypeModel) -> Seq<char>
    decreases m, 1nat,
{
    "type "@ + bare_text(m)
}

/// How a field is written: its name, a colon and its type.
pub open spec fn field_text(f: FieldModel) -> Seq<char>
    decreases f, 2nat,
{
    f.name + ": "@ + type_text(f.ty)
}

/// How a variant is written: its name and its fields in round brackets.
pub open spec fn variant_text(v: VariantModel) -> Seq<char>
    decreases v, 4nat,
{
    v.name + " ("@ + crate::text::join_spec(field_texts(v.fields), ", "@) + ")"@
}

/// How each of `ts` is written, in order.
pub open spec fn type_texts(ts: Seq<TypeModel>) -> Seq<Seq<char>>
    decreases ts, 2nat,
{
    Seq::new(
        ts.len(),
        |i: int|
            if 0 <= i < ts.len() {
                type_text(ts[i])
            } else {
                Seq::empty()
            },
    )
}

/// How each of `fs` is written, in order.
pub open spec fn field_texts(fs: Seq<FieldModel>) -> Seq<Seq<char>>
    decreases fs, 3nat,
{
    Seq::new(
        fs.len(),
        |i: int|
            if 0 <= i < fs.len() {
                field_text(fs[i])
            } else {
                Seq::empty()
            },
    )
}

/// How each of `vs` is written, in order.
pub open spec fn variant_texts(vs: Seq<VariantModel>) -> Seq<Seq<char>>
    decreases vs, 5nat,
{
    Seq::new(
        vs.len(),
        |i: int|
            if 0 <= i < vs.len() {
                variant_text(vs[i])
            } else {
                Seq::empty()
            },
    )
}

/// How the place of a module in the tree is written.
pub open spec fn kind_text(k: KindModel) -> Seq<char> {
    match k {
        KindModel::Root => "crate"@,
        KindModel::Sub { parent } => "submodule of "@ + parent,
    }
}

/// How a module record is written: its place, its name, and how many
/// structs, enums and functions it holds.
pub open spec fn module_text(m: RsModule) -> Seq<char> {
    kind_text(m.ty@) + " "@ + m.name@ + " (#structs: "@ + crate::text::decimal_spec(
        m.structs@.len(),
    ) + ", #enums: "@ + crate::text::decimal_spec(m.enums@.len()) + ", $funcs: "@
        + crate::text::decimal_spec(m.funcs@.len()) + ")"@
}

fn render_bare(ty: &RsType) -> (r: String)
    ensures
        r@ == bare_text(ty@),
    decreases ty, 0nat,
{
    match ty {
        RsType::Primitive(p) => p.render(),
        RsType::Struct(s) => {
            let parts = render_fields(&s.fields);
            let mut out = String::from_str("struct ");
            out.append(s.name.as_str());
            out.append(" (");
            let list = join(&parts, ", ");
            out.append(list.as_str());
            out.append(")");
            out
        },
        RsType::Enum(e) => {
            let parts = render_variants(&e.variants);
            let mut out = String::from_str("enum ");
            out.append(e.name.as_str());
            out.append(" (");
            let list = join(&parts, ", ");
            out.append(list.as_str());
            out.append(")");
            out
        },
        RsType::Variant(v) => {
            let parts = render_fields(&v.fields);
            let mut out = v.name.clone();
            out.append(" (");
            let list = join(&parts, ", ");
            out.append(list.as_str());
            out.append(")");
            out
        },
        RsType::Tuple(t) => {
            let parts = render_types(&t.types);
            let mut out = String::from_str("tuple (");
            let list = join(&parts, ", ");
            out.append(list.as_str());
            out.append(")");
            out
        },
        RsType::Array(a) => {
            let mut out = String::from_str("[");
            let inner = render_type(&a.ty);
            out.append(inner.as_str());
            out.append("; ");
            push_decimal(&mut out, a.len);
            out.append("]");
            out
        },
        RsType::Slice(s) => {
            let mut out = String::from_str("[");
            let inner = render_type(&s.ty);
            out.append(inner.as_str());
            out.append("]");
            out
        },
        RsType::Func(f) => {
            let parts = render_fields(&f.args);
            let mut out = String::from_str("fn ");
            out.append(f.name.as_str());
            out.append("(");
            let list = join(&parts, ", ");
            out.append(list.as_str());
            out.append(") -> ");
            let ret = render_type(&f.ret);
            out.append(ret.as_str());
            out
        },
        RsType::Pointer(p) => {
            let mut out = if p.mutable {
                String::from_str("pointer (*mut ")
            } else {
                String::from_str("pointer (*const ")
            };
            let inner = render_type(&p.ty);
            out.append(inner.as_str());
            out.append(")");
            out
        },
    }
}

fn render_type(ty: &RsType) -> (r: String)
    ensures
        r@ == type_text(ty@),
    decreases ty, 1nat,
{
    let mut out = String::from_str("type ");
    let inner = render_bare(ty);
    out.append(inner.as_str());
    out
}

fn render_field(f: &RsField) -> (r: String)
    ensures
        r@ == field_text(f@),
    decreases f, 2nat,
{
    let mut out = f.name.clone();
    out.append(": ");
    let ty = render_type(&f.ty);
    out.append(ty.as_str());
    out
}

fn render_types(ts: &Vec<RsType>) -> (r: Vec<String>)
    ensures
        crate::text::views_of(r@) == type_texts(crate::types::types_model(ts@)),
    decreases ts, 2nat,
{
    let mut out: Vec<String> = Vec::new();
    let mut i: usize = 0;
    while i < ts.len()
        invariant
            i <= ts.len(),
            out.len() == i,
            forall|k: int| 0 <= k < i ==> (#[trigger] out@[k])@ == type_text(ts@[k]@),
        decreases ts.len() - i,
    {
        let d = render_type(&ts[i]);
        out.push(d);
        i += 1;
    }
    out
}

fn render_fields(fs: &Vec<RsField>) -> (r: Vec<String>)
    ensures
        crate::text::views_of(r@) == field_texts(crate::types::fields_model(fs@)),
    decreases fs, 3nat,
{
    let mut out: Vec<String> = Vec::new();
    let mut i: usize = 0;
    while i < fs.len()
        invariant
            i <= fs.len(),
            out.len() == i,
            forall|k: int| 0 <= k < i ==> (#[trigger] out@[k])@ == field_text(fs@[k]@),
        decreases fs.len() - i,
    {
        let d = render_field(&fs[i]);
        out.push(d);
        i += 1;
    }
    out
}

fn render_variant(v: &RsVariant) -> (r: String)
    ensures
        r@ == variant_text(v@),
    decreases v, 4nat,
{
    let parts = render_fields(&v.fields);
    let mut out = v.name.clone();
    out.append(" (");
    let list = join(&parts, ", ");
    out.append(list.as_str());
    out.append(")");
    out
}

fn render_variants(vs: &Vec<RsVariant>) -> (r: Vec<String>)
    ensures
        crate::text::views_of(r@) == variant_texts(crate::types::variants_model(vs@)),
    decreases vs, 5nat,
{
    let mut out: Vec<String> = Vec::new();
    let mut i: usize = 0;
    while i < vs.len()
        invariant
            i <= vs.len(),
            out.len() == i,
            forall|k: int| 0 <= k < i ==> (#[trigger] out@[k])@ == variant_text(vs@[k]@),
        decreases vs.len() - i,
    {
        let d = render_variant(&vs[i]);
        out.push(d);
        i += 1;
    }
    out
}

impl RsPrimitive {
    /// The spelling of the primitive in the source language.
    pub fn render(&self) -> (r: String)
        ensures
            r@ == crate::dart::primitive_text(*self),
    {
        match self {
            RsPrimitive::I8 => String::from_str("i8"),
            RsPrimitive::I16 => String::from_str("i16"),
            RsPrimitive::I32 => String::from_str("i32"),
            RsPrimitive::I64 => String::from_str("i64"),
            RsPrimitive::I128 => String::from_str("i128"),
            RsPrimitive::U8 => String::from_str("u8"),
            RsPrimitive::U16 => String::from_str("u16"),
            RsPrimitive::U32 => String::from_str("u32"),
            RsPrimitive::U64 => String::from_str("u64"),
            RsPrimitive::U128 => String::from_str("u128"),
            RsPrimitive::F32 => String::from_str("f32"),
            RsPrimitive::F64 => String::from_str("f64"),
            RsPrimitive::Bool => String::from_str("bool"),
            RsPrimitive::Char => String::from_str("char"),
            RsPrimitive::Str => String::from_str("str"),
            RsPrimitive::String => String::from_str("String"),
            RsPrimitive::Unit => String::from_str("()"),
        }
    }
}

impl RsType {
    /// Writes the type: the word `type` and the type.
    pub fn render(&self) -> (r: String)
        ensures
            r@ == type_text(self@),
    {
        render_type(self)
    }
}

impl RsField {
    /// Writes the field: its name, a colon and its type.
    pub fn render(&self) -> (r: String)
        ensures
            r@ == field_text(self@),
    {
        render_field(self)
    }
}

impl RsVariant {
    /// Writes the variant: its name and its fields in round brackets.
    pub fn render(&self) -> (r: String)
        ensures
            r@ == variant_text(self@),
    {
        render_variant(self)
    }
}

impl RsStruct {
    /// Writes the struct: its name and its fields in round brackets.
    pub fn render(&self) -> (r: String)
        ensures
            r@ == bare_text(self@),
    {
        let parts = render_fields(&self.fields);
        let mut out = String::from_str("struct ");
        out.append(self.name.as_str());
        out.append(" (");
        let list = join(&parts, ", ");
        out.append(list.as_str());
        out.append(")");
        out
    }
}

impl RsEnum {
    /// Writes the enum: its name and its variants in round brackets.
    pub fn render(&self) -> (r: String)
        ensures
            r@ == bare_text(self@),
    {
        let parts = render_variants(&self.variants);
        let mut out = String::from_str("enum ");
        out.append(self.name.as_str());
        out.append(" (");
        let list = join(&parts, ", ");
        out.append(list.as_str());
        out.append(")");
        out
    }
}

impl RsFn {
    /// Writes the function: its name, its arguments and its return type.
    pub fn render(&self) -> (r: String)
        ensures
            r@ == bare_text(self@),
    {
        let parts = render_fields(&self.args);
        let mut out = String::from_str("fn ");
        out.append(self.name.as_str());
        out.append("(");
        let list = join(&parts, ", ");
        out.append(list.as_str());
        out.append(") -> ");
        let ret = render_type(&self.ret);
        out.append(ret.as_str());
        out
    }
}

impl RsArray {
    /// Writes the array: its element type and its length in square brackets.
    pub fn render(&self) -> (r: String)
        ensures
            r@ == bare_text(self@),
    {
        let mut out = String::from_str("[");
        let inner = render_type(&self.ty);
        out.append(inner.as_str());
        out.append("; ");
        push_decimal(&mut out, self.len);
        out.append("]");
        out
    }
}

impl RsPointer {
    /// Writes the pointer.
    pub fn render(&self) -> (r: String)
        ensures
            r@ == bare_text(self@),
    {
        let mut out = if self.mutable {
            String::from_str("pointer (*mut ")
        } else {
            String::from_str("pointer (*const ")
        };
        let inner = render_type(&self.ty);
        out.append(inner.as_str());
        out.append(")");
        out
    }
}

impl RsTuple {
    /// Writes the tuple: its element types in round brackets.
    pub fn render(&self) -> (r: String)
        ensures
            r@ == bare_text(self@),
    {
        let parts = render_types(&self.types);
        let mut out = String::from_str("tuple (");
        let list = join(&parts, ", ");
        out.append(list.as_str());
        out.append(")");
        out
    }
}

impl RsSlice {
    /// Writes the slice: its element type in square brackets.
    pub fn render(&self) -> (r: String)
        ensures
            r@ == bare_text(self@),
    {
        let mut out = String::from_str("[");
        let inner = render_type(&self.ty);
        out.append(inner.as_str());
        out.append("]");
        out
    }
}

impl RsModuleType {
    /// Writes the place of a module in the tree.
    pub fn render(&self) -> (r: String)
        ensures
            r@ == kind_text(self@),
    {
        match self {
            RsModuleType::CrateModule => String::from_str("crate"),
            RsModuleType::SubModule { parent } => {
                let mut out = String::from_str("submodule of ");
                out.append(parent.as_str());
                out
            },
        }
    }
}

impl RsModule {
    /// Writes the module record: its place, its name, and how many structs,
    /// enums and functions it holds.
    pub fn render(&self) -> (r: String)
        ensures
            r@ == module_text(*self),
    {
        let mut out = self.ty.render();
        out.append(" ");
        out.append(self.name.as_str());
        out.append(" (#structs: ");
        push_decimal(&mut out, self.structs.len());
        out.append(", #enums: ");
        push_decimal(&mut out, self.enums.len());
        out.append(", $funcs: ");
        push_decimal(&mut out, self.funcs.len());
        out.append(")");
        out
    }
}

} // verus!
