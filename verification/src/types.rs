//! The type model: a closed, recursive description of the types that can
//! cross the foreign-function boundary, with a mathematical view of each.
use vstd::prelude::*;
use crate::names::{NameCase, Named};

verus! {

/// A primitive type of the source language.
#[derive(Debug, Clone, Copy, PartialEq, Eq, Hash, Structural)]
pub enum RsPrimitive {
    /// `i8`
    I8,
    /// `i16`
    I16,
    /// `i32`
    I32,
    /// `i64`
    I64,
    /// `i128`
    I128,
    /// `u8`
    U8,
    /// `u16`
    U16,
    /// `u32`
    U32,
    /// `u64`
    U64,
    /// `u128`
    U128,
    /// `f32`
    F32,
    /// `f64`
    F64,
    /// `bool`
    Bool,
    /// `char`
    Char,
    /// `str`
    Str,
    /// `String`
    String,
    /// `()`
    Unit,
}

/// A struct: its name and its fields in declaration order.
#[derive(Debug, PartialEq, Eq, Hash)]
pub struct RsStruct {
    /// The name, as declared.
    pub name: String,
    /// The fields, in declaration order.
    pub fields: Vec<RsField>,
}

/// A named, typed member of a struct, of a variant or of an argument list.
#[derive(Debug, PartialEq, Eq, Hash)]
pub struct RsField {
    /// The name; never empty in a field that a conversion produced.
    pub name: String,
    /// The type.
    pub ty: RsType,
}

/// An enum: its name and its variants in declaration order.
#[derive(Debug, PartialEq, Eq, Hash)]
pub struct RsEnum {
    /// The name, as declared.
    pub name: String,
    /// The variants, in declaration order.
    pub variants: Vec<RsVariant>,
}

/// A variant of an enum. Positional fields carry the names `0`, `1`, ….
#[derive(Debug, PartialEq, Eq, Hash)]
pub struct RsVariant {
    /// The name, as declared.
    pub name: String,
    /// The fields, in declaration order.
    pub fields: Vec<RsField>,
}

/// A function signature.
#[derive(Debug, PartialEq, Eq, Hash)]
pub struct RsFn {
    /// The name, as declared.
    pub name: String,
    /// The arguments, in declaration order.
    pub args: Vec<RsField>,
    /// The return type; the unit primitive where the source gives none.
    pub ret: Box<RsType>,
}

/// A fixed-size array.
#[derive(Debug, PartialEq, Eq, Hash)]
pub struct RsArray {
    /// The element type.
    pub ty: Box<RsType>,
    /// The number of elements.
    pub len: usize,
}

/// A pointer, or a nullable handle.
#[derive(Debug, PartialEq, Eq, Hash)]
pub struct RsPointer {
    /// The type pointed to.
    pub ty: Box<RsType>,
    /// Whether the pointee may be written through the pointer.
    pub mutable: bool,
}

/// A tuple.
#[derive(Debug, PartialEq, Eq, Hash)]
pub struct RsTuple {
    /// The element types, in order.
    pub types: Vec<RsType>,
}

/// A slice.
#[derive(Debug, PartialEq, Eq, Hash)]
pub struct RsSlice {
    /// The element type.
    pub ty: Box<RsType>,
}

/// A representable type.
#[derive(Debug, PartialEq, Eq, Hash)]
pub enum RsType {
    /// A struct.
    Struct(RsStruct),
    /// An enum.
    Enum(RsEnum),
    /// A variant of an enum, on its own.
    Variant(RsVariant),
    /// A primitive.
    Primitive(RsPrimitive),
    /// A tuple.
    Tuple(RsTuple),
    /// A fixed-size array.
    Array(RsArray),
    /// A slice.
    Slice(RsSlice),
    /// A function signature.
    Func(RsFn),
    /// A pointer.
    Pointer(RsPointer),
}

/// The mathematical value of a type.
pub enum TypeModel {
    /// A primitive.
    Primitive(RsPrimitive),
    /// A struct.
    Struct { name: Seq<char>, fields: Seq<FieldModel> },
    /// An enum.
    Enum { name: Seq<char>, variants: Seq<VariantModel> },
    /// A variant of an enum, on its own.
    Variant { name: Seq<char>, fields: Seq<FieldModel> },
    /// A tuple.
    Tuple { elements: Seq<TypeModel> },
    /// A fixed-size array.
    Array { element: Box<TypeModel>, length: nat },
    /// A slice.
    Slice { element: Box<TypeModel> },
    /// A function signature.
    Function { name: Seq<char>, args: Seq<FieldModel>, ret: Box<TypeModel> },
    /// A pointer.
    Pointer { pointee: Box<TypeModel>, mutable: bool },
}

/// The mathematical value of a field.
pub struct FieldModel {
    pub name: Seq<char>,
    pub ty: TypeModel,
}

/// The mathematical value of a variant.
pub struct VariantModel {
    pub name: Seq<char>,
    pub fields: Seq<FieldModel>,
}

/// The value of `t`.
pub open spec fn type_model(t: RsType) -> TypeModel
    decreases t,
{
    match t {
        RsType::Struct(s) => TypeModel::Struct { name: s.name@, fields: fields_model(s.fields@) },
        RsType::Enum(e) => TypeModel::Enum {
            name: e.name@,
            variants: variants_model(e.variants@),
        },
        RsType::Variant(v) => TypeModel::Variant { name: v.name@, fields: fields_model(v.fields@) },
        RsType::Primitive(p) => TypeModel::Primitive(p),
        RsType::Tuple(t) => TypeModel::Tuple { elements: types_model(t.types@) },
        RsType::Array(a) => TypeModel::Array {
            element: Box::new(type_model(*a.ty)),
            length: a.len as nat,
        },
        RsType::Slice(s) => TypeModel::Slice { element: Box::new(type_model(*s.ty)) },
        RsType::Func(f) => TypeModel::Function {
            name: f.name@,
            args: fields_model(f.args@),
            ret: Box::new(type_model(*f.ret)),
        },
        RsType::Pointer(p) => TypeModel::Pointer {
            pointee: Box::new(type_model(*p.ty)),
            mutable: p.mutable,
        },
    }
}

/// The value of `f`.
pub open spec fn field_model(f: RsField) -> FieldModel
    decreases f,
{
    FieldModel { name: f.name@, ty: type_model(f.ty) }
}

/// The value of `v`.
pub open spec fn variant_model(v: RsVariant) -> VariantModel
    decreases v,
{
    VariantModel { name: v.name@, fields: fields_model(v.fields@) }
}

/// The values of `ts`, in order.
pub open spec fn types_model(ts: Seq<RsType>) -> Seq<TypeModel>
    decreases ts,
{
    Seq::new(
        ts.len(),
        |i: int|
            if 0 <= i < ts.len() {
                type_model(ts[i])
            } else {
                TypeModel::Primitive(RsPrimitive::Unit)
            },
    )
}

/// The values of `fs`, in order.
pub open spec fn fields_model(fs: Seq<RsField>) -> Seq<FieldModel>
    decreases fs,
{
    Seq::new(
        fs.len(),
        |i: int|
            if 0 <= i < fs.len() {
                field_model(fs[i])
            } else {
                FieldModel { name: Seq::empty(), ty: TypeModel::Primitive(RsPrimitive::Unit) }
            },
    )
}

/// The values of `vs`, in order.
pub open spec fn variants_model(vs: Seq<RsVariant>) -> Seq<VariantModel>
    decreases vs,
{
    Seq::new(
        vs.len(),
        |i: int|
            if 0 <= i < vs.len() {
                variant_model(vs[i])
            } else {
                VariantModel { name: Seq::empty(), fields: Seq::empty() }
            },
    )
}

impl View for RsType {
    type V = TypeModel;

    open spec fn view(&self) -> TypeModel {
        type_model(*self)
    }
}

impl View for RsField {
    type V = FieldModel;

    open spec fn view(&self) -> FieldModel {
        field_model(*self)
    }
}

impl View for RsVariant {
    type V = VariantModel;

    open spec fn view(&self) -> VariantModel {
        variant_model(*self)
    }
}

impl View for RsStruct {
    type V = TypeModel;

    open spec fn view(&self) -> TypeModel {
        TypeModel::Struct { name: self.name@, fields: fields_model(self.fields@) }
    }
}

impl View for RsEnum {
    type V = TypeModel;

    open spec fn view(&self) -> TypeModel {
        TypeModel::Enum { name: self.name@, variants: variants_model(self.variants@) }
    }
}

impl View for RsFn {
    type V = TypeModel;

    open spec fn view(&self) -> TypeModel {
        TypeModel::Function {
            name: self.name@,
            args: fields_model(self.args@),
            ret: Box::new(type_model(*self.ret)),
        }
    }
}

impl View for RsArray {
    type V = TypeModel;

    open spec fn view(&self) -> TypeModel {
        TypeModel::Array { element: Box::new(type_model(*self.ty)), length: self.len as nat }
    }
}

impl View for RsPointer {
    type V = TypeModel;

    open spec fn view(&self) -> TypeModel {
        TypeModel::Pointer { pointee: Box::new(type_model(*self.ty)), mutable: self.mutable }
    }
}

impl View for RsTuple {
    type V = TypeModel;

    open spec fn view(&self) -> TypeModel {
        TypeModel::Tuple { elements: types_model(self.types@) }
    }
}

impl View for RsSlice {
    type V = TypeModel;

    open spec fn view(&self) -> TypeModel {
        TypeModel::Slice { element: Box::new(type_model(*self.ty)) }
    }
}

impl Named for RsStruct {
    open spec fn name_model(&self) -> Seq<char> {
        self.name@
    }

    open spec fn case_model(&self) -> NameCase {
        NameCase::Pascal
    }

    fn stored_name(&self) -> (r: String) {
        self.name.clone()
    }

    fn stored_case(&self) -> (r: NameCase) {
        NameCase::Pascal
    }
}

impl Named for RsEnum {
    open spec fn name_model(&self) -> Seq<char> {
        self.name@
    }

    open spec fn case_model(&self) -> NameCase {
        NameCase::Pascal
    }

    fn stored_name(&self) -> (r: String) {
        self.name.clone()
    }

    fn stored_case(&self) -> (r: NameCase) {
        NameCase::Pascal
    }
}

impl Named for RsVariant {
    open spec fn name_model(&self) -> Seq<char> {
        self.name@
    }

    open spec fn case_model(&self) -> NameCase {
        NameCase::Pascal
    }

    fn stored_name(&self) -> (r: String) {
        self.name.clone()
    }

    fn stored_case(&self) -> (r: NameCase) {
        NameCase::Pascal
    }
}

impl Named for RsField {
    open spec fn name_model(&self) -> Seq<char> {
        self.name@
    }

    open spec fn case_model(&self) -> NameCase {
        NameCase::Snake
    }

    fn stored_name(&self) -> (r: String) {
        self.name.clone()
    }

    fn stored_case(&self) -> (r: NameCase) {
        NameCase::Snake
    }
}

impl Named for RsFn {
    open spec fn name_model(&self) -> Seq<char> {
        self.name@
    }

    open spec fn case_model(&self) -> NameCase {
        NameCase::Snake
    }

    fn stored_name(&self) -> (r: String) {
        self.name.clone()
    }

    fn stored_case(&self) -> (r: NameCase) {
        NameCase::Snake
    }
}

impl RsStruct {
    /// A struct with this name and these fields.
    pub fn new(name: String, fields: Vec<RsField>) -> (r: Self)
        ensures
            r.name == name,
            r.fields == fields,
    {
        Self { name, fields }
    }
}

impl RsField {
    /// A field with this name and this type.
    pub fn new(name: String, ty: RsType) -> (r: Self)
        ensures
            r.name == name,
            r.ty == ty,
    {
        Self { name, ty }
    }
}

impl RsEnum {
    /// An enum with this name and these variants.
    pub fn new(name: String, variants: Vec<RsVariant>) -> (r: Self)
        ensures
            r.name == name,
            r.variants == variants,
    {
        Self { name, variants }
    }
}

impl RsVariant {
    /// A variant with this name and these fields.
    pub fn new(name: String, fields: Vec<RsField>) -> (r: Self)
        ensures
            r.name == name,
            r.fields == fields,
    {
        Self { name, fields }
    }
}

impl RsFn {
    /// A function with this name, these arguments and this return type.
    pub fn new(name: String, args: Vec<RsField>, ret: RsType) -> (r: Self)
        ensures
            r.name == name,
            r.args == args,
            *r.ret == ret,
    {
        Self { name, args, ret: Box::new(ret) }
    }
}

impl RsArray {
    /// An array of `len` elements of type `ty`.
    pub fn new(ty: RsType, len: usize) -> (r: Self)
        ensures
            *r.ty == ty,
            r.len == len,
    {
        Self { ty: Box::new(ty), len }
    }
}

impl RsPointer {
    /// A pointer to `ty`.
    pub fn new(ty: RsType, mutable: bool) -> (r: Self)
        ensures
            *r.ty == ty,
            r.mutable == mutable,
    {
        Self { ty: Box::new(ty), mutable }
    }
}

impl RsTuple {
    /// A tuple of these types.
    pub fn new(types: Vec<RsType>) -> (r: Self)
        ensures
            r.types == types,
    {
        Self { types }
    }
}

impl RsSlice {
    /// A slice of elements of type `ty`.
    pub fn new(ty: RsType) -> (r: Self)
        ensures
            *r.ty == ty,
    {
        Self { ty: Box::new(ty) }
    }
}

impl From<RsStruct> for RsType {
    fn from(s: RsStruct) -> (r: Self) {
        RsType::Struct(s)
    }
}

impl vstd::std_specs::convert::FromSpecImpl<RsStruct> for RsType {
    open spec fn obeys_from_spec() -> bool {
        true
    }

    open spec fn from_spec(s: RsStruct) -> Self {
        RsType::Struct(s)
    }
}

impl From<RsEnum> for RsType {
    fn from(e: RsEnum) -> (r: Self) {
        RsType::Enum(e)
    }
}

impl vstd::std_specs::convert::FromSpecImpl<RsEnum> for RsType {
    open spec fn obeys_from_spec() -> bool {
        true
    }

    open spec fn from_spec(e: RsEnum) -> Self {
        RsType::Enum(e)
    }
}

impl From<RsVariant> for RsType {
    fn from(v: RsVariant) -> (r: Self) {
        RsType::Variant(v)
    }
}

impl vstd::std_specs::convert::FromSpecImpl<RsVariant> for RsType {
    open spec fn obeys_from_spec() -> bool {
        true
    }

    open spec fn from_spec(v: RsVariant) -> Self {
        RsType::Variant(v)
    }
}

impl From<RsPrimitive> for RsType {
    fn from(p: RsPrimitive) -> (r: Self) {
        RsType::Primitive(p)
    }
}

impl vstd::std_specs::convert::FromSpecImpl<RsPrimitive> for RsType {
    open spec fn obeys_from_spec() -> bool {
        true
    }

    open spec fn from_spec(p: RsPrimitive) -> Self {
        RsType::Primitive(p)
    }
}

impl From<RsTuple> for RsType {
    fn from(t: RsTuple) -> (r: Self) {
        RsType::Tuple(t)
    }
}

impl vstd::std_specs::convert::FromSpecImpl<RsTuple> for RsType {
    open spec fn obeys_from_spec() -> bool {
        true
    }

    open spec fn from_spec(t: RsTuple) -> Self {
        RsType::Tuple(t)
    }
}

impl From<RsArray> for RsType {
    fn from(a: RsArray) -> (r: Self) {
        RsType::Array(a)
    }
}

impl vstd::std_specs::convert::FromSpecImpl<RsArray> for RsType {
    open spec fn obeys_from_spec() -> bool {
        true
    }

    open spec fn from_spec(a: RsArray) -> Self {
        RsType::Array(a)
    }
}

impl From<RsSlice> for RsType {
    fn from(s: RsSlice) -> (r: Self) {
        RsType::Slice(s)
    }
}

impl vstd::std_specs::convert::FromSpecImpl<RsSlice> for RsType {
    open spec fn obeys_from_spec() -> bool {
        true
    }

    open spec fn from_spec(s: RsSlice) -> Self {
        RsType::Slice(s)
    }
}

impl From<RsFn> for RsType {
    fn from(f: RsFn) -> (r: Self) {
        RsType::Func(f)
    }
}

impl vstd::std_specs::convert::FromSpecImpl<RsFn> for RsType {
    open spec fn obeys_from_spec() -> bool {
        true
    }

    open spec fn from_spec(f: RsFn) -> Self {
        RsType::Func(f)
    }
}

impl From<RsPointer> for RsType {
    fn from(p: RsPointer) -> (r: Self) {
        RsType::Pointer(p)
    }
}

impl vstd::std_specs::convert::FromSpecImpl<RsPointer> for RsType {
    open spec fn obeys_from_spec() -> bool {
        true
    }

    open spec fn from_spec(p: RsPointer) -> Self {
        RsType::Pointer(p)
    }
}

fn clone_type(t: &RsType) -> (r: RsType)
    ensures
        r@ == t@,
    decreases t, 0nat,
{
    match t {
        RsType::Struct(s) => RsType::Struct(
            RsStruct { name: s.name.clone(), fields: clone_fields(&s.fields) },
        ),
        RsType::Enum(e) => RsType::Enum(
            RsEnum { name: e.name.clone(), variants: clone_variants(&e.variants) },
        ),
        RsType::Variant(v) => RsType::Variant(
            RsVariant { name: v.name.clone(), fields: clone_fields(&v.fields) },
        ),
        RsType::Primitive(p) => RsType::Primitive(*p),
        RsType::Tuple(t) => RsType::Tuple(RsTuple { types: clone_types(&t.types) }),
        RsType::Array(a) => RsType::Array(RsArray { ty: Box::new(clone_type(&a.ty)), len: a.len }),
        RsType::Slice(s) => RsType::Slice(RsSlice { ty: Box::new(clone_type(&s.ty)) }),
        RsType::Func(f) => RsType::Func(
            RsFn {
                name: f.name.clone(),
                args: clone_fields(&f.args),
                ret: Box::new(clone_type(&f.ret)),
            },
        ),
        RsType::Pointer(p) => RsType::Pointer(
            RsPointer { ty: Box::new(clone_type(&p.ty)), mutable: p.mutable },
        ),
    }
}

fn clone_types(ts: &Vec<RsType>) -> (r: Vec<RsType>)
    ensures
        types_model(r@) == types_model(ts@),
    decreases ts, 1nat,
{
    let mut out: Vec<RsType> = Vec::new();
    let mut i: usize = 0;
    while i < ts.len()
        invariant
            i <= ts.len(),
            out.len() == i,
            forall|k: int| 0 <= k < i ==> (#[trigger] out@[k])@ == ts@[k]@,
        decreases ts.len() - i,
    {
        out.push(clone_type(&ts[i]));
        i += 1;
    }
    out
}

fn clone_field(f: &RsField) -> (r: RsField)
    ensures
        r@ == f@,
    decreases f, 0nat,
{
    RsField { name: f.name.clone(), ty: clone_type(&f.ty) }
}

fn clone_fields(fs: &Vec<RsField>) -> (r: Vec<RsField>)
    ensures
        fields_model(r@) == fields_model(fs@),
    decreases fs, 1nat,
{
    let mut out: Vec<RsField> = Vec::new();
    let mut i: usize = 0;
    while i < fs.len()
        invariant
            i <= fs.len(),
            out.len() == i,
            forall|k: int| 0 <= k < i ==> (#[trigger] out@[k])@ == fs@[k]@,
        decreases fs.len() - i,
    {
        out.push(clone_field(&fs[i]));
        i += 1;
    }
    out
}

fn clone_variant(v: &RsVariant) -> (r: RsVariant)
    ensures
        r@ == v@,
    decreases v, 2nat,
{
    RsVariant { name: v.name.clone(), fields: clone_fields(&v.fields) }
}

fn clone_variants(vs: &Vec<RsVariant>) -> (r: Vec<RsVariant>)
    ensures
        variants_model(r@) == variants_model(vs@),
    decreases vs, 3nat,
{
    let mut out: Vec<RsVariant> = Vec::new();
    let mut i: usize = 0;
    while i < vs.len()
        invariant
            i <= vs.len(),
            out.len() == i,
            forall|k: int| 0 <= k < i ==> (#[trigger] out@[k])@ == vs@[k]@,
        decreases vs.len() - i,
    {
        out.push(clone_variant(&vs[i]));
        i += 1;
    }
    out
}

impl Clone for RsType {
    fn clone(&self) -> (r: Self)
        ensures
            r@ == self@,
    {
        clone_type(self)
    }
}

impl Clone for RsField {
    fn clone(&self) -> (r: Self)
        ensures
            r@ == self@,
    {
        clone_field(self)
    }
}

impl Clone for RsVariant {
    fn clone(&self) -> (r: Self)
        ensures
            r@ == self@,
    {
        clone_variant(self)
    }
}

impl Clone for RsStruct {
    fn clone(&self) -> (r: Self)
        ensures
            r@ == self@,
    {
        RsStruct { name: self.name.clone(), fields: clone_fields(&self.fields) }
    }
}

impl Clone for RsEnum {
    fn clone(&self) -> (r: Self)
        ensures
            r@ == self@,
    {
        RsEnum { name: self.name.clone(), variants: clone_variants(&self.variants) }
    }
}

impl Clone for RsFn {
    fn clone(&self) -> (r: Self)
        ensures
            r@ == self@,
    {
        RsFn {
            name: self.name.clone(),
            args: clone_fields(&self.args),
            ret: Box::new(clone_type(&self.ret)),
        }
    }
}

impl Clone for RsArray {
    fn clone(&self) -> (r: Self)
        ensures
            r@ == self@,
    {
        RsArray { ty: Box::new(clone_type(&self.ty)), len: self.len }
    }
}

impl Clone for RsPointer {
    fn clone(&self) -> (r: Self)
        ensures
            r@ == self@,
    {
        RsPointer { ty: Box::new(clone_type(&self.ty)), mutable: self.mutable }
    }
}

impl Clone for RsTuple {
    fn clone(&self) -> (r: Self)
        ensures
            r@ == self@,
    {
        RsTuple { types: clone_types(&self.types) }
    }
}

impl Clone for RsSlice {
    fn clone(&self) -> (r: Self)
        ensures
            r@ == self@,
    {
        RsSlice { ty: Box::new(clone_type(&self.ty)) }
    }
}

} // verus!
