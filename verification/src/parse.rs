//! Reading source text: the parser of the `syn` crate is called on the text,
//! and what it returns is walked node by node into the syntax model.
//!
//! The parser's values are opaque here. Each node is taken apart by a small
//! function that is trusted to hand out the node's parts unchanged. The
//! functions that read a node from its parts are verified: each says which
//! form comes out for which form, how many members it has, and which of the
//! plain parts it keeps. What the text of an identifier is, or where a span
//! lies, is the parser's answer and is not stated. Which texts the parser
//! accepts depends on the text alone and is named.
use vstd::prelude::*;
use vstd::string::*;
use syn::spanned::Spanned;
use crate::error::{RsPosition, RsSpan};
use crate::raw::{
    RawArg, RawAttr, RawAttrForm, RawEnum, RawField, RawFile, RawFn, RawForm, RawGenericArg,
    RawItem, RawLen, RawMod, RawPathArgs, RawSegment, RawStruct, RawType, RawVariant,
};

verus! {

/// `syn::File`, declared so that it can be named; nothing inside it is seen.
#[verifier::external_type_specification]
#[verifier::external_body]
pub struct ExFile(syn::File);

/// `syn::Item`, declared so that it can be named; nothing inside it is seen.
#[verifier::external_type_specification]
#[verifier::external_body]
pub struct ExItem(syn::Item);

/// `syn::ItemMod`, declared so that it can be named; nothing inside it is seen.
#[verifier::external_type_specification]
#[verifier::external_body]
pub struct ExItemMod(syn::ItemMod);

/// `syn::ItemFn`, declared so that it can be named; nothing inside it is seen.
#[verifier::external_type_specification]
#[verifier::external_body]
pub struct ExItemFn(syn::ItemFn);

/// `syn::ItemStruct`, declared so that it can be named; nothing inside it is seen.
#[verifier::external_type_specification]
#[verifier::external_body]
pub struct ExItemStruct(syn::ItemStruct);

/// `syn::ItemEnum`, declared so that it can be named; nothing inside it is seen.
#[verifier::external_type_specification]
#[verifier::external_body]
pub struct ExItemEnum(syn::ItemEnum);

/// `syn::Variant`, declared so that it can be named; nothing inside it is seen.
#[verifier::external_type_specification]
#[verifier::external_body]
pub struct ExVariant(syn::Variant);

/// `syn::Field`, declared so that it can be named; nothing inside it is seen.
#[verifier::external_type_specification]
#[verifier::external_body]
pub struct ExField(syn::Field);

/// `syn::FnArg`, declared so that it can be named; nothing inside it is seen.
#[verifier::external_type_specification]
#[verifier::external_body]
pub struct ExFnArg(syn::FnArg);

/// `syn::Attribute`, declared so that it can be named; nothing inside it is seen.
#[verifier::external_type_specification]
#[verifier::external_body]
pub struct ExAttribute(syn::Attribute);

/// `syn::Visibility`, declared so that it can be named; nothing inside it is seen.
#[verifier::external_type_specification]
#[verifier::external_body]
pub struct ExVisibility(syn::Visibility);

/// `syn::Type`, declared so that it can be named; nothing inside it is seen.
#[verifier::external_type_specification]
#[verifier::external_body]
pub struct ExType(syn::Type);

/// `syn::Expr`, declared so that it can be named; nothing inside it is seen.
#[verifier::external_type_specification]
#[verifier::external_body]
pub struct ExExpr(syn::Expr);

/// `syn::PathSegment`, declared so that it can be named; nothing inside it is seen.
#[verifier::external_type_specification]
#[verifier::external_body]
pub struct ExPathSegment(syn::PathSegment);

/// `syn::GenericArgument`, declared so that it can be named; nothing inside it is seen.
#[verifier::external_type_specification]
#[verifier::external_body]
pub struct ExGenericArgument(syn::GenericArgument);

/// `proc_macro2::Ident`, declared so that it can be named; nothing inside it is seen.
#[verifier::external_type_specification]
#[verifier::external_body]
pub struct ExIdent(proc_macro2::Ident);

/// `proc_macro2::Span`, declared so that it can be named; nothing inside it is seen.
#[verifier::external_type_specification]
#[verifier::external_body]
pub struct ExSpan(proc_macro2::Span);

/// An item of a parsed file, told apart by its kind.
pub enum ItemRef<'a> {
    Mod(&'a syn::ItemMod),
    Fn(&'a syn::ItemFn),
    Struct(&'a syn::ItemStruct),
    Enum(&'a syn::ItemEnum),
    Other,
}

/// The parts of a nested module's declaration.
pub struct ModParts<'a> {
    pub vis: &'a syn::Visibility,
    pub ident: &'a proc_macro2::Ident,
}

/// The parts of a function's declaration.
pub struct FnParts<'a> {
    pub vis: &'a syn::Visibility,
    pub attrs: &'a Vec<syn::Attribute>,
    pub ident: &'a proc_macro2::Ident,
    pub inputs: Vec<&'a syn::FnArg>,
    pub output: Option<&'a syn::Type>,
    pub span: proc_macro2::Span,
}

/// The parts of a struct's declaration.
pub struct StructParts<'a> {
    pub vis: &'a syn::Visibility,
    pub attrs: &'a Vec<syn::Attribute>,
    pub ident: &'a proc_macro2::Ident,
    pub fields: Vec<&'a syn::Field>,
    pub span: proc_macro2::Span,
}

/// The parts of an enum's declaration.
pub struct EnumParts<'a> {
    pub vis: &'a syn::Visibility,
    pub attrs: &'a Vec<syn::Attribute>,
    pub ident: &'a proc_macro2::Ident,
    pub variants: Vec<&'a syn::Variant>,
    pub span: proc_macro2::Span,
}

/// The parts of a variant.
pub struct VariantParts<'a> {
    pub ident: &'a proc_macro2::Ident,
    pub fields: Vec<&'a syn::Field>,
    pub span: proc_macro2::Span,
}

/// The parts of a field.
pub struct FieldParts<'a> {
    pub ident: Option<&'a proc_macro2::Ident>,
    pub ty: &'a syn::Type,
    pub span: proc_macro2::Span,
}

/// An argument of a function, told apart by its kind.
pub enum ArgRef<'a> {
    Receiver { span: proc_macro2::Span },
    Typed { ident: Option<&'a proc_macro2::Ident>, ty: &'a syn::Type, span: proc_macro2::Span },
}

/// The parts of an attribute.
pub struct AttrParts<'a> {
    pub form: RawAttrForm,
    pub ident: Option<&'a proc_macro2::Ident>,
}

/// A type, told apart by its form, with the parts of that form.
pub enum TypeRef<'a> {
    Path(Vec<&'a syn::PathSegment>),
    Array { elem: &'a syn::Type, len: &'a syn::Expr },
    Tuple(Vec<&'a syn::Type>),
    Slice(&'a syn::Type),
    Ptr { elem: &'a syn::Type, mutable: bool },
    Other,
}

/// The arguments of a path segment, told apart by their form.
pub enum ArgsRef<'a> {
    Empty,
    Angle(Vec<&'a syn::GenericArgument>),
    Paren,
}

/// The parts of a path segment.
pub struct SegmentParts<'a> {
    pub ident: &'a proc_macro2::Ident,
    pub args: ArgsRef<'a>,
}

/// Whether `syn::parse_file` accepts `text` as the source of a file.
pub uninterp spec fn source_parses(text: Seq<char>) -> bool;

/// Whether `syn::parse_str` accepts `text` as a type.
pub uninterp spec fn type_parses(text: Seq<char>) -> bool;

/// Calls `syn::parse_file`, which parses the text of a source file; a text
/// that is no valid source gives `None`. The contract names the texts that
/// are accepted, which depends on the text alone; nothing is claimed of what
/// is returned for them. The parser descends into the text as deep as the
/// text nests, and needs stack for it.
#[verifier::external_body]
fn parse_file(text: &str) -> (r: Option<syn::File>)
    ensures
        r is Some <==> source_parses(text@),
{
    syn::parse_file(text).ok()
}

/// Calls `syn::parse_str` for a type; a text that is no type gives `None`.
/// The contract names the texts that are accepted, which depends on the text
/// alone; nothing is claimed of what is returned for them. The parser
/// descends into the text as deep as the text nests, and needs stack for it.
#[verifier::external_body]
fn parse_type_text(text: &str) -> (r: Option<syn::Type>)
    ensures
        r is Some <==> type_parses(text@),
{
    syn::parse_str::<syn::Type>(text).ok()
}

/// Hands out the field `items` of `syn::File`.
#[verifier::external_body]
fn file_items(file: &syn::File) -> &Vec<syn::Item> {
    &file.items
}

/// Tells the variants of `syn::Item` apart.
#[verifier::external_body]
fn classify_item(item: &syn::Item) -> ItemRef<'_> {
    match item {
        syn::Item::Mod(m) => ItemRef::Mod(m),
        syn::Item::Fn(f) => ItemRef::Fn(f),
        syn::Item::Struct(s) => ItemRef::Struct(s),
        syn::Item::Enum(e) => ItemRef::Enum(e),
        _ => ItemRef::Other,
    }
}

/// Tells `syn::Visibility::Public` from the other variants.
#[verifier::external_body]
fn is_public(vis: &syn::Visibility) -> bool {
    match vis {
        syn::Visibility::Public(_) => true,
        _ => false,
    }
}

/// Calls `to_string` on an identifier of `proc_macro2`.
#[verifier::external_body]
fn ident_text(ident: &proc_macro2::Ident) -> String {
    ident.to_string()
}

/// Reads the start and the end of a span of `proc_macro2`, each as a line
/// and a column. The span is one of a text that was parsed on this thread, as
/// every span of a freshly parsed file is; nothing is claimed of the result.
#[verifier::external_body]
fn span_range(span: &proc_macro2::Span) -> RsSpan {
    let start = span.start();
    let end = span.end();
    RsSpan {
        start: RsPosition { line: start.line, column: start.column },
        end: RsPosition { line: end.line, column: end.column },
    }
}

/// Hands out the fields `vis` and `ident` of `syn::ItemMod`.
#[verifier::external_body]
fn mod_parts(m: &syn::ItemMod) -> ModParts<'_> {
    ModParts { vis: &m.vis, ident: &m.ident }
}

/// Hands out the parts of `syn::ItemFn`: `vis`, `attrs`, the signature's
/// `ident`, its `inputs` in order, the type of its `output` where one is
/// written, and the item's span.
#[verifier::external_body]
fn fn_parts(f: &syn::ItemFn) -> FnParts<'_> {
    FnParts {
        vis: &f.vis,
        attrs: &f.attrs,
        ident: &f.sig.ident,
        inputs: f.sig.inputs.iter().collect(),
        output: match &f.sig.output {
            syn::ReturnType::Default => None,
            syn::ReturnType::Type(_, ty) => Some(&**ty),
        },
        span: f.span(),
    }
}

/// Hands out the parts of `syn::ItemStruct`: `vis`, `attrs`, `ident`, the
/// fields in order, and the item's span.
#[verifier::external_body]
fn struct_parts(s: &syn::ItemStruct) -> StructParts<'_> {
    StructParts {
        vis: &s.vis,
        attrs: &s.attrs,
        ident: &s.ident,
        fields: s.fields.iter().collect(),
        span: s.span(),
    }
}

/// Hands out the parts of `syn::ItemEnum`: `vis`, `attrs`, `ident`, the
/// variants in order, and the item's span.
#[verifier::external_body]
fn enum_parts(e: &syn::ItemEnum) -> EnumParts<'_> {
    EnumParts {
        vis: &e.vis,
        attrs: &e.attrs,
        ident: &e.ident,
        variants: e.variants.iter().collect(),
        span: e.span(),
    }
}

/// Hands out the parts of `syn::Variant`: `ident`, the fields in order, and
/// the variant's span.
#[verifier::external_body]
fn variant_parts(v: &syn::Variant) -> VariantParts<'_> {
    VariantParts { ident: &v.ident, fields: v.fields.iter().collect(), span: v.span() }
}

/// Hands out the parts of `syn::Field`: `ident`, `ty`, and the field's span.
#[verifier::external_body]
fn field_parts(f: &syn::Field) -> FieldParts<'_> {
    FieldParts { ident: f.ident.as_ref(), ty: &f.ty, span: f.span() }
}

/// Tells the variants of `syn::FnArg` apart, and in a typed argument whether
/// its pattern is an identifier.
#[verifier::external_body]
fn classify_arg(a: &syn::FnArg) -> ArgRef<'_> {
    match a {
        syn::FnArg::Receiver(_) => ArgRef::Receiver { span: a.span() },
        syn::FnArg::Typed(t) => ArgRef::Typed {
            ident: match &*t.pat {
                syn::Pat::Ident(i) => Some(&i.ident),
                _ => None,
            },
            ty: &*t.ty,
            span: a.span(),
        },
    }
}

/// Tells the variants of the attribute's `syn::Meta` apart, and calls
/// `syn::Path::get_ident` on its path, which gives the identifier where the
/// path is one plain identifier.
#[verifier::external_body]
fn attr_parts(a: &syn::Attribute) -> AttrParts<'_> {
    AttrParts {
        form: match &a.meta {
            syn::Meta::Path(_) => RawAttrForm::Path,
            syn::Meta::List(_) => RawAttrForm::List,
            syn::Meta::NameValue(_) => RawAttrForm::NameValue,
        },
        ident: a.path().get_ident(),
    }
}

/// Tells the supported variants of `syn::Type` apart and hands out their
/// parts: the segments of a path in order; `elem` and `len` of an array; the
/// elements of a tuple in order; `elem` of a slice; `elem` of a raw pointer
/// and whether its `mutability` is there.
#[verifier::external_body]
fn classify_type(ty: &syn::Type) -> TypeRef<'_> {
    match ty {
        syn::Type::Path(p) => TypeRef::Path(p.path.segments.iter().collect()),
        syn::Type::Array(a) => TypeRef::Array { elem: &*a.elem, len: &a.len },
        syn::Type::Tuple(t) => TypeRef::Tuple(t.elems.iter().collect()),
        syn::Type::Slice(s) => TypeRef::Slice(&*s.elem),
        syn::Type::Ptr(p) => TypeRef::Ptr { elem: &*p.elem, mutable: p.mutability.is_some() },
        _ => TypeRef::Other,
    }
}

/// Tells the other variants of `syn::Type` apart.
#[verifier::external_body]
fn type_form(ty: &syn::Type) -> RawForm {
    match ty {
        syn::Type::Reference(_) => RawForm::Reference,
        syn::Type::BareFn(_) => RawForm::BareFn,
        syn::Type::Group(_) => RawForm::Group,
        syn::Type::ImplTrait(_) => RawForm::ImplTrait,
        syn::Type::Infer(_) => RawForm::Infer,
        syn::Type::Macro(_) => RawForm::Macro,
        syn::Type::Never(_) => RawForm::Never,
        syn::Type::Paren(_) => RawForm::Paren,
        syn::Type::TraitObject(_) => RawForm::TraitObject,
        syn::Type::Verbatim(_) => RawForm::Verbatim,
        _ => RawForm::Unknown,
    }
}

/// Hands out the parts of `syn::PathSegment`: `ident`, and its `arguments`
/// told apart by their form.
#[verifier::external_body]
fn segment_parts(s: &syn::PathSegment) -> SegmentParts<'_> {
    SegmentParts {
        ident: &s.ident,
        args: match &s.arguments {
            syn::PathArguments::None => ArgsRef::Empty,
            syn::PathArguments::AngleBracketed(a) => ArgsRef::Angle(a.args.iter().collect()),
            syn::PathArguments::Parenthesized(_) => ArgsRef::Paren,
        },
    }
}

/// Tells `syn::GenericArgument::Type` from the other variants.
#[verifier::external_body]
fn generic_arg_type(a: &syn::GenericArgument) -> Option<&syn::Type> {
    match a {
        syn::GenericArgument::Type(t) => Some(t),
        _ => None,
    }
}

/// Tells an integer literal from the other expressions, and calls
/// `syn::LitInt::base10_digits` on it, which gives its digits in base ten.
#[verifier::external_body]
fn literal_digits(len: &syn::Expr) -> Option<String> {
    match len {
        syn::Expr::Lit(syn::ExprLit { lit: syn::Lit::Int(i), .. }) => Some(
            i.base10_digits().to_string(),
        ),
        _ => None,
    }
}

/// What is read of an item before its members: its name, whether it is
/// declared `pub`, and its place in the source.
pub struct ItemHead {
    pub name: String,
    pub public: bool,
    pub span: RsSpan,
}

/// What a type of the form `kind` is read as when the reader may go `depth`
/// levels deeper: with none left, the unsupported form `Nested`; else a type of
/// the same form with as many segments or elements and the same mutability,
/// and for a form that is not supported, the form `form`.
pub open spec fn reads_as(kind: TypeRef<'_>, form: RawForm, depth: nat, r: RawType) -> bool {
    if depth == 0 {
        r == (RawType::Other { form: RawForm::Nested })
    } else {
        match kind {
            TypeRef::Path(segs) => r matches RawType::Path { segments } && segments@.len()
                == segs@.len(),
            TypeRef::Array { .. } => r is Array,
            TypeRef::Tuple(items) => r matches RawType::Tuple { elems } && elems@.len()
                == items@.len(),
            TypeRef::Slice(_) => r is Slice,
            TypeRef::Ptr { mutable, .. } => r matches RawType::Ptr { mutable: m, .. } && m
                == mutable,
            TypeRef::Other => r == (RawType::Other { form: form }),
        }
    }
}

/// Reads a type from its form and its parts. `depth` is how much deeper the
/// reader may go; below that a type is read as the unsupported form
/// `Nested`. `form` is the form of a type that is not supported.
fn lower_type(kind: TypeRef<'_>, form: RawForm, depth: usize) -> (r: RawType)
    ensures
        reads_as(kind, form, depth as nat, r),
        crate::raw::nests_within(r, depth as nat),
    decreases depth, 0nat,
{
    if depth == 0 {
        return RawType::Other { form: RawForm::Nested };
    }
    match kind {
        TypeRef::Path(segs) => {
            let mut segments: Vec<RawSegment> = Vec::new();
            let mut i: usize = 0;
            while i < segs.len()
                invariant
                    i <= segs.len(),
                    depth > 0,
                    segments@.len() == i,
                    forall|k: int|
                        0 <= k < i ==> crate::raw::segment_nests_within(
                            #[trigger] segments@[k],
                            (depth - 1) as nat,
                        ),
                decreases segs.len() - i,
            {
                segments.push(lower_segment(segment_parts(segs[i]), depth - 1));
                i += 1;
            }
            RawType::Path { segments }
        },
        TypeRef::Array { elem, len } => {
            let elem = read_type(elem, depth - 1);
            let len = match literal_digits(len) {
                Some(d) => RawLen::Literal(d),
                None => RawLen::Other,
            };
            RawType::Array { elem: Box::new(elem), len }
        },
        TypeRef::Tuple(items) => {
            let mut elems: Vec<RawType> = Vec::new();
            let mut i: usize = 0;
            while i < items.len()
                invariant
                    i <= items.len(),
                    depth > 0,
                    elems@.len() == i,
                    forall|k: int|
                        0 <= k < i ==> crate::raw::nests_within(
                            #[trigger] elems@[k],
                            (depth - 1) as nat,
                        ),
                decreases items.len() - i,
            {
                elems.push(read_type(items[i], depth - 1));
                i += 1;
            }
            RawType::Tuple { elems }
        },
        TypeRef::Slice(elem) => RawType::Slice { elem: Box::new(read_type(elem, depth - 1)) },
        TypeRef::Ptr { elem, mutable } => RawType::Ptr {
            elem: Box::new(read_type(elem, depth - 1)),
            mutable,
        },
        TypeRef::Other => RawType::Other { form },
    }
}

/// Reads a type: asks the parser's value for its form and its parts, and
/// reads it from those.
fn read_type(ty: &syn::Type, depth: usize) -> (r: RawType)
    ensures
        crate::raw::nests_within(r, depth as nat),
        depth == 0 ==> r == (RawType::Other { form: RawForm::Nested }),
    decreases depth, 1nat,
{
    lower_type(classify_type(ty), type_form(ty), depth)
}

/// Reads a path segment from its parts: the arguments keep their form, and
/// arguments in angle brackets their number and order.
fn lower_segment(parts: SegmentParts<'_>, depth: usize) -> (r: RawSegment)
    ensures
        match parts.args {
            ArgsRef::Empty => r.args is Empty,
            ArgsRef::Angle(items) => r.args matches RawPathArgs::Angle(args) && args@.len()
                == items@.len(),
            ArgsRef::Paren => r.args is Paren,
        },
        crate::raw::segment_nests_within(r, depth as nat),
    decreases depth, 3nat,
{
    let name = ident_text(parts.ident);
    let args = match parts.args {
        ArgsRef::Empty => RawPathArgs::Empty,
        ArgsRef::Angle(items) => {
            let mut args: Vec<RawGenericArg> = Vec::new();
            let mut i: usize = 0;
            while i < items.len()
                invariant
                    i <= items.len(),
                    args@.len() == i,
                    forall|k: int|
                        0 <= k < i ==> ((#[trigger] args@[k]) matches RawGenericArg::Type(t)
                            ==> crate::raw::nests_within(t, depth as nat)),
                decreases items.len() - i,
            {
                args.push(lower_generic_arg(generic_arg_type(items[i]), depth));
                i += 1;
            }
            RawPathArgs::Angle(args)
        },
        ArgsRef::Paren => RawPathArgs::Paren,
    };
    RawSegment { ident: name, args }
}

/// Reads a generic argument from the type that it holds, if it holds one.
fn lower_generic_arg(ty: Option<&syn::Type>, depth: usize) -> (r: RawGenericArg)
    ensures
        r is Type <==> ty is Some,
        r matches RawGenericArg::Type(t) ==> crate::raw::nests_within(t, depth as nat),
    decreases depth, 2nat,
{
    match ty {
        Some(t) => RawGenericArg::Type(read_type(t, depth)),
        None => RawGenericArg::Other,
    }
}

/// Reads the name, where there is one.
fn lower_name(ident: Option<&proc_macro2::Ident>) -> (r: Option<String>)
    ensures
        r is Some <==> ident is Some,
{
    match ident {
        Some(i) => Some(ident_text(i)),
        None => None,
    }
}

/// Reads an attribute from its parts: it keeps its form, and has a name
/// where its path is one plain identifier.
fn lower_attr(parts: AttrParts<'_>) -> (r: RawAttr)
    ensures
        r.form == parts.form,
        r.ident is Some <==> parts.ident is Some,
{
    RawAttr { form: parts.form, ident: lower_name(parts.ident) }
}

/// Reads the attributes of an item, in order.
fn lower_attrs(attrs: &Vec<syn::Attribute>) -> (r: Vec<RawAttr>)
    ensures
        r@.len() == attrs@.len(),
{
    let mut out: Vec<RawAttr> = Vec::new();
    let mut i: usize = 0;
    while i < attrs.len()
        invariant
            i <= attrs.len(),
            out@.len() == i,
        decreases attrs.len() - i,
    {
        out.push(lower_attr(attr_parts(&attrs[i])));
        i += 1;
    }
    out
}

/// Reads a field from its parts: it has a name where the field has an
/// identifier.
fn lower_field(parts: FieldParts<'_>, depth: usize) -> (r: RawField)
    ensures
        r.name is Some <==> parts.ident is Some,
        crate::raw::nests_within(r.ty, depth as nat),
{
    RawField {
        name: lower_name(parts.ident),
        ty: read_type(parts.ty, depth),
        span: span_range(&parts.span),
    }
}

/// Reads the fields of a struct or of a variant, in order.
fn lower_fields(fields: &Vec<&syn::Field>, depth: usize) -> (r: Vec<RawField>)
    ensures
        r@.len() == fields@.len(),
        crate::raw::fields_nest_within(r@, depth as nat),
{
    let mut out: Vec<RawField> = Vec::new();
    let mut i: usize = 0;
    while i < fields.len()
        invariant
            i <= fields.len(),
            out@.len() == i,
            crate::raw::fields_nest_within(out@, depth as nat),
        decreases fields.len() - i,
    {
        out.push(lower_field(field_parts(fields[i]), depth));
        i += 1;
    }
    out
}

/// Reads an argument from its kind and its parts: a receiver stays a
/// receiver, and a typed argument has a name where its pattern is an
/// identifier.
fn lower_arg(kind: ArgRef<'_>, depth: usize) -> (r: RawArg)
    ensures
        match kind {
            ArgRef::Receiver { .. } => r is Receiver,
            ArgRef::Typed { ident, .. } => r matches RawArg::Typed { name, ty, .. } && (name is Some
                <==> ident is Some) && crate::raw::nests_within(ty, depth as nat),
        },
{
    match kind {
        ArgRef::Receiver { span } => RawArg::Receiver { span: span_range(&span) },
        ArgRef::Typed { ident, ty, span } => RawArg::Typed {
            name: lower_name(ident),
            ty: read_type(ty, depth),
            span: span_range(&span),
        },
    }
}

/// Reads the head of an item: the text of its identifier, whether its
/// visibility is `pub`, and the lines and columns of its span.
fn read_head(
    ident: &proc_macro2::Ident,
    vis: &syn::Visibility,
    span: &proc_macro2::Span,
) -> ItemHead {
    ItemHead { name: ident_text(ident), public: is_public(vis), span: span_range(span) }
}

/// Reads a function from its head and its parts: the head is kept, there is
/// one argument for each input, in order, a return type where one is
/// written, and one attribute for each attribute, in order.
fn lower_fn(head: ItemHead, parts: FnParts<'_>, depth: usize) -> (r: RawFn)
    ensures
        r.name == head.name,
        r.public == head.public,
        r.span == head.span,
        r.args@.len() == parts.inputs@.len(),
        r.ret is Some <==> parts.output is Some,
        r.attrs@.len() == parts.attrs@.len(),
        crate::raw::item_nests_within(RawItem::Fn(r), depth as nat),
{
    let mut args: Vec<RawArg> = Vec::new();
    let mut i: usize = 0;
    while i < parts.inputs.len()
        invariant
            i <= parts.inputs.len(),
            args@.len() == i,
            crate::raw::args_nest_within(args@, depth as nat),
        decreases parts.inputs.len() - i,
    {
        args.push(lower_arg(classify_arg(parts.inputs[i]), depth));
        i += 1;
    }
    RawFn {
        name: head.name,
        args,
        ret: match parts.output {
            Some(t) => Some(read_type(t, depth)),
            None => None,
        },
        public: head.public,
        attrs: lower_attrs(parts.attrs),
        span: head.span,
    }
}

/// Reads a struct from its head and its parts: the head is kept, and there
/// is one field for each field and one attribute for each attribute, in
/// order.
fn lower_struct(head: ItemHead, parts: StructParts<'_>, depth: usize) -> (r: RawStruct)
    ensures
        r.name == head.name,
        r.public == head.public,
        r.span == head.span,
        r.fields@.len() == parts.fields@.len(),
        r.attrs@.len() == parts.attrs@.len(),
        crate::raw::item_nests_within(RawItem::Struct(r), depth as nat),
{
    RawStruct {
        name: head.name,
        fields: lower_fields(&parts.fields, depth),
        public: head.public,
        attrs: lower_attrs(parts.attrs),
        span: head.span,
    }
}

/// Reads a variant from its parts: there is one field for each field, in
/// order.
fn lower_variant(parts: VariantParts<'_>, depth: usize) -> (r: RawVariant)
    ensures
        r.fields@.len() == parts.fields@.len(),
        crate::raw::fields_nest_within(r.fields@, depth as nat),
{
    RawVariant {
        name: ident_text(parts.ident),
        fields: lower_fields(&parts.fields, depth),
        span: span_range(&parts.span),
    }
}

/// Reads an enum from its head and its parts: the head is kept, and there is
/// one variant for each variant and one attribute for each attribute, in
/// order.
fn lower_enum(head: ItemHead, parts: EnumParts<'_>, depth: usize) -> (r: RawEnum)
    ensures
        r.name == head.name,
        r.public == head.public,
        r.span == head.span,
        r.variants@.len() == parts.variants@.len(),
        r.attrs@.len() == parts.attrs@.len(),
        crate::raw::item_nests_within(RawItem::Enum(r), depth as nat),
{
    let mut variants: Vec<RawVariant> = Vec::new();
    let mut i: usize = 0;
    while i < parts.variants.len()
        invariant
            i <= parts.variants.len(),
            variants@.len() == i,
            forall|k: int|
                0 <= k < variants@.len() ==> crate::raw::fields_nest_within(
                    (#[trigger] variants@[k]).fields@,
                    depth as nat,
                ),
        decreases parts.variants.len() - i,
    {
        variants.push(lower_variant(variant_parts(parts.variants[i]), depth));
        i += 1;
    }
    RawEnum {
        name: head.name,
        variants,
        public: head.public,
        attrs: lower_attrs(parts.attrs),
        span: head.span,
    }
}

/// Reads an item from its kind: a nested module, a function, a struct and an
/// enum are read as that, and everything else as `Other`.
fn lower_item(kind: ItemRef<'_>, depth: usize) -> (r: RawItem)
    ensures
        match kind {
            ItemRef::Mod(_) => r is Mod,
            ItemRef::Fn(_) => r is Fn,
            ItemRef::Struct(_) => r is Struct,
            ItemRef::Enum(_) => r is Enum,
            ItemRef::Other => r is Other,
        },
        crate::raw::item_nests_within(r, depth as nat),
{
    match kind {
        ItemRef::Mod(m) => {
            let parts = mod_parts(m);
            RawItem::Mod(RawMod { name: ident_text(parts.ident), public: is_public(parts.vis) })
        },
        ItemRef::Fn(f) => {
            let parts = fn_parts(f);
            let head = read_head(parts.ident, parts.vis, &parts.span);
            RawItem::Fn(lower_fn(head, parts, depth))
        },
        ItemRef::Struct(s) => {
            let parts = struct_parts(s);
            let head = read_head(parts.ident, parts.vis, &parts.span);
            RawItem::Struct(lower_struct(head, parts, depth))
        },
        ItemRef::Enum(e) => {
            let parts = enum_parts(e);
            let head = read_head(parts.ident, parts.vis, &parts.span);
            RawItem::Enum(lower_enum(head, parts, depth))
        },
        ItemRef::Other => RawItem::Other,
    }
}

/// Reads the items of a file, in order: one item for each.
fn lower_items(all: &Vec<syn::Item>, depth: usize) -> (r: Vec<RawItem>)
    ensures
        r@.len() == all@.len(),
        forall|k: int|
            0 <= k < r@.len() ==> crate::raw::item_nests_within(
                #[trigger] r@[k],
                depth as nat,
            ),
{
    let mut items: Vec<RawItem> = Vec::new();
    let mut i: usize = 0;
    while i < all.len()
        invariant
            i <= all.len(),
            items@.len() == i,
            forall|k: int|
                0 <= k < items@.len() ==> crate::raw::item_nests_within(
                    #[trigger] items@[k],
                    depth as nat,
                ),
        decreases all.len() - i,
    {
        items.push(lower_item(classify_item(&all[i]), depth));
        i += 1;
    }
    items
}

/// Parses the text of a source file and reads its items in declaration
/// order. A file is returned exactly for the texts that the parser accepts.
/// The reader may follow a type as many levels deep as the text has
/// characters, which is deeper than any type of the text nests; so no type
/// of the file nests deeper than that.
pub fn parse_source(text: &str) -> (r: Option<RawFile>)
    ensures
        r is Some <==> source_parses(text@),
        r matches Some(file) ==> crate::raw::file_nests_within(file, text@.len()),
{
    match parse_file(text) {
        None => None,
        Some(file) => {
            let depth = text.unicode_len();
            Some(RawFile { items: lower_items(file_items(&file), depth) })
        },
    }
}

/// Parses the text of one type. A type is returned exactly for the texts
/// that the parser accepts as a type. The reader may follow it as many
/// levels deep as the text has characters, which is deeper than any type of
/// the text nests; so the type nests no deeper than that.
pub fn parse_type(text: &str) -> (r: Option<RawType>)
    ensures
        r is Some <==> type_parses(text@),
        r matches Some(t) ==> crate::raw::nests_within(t, text@.len()),
{
    match parse_type_text(text) {
        Some(ty) => Some(read_type(&ty, text.unicode_len())),
        None => None,
    }
}

} // verus!
