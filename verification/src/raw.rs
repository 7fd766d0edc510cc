//! The syntax model: what the type bridge and the module resolver read of a
//! parsed source file, held as plain values, and how each node describes
//! itself in a diagnostic.
use vstd::prelude::*;
use vstd::string::*;
use crate::error::{Descriptable, RsSpan};
use crate::text::join;

verus! {

/// The length of an array type.
#[derive(Debug, PartialEq, Eq, Hash)]
pub enum RawLen {
    /// An integer literal, by its digits in base ten.
    Literal(String),
    /// Any other expression.
    Other,
}

/// One generic argument of a path segment.
#[derive(Debug, PartialEq, Eq, Hash)]
pub enum RawGenericArg {
    /// A type.
    Type(RawType),
    /// A lifetime, a constant or a binding.
    Other,
}

/// The arguments of a path segment.
#[derive(Debug, PartialEq, Eq, Hash)]
pub enum RawPathArgs {
    /// No arguments, as in `i32`.
    Empty,
    /// In angle brackets, as in `Option<i32>`.
    Angle(Vec<RawGenericArg>),
    /// In round brackets, as in `Fn(i32) -> i32`.
    Paren,
}

/// One segment of a path.
#[derive(Debug, PartialEq, Eq, Hash)]
pub struct RawSegment {
    /// The identifier.
    pub ident: String,
    /// The arguments.
    pub args: RawPathArgs,
}

/// The type forms that are recognized and not supported.
#[derive(Debug, Clone, Copy, PartialEq, Eq, Hash, Structural)]
pub enum RawForm {
    /// `&T`
    Reference,
    /// `fn(A) -> B`
    BareFn,
    /// A type in an invisible group.
    Group,
    /// `impl Trait`
    ImplTrait,
    /// `_`
    Infer,
    /// A macro in type position.
    Macro,
    /// `!`
    Never,
    /// `(T)`
    Paren,
    /// `dyn Trait`
    TraitObject,
    /// Tokens that the parser did not interpret.
    Verbatim,
    /// A form that the parser added later.
    Unknown,
    /// A type that lies deeper than the reader was allowed to go.
    Nested,
}

/// A type as written in the source.
#[derive(Debug, PartialEq, Eq, Hash)]
pub enum RawType {
    /// A path, as in `i32` or `Option<i32>`.
    Path { segments: Vec<RawSegment> },
    /// `[T; n]`
    Array { elem: Box<RawType>, len: RawLen },
    /// `(A, B)`
    Tuple { elems: Vec<RawType> },
    /// `[T]`
    Slice { elem: Box<RawType> },
    /// `*mut T` or `*const T`
    Ptr { elem: Box<RawType>, mutable: bool },
    /// A form that is not supported.
    Other { form: RawForm },
}

/// A field of a struct or of a variant.
#[derive(Debug, PartialEq, Eq, Hash)]
pub struct RawField {
    /// The name; `None` for a positional field.
    pub name: Option<String>,
    /// The type.
    pub ty: RawType,
    /// The place in the source.
    pub span: RsSpan,
}

/// An argument of a function.
#[derive(Debug, PartialEq, Eq, Hash)]
pub enum RawArg {
    /// `self` in any form.
    Receiver { span: RsSpan },
    /// A typed argument; `name` is `None` where the pattern is no identifier.
    Typed { name: Option<String>, ty: RawType, span: RsSpan },
}

/// A variant of an enum.
#[derive(Debug, PartialEq, Eq, Hash)]
pub struct RawVariant {
    /// The name.
    pub name: String,
    /// The fields.
    pub fields: Vec<RawField>,
    /// The place in the source.
    pub span: RsSpan,
}

/// How an attribute is written.
#[derive(Debug, Clone, Copy, PartialEq, Eq, Hash, Structural)]
pub enum RawAttrForm {
    /// `#[name]`
    Path,
    /// `#[name(..)]`
    List,
    /// `#[name = value]`
    NameValue,
}

/// An attribute of an item.
#[derive(Debug, PartialEq, Eq, Hash)]
pub struct RawAttr {
    /// How it is written.
    pub form: RawAttrForm,
    /// Its name, where the path is one plain identifier.
    pub ident: Option<String>,
}

/// A struct declaration.
#[derive(Debug, PartialEq, Eq, Hash)]
pub struct RawStruct {
    /// The name.
    pub name: String,
    /// The fields.
    pub fields: Vec<RawField>,
    /// Whether it is declared `pub`.
    pub public: bool,
    /// The attributes, in order.
    pub attrs: Vec<RawAttr>,
    /// The place in the source.
    pub span: RsSpan,
}

/// An enum declaration.
#[derive(Debug, PartialEq, Eq, Hash)]
pub struct RawEnum {
    /// The name.
    pub name: String,
    /// The variants.
    pub variants: Vec<RawVariant>,
    /// Whether it is declared `pub`.
    pub public: bool,
    /// The attributes, in order.
    pub attrs: Vec<RawAttr>,
    /// The place in the source.
    pub span: RsSpan,
}

/// A function declaration.
#[derive(Debug, PartialEq, Eq, Hash)]
pub struct RawFn {
    /// The name.
    pub name: String,
    /// The arguments.
    pub args: Vec<RawArg>,
    /// The return type, where one is written.
    pub ret: Option<RawType>,
    /// Whether it is declared `pub`.
    pub public: bool,
    /// The attributes, in order.
    pub attrs: Vec<RawAttr>,
    /// The place in the source.
    pub span: RsSpan,
}

/// A declaration of a nested module.
#[derive(Debug, PartialEq, Eq, Hash)]
pub struct RawMod {
    /// The name.
    pub name: String,
    /// Whether it is declared `pub`.
    pub public: bool,
}

/// An item of a file.
#[derive(Debug, PartialEq, Eq, Hash)]
pub enum RawItem {
    /// A nested module.
    Mod(RawMod),
    /// A function.
    Fn(RawFn),
    /// A struct.
    Struct(RawStruct),
    /// An enum.
    Enum(RawEnum),
    /// Anything else.
    Other,
}

/// A parsed file: its items in declaration order.
#[derive(Debug, PartialEq, Eq, Hash)]
pub struct RawFile {
    /// The items.
    pub items: Vec<RawItem>,
}

/// Whether `t` nests no deeper than `depth`: each supported form counts one
/// level, and an unsupported form none.
pub open spec fn nests_within(t: RawType, depth: nat) -> bool
    decreases depth, 0nat,
{
    match t {
        RawType::Other { .. } => true,
        _ => depth > 0 && match t {
            RawType::Path { segments } => forall|i: int|
                0 <= i < segments.len() ==> segment_nests_within(
                    #[trigger] segments[i],
                    (depth - 1) as nat,
                ),
            RawType::Array { elem, .. } => nests_within(*elem, (depth - 1) as nat),
            RawType::Tuple { elems } => forall|i: int|
                0 <= i < elems.len() ==> nests_within(#[trigger] elems[i], (depth - 1) as nat),
            RawType::Slice { elem } => nests_within(*elem, (depth - 1) as nat),
            RawType::Ptr { elem, .. } => nests_within(*elem, (depth - 1) as nat),
            RawType::Other { .. } => true,
        },
    }
}

/// Whether the types among the arguments of `s` nest no deeper than `depth`.
pub open spec fn segment_nests_within(s: RawSegment, depth: nat) -> bool
    decreases depth, 1nat,
{
    match s.args {
        RawPathArgs::Angle(args) => forall|i: int|
            0 <= i < args.len() ==> ((#[trigger] args[i]) matches RawGenericArg::Type(t)
                ==> nests_within(t, depth)),
        _ => true,
    }
}

/// Whether the type of each of `fs` nests no deeper than `depth`.
pub open spec fn fields_nest_within(fs: Seq<RawField>, depth: nat) -> bool {
    forall|i: int| 0 <= i < fs.len() ==> nests_within((#[trigger] fs[i]).ty, depth)
}

/// Whether the type of each of `args` nests no deeper than `depth`.
pub open spec fn args_nest_within(args: Seq<RawArg>, depth: nat) -> bool {
    forall|i: int|
        0 <= i < args.len() ==> ((#[trigger] args[i]) matches RawArg::Typed { ty, .. }
            ==> nests_within(ty, depth))
}

/// Whether every type of `item` nests no deeper than `depth`.
pub open spec fn item_nests_within(item: RawItem, depth: nat) -> bool {
    match item {
        RawItem::Fn(f) => args_nest_within(f.args@, depth) && (f.ret matches Some(t)
            ==> nests_within(t, depth)),
        RawItem::Struct(s) => fields_nest_within(s.fields@, depth),
        RawItem::Enum(e) => forall|i: int|
            0 <= i < e.variants@.len() ==> fields_nest_within(
                (#[trigger] e.variants@[i]).fields@,
                depth,
            ),
        _ => true,
    }
}

/// Whether every type of `file` nests no deeper than `depth`.
pub open spec fn file_nests_within(file: RawFile, depth: nat) -> bool {
    forall|i: int| 0 <= i < file.items@.len() ==> item_nests_within(#[trigger] file.items@[i], depth)
}

/// How an unsupported form is written in a description.
pub open spec fn form_text(f: RawForm) -> Seq<char> {
    match f {
        RawForm::Reference => "&_"@,
        RawForm::BareFn => "fn(..)"@,
        RawForm::Group => "(group)"@,
        RawForm::ImplTrait => "impl _"@,
        RawForm::Infer => "_"@,
        RawForm::Macro => "macro!(..)"@,
        RawForm::Never => "!"@,
        RawForm::Paren => "(_)"@,
        RawForm::TraitObject => "dyn _"@,
        RawForm::Verbatim => "(verbatim)"@,
        RawForm::Unknown => "(unknown)"@,
        RawForm::Nested => "(nested)"@,
    }
}

/// How an array length is written in a description.
pub open spec fn len_text(l: RawLen) -> Seq<char> {
    match l {
        RawLen::Literal(d) => d@,
        RawLen::Other => "_"@,
    }
}

/// How a type is written in a description.
pub open spec fn type_text(t: RawType) -> Seq<char>
    decreases t,
{
    match t {
        RawType::Path { segments } => crate::text::join_spec(segment_texts(segments@), "::"@),
        RawType::Array { elem, len } => "["@ + type_text(*elem) + "; "@ + len_text(len) + "]"@,
        RawType::Tuple { elems } => "("@ + crate::text::join_spec(type_texts(elems@), ", "@)
            + ")"@,
        RawType::Slice { elem } => "["@ + type_text(*elem) + "]"@,
        RawType::Ptr { elem, mutable } => (if mutable {
            "*mut "@
        } else {
            "*const "@
        }) + type_text(*elem),
        RawType::Other { form } => form_text(form),
    }
}

/// How each of `ts` is written, in order.
pub open spec fn type_texts(ts: Seq<RawType>) -> Seq<Seq<char>>
    decreases ts,
{
    Seq::new(
        ts.len(),
        |i: int|
            if 0 <= i < ts.len() {
                type_text(ts[i])
            } else {
                Seq::empty()
            },
    )
}

/// How a generic argument is written in a description.
pub open spec fn arg_text(a: RawGenericArg) -> Seq<char>
    decreases a,
{
    match a {
        RawGenericArg::Type(t) => type_text(t),
        RawGenericArg::Other => "_"@,
    }
}

/// How each of `args` is written, in order.
pub open spec fn arg_texts(args: Seq<RawGenericArg>) -> Seq<Seq<char>>
    decreases args,
{
    Seq::new(
        args.len(),
        |i: int|
            if 0 <= i < args.len() {
                arg_text(args[i])
            } else {
                Seq::empty()
            },
    )
}

/// How a path segment is written in a description.
pub open spec fn segment_text(s: RawSegment) -> Seq<char>
    decreases s,
{
    s.ident@ + match s.args {
        RawPathArgs::Empty => Seq::empty(),
        RawPathArgs::Angle(args) => "<"@ + crate::text::join_spec(arg_texts(args@), ", "@) + ">"@,
        RawPathArgs::Paren => "(..)"@,
    }
}

/// How each of `ss` is written, in order.
pub open spec fn segment_texts(ss: Seq<RawSegment>) -> Seq<Seq<char>>
    decreases ss,
{
    Seq::new(
        ss.len(),
        |i: int|
            if 0 <= i < ss.len() {
                segment_text(ss[i])
            } else {
                Seq::empty()
            },
    )
}

/// The name, or `_` where there is none.
pub open spec fn name_text(name: Option<String>) -> Seq<char> {
    match name {
        Some(n) => n@,
        None => "_"@,
    }
}

/// How a field is written in a description.
pub open spec fn field_text(f: RawField) -> Seq<char> {
    "field "@ + name_text(f.name) + ": "@ + type_text(f.ty)
}

/// How each of `fs` is written, in order.
pub open spec fn field_texts(fs: Seq<RawField>) -> Seq<Seq<char>> {
    Seq::new(fs.len(), |i: int| field_text(fs[i]))
}

/// How an argument is written in a description.
pub open spec fn fn_arg_text(a: RawArg) -> Seq<char> {
    match a {
        RawArg::Receiver { .. } => "self"@,
        RawArg::Typed { name, ty, .. } => name_text(name) + ": "@ + type_text(ty),
    }
}

/// How each of `args` is written, in order.
pub open spec fn fn_arg_texts(args: Seq<RawArg>) -> Seq<Seq<char>> {
    Seq::new(args.len(), |i: int| fn_arg_text(args[i]))
}

/// How a variant is written in a description.
pub open spec fn variant_text(v: RawVariant) -> Seq<char> {
    v.name@ + "("@ + crate::text::join_spec(field_texts(v.fields@), ", "@) + ")"@
}

/// How each of `vs` is written, in order.
pub open spec fn variant_texts(vs: Seq<RawVariant>) -> Seq<Seq<char>> {
    Seq::new(vs.len(), |i: int| variant_text(vs[i]))
}

/// How a struct is written in a description.
pub open spec fn struct_text(s: RawStruct) -> Seq<char> {
    "struct "@ + s.name@
}

/// How an enum is written in a description.
pub open spec fn enum_text(e: RawEnum) -> Seq<char> {
    "enum "@ + e.name@ + " { "@ + crate::text::join_spec(variant_texts(e.variants@), ", "@)
        + " }"@
}

/// How a function is written in a description.
pub open spec fn fn_text(f: RawFn) -> Seq<char> {
    "fn "@ + f.name@ + "("@ + crate::text::join_spec(fn_arg_texts(f.args@), ", "@) + ")"@
        + match f.ret {
        Some(t) => " -> "@ + type_text(t),
        None => Seq::empty(),
    }
}

pub(crate) fn describe_form(f: RawForm) -> (r: String)
    ensures
        r@ == form_text(f),
{
    match f {
        RawForm::Reference => String::from_str("&_"),
        RawForm::BareFn => String::from_str("fn(..)"),
        RawForm::Group => String::from_str("(group)"),
        RawForm::ImplTrait => String::from_str("impl _"),
        RawForm::Infer => String::from_str("_"),
        RawForm::Macro => String::from_str("macro!(..)"),
        RawForm::Never => String::from_str("!"),
        RawForm::Paren => String::from_str("(_)"),
        RawForm::TraitObject => String::from_str("dyn _"),
        RawForm::Verbatim => String::from_str("(verbatim)"),
        RawForm::Unknown => String::from_str("(unknown)"),
        RawForm::Nested => String::from_str("(nested)"),
    }
}

fn describe_type(t: &RawType) -> (r: String)
    ensures
        r@ == type_text(*t),
    decreases t,
{
    match t {
        RawType::Path { segments } => {
            let parts = describe_segments(segments);
            join(&parts, "::")
        },
        RawType::Array { elem, len } => {
            let mut out = String::from_str("[");
            let inner = describe_type(elem);
            out.append(inner.as_str());
            out.append("; ");
            match len {
                RawLen::Literal(d) => out.append(d.as_str()),
                RawLen::Other => out.append("_"),
            }
            out.append("]");
            out
        },
        RawType::Tuple { elems } => {
            let parts = describe_types(elems);
            let mut out = String::from_str("(");
            let list = join(&parts, ", ");
            out.append(list.as_str());
            out.append(")");
            out
        },
        RawType::Slice { elem } => {
            let mut out = String::from_str("[");
            let inner = describe_type(elem);
            out.append(inner.as_str());
            out.append("]");
            out
        },
        RawType::Ptr { elem, mutable } => {
            let mut out = if *mutable {
                String::from_str("*mut ")
            } else {
                String::from_str("*const ")
            };
            let inner = describe_type(elem);
            out.append(inner.as_str());
            out
        },
        RawType::Other { form } => describe_form(*form),
    }
}

fn describe_types(ts: &Vec<RawType>) -> (r: Vec<String>)
    ensures
        crate::text::views_of(r@) == type_texts(ts@),
    decreases ts,
{
    let mut out: Vec<String> = Vec::new();
    let mut i: usize = 0;
    while i < ts.len()
        invariant
            i <= ts.len(),
            out.len() == i,
            forall|k: int| 0 <= k < i ==> (#[trigger] out@[k])@ == type_text(ts@[k]),
        decreases ts.len() - i,
    {
        let d = describe_type(&ts[i]);
        out.push(d);
        i += 1;
    }
    out
}

fn describe_args(args: &Vec<RawGenericArg>) -> (r: Vec<String>)
    ensures
        crate::text::views_of(r@) == arg_texts(args@),
    decreases args,
{
    let mut out: Vec<String> = Vec::new();
    let mut i: usize = 0;
    while i < args.len()
        invariant
            i <= args.len(),
            out.len() == i,
            forall|k: int| 0 <= k < i ==> (#[trigger] out@[k])@ == arg_text(args@[k]),
        decreases args.len() - i,
    {
        let d = match &args[i] {
            RawGenericArg::Type(t) => describe_type(t),
            RawGenericArg::Other => String::from_str("_"),
        };
        out.push(d);
        i += 1;
    }
    out
}

fn describe_segments(ss: &Vec<RawSegment>) -> (r: Vec<String>)
    ensures
        crate::text::views_of(r@) == segment_texts(ss@),
    decreases ss,
{
    let mut out: Vec<String> = Vec::new();
    let mut i: usize = 0;
    while i < ss.len()
        invariant
            i <= ss.len(),
            out.len() == i,
            forall|k: int| 0 <= k < i ==> (#[trigger] out@[k])@ == segment_text(ss@[k]),
        decreases ss.len() - i,
    {
        let s = &ss[i];
        let mut d = s.ident.clone();
        match &s.args {
            RawPathArgs::Empty => {},
            RawPathArgs::Angle(args) => {
                let parts = describe_args(args);
                let list = join(&parts, ", ");
                d.append("<");
                d.append(list.as_str());
                d.append(">");
            },
            RawPathArgs::Paren => {
                d.append("(..)");
            },
        }
        out.push(d);
        i += 1;
    }
    out
}

fn describe_name(name: &Option<String>) -> (r: String)
    ensures
        r@ == name_text(*name),
{
    match name {
        Some(n) => n.clone(),
        None => String::from_str("_"),
    }
}

impl Descriptable for RawType {
    open spec fn description_model(&self) -> Seq<char> {
        type_text(*self)
    }

    fn description(&self) -> (r: String) {
        describe_type(self)
    }
}

impl Descriptable for RawField {
    open spec fn description_model(&self) -> Seq<char> {
        field_text(*self)
    }

    fn description(&self) -> (r: String) {
        let mut out = String::from_str("field ");
        let name = describe_name(&self.name);
        out.append(name.as_str());
        out.append(": ");
        let ty = describe_type(&self.ty);
        out.append(ty.as_str());
        out
    }
}

impl Descriptable for RawArg {
    open spec fn description_model(&self) -> Seq<char> {
        fn_arg_text(*self)
    }

    fn description(&self) -> (r: String) {
        match self {
            RawArg::Receiver { .. } => String::from_str("self"),
            RawArg::Typed { name, ty, .. } => {
                let mut out = describe_name(name);
                out.append(": ");
                let t = describe_type(ty);
                out.append(t.as_str());
                out
            },
        }
    }
}

impl Descriptable for RawVariant {
    open spec fn description_model(&self) -> Seq<char> {
        variant_text(*self)
    }

    fn description(&self) -> (r: String) {
        let mut parts: Vec<String> = Vec::new();
        let mut i: usize = 0;
        while i < self.fields.len()
            invariant
                i <= self.fields.len(),
                parts.len() == i,
                forall|k: int|
                    0 <= k < i ==> (#[trigger] parts@[k])@ == field_text(self.fields@[k]),
            decreases self.fields.len() - i,
        {
            let d = self.fields[i].description();
            parts.push(d);
            i += 1;
        }
        assert(crate::text::views_of(parts@) =~= field_texts(self.fields@));
        let mut out = self.name.clone();
        out.append("(");
        let list = join(&parts, ", ");
        out.append(list.as_str());
        out.append(")");
        out
    }
}

impl Descriptable for RawStruct {
    open spec fn description_model(&self) -> Seq<char> {
        struct_text(*self)
    }

    fn description(&self) -> (r: String) {
        let mut out = String::from_str("struct ");
        out.append(self.name.as_str());
        out
    }
}

impl Descriptable for RawEnum {
    open spec fn description_model(&self) -> Seq<char> {
        enum_text(*self)
    }

    fn description(&self) -> (r: String) {
        let mut parts: Vec<String> = Vec::new();
        let mut i: usize = 0;
        while i < self.variants.len()
            invariant
                i <= self.variants.len(),
                parts.len() == i,
                forall|k: int|
                    0 <= k < i ==> (#[trigger] parts@[k])@ == variant_text(self.variants@[k]),
            decreases self.variants.len() - i,
        {
            let d = self.variants[i].description();
            parts.push(d);
            i += 1;
        }
        assert(crate::text::views_of(parts@) =~= variant_texts(self.variants@));
        let mut out = String::from_str("enum ");
        out.append(self.name.as_str());
        out.append(" { ");
        let list = join(&parts, ", ");
        out.append(list.as_str());
        out.append(" }");
        out
    }
}

impl Descriptable for RawFn {
    open spec fn description_model(&self) -> Seq<char> {
        fn_text(*self)
    }

    fn description(&self) -> (r: String) {
        let mut parts: Vec<String> = Vec::new();
        let mut i: usize = 0;
        while i < self.args.len()
            invariant
                i <= self.args.len(),
                parts.len() == i,
                forall|k: int|
                    0 <= k < i ==> (#[trigger] parts@[k])@ == fn_arg_text(self.args@[k]),
            decreases self.args.len() - i,
        {
            let d = self.args[i].description();
            parts.push(d);
            i += 1;
        }
        assert(crate::text::views_of(parts@) =~= fn_arg_texts(self.args@));
        let mut out = String::from_str("fn ");
        out.append(self.name.as_str());
        out.append("(");
        let list = join(&parts, ", ");
        out.append(list.as_str());
        out.append(")");
        match &self.ret {
            Some(t) => {
                out.append(" -> ");
                let d = describe_type(t);
                out.append(d.as_str());
            },
            None => {},
        }
        out
    }
}

} // verus!
