//! From the type model to names: for each type its spelling in the source
//! language, in the foreign-function interface and in the host language.
use vstd::prelude::*;
use vstd::string::*;
use crate::convert::{fail, lemma_collect_keeps_failure};
use crate::error::{ConversionError, ConversionErrorBuilder, ConversionErrorKind, ErrorModel};
use crate::names::Named;
use crate::text::{join, push_decimal, replace_all};
use crate::types::{
    FieldModel, RsField, RsFn, RsPrimitive, RsType, RsVariant, TypeModel, VariantModel,
};

verus! {

/// The native name, the foreign-interface name and the host name of a type.
pub type Names = (Seq<char>, Seq<char>, Seq<char>);

/// How a primitive is spelled in the source language.
pub open spec fn primitive_text(p: RsPrimitive) -> Seq<char> {
    match p {
        RsPrimitive::I8 => "i8"@,
        RsPrimitive::I16 => "i16"@,
        RsPrimitive::I32 => "i32"@,
        RsPrimitive::I64 => "i64"@,
        RsPrimitive::I128 => "i128"@,
        RsPrimitive::U8 => "u8"@,
        RsPrimitive::U16 => "u16"@,
        RsPrimitive::U32 => "u32"@,
        RsPrimitive::U64 => "u64"@,
        RsPrimitive::U128 => "u128"@,
        RsPrimitive::F32 => "f32"@,
        RsPrimitive::F64 => "f64"@,
        RsPrimitive::Bool => "bool"@,
        RsPrimitive::Char => "char"@,
        RsPrimitive::Str => "str"@,
        RsPrimitive::String => "String"@,
        RsPrimitive::Unit => "()"@,
    }
}

/// Whether a primitive has names at the foreign boundary: all but the 128-bit
/// integers and the unsigned 64-bit integer.
pub open spec fn is_supported(p: RsPrimitive) -> bool {
    !(p is I128 || p is U64 || p is U128)
}

/// The foreign-interface name of a supported primitive.
pub open spec fn primitive_ffi(p: RsPrimitive) -> Seq<char> {
    match p {
        RsPrimitive::I8 => "ffi.Int8"@,
        RsPrimitive::I16 => "ffi.Int16"@,
        RsPrimitive::I32 => "ffi.Int32"@,
        RsPrimitive::I64 => "ffi.Int64"@,
        RsPrimitive::U8 => "ffi.Uint8"@,
        RsPrimitive::U16 => "ffi.Uint16"@,
        RsPrimitive::U32 => "ffi.Uint32"@,
        RsPrimitive::F32 => "ffi.Float"@,
        RsPrimitive::F64 => "ffi.Double"@,
        RsPrimitive::Bool => "ffi.Uint8"@,
        RsPrimitive::Char => "ffi.Int32"@,
        RsPrimitive::Str => "ffi.Pointer<ffi.Utf8>"@,
        RsPrimitive::String => "ffi.Pointer<ffi.Utf8>"@,
        RsPrimitive::Unit => "ffi.Void"@,
        _ => Seq::empty(),
    }
}

/// The host name of a supported primitive.
pub open spec fn primitive_host(p: RsPrimitive) -> Seq<char> {
    match p {
        RsPrimitive::I8 => "int"@,
        RsPrimitive::I16 => "int"@,
        RsPrimitive::I32 => "int"@,
        RsPrimitive::I64 => "int"@,
        RsPrimitive::U8 => "int"@,
        RsPrimitive::U16 => "int"@,
        RsPrimitive::U32 => "int"@,
        RsPrimitive::F32 => "double"@,
        RsPrimitive::F64 => "double"@,
        RsPrimitive::Bool => "bool"@,
        RsPrimitive::Char => "String"@,
        RsPrimitive::Str => "String"@,
        RsPrimitive::String => "String"@,
        RsPrimitive::Unit => "void"@,
        _ => Seq::empty(),
    }
}

/// The failure for a primitive without names at the foreign boundary. Its
/// source type is the primitive's spelling.
pub open spec fn unsupported_primitive(p: RsPrimitive) -> ErrorModel {
    crate::error::leaf(
        ConversionErrorKind::UnsupportedPrimitive,
        primitive_text(p),
        "DartType"@,
        "Primitive has no mapping at the foreign boundary"@,
    )
}

/// The names of a primitive.
pub open spec fn primitive_names(p: RsPrimitive) -> Result<Names, ErrorModel> {
    if is_supported(p) {
        Ok((primitive_text(p), primitive_ffi(p), primitive_host(p)))
    } else {
        Err(unsupported_primitive(p))
    }
}

/// The layer that an enclosing type adds to the failure of a member.
pub open spec fn enclosed(cause: ErrorModel, by: Seq<char>) -> ErrorModel {
    crate::error::wrapped(cause, by, None, None)
}

/// The native names of `ns`, in order.
pub open spec fn natives_of(ns: Seq<Names>) -> Seq<Seq<char>> {
    Seq::new(ns.len(), |i: int| ns[i].0)
}

/// The foreign-interface names of `ns`, in order.
pub open spec fn ffis_of(ns: Seq<Names>) -> Seq<Seq<char>> {
    Seq::new(ns.len(), |i: int| ns[i].1)
}

/// The host names of `ns`, in order.
pub open spec fn hosts_of(ns: Seq<Names>) -> Seq<Seq<char>> {
    Seq::new(ns.len(), |i: int| ns[i].2)
}

/// The names of a type. A primitive has the names of the table. A struct, an
/// enum and a variant are known by their own name in all three, a function
/// by its name in snake form and, in the host language, in Pascal form;
/// their members must have names too. A tuple, an array, a slice and a pointer are spelled
/// from the names of what they hold. The first member without names, in
/// declaration order, fails the whole, and the enclosing type adds a layer
/// with its own name as the destination.
pub open spec fn names_spec(m: TypeModel) -> Result<Names, ErrorModel>
    decreases m, 0nat,
{
    match m {
        TypeModel::Primitive(p) => primitive_names(p),
        TypeModel::Struct { name, fields } => match crate::convert::collect_spec(
            names_of_fields(fields),
        ) {
            Ok(_) => Ok((name, name, name)),
            Err(e) => Err(enclosed(e, name)),
        },
        TypeModel::Enum { name, variants } => match crate::convert::collect_spec(
            names_of_variants(variants),
        ) {
            Ok(_) => Ok((name, name, name)),
            Err(e) => Err(enclosed(e, name)),
        },
        TypeModel::Variant { name, fields } => match crate::convert::collect_spec(
            names_of_fields(fields),
        ) {
            Ok(_) => Ok((name, name, name)),
            Err(e) => Err(enclosed(e, name)),
        },
        TypeModel::Tuple { elements } => match crate::convert::collect_spec(
            names_of_types(elements),
        ) {
            Ok(ns) => Ok(
                (
                    "("@ + crate::text::join_spec(natives_of(ns), ", "@) + ")"@,
                    "ffi.Struct"@,
                    "("@ + crate::text::join_spec(hosts_of(ns), ", "@) + ")"@,
                ),
            ),
            Err(e) => Err(enclosed(e, "tuple"@)),
        },
        TypeModel::Array { element, length } => match names_spec(*element) {
            Ok(n) => Ok(
                (
                    "["@ + n.0 + "; "@ + crate::text::decimal_spec(length) + "]"@,
                    "ffi.Array<"@ + n.1 + ">"@,
                    "ffi.Array<"@ + n.1 + ">"@,
                ),
            ),
            Err(e) => Err(enclosed(e, "array"@)),
        },
        TypeModel::Slice { element } => match names_spec(*element) {
            Ok(n) => Ok(
                ("["@ + n.0 + "]"@, "ffi.Pointer<"@ + n.1 + ">"@, "ffi.Pointer<"@ + n.1 + ">"@),
            ),
            Err(e) => Err(enclosed(e, "slice"@)),
        },
        TypeModel::Function { name, args, ret } => match crate::convert::collect_spec(
            names_of_fields(args),
        ) {
            Err(e) => Err(enclosed(e, name)),
            Ok(_) => match names_spec(*ret) {
                Err(e) => Err(enclosed(e, name)),
                Ok(_) => Ok((name, name, crate::names::capitalize_spec(name))),
            },
        },
        TypeModel::Pointer { pointee, mutable } => match names_spec(*pointee) {
            Ok(n) => Ok(
                (
                    (if mutable {
                        "*mut "@
                    } else {
                        "*const "@
                    }) + n.0,
                    "ffi.Pointer<"@ + n.1 + ">"@,
                    "ffi.Pointer<"@ + n.2 + ">"@,
                ),
            ),
            Err(e) => Err(enclosed(e, "pointer"@)),
        },
    }
}

/// The names of each of `ts`, in order.
pub open spec fn names_of_types(ts: Seq<TypeModel>) -> Seq<Result<Names, ErrorModel>>
    decreases ts, 1nat,
{
    Seq::new(
        ts.len(),
        |i: int|
            if 0 <= i < ts.len() {
                names_spec(ts[i])
            } else {
                Err(crate::error::empty_error())
            },
    )
}

/// The names of the type of each of `fs`, in order.
pub open spec fn names_of_fields(fs: Seq<FieldModel>) -> Seq<Result<Names, ErrorModel>>
    decreases fs, 1nat,
{
    Seq::new(
        fs.len(),
        |i: int|
            if 0 <= i < fs.len() {
                names_spec(fs[i].ty)
            } else {
                Err(crate::error::empty_error())
            },
    )
}

/// The names of a variant: its own name, if its fields have names.
pub open spec fn names_of_variant(v: VariantModel) -> Result<Names, ErrorModel>
    decreases v, 2nat,
{
    match crate::convert::collect_spec(names_of_fields(v.fields)) {
        Ok(_) => Ok((v.name, v.name, v.name)),
        Err(e) => Err(enclosed(e, v.name)),
    }
}

/// The names of each of `vs`, in order.
pub open spec fn names_of_variants(vs: Seq<VariantModel>) -> Seq<Result<Names, ErrorModel>>
    decreases vs, 3nat,
{
    Seq::new(
        vs.len(),
        |i: int|
            if 0 <= i < vs.len() {
                names_of_variant(vs[i])
            } else {
                Err(crate::error::empty_error())
            },
    )
}

/// The names of a type, or the failure.
pub trait DartType {
    /// The value that the names are derived from.
    spec fn type_model(&self) -> TypeModel;

    /// Returns the native name, the foreign-interface name and the host name.
    fn name(&self) -> (r: Result<(String, String, String), ConversionError>)
        ensures
            crate::convert::viewed(r) == names_spec(self.type_model()),
    ;
}

fn triple(a: &str, b: &str, c: &str) -> (r: (String, String, String))
    ensures
        r@ == (a@, b@, c@),
{
    (String::from_str(a), String::from_str(b), String::from_str(c))
}

impl DartType for RsPrimitive {
    open spec fn type_model(&self) -> TypeModel {
        TypeModel::Primitive(*self)
    }

    fn name(&self) -> (r: Result<(String, String, String), ConversionError>)
        ensures
            r is Ok <==> is_supported(*self),
    {
        match self {
            RsPrimitive::I8 => Ok(triple("i8", "ffi.Int8", "int")),
            RsPrimitive::I16 => Ok(triple("i16", "ffi.Int16", "int")),
            RsPrimitive::I32 => Ok(triple("i32", "ffi.Int32", "int")),
            RsPrimitive::I64 => Ok(triple("i64", "ffi.Int64", "int")),
            RsPrimitive::I128 => Err(
                fail(
                    ConversionErrorKind::UnsupportedPrimitive,
                    "i128",
                    "DartType",
                    "Primitive has no mapping at the foreign boundary",
                ),
            ),
            RsPrimitive::U8 => Ok(triple("u8", "ffi.Uint8", "int")),
            RsPrimitive::U16 => Ok(triple("u16", "ffi.Uint16", "int")),
            RsPrimitive::U32 => Ok(triple("u32", "ffi.Uint32", "int")),
            RsPrimitive::U64 => Err(
                fail(
                    ConversionErrorKind::UnsupportedPrimitive,
                    "u64",
                    "DartType",
                    "Primitive has no mapping at the foreign boundary",
                ),
            ),
            RsPrimitive::U128 => Err(
                fail(
                    ConversionErrorKind::UnsupportedPrimitive,
                    "u128",
                    "DartType",
                    "Primitive has no mapping at the foreign boundary",
                ),
            ),
            RsPrimitive::F32 => Ok(triple("f32", "ffi.Float", "double")),
            RsPrimitive::F64 => Ok(triple("f64", "ffi.Double", "double")),
            RsPrimitive::Bool => Ok(triple("bool", "ffi.Uint8", "bool")),
            RsPrimitive::Char => Ok(triple("char", "ffi.Int32", "String")),
            RsPrimitive::Str => Ok(triple("str", "ffi.Pointer<ffi.Utf8>", "String")),
            RsPrimitive::String => Ok(triple("String", "ffi.Pointer<ffi.Utf8>", "String")),
            RsPrimitive::Unit => Ok(triple("()", "ffi.Void", "void")),
        }
    }
}

/// The layer that the enclosing type `by` adds to the failure `cause`.
fn enclose(cause: ConversionError, by: &str) -> (r: ConversionError)
    ensures
        r@ == enclosed(cause@, by@),
{
    let mut b = ConversionErrorBuilder::new();
    b.with_kind(cause.kind);
    b.with_source_opt(&cause.src);
    b.with_destination(by);
    b.with_error_source(cause);
    b.build()
}

/// Whether every field has a type with names; else the first failure.
fn check_fields(fields: &Vec<RsField>) -> (r: Result<(), ConversionError>)
    ensures
        match crate::convert::collect_spec(names_of_fields(crate::types::fields_model(fields@))) {
            Ok(_) => r is Ok,
            Err(e) => r is Err && r->Err_0@ == e,
        },
    decreases fields, 1nat,
{
    let ghost all = names_of_fields(crate::types::fields_model(fields@));
    let ghost mut got: Seq<Names> = Seq::empty();
    let mut i: usize = 0;
    while i < fields.len()
        invariant
            i <= fields.len(),
            all == names_of_fields(crate::types::fields_model(fields@)),
            all.len() == fields.len(),
            crate::convert::collect_spec(all.take(i as int)) == Ok::<Seq<Names>, ErrorModel>(got),
        decreases fields.len() - i,
    {
        proof {
            assert(all.take(i + 1).drop_last() =~= all.take(i as int));
        }
        match type_names(&fields[i].ty) {
            Ok(n) => {
                proof {
                    got = got.push(n@);
                }
            },
            Err(e) => {
                proof {
                    lemma_collect_keeps_failure(all, i + 1);
                }
                return Err(e);
            },
        }
        i += 1;
    }
    assert(all.take(fields.len() as int) =~= all);
    Ok(())
}

/// The names of each of `types`, or the first failure.
fn names_of_all(types: &Vec<RsType>) -> (r: Result<
    (Vec<String>, Vec<String>, Vec<String>),
    ConversionError,
>)
    ensures
        match crate::convert::collect_spec(names_of_types(crate::types::types_model(types@))) {
            Ok(ns) => r is Ok && crate::text::views_of(r->Ok_0.0@) == natives_of(ns)
                && crate::text::views_of(r->Ok_0.1@) == ffis_of(ns) && crate::text::views_of(
                r->Ok_0.2@,
            ) == hosts_of(ns),
            Err(e) => r is Err && r->Err_0@ == e,
        },
    decreases types, 1nat,
{
    let ghost all = names_of_types(crate::types::types_model(types@));
    let ghost mut got: Seq<Names> = Seq::empty();
    let mut natives: Vec<String> = Vec::new();
    let mut ffis: Vec<String> = Vec::new();
    let mut hosts: Vec<String> = Vec::new();
    let mut i: usize = 0;
    while i < types.len()
        invariant
            i <= types.len(),
            all == names_of_types(crate::types::types_model(types@)),
            all.len() == types.len(),
            crate::convert::collect_spec(all.take(i as int)) == Ok::<Seq<Names>, ErrorModel>(got),
            crate::text::views_of(natives@) == natives_of(got),
            crate::text::views_of(ffis@) == ffis_of(got),
            crate::text::views_of(hosts@) == hosts_of(got),
        decreases types.len() - i,
    {
        proof {
            assert(all.take(i + 1).drop_last() =~= all.take(i as int));
        }
        match type_names(&types[i]) {
            Ok(n) => {
                let ghost nv = n@;
                proof {
                    got = got.push(nv);
                }
                let (a, b, c) = n;
                let ghost n0 = natives@;
                let ghost f0 = ffis@;
                let ghost h0 = hosts@;
                natives.push(a);
                ffis.push(b);
                hosts.push(c);
                proof {
                    assert(crate::text::views_of(natives@) =~= crate::text::views_of(n0).push(
                        nv.0,
                    ));
                    assert(crate::text::views_of(ffis@) =~= crate::text::views_of(f0).push(nv.1));
                    assert(crate::text::views_of(hosts@) =~= crate::text::views_of(h0).push(nv.2));
                }
            },
            Err(e) => {
                proof {
                    lemma_collect_keeps_failure(all, i + 1);
                }
                return Err(e);
            },
        }
        i += 1;
    }
    assert(all.take(types.len() as int) =~= all);
    Ok((natives, ffis, hosts))
}

/// Whether every variant has fields with names; else the first failure.
fn check_variants(variants: &Vec<RsVariant>) -> (r: Result<(), ConversionError>)
    ensures
        match crate::convert::collect_spec(
            names_of_variants(crate::types::variants_model(variants@)),
        ) {
            Ok(_) => r is Ok,
            Err(e) => r is Err && r->Err_0@ == e,
        },
    decreases variants, 3nat,
{
    let ghost all = names_of_variants(crate::types::variants_model(variants@));
    let ghost mut got: Seq<Names> = Seq::empty();
    let mut i: usize = 0;
    while i < variants.len()
        invariant
            i <= variants.len(),
            all == names_of_variants(crate::types::variants_model(variants@)),
            all.len() == variants.len(),
            crate::convert::collect_spec(all.take(i as int)) == Ok::<Seq<Names>, ErrorModel>(got),
        decreases variants.len() - i,
    {
        proof {
            assert(all.take(i + 1).drop_last() =~= all.take(i as int));
        }
        let v = &variants[i];
        match check_fields(&v.fields) {
            Ok(_) => {
                proof {
                    got = got.push((v.name@, v.name@, v.name@));
                }
            },
            Err(e) => {
                proof {
                    lemma_collect_keeps_failure(all, i + 1);
                }
                return Err(enclose(e, v.name.as_str()));
            },
        }
        i += 1;
    }
    assert(all.take(variants.len() as int) =~= all);
    Ok(())
}

/// The names of `ty`.
fn type_names(ty: &RsType) -> (r: Result<(String, String, String), ConversionError>)
    ensures
        crate::convert::viewed(r) == names_spec(ty@),
    decreases ty, 0nat,
{
    match ty {
        RsType::Primitive(p) => p.name(),
        RsType::Struct(s) => match check_fields(&s.fields) {
            Ok(_) => Ok((s.name.clone(), s.name.clone(), s.name.clone())),
            Err(e) => Err(enclose(e, s.name.as_str())),
        },
        RsType::Enum(e) => match check_variants(&e.variants) {
            Ok(_) => Ok((e.name.clone(), e.name.clone(), e.name.clone())),
            Err(c) => Err(enclose(c, e.name.as_str())),
        },
        RsType::Variant(v) => match check_fields(&v.fields) {
            Ok(_) => Ok((v.name.clone(), v.name.clone(), v.name.clone())),
            Err(e) => Err(enclose(e, v.name.as_str())),
        },
        RsType::Tuple(t) => match names_of_all(&t.types) {
            Ok(parts) => {
                let (natives, _ffis, hosts) = parts;
                let mut native = String::from_str("(");
                let list = join(&natives, ", ");
                native.append(list.as_str());
                native.append(")");
                let mut host = String::from_str("(");
                let list = join(&hosts, ", ");
                host.append(list.as_str());
                host.append(")");
                Ok((native, String::from_str("ffi.Struct"), host))
            },
            Err(e) => Err(enclose(e, "tuple")),
        },
        RsType::Array(a) => match type_names(&a.ty) {
            Ok(n) => {
                let (inner, ffi, _host) = n;
                let mut native = String::from_str("[");
                native.append(inner.as_str());
                native.append("; ");
                push_decimal(&mut native, a.len);
                native.append("]");
                let mut outer = String::from_str("ffi.Array<");
                outer.append(ffi.as_str());
                outer.append(">");
                let same = outer.clone();
                Ok((native, outer, same))
            },
            Err(e) => Err(enclose(e, "array")),
        },
        RsType::Slice(s) => match type_names(&s.ty) {
            Ok(n) => {
                let (inner, ffi, _host) = n;
                let mut native = String::from_str("[");
                native.append(inner.as_str());
                native.append("]");
                let mut outer = String::from_str("ffi.Pointer<");
                outer.append(ffi.as_str());
                outer.append(">");
                let same = outer.clone();
                Ok((native, outer, same))
            },
            Err(e) => Err(enclose(e, "slice")),
        },
        RsType::Func(f) => {
            match check_fields(&f.args) {
                Ok(_) => {},
                Err(e) => {
                    return Err(enclose(e, f.name.as_str()));
                },
            }
            match type_names(&f.ret) {
                Ok(_) => Ok((f.snake_case_name(), f.snake_case_name(), f.pascal_case_name())),
                Err(e) => Err(enclose(e, f.name.as_str())),
            }
        },
        RsType::Pointer(p) => match type_names(&p.ty) {
            Ok(n) => {
                let (inner, ffi, host) = n;
                let mut native = if p.mutable {
                    String::from_str("*mut ")
                } else {
                    String::from_str("*const ")
                };
                native.append(inner.as_str());
                let mut outer = String::from_str("ffi.Pointer<");
                outer.append(ffi.as_str());
                outer.append(">");
                let mut hosted = String::from_str("ffi.Pointer<");
                hosted.append(host.as_str());
                hosted.append(">");
                Ok((native, outer, hosted))
            },
            Err(e) => Err(enclose(e, "pointer")),
        },
    }
}

impl DartType for RsType {
    open spec fn type_model(&self) -> TypeModel {
        self@
    }

    fn name(&self) -> (r: Result<(String, String, String), ConversionError>) {
        type_names(self)
    }
}

/// Every primitive but the 128-bit integers and the unsigned 64-bit integer
/// has names; those three fail with `UnsupportedPrimitive` and are named in
/// the failure.
pub proof fn lemma_primitive_names(p: RsPrimitive)
    ensures
        names_spec(TypeModel::Primitive(p)) is Ok <==> !(p is I128 || p is U64 || p is U128),
        names_spec(TypeModel::Primitive(p)) matches Err(e) ==> e.kind
            == ConversionErrorKind::UnsupportedPrimitive && e.src == Some(primitive_text(p))
            && e.cause is None,
{
}

/// A struct has names exactly when the type of each of its fields has.
pub proof fn lemma_struct_names_need_every_field(name: Seq<char>, fields: Seq<FieldModel>)
    ensures
        names_spec(TypeModel::Struct { name, fields }) is Ok <==> forall|i: int|
            0 <= i < fields.len() ==> names_spec((#[trigger] fields[i]).ty) is Ok,
{
    let rs = names_of_fields(fields);
    crate::convert::lemma_collect_all(rs);
    assert forall|i: int| 0 <= i < fields.len() implies rs[i] == names_spec(fields[i].ty) by {}
    if names_spec(TypeModel::Struct { name, fields }) is Ok {
        assert forall|i: int| 0 <= i < fields.len() implies names_spec(
            (#[trigger] fields[i]).ty,
        ) is Ok by {
            assert(rs[i] is Ok);
        }
    }
    if forall|i: int| 0 <= i < fields.len() ==> names_spec((#[trigger] fields[i]).ty) is Ok {
        assert forall|i: int| 0 <= i < rs.len() implies (#[trigger] rs[i]) is Ok by {
            assert(names_spec(fields[i].ty) is Ok);
        }
    }
}

/// One field whose type has no names fails the whole struct. The failure
/// wraps that of the first such field in declaration order: it has the
/// struct's name as its destination and the kind of the field's failure, and
/// the innermost entry of its chain is the innermost entry of the field's.
pub proof fn lemma_struct_names_fail_with_a_field(
    name: Seq<char>,
    fields: Seq<FieldModel>,
    i: int,
)
    requires
        0 <= i < fields.len(),
        names_spec(fields[i].ty) is Err,
    ensures
        names_spec(TypeModel::Struct { name, fields }) is Err,
        names_spec(TypeModel::Struct { name, fields })->Err_0.dst == Some(name),
        exists|j: int|
            0 <= j <= i && (#[trigger] names_spec(fields[j].ty)) is Err
                && crate::error::innermost(names_spec(TypeModel::Struct { name, fields })->Err_0)
                == crate::error::innermost(names_spec(fields[j].ty)->Err_0) && names_spec(
                TypeModel::Struct { name, fields },
            )->Err_0.kind == names_spec(fields[j].ty)->Err_0.kind && forall|k: int|
                0 <= k < j ==> names_spec((#[trigger] fields[k]).ty) is Ok,
{
    let rs = names_of_fields(fields);
    crate::convert::lemma_collect_all(rs);
    assert(rs[i] is Err);
    let e = crate::convert::collect_spec(rs)->Err_0;
    let j = choose|j: int|
        0 <= j < rs.len() && #[trigger] rs[j] == Err::<Names, ErrorModel>(e) && forall|k: int|
            0 <= k < j ==> (#[trigger] rs[k]) is Ok;
    assert(j <= i) by {
        if j > i {
            assert(rs[i] is Ok);
        }
    }
    assert(names_spec(fields[j].ty) == rs[j]);
    crate::error::lemma_wrapped_keeps_innermost(e, name, None, None);
    assert forall|k: int| 0 <= k < j implies names_spec((#[trigger] fields[k]).ty) is Ok by {
        assert(rs[k] is Ok);
    }
}

/// A struct whose first field without names is of an unsupported primitive
/// fails with `UnsupportedPrimitive`, and the innermost entry of the chain
/// names that primitive as its source type.
pub proof fn lemma_unsupported_field_is_named(
    name: Seq<char>,
    fields: Seq<FieldModel>,
    i: int,
    p: RsPrimitive,
)
    requires
        0 <= i < fields.len(),
        fields[i].ty == TypeModel::Primitive(p),
        !is_supported(p),
        forall|k: int| 0 <= k < i ==> names_spec((#[trigger] fields[k]).ty) is Ok,
    ensures
        names_spec(TypeModel::Struct { name, fields }) matches Err(e) && e.kind
            == ConversionErrorKind::UnsupportedPrimitive && crate::error::innermost(e).src == Some(
            primitive_text(p),
        ) && crate::error::innermost(e).cause is None,
{
    lemma_struct_names_fail_with_a_field(name, fields, i);
    let whole = names_spec(TypeModel::Struct { name, fields })->Err_0;
    let j = choose|j: int|
        0 <= j <= i && (#[trigger] names_spec(fields[j].ty)) is Err && crate::error::innermost(
            whole,
        ) == crate::error::innermost(names_spec(fields[j].ty)->Err_0) && whole.kind == names_spec(
            fields[j].ty,
        )->Err_0.kind && forall|k: int| 0 <= k < j ==> names_spec((#[trigger] fields[k]).ty) is Ok;
    if j < i {
        assert(names_spec(fields[j].ty) is Ok);
    }
    assert(j == i);
}

/// What `display` returns for a field: the foreign-interface and the host
/// spelling of the argument, and the declaration of the field in a host
/// class. With `type_only` the first two are the bare type names.
pub open spec fn display_spec(f: FieldModel, type_only: bool) -> Result<Names, ErrorModel> {
    match names_spec(f.ty) {
        Err(e) => Err(e),
        Ok(n) => {
            let camel = crate::names::camel_form(crate::names::NameCase::Snake, f.name);
            let decl = "@"@ + n.1 + "() external "@ + n.2 + " "@ + camel + ";"@;
            if type_only {
                Ok((n.1, n.2, decl))
            } else {
                Ok((n.1 + " "@ + f.name, n.2 + " "@ + camel, decl))
            }
        },
    }
}

/// What `display(true)` returns for each of `fs`, in order.
pub open spec fn displays_of(fs: Seq<FieldModel>) -> Seq<Result<Names, ErrorModel>> {
    Seq::new(fs.len(), |i: int| display_spec(fs[i], true))
}

/// What `typedef` returns for a function: the type definition for the foreign
/// interface, the one for the host language, and the line that looks the
/// function up in the library. The first argument without names fails the
/// whole; then the return type.
pub open spec fn typedef_spec(name: Seq<char>, args: Seq<FieldModel>, ret: TypeModel) -> Result<
    Names,
    ErrorModel,
> {
    match crate::convert::collect_spec(displays_of(args)) {
        Err(e) => Err(e),
        Ok(ds) => match names_spec(ret) {
            Err(e) => Err(e),
            Ok(rn) => {
                let pascal = crate::names::pascal_form(crate::names::NameCase::Snake, name);
                let camel = crate::names::camel_form(crate::names::NameCase::Snake, name);
                Ok(
                    (
                        "typedef "@ + name + " = "@ + rn.1 + " Function("@
                            + crate::text::join_spec(natives_of(ds), ", "@) + ");"@,
                        "typedef "@ + pascal + " = "@ + rn.2 + " Function("@
                            + crate::text::join_spec(ffis_of(ds), ", "@) + ");"@,
                        "final "@ + pascal + " "@ + camel
                            + " = dylib().lookup<ffi.NativeFunction<"@ + name + ">>('"@ + name
                            + "').asFunction();"@,
                    ),
                )
            },
        },
    }
}

/// A field as it is written in the foreign interface and in the host language.
pub trait DartField {
    /// The value that the spellings are derived from.
    spec fn field_model(&self) -> FieldModel;

    /// Returns the foreign-interface spelling of the argument, its host
    /// spelling, and the declaration of the field in a host class.
    fn display(&self, type_only: bool) -> (r: Result<(String, String, String), ConversionError>)
        ensures
            crate::convert::viewed(r) == display_spec(self.field_model(), type_only),
    ;
}

impl DartField for RsField {
    open spec fn field_model(&self) -> FieldModel {
        self@
    }

    fn display(&self, type_only: bool) -> (r: Result<(String, String, String), ConversionError>) {
        let (ffi_type, dart_type) = match self.ty.name() {
            Ok(n) => (n.1, n.2),
            Err(e) => {
                return Err(e);
            },
        };
        let ffi_name = self.snake_case_name();
        let dart_name = self.camel_case_name();
        let mut decl = String::from_str("@");
        decl.append(ffi_type.as_str());
        decl.append("() external ");
        decl.append(dart_type.as_str());
        decl.append(" ");
        decl.append(dart_name.as_str());
        decl.append(";");
        if type_only {
            return Ok((ffi_type, dart_type, decl));
        }
        let mut ffi_arg = ffi_type;
        ffi_arg.append(" ");
        ffi_arg.append(ffi_name.as_str());
        let mut dart_arg = dart_type;
        dart_arg.append(" ");
        dart_arg.append(dart_name.as_str());
        Ok((ffi_arg, dart_arg, decl))
    }
}

/// A function as it is declared for the foreign interface and the host.
pub trait DartFn {
    /// What `typedef` returns.
    spec fn typedef_model(&self) -> Result<Names, ErrorModel>;

    /// Returns the type definition for the foreign interface, the one for the
    /// host language, and the line that looks the function up in the library.
    fn typedef(&self) -> (r: Result<(String, String, String), ConversionError>)
        ensures
            crate::convert::viewed(r) == self.typedef_model(),
    ;
}

impl DartFn for RsFn {
    open spec fn typedef_model(&self) -> Result<Names, ErrorModel> {
        typedef_spec(self.name@, crate::types::fields_model(self.args@), (*self.ret)@)
    }

    fn typedef(&self) -> (r: Result<(String, String, String), ConversionError>) {
        let native_name = self.snake_case_name();
        let dart_type_name = self.pascal_case_name();
        let name = self.camel_case_name();
        let ghost all = displays_of(crate::types::fields_model(self.args@));
        let ghost mut got: Seq<Names> = Seq::empty();
        let mut ffi_args: Vec<String> = Vec::new();
        let mut dart_args: Vec<String> = Vec::new();
        let mut i: usize = 0;
        while i < self.args.len()
            invariant
                i <= self.args.len(),
                all == displays_of(crate::types::fields_model(self.args@)),
                all.len() == self.args.len(),
                crate::convert::collect_spec(all.take(i as int)) == Ok::<Seq<Names>, ErrorModel>(
                    got,
                ),
                crate::text::views_of(ffi_args@) == natives_of(got),
                crate::text::views_of(dart_args@) == ffis_of(got),
            decreases self.args.len() - i,
        {
            proof {
                assert(all.take(i + 1).drop_last() =~= all.take(i as int));
            }
            match self.args[i].display(true) {
                Ok(n) => {
                    let ghost nv = n@;
                    proof {
                        got = got.push(nv);
                    }
                    let (a, b, _c) = n;
                    let ghost f0 = ffi_args@;
                    let ghost d0 = dart_args@;
                    ffi_args.push(a);
                    dart_args.push(b);
                    proof {
                        assert(crate::text::views_of(ffi_args@) =~= crate::text::views_of(
                            f0,
                        ).push(nv.0));
                        assert(crate::text::views_of(dart_args@) =~= crate::text::views_of(
                            d0,
                        ).push(nv.1));
                    }
                },
                Err(e) => {
                    proof {
                        lemma_collect_keeps_failure(all, i + 1);
                    }
                    return Err(e);
                },
            }
            i += 1;
        }
        assert(all.take(self.args.len() as int) =~= all);
        let (ffi_ret, dart_ret) = match self.ret.name() {
            Ok(n) => (n.1, n.2),
            Err(e) => {
                return Err(e);
            },
        };
        let mut ffi_typedef = String::from_str("typedef ");
        ffi_typedef.append(native_name.as_str());
        ffi_typedef.append(" = ");
        ffi_typedef.append(ffi_ret.as_str());
        ffi_typedef.append(" Function(");
        let list = join(&ffi_args, ", ");
        ffi_typedef.append(list.as_str());
        ffi_typedef.append(");");
        let mut dart_typedef = String::from_str("typedef ");
        dart_typedef.append(dart_type_name.as_str());
        dart_typedef.append(" = ");
        dart_typedef.append(dart_ret.as_str());
        dart_typedef.append(" Function(");
        let list = join(&dart_args, ", ");
        dart_typedef.append(list.as_str());
        dart_typedef.append(");");
        let mut fn_linker = String::from_str("final ");
        fn_linker.append(dart_type_name.as_str());
        fn_linker.append(" ");
        fn_linker.append(name.as_str());
        fn_linker.append(" = dylib().lookup<ffi.NativeFunction<");
        fn_linker.append(native_name.as_str());
        fn_linker.append(">>('");
        fn_linker.append(native_name.as_str());
        fn_linker.append("').asFunction();");
        Ok((ffi_typedef, dart_typedef, fn_linker))
    }
}

/// Something that has a spelling in the host language.
pub trait ToDart {
    /// What `to_dart` returns.
    spec fn dart_model(&self) -> Result<Seq<char>, ErrorModel>;

    /// Returns the spelling in the host language.
    fn to_dart(&self) -> (r: Result<String, ConversionError>)
        ensures
            crate::convert::viewed(r) == self.dart_model(),
    ;
}

/// The third of the names, or the failure.
pub open spec fn host_of(r: Result<Names, ErrorModel>) -> Result<Seq<char>, ErrorModel> {
    match r {
        Ok(n) => Ok(n.2),
        Err(e) => Err(e),
    }
}

impl ToDart for RsType {
    open spec fn dart_model(&self) -> Result<Seq<char>, ErrorModel> {
        host_of(names_spec(self@))
    }

    fn to_dart(&self) -> (r: Result<String, ConversionError>) {
        match self.name() {
            Ok(n) => Ok(n.2),
            Err(e) => Err(e),
        }
    }
}

/// The frame of a rendered host file. The words between `#` are replaced.
pub const DART_TEMPLATE: &'static str = "\nimport 'dart:ffi' as ffi;\nimport 'dart:io' show Platform, Directory;\nimport 'package:path/path.dart' as path;\n\n#TYPE_DEFS#\nfinal class #MODULE_NAME# {\n    static ffi.DynamicLibrary? _dylib;\n\n    static ffi.DynamicLibrary dylib() {\n        if (_dylib != null) {\n            return _dylib!;\n        }\n        var libraryPath = path.join(\n            Directory.current.path, \n            #LIB_PATH#\n            '#LIB_NAME#.so'\n        );\n        if (Platform.isMacOS) {\n            libraryPath = path.join(\n                Directory.current.path, \n                #LIB_PATH#\n                '#LIB_NAME#.dylib'\n            );\n        } else if (Platform.isWindows) {\n            libraryPath = path.join(\n                Directory.current.path, \n                #LIB_PATH#\n                '#LIB_NAME#.dll'\n            );\n        }\n        _dylib = ffi.DynamicLibrary.open(libraryPath);\n        return _dylib!;\n    }\n\n#FN_LINKERS#\n}\n";

/// Collects what a rendered host file holds.
#[derive(Debug)]
pub struct DartFileBuilder {
    /// The type definitions, in the order in which they were added.
    pub type_defs: Vec<String>,
    /// The name of the host class.
    pub module_name: Option<String>,
    /// The directories that lead to the library.
    pub lib_path: Vec<String>,
    /// The name of the library, without its extension.
    pub lib_name: Option<String>,
    /// The lines that look the functions up, in the order in which they were
    /// added.
    pub fn_linkers: Vec<String>,
}

/// The failure for a file without a module name.
pub open spec fn missing_module_name() -> ErrorModel {
    ErrorModel {
        kind: ConversionErrorKind::MissingModuleName,
        msg: Some("Missing module name"@),
        ..crate::error::empty_error()
    }
}

/// The failure for a file without a library name.
pub open spec fn missing_lib_name() -> ErrorModel {
    ErrorModel {
        kind: ConversionErrorKind::MissingLibName,
        msg: Some("Missing library name"@),
        ..crate::error::empty_error()
    }
}

/// Each of `parts` between single quotes.
pub open spec fn quoted(parts: Seq<Seq<char>>) -> Seq<Seq<char>> {
    Seq::new(parts.len(), |i: int| "'"@ + parts[i] + "'"@)
}

/// How the directories are written in the file: each between single quotes
/// and followed by a comma; nothing if there are none.
pub open spec fn lib_path_text(parts: Seq<Seq<char>>) -> Seq<char> {
    if parts.len() == 0 {
        Seq::empty()
    } else {
        crate::text::join_spec(quoted(parts), ", "@) + ", "@
    }
}

/// The frame with its five words replaced, one after the other.
pub open spec fn filled(
    type_defs: Seq<char>,
    module_name: Seq<char>,
    lib_path: Seq<char>,
    lib_name: Seq<char>,
    fn_linkers: Seq<char>,
) -> Seq<char> {
    crate::text::replace_spec(
        crate::text::replace_spec(
            crate::text::replace_spec(
                crate::text::replace_spec(
                    crate::text::replace_spec(DART_TEMPLATE@, "#TYPE_DEFS#"@, type_defs),
                    "#MODULE_NAME#"@,
                    module_name,
                ),
                "#LIB_PATH#"@,
                lib_path,
            ),
            "#LIB_NAME#"@,
            lib_name,
        ),
        "#FN_LINKERS#"@,
        fn_linkers,
    )
}

/// What `build` returns.
pub open spec fn build_spec(b: DartFileBuilder) -> Result<Seq<char>, ErrorModel> {
    match (b.module_name, b.lib_name) {
        (None, _) => Err(missing_module_name()),
        (Some(_), None) => Err(missing_lib_name()),
        (Some(m), Some(l)) => Ok(
            filled(
                crate::text::join_spec(crate::text::views_of(b.type_defs@), "\n"@),
                m@,
                lib_path_text(crate::text::views_of(b.lib_path@)),
                l@,
                crate::text::join_spec(crate::text::views_of(b.fn_linkers@), "\n"@),
            ),
        ),
    }
}

impl DartFileBuilder {
    /// A builder that holds nothing.
    pub fn new() -> (r: Self)
        ensures
            r.type_defs@.len() == 0,
            r.module_name is None,
            r.lib_path@.len() == 0,
            r.lib_name is None,
            r.fn_linkers@.len() == 0,
    {
        Self {
            type_defs: Vec::new(),
            module_name: None,
            lib_path: Vec::new(),
            lib_name: None,
            fn_linkers: Vec::new(),
        }
    }

    /// Adds a function: its two type definitions and its lookup line. A
    /// function without a type definition leaves the builder as it was.
    pub fn add_fn<F: DartFn>(&mut self, f: &F) -> (r: Result<(), ConversionError>)
        ensures
            match f.typedef_model() {
                Ok(t) => r is Ok && crate::text::views_of(final(self).type_defs@)
                    == crate::text::views_of(old(self).type_defs@).push(t.0).push(t.1)
                    && crate::text::views_of(final(self).fn_linkers@) == crate::text::views_of(
                    old(self).fn_linkers@,
                ).push(t.2),
                Err(e) => r is Err && r->Err_0@ == e && final(self).type_defs == old(
                    self,
                ).type_defs && final(self).fn_linkers == old(self).fn_linkers,
            },
            final(self).module_name == old(self).module_name,
            final(self).lib_path == old(self).lib_path,
            final(self).lib_name == old(self).lib_name,
    {
        match f.typedef() {
            Ok(t) => {
                let (ffi_typedef, dart_typedef, fn_linker) = t;
                self.type_defs.push(ffi_typedef);
                self.type_defs.push(dart_typedef);
                self.fn_linkers.push(fn_linker);
                Ok(())
            },
            Err(e) => Err(e),
        }
    }

    /// Sets the name of the host class.
    pub fn set_module_name(&mut self, name: &str)
        ensures
            final(self).module_name is Some,
            final(self).module_name->0@ == name@,
            final(self).type_defs == old(self).type_defs,
            final(self).lib_path == old(self).lib_path,
            final(self).lib_name == old(self).lib_name,
            final(self).fn_linkers == old(self).fn_linkers,
    {
        self.module_name = Some(String::from_str(name));
    }

    /// Adds a directory at the end of the path to the library.
    pub fn add_lib_path(&mut self, path: &str)
        ensures
            crate::text::views_of(final(self).lib_path@) == crate::text::views_of(
                old(self).lib_path@,
            ).push(path@),
            final(self).type_defs == old(self).type_defs,
            final(self).module_name == old(self).module_name,
            final(self).lib_name == old(self).lib_name,
            final(self).fn_linkers == old(self).fn_linkers,
    {
        self.lib_path.push(String::from_str(path));
    }

    /// Replaces the path to the library.
    pub fn set_lib_path(&mut self, path: &[&str])
        ensures
            crate::text::views_of(final(self).lib_path@) == crate::text::strs_of(path@),
            final(self).type_defs == old(self).type_defs,
            final(self).module_name == old(self).module_name,
            final(self).lib_name == old(self).lib_name,
            final(self).fn_linkers == old(self).fn_linkers,
    {
        let mut out: Vec<String> = Vec::new();
        let mut i: usize = 0;
        while i < path.len()
            invariant
                i <= path.len(),
                out.len() == i,
                forall|k: int| 0 <= k < i ==> (#[trigger] out@[k])@ == path@[k]@,
            decreases path.len() - i,
        {
            out.push(String::from_str(path[i]));
            i += 1;
        }
        self.lib_path = out;
        assert(crate::text::views_of(self.lib_path@) =~= crate::text::strs_of(path@));
    }

    /// Sets the name of the library.
    pub fn set_lib_name(&mut self, name: &str)
        ensures
            final(self).lib_name is Some,
            final(self).lib_name->0@ == name@,
            final(self).type_defs == old(self).type_defs,
            final(self).module_name == old(self).module_name,
            final(self).lib_path == old(self).lib_path,
            final(self).fn_linkers == old(self).fn_linkers,
    {
        self.lib_name = Some(String::from_str(name));
    }

    /// Renders the file: the frame with the type definitions, the module
    /// name, the path, the library name and the lookup lines in their places.
    /// `MissingModuleName` without a module name, else `MissingLibName`
    /// without a library name.
    pub fn build(&self) -> (r: Result<String, ConversionError>)
        ensures
            crate::convert::viewed(r) == build_spec(*self),
    {
        let module_name = match &self.module_name {
            Some(m) => m,
            None => {
                let mut b = ConversionErrorBuilder::new();
                b.with_kind(ConversionErrorKind::MissingModuleName).with_message(
                    "Missing module name",
                );
                return Err(b.build());
            },
        };
        let lib_path = if self.lib_path.len() > 0 {
            let mut parts: Vec<String> = Vec::new();
            let mut i: usize = 0;
            while i < self.lib_path.len()
                invariant
                    i <= self.lib_path.len(),
                    parts.len() == i,
                    forall|k: int|
                        0 <= k < i ==> (#[trigger] parts@[k])@ == "'"@ + self.lib_path@[k]@
                            + "'"@,
                decreases self.lib_path.len() - i,
            {
                let mut q = String::from_str("'");
                q.append(self.lib_path[i].as_str());
                q.append("'");
                parts.push(q);
                i += 1;
            }
            assert(crate::text::views_of(parts@) =~= quoted(
                crate::text::views_of(self.lib_path@),
            ));
            let mut joined = join(&parts, ", ");
            joined.append(", ");
            joined
        } else {
            String::new()
        };
        let lib_name = match &self.lib_name {
            Some(l) => l,
            None => {
                let mut b = ConversionErrorBuilder::new();
                b.with_kind(ConversionErrorKind::MissingLibName).with_message(
                    "Missing library name",
                );
                return Err(b.build());
            },
        };
        let type_defs = join(&self.type_defs, "\n");
        let fn_linkers = join(&self.fn_linkers, "\n");
        let a = replace_all(DART_TEMPLATE, "#TYPE_DEFS#", type_defs.as_str());
        let b = replace_all(a.as_str(), "#MODULE_NAME#", module_name.as_str());
        let c = replace_all(b.as_str(), "#LIB_PATH#", lib_path.as_str());
        let d = replace_all(c.as_str(), "#LIB_NAME#", lib_name.as_str());
        let e = replace_all(d.as_str(), "#FN_LINKERS#", fn_linkers.as_str());
        Ok(e)
    }
}

} // verus!
