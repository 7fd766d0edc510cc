//! The declaration extractor: from a function, a struct or an enum of the
//! syntax model to its record in the type model.
use vstd::prelude::*;
use vstd::string::*;
use crate::convert::{fail, fail_at, lemma_collect_keeps_failure, wrap};
use crate::error::{ConversionError, ConversionErrorKind, ErrorModel};
use crate::raw::{RawArg, RawEnum, RawField, RawFn, RawItem, RawStruct, RawVariant};
use crate::text::decimal;
use crate::types::{
    FieldModel, RsEnum, RsField, RsFn, RsPrimitive, RsStruct, RsType, RsVariant, TypeModel,
    VariantModel,
};

verus! {

/// Whether there is a name and it is not empty.
pub open spec fn has_name(name: Option<String>) -> bool {
    name matches Some(n) && n@.len() > 0
}

/// What the extraction of a named field returns: `UnnamedField` for a field
/// without a name, else the field with its converted type, or the failure of
/// that conversion wrapped.
pub open spec fn field_spec(f: RawField) -> Result<FieldModel, ErrorModel> {
    if !has_name(f.name) {
        Err(
            crate::convert::located(
                ConversionErrorKind::UnnamedField,
                "Field"@,
                "RsField"@,
                "Field must have an identifier"@,
                crate::raw::field_text(f),
                f.span,
            ),
        )
    } else {
        match crate::convert::convert_spec(f.ty) {
            Ok(m) => Ok(FieldModel { name: f.name->0@, ty: m }),
            Err(e) => Err(
                crate::error::wrapped(
                    e,
                    "RsField"@,
                    Some(crate::raw::field_text(f)),
                    Some(f.span),
                ),
            ),
        }
    }
}

/// What the extraction of field `index` of a variant returns: a field without
/// a name is named by its position.
pub open spec fn positional_field_spec(f: RawField, index: int) -> Result<
    FieldModel,
    ErrorModel,
> {
    match crate::convert::convert_spec(f.ty) {
        Ok(m) => Ok(
            FieldModel {
                name: if has_name(f.name) {
                    f.name->0@
                } else {
                    crate::text::decimal_spec(index as nat)
                },
                ty: m,
            },
        ),
        Err(e) => Err(
            crate::error::wrapped(e, "RsField"@, Some(crate::raw::field_text(f)), Some(f.span)),
        ),
    }
}

/// What the extraction of an argument returns: `ReceiverField` for `self`,
/// `UnnamedField` for a pattern that is no identifier, else the argument with
/// its converted type, or the failure of that conversion wrapped.
pub open spec fn arg_spec(a: RawArg) -> Result<FieldModel, ErrorModel> {
    match a {
        RawArg::Receiver { span } => Err(
            crate::convert::located(
                ConversionErrorKind::ReceiverField,
                "FnArg"@,
                "RsField"@,
                "FnArg::Receiver is not supported"@,
                crate::raw::fn_arg_text(a),
                span,
            ),
        ),
        RawArg::Typed { name, ty, span } => {
            if !has_name(name) {
                Err(
                    crate::convert::located(
                        ConversionErrorKind::UnnamedField,
                        "FnArg"@,
                        "RsField"@,
                        "FnArg::Typed must have an identifier"@,
                        crate::raw::fn_arg_text(a),
                        span,
                    ),
                )
            } else {
                match crate::convert::convert_spec(ty) {
                    Ok(m) => Ok(FieldModel { name: name->0@, ty: m }),
                    Err(e) => Err(
                        crate::error::wrapped(
                            e,
                            "RsField"@,
                            Some(crate::raw::fn_arg_text(a)),
                            Some(span),
                        ),
                    ),
                }
            }
        },
    }
}

/// What the extraction of each of `fs` as a named field returns.
pub open spec fn field_results(fs: Seq<RawField>) -> Seq<Result<FieldModel, ErrorModel>> {
    Seq::new(fs.len(), |i: int| field_spec(fs[i]))
}

/// What the extraction of each of `fs` as a field of a variant returns.
pub open spec fn positional_results(fs: Seq<RawField>) -> Seq<Result<FieldModel, ErrorModel>> {
    Seq::new(fs.len(), |i: int| positional_field_spec(fs[i], i))
}

/// What the extraction of each of `args` returns.
pub open spec fn arg_results(args: Seq<RawArg>) -> Seq<Result<FieldModel, ErrorModel>> {
    Seq::new(args.len(), |i: int| arg_spec(args[i]))
}

/// What the extraction of a struct returns.
pub open spec fn struct_spec(s: RawStruct) -> Result<TypeModel, ErrorModel> {
    match crate::convert::collect_spec(field_results(s.fields@)) {
        Ok(fields) => Ok(TypeModel::Struct { name: s.name@, fields: fields }),
        Err(e) => Err(
            crate::error::wrapped(e, "RsStruct"@, Some(crate::raw::struct_text(s)), Some(s.span)),
        ),
    }
}

/// What the extraction of a variant returns.
pub open spec fn variant_spec(v: RawVariant) -> Result<VariantModel, ErrorModel> {
    match crate::convert::collect_spec(positional_results(v.fields@)) {
        Ok(fields) => Ok(VariantModel { name: v.name@, fields: fields }),
        Err(e) => Err(
            crate::error::wrapped(
                e,
                "RsVariant"@,
                Some(crate::raw::variant_text(v)),
                Some(v.span),
            ),
        ),
    }
}

/// What the extraction of each of `vs` returns.
pub open spec fn variant_results(vs: Seq<RawVariant>) -> Seq<Result<VariantModel, ErrorModel>> {
    Seq::new(vs.len(), |i: int| variant_spec(vs[i]))
}

/// What the extraction of an enum returns.
pub open spec fn enum_spec(e: RawEnum) -> Result<TypeModel, ErrorModel> {
    match crate::convert::collect_spec(variant_results(e.variants@)) {
        Ok(variants) => Ok(TypeModel::Enum { name: e.name@, variants: variants }),
        Err(c) => Err(
            crate::error::wrapped(c, "RsEnum"@, Some(crate::raw::enum_text(e)), Some(e.span)),
        ),
    }
}

/// What the extraction of a function returns. The arguments come first; the
/// return type is the unit primitive where none is written.
pub open spec fn fn_spec(f: RawFn) -> Result<TypeModel, ErrorModel> {
    match crate::convert::collect_spec(arg_results(f.args@)) {
        Err(e) => Err(
            crate::error::wrapped(e, "RsFn"@, Some(crate::raw::fn_text(f)), Some(f.span)),
        ),
        Ok(args) => match f.ret {
            None => Ok(
                TypeModel::Function {
                    name: f.name@,
                    args: args,
                    ret: Box::new(TypeModel::Primitive(RsPrimitive::Unit)),
                },
            ),
            Some(t) => match crate::convert::convert_spec(t) {
                Ok(m) => Ok(TypeModel::Function { name: f.name@, args: args, ret: Box::new(m) }),
                Err(e) => Err(
                    crate::error::wrapped(e, "RsFn"@, Some(crate::raw::fn_text(f)), Some(f.span)),
                ),
            },
        },
    }
}

/// The failure for an item that declares no function, struct or enum.
pub open spec fn no_declaration() -> ErrorModel {
    crate::error::leaf(
        ConversionErrorKind::UnknownType,
        "Item"@,
        "RsType"@,
        "Item declares no function, struct or enum"@,
    )
}

/// What the extraction of an item returns.
pub open spec fn extract_spec(item: RawItem) -> Result<TypeModel, ErrorModel> {
    match item {
        RawItem::Fn(f) => fn_spec(f),
        RawItem::Struct(s) => struct_spec(s),
        RawItem::Enum(e) => enum_spec(e),
        RawItem::Mod(_) => Err(no_declaration()),
        RawItem::Other => Err(no_declaration()),
    }
}

fn name_of(name: &Option<String>) -> (r: Option<String>)
    ensures
        has_name(*name) ==> r is Some && r->0@ == name->0@,
        !has_name(*name) ==> r is None,
{
    match name {
        Some(n) => {
            if n.as_str().unicode_len() > 0 {
                Some(n.clone())
            } else {
                None
            }
        },
        None => None,
    }
}

impl RsField {
    /// Extracts a named field.
    pub fn try_from(value: &RawField) -> (r: Result<RsField, ConversionError>)
        ensures
            crate::convert::viewed(r) == field_spec(*value),
            r matches Ok(f) ==> f.name@.len() > 0,
    {
        let name = match name_of(&value.name) {
            Some(n) => n,
            None => {
                return Err(
                    fail_at(
                        ConversionErrorKind::UnnamedField,
                        "Field",
                        "RsField",
                        "Field must have an identifier",
                        value,
                        value.span,
                    ),
                );
            },
        };
        match RsType::try_from(&value.ty) {
            Ok(ty) => Ok(RsField::new(name, ty)),
            Err(e) => Err(wrap(e, "RsField", value, Some(value.span))),
        }
    }

    /// Extracts field `index` of a variant: a field without a name is named by
    /// its position.
    pub fn try_from_positional(value: &RawField, index: usize) -> (r: Result<
        RsField,
        ConversionError,
    >)
        ensures
            crate::convert::viewed(r) == positional_field_spec(*value, index as int),
    {
        let name = match name_of(&value.name) {
            Some(n) => n,
            None => decimal(index),
        };
        match RsType::try_from(&value.ty) {
            Ok(ty) => Ok(RsField::new(name, ty)),
            Err(e) => Err(wrap(e, "RsField", value, Some(value.span))),
        }
    }

    /// Extracts an argument of a function.
    pub fn try_from_arg(value: &RawArg) -> (r: Result<RsField, ConversionError>)
        ensures
            crate::convert::viewed(r) == arg_spec(*value),
            r matches Ok(f) ==> f.name@.len() > 0,
    {
        match value {
            RawArg::Receiver { span } => Err(
                fail_at(
                    ConversionErrorKind::ReceiverField,
                    "FnArg",
                    "RsField",
                    "FnArg::Receiver is not supported",
                    value,
                    *span,
                ),
            ),
            RawArg::Typed { name, ty, span } => {
                let name = match name_of(name) {
                    Some(n) => n,
                    None => {
                        return Err(
                            fail_at(
                                ConversionErrorKind::UnnamedField,
                                "FnArg",
                                "RsField",
                                "FnArg::Typed must have an identifier",
                                value,
                                *span,
                            ),
                        );
                    },
                };
                match RsType::try_from(ty) {
                    Ok(ty) => Ok(RsField::new(name, ty)),
                    Err(e) => Err(wrap(e, "RsField", value, Some(*span))),
                }
            },
        }
    }
}

/// Extracts each of `fields` as a named field: all of them, or the first
/// failure in declaration order.
fn extract_fields(fields: &Vec<RawField>) -> (r: Result<Vec<RsField>, ConversionError>)
    ensures
        match crate::convert::collect_spec(field_results(fields@)) {
            Ok(ms) => r is Ok && crate::types::fields_model(r->Ok_0@) == ms,
            Err(e) => r is Err && r->Err_0@ == e,
        },
{
    let mut out: Vec<RsField> = Vec::new();
    let mut i: usize = 0;
    proof {
        assert(crate::types::fields_model(out@) =~= Seq::<FieldModel>::empty());
    }
    while i < fields.len()
        invariant
            i <= fields.len(),
            crate::convert::collect_spec(field_results(fields@).take(i as int)) == Ok::<
                Seq<FieldModel>,
                ErrorModel,
            >(crate::types::fields_model(out@)),
        decreases fields.len() - i,
    {
        proof {
            assert(field_results(fields@).take(i + 1).drop_last() =~= field_results(
                fields@,
            ).take(i as int));
        }
        match RsField::try_from(&fields[i]) {
            Ok(f) => {
                let ghost before = out@;
                out.push(f);
                assert(crate::types::fields_model(out@) =~= crate::types::fields_model(
                    before,
                ).push(f@));
            },
            Err(e) => {
                proof {
                    lemma_collect_keeps_failure(field_results(fields@), i + 1);
                }
                return Err(e);
            },
        }
        i += 1;
    }
    assert(field_results(fields@).take(fields.len() as int) =~= field_results(fields@));
    Ok(out)
}

/// Extracts each of `fields` as a field of a variant.
fn extract_positional(fields: &Vec<RawField>) -> (r: Result<Vec<RsField>, ConversionError>)
    ensures
        match crate::convert::collect_spec(positional_results(fields@)) {
            Ok(ms) => r is Ok && crate::types::fields_model(r->Ok_0@) == ms,
            Err(e) => r is Err && r->Err_0@ == e,
        },
{
    let mut out: Vec<RsField> = Vec::new();
    let mut i: usize = 0;
    proof {
        assert(crate::types::fields_model(out@) =~= Seq::<FieldModel>::empty());
    }
    while i < fields.len()
        invariant
            i <= fields.len(),
            crate::convert::collect_spec(positional_results(fields@).take(i as int)) == Ok::<
                Seq<FieldModel>,
                ErrorModel,
            >(crate::types::fields_model(out@)),
        decreases fields.len() - i,
    {
        proof {
            assert(positional_results(fields@).take(i + 1).drop_last() =~= positional_results(
                fields@,
            ).take(i as int));
        }
        match RsField::try_from_positional(&fields[i], i) {
            Ok(f) => {
                let ghost before = out@;
                out.push(f);
                assert(crate::types::fields_model(out@) =~= crate::types::fields_model(
                    before,
                ).push(f@));
            },
            Err(e) => {
                proof {
                    lemma_collect_keeps_failure(positional_results(fields@), i + 1);
                }
                return Err(e);
            },
        }
        i += 1;
    }
    assert(positional_results(fields@).take(fields.len() as int) =~= positional_results(
        fields@,
    ));
    Ok(out)
}

/// Extracts each of `args`.
fn extract_args(args: &Vec<RawArg>) -> (r: Result<Vec<RsField>, ConversionError>)
    ensures
        match crate::convert::collect_spec(arg_results(args@)) {
            Ok(ms) => r is Ok && crate::types::fields_model(r->Ok_0@) == ms,
            Err(e) => r is Err && r->Err_0@ == e,
        },
{
    let mut out: Vec<RsField> = Vec::new();
    let mut i: usize = 0;
    proof {
        assert(crate::types::fields_model(out@) =~= Seq::<FieldModel>::empty());
    }
    while i < args.len()
        invariant
            i <= args.len(),
            crate::convert::collect_spec(arg_results(args@).take(i as int)) == Ok::<
                Seq<FieldModel>,
                ErrorModel,
            >(crate::types::fields_model(out@)),
        decreases args.len() - i,
    {
        proof {
            assert(arg_results(args@).take(i + 1).drop_last() =~= arg_results(args@).take(
                i as int,
            ));
        }
        match RsField::try_from_arg(&args[i]) {
            Ok(f) => {
                let ghost before = out@;
                out.push(f);
                assert(crate::types::fields_model(out@) =~= crate::types::fields_model(
                    before,
                ).push(f@));
            },
            Err(e) => {
                proof {
                    lemma_collect_keeps_failure(arg_results(args@), i + 1);
                }
                return Err(e);
            },
        }
        i += 1;
    }
    assert(arg_results(args@).take(args.len() as int) =~= arg_results(args@));
    Ok(out)
}

impl RsStruct {
    /// Extracts a struct. Every field must have a name.
    pub fn try_from(value: &RawStruct) -> (r: Result<RsStruct, ConversionError>)
        ensures
            crate::convert::viewed(r) == struct_spec(*value),
    {
        match extract_fields(&value.fields) {
            Ok(fields) => Ok(RsStruct::new(value.name.clone(), fields)),
            Err(e) => Err(wrap(e, "RsStruct", value, Some(value.span))),
        }
    }
}

impl RsVariant {
    /// Extracts a variant. Positional fields are named `0`, `1`, ….
    pub fn try_from(value: &RawVariant) -> (r: Result<RsVariant, ConversionError>)
        ensures
            crate::convert::viewed(r) == variant_spec(*value),
    {
        match extract_positional(&value.fields) {
            Ok(fields) => Ok(RsVariant::new(value.name.clone(), fields)),
            Err(e) => Err(wrap(e, "RsVariant", value, Some(value.span))),
        }
    }
}

impl RsEnum {
    /// Extracts an enum.
    pub fn try_from(value: &RawEnum) -> (r: Result<RsEnum, ConversionError>)
        ensures
            crate::convert::viewed(r) == enum_spec(*value),
    {
        let variants = &value.variants;
        let mut out: Vec<RsVariant> = Vec::new();
        let mut i: usize = 0;
        proof {
            assert(crate::types::variants_model(out@) =~= Seq::<VariantModel>::empty());
        }
        while i < variants.len()
            invariant
                i <= variants.len(),
                variants == &value.variants,
                crate::convert::collect_spec(variant_results(variants@).take(i as int)) == Ok::<
                    Seq<VariantModel>,
                    ErrorModel,
                >(crate::types::variants_model(out@)),
            decreases variants.len() - i,
        {
            proof {
                assert(variant_results(variants@).take(i + 1).drop_last() =~= variant_results(
                    variants@,
                ).take(i as int));
            }
            match RsVariant::try_from(&variants[i]) {
                Ok(v) => {
                    let ghost before = out@;
                    out.push(v);
                    assert(crate::types::variants_model(out@) =~= crate::types::variants_model(
                        before,
                    ).push(v@));
                },
                Err(e) => {
                    proof {
                        lemma_collect_keeps_failure(variant_results(variants@), i + 1);
                    }
                    return Err(wrap(e, "RsEnum", value, Some(value.span)));
                },
            }
            i += 1;
        }
        assert(variant_results(variants@).take(variants.len() as int) =~= variant_results(
            variants@,
        ));
        Ok(RsEnum::new(value.name.clone(), out))
    }
}

impl RsFn {
    /// Extracts a function.
    pub fn try_from(value: &RawFn) -> (r: Result<RsFn, ConversionError>)
        ensures
            crate::convert::viewed(r) == fn_spec(*value),
    {
        let args = match extract_args(&value.args) {
            Ok(args) => args,
            Err(e) => {
                return Err(wrap(e, "RsFn", value, Some(value.span)));
            },
        };
        let ret = match &value.ret {
            None => RsType::Primitive(RsPrimitive::Unit),
            Some(t) => match RsType::try_from(t) {
                Ok(ty) => ty,
                Err(e) => {
                    return Err(wrap(e, "RsFn", value, Some(value.span)));
                },
            },
        };
        Ok(RsFn::new(value.name.clone(), args, ret))
    }
}

/// Extracts the declaration that `item` holds: a function, a struct or an
/// enum. Any other item is refused with `UnknownType`.
pub fn extract(item: &RawItem) -> (r: Result<RsType, ConversionError>)
    ensures
        crate::convert::viewed(r) == extract_spec(*item),
{
    match item {
        RawItem::Fn(f) => match RsFn::try_from(f) {
            Ok(x) => Ok(RsType::Func(x)),
            Err(e) => Err(e),
        },
        RawItem::Struct(s) => match RsStruct::try_from(s) {
            Ok(x) => Ok(RsType::Struct(x)),
            Err(e) => Err(e),
        },
        RawItem::Enum(e) => match RsEnum::try_from(e) {
            Ok(x) => Ok(RsType::Enum(x)),
            Err(e) => Err(e),
        },
        _ => Err(
            fail(
                ConversionErrorKind::UnknownType,
                "Item",
                "RsType",
                "Item declares no function, struct or enum",
            ),
        ),
    }
}

/// Whether each of `fs` has a name that is not empty.
pub open spec fn all_named(fs: Seq<FieldModel>) -> bool {
    forall|i: int| 0 <= i < fs.len() ==> (#[trigger] fs[i]).name.len() > 0
}

/// Whether each field of each of `vs` has a name that is not empty.
pub open spec fn all_variants_named(vs: Seq<VariantModel>) -> bool {
    forall|i: int| 0 <= i < vs.len() ==> all_named((#[trigger] vs[i]).fields)
}

/// Every field and every argument of an extracted declaration has a name
/// that is not empty.
pub proof fn lemma_extracted_fields_are_named(item: RawItem)
    ensures
        extract_spec(item) matches Ok(m) ==> match m {
            TypeModel::Struct { fields, .. } => all_named(fields),
            TypeModel::Function { args, .. } => all_named(args),
            TypeModel::Enum { variants, .. } => all_variants_named(variants),
            _ => false,
        },
{
    match item {
        RawItem::Struct(s) => {
            let rs = field_results(s.fields@);
            crate::convert::lemma_collect_all(rs);
            if let Ok(fields) = crate::convert::collect_spec(rs) {
                assert forall|i: int| 0 <= i < fields.len() implies (#[trigger] fields[i]).name.len()
                    > 0 by {
                    assert(rs[i] == field_spec(s.fields@[i]));
                }
            }
        },
        RawItem::Fn(f) => {
            let rs = arg_results(f.args@);
            crate::convert::lemma_collect_all(rs);
            if let Ok(args) = crate::convert::collect_spec(rs) {
                assert forall|i: int| 0 <= i < args.len() implies (#[trigger] args[i]).name.len()
                    > 0 by {
                    assert(rs[i] == arg_spec(f.args@[i]));
                }
            }
        },
        RawItem::Enum(e) => {
            let vs = variant_results(e.variants@);
            crate::convert::lemma_collect_all(vs);
            if let Ok(variants) = crate::convert::collect_spec(vs) {
                assert forall|v: int| 0 <= v < variants.len() implies all_named(
                    (#[trigger] variants[v]).fields,
                ) by {
                    assert(vs[v] == variant_spec(e.variants@[v]));
                    let raw = e.variants@[v].fields@;
                    let rs = positional_results(raw);
                    crate::convert::lemma_collect_all(rs);
                    let fields = variants[v].fields;
                    assert forall|i: int| 0 <= i < fields.len() implies (
                    #[trigger] fields[i]).name.len() > 0 by {
                        assert(rs[i] == positional_field_spec(raw[i], i));
                        crate::text::lemma_decimal_is_not_empty(i as nat);
                    }
                }
            }
        },
        _ => {},
    }
}

/// A method receiver is never represented: a function whose first argument
/// that cannot be extracted is `self`, in any form, fails with
/// `ReceiverField`.
pub proof fn lemma_receiver_is_rejected(f: RawFn, i: int)
    requires
        0 <= i < f.args@.len(),
        f.args@[i] is Receiver,
        forall|k: int| 0 <= k < i ==> arg_spec(#[trigger] f.args@[k]) is Ok,
    ensures
        fn_spec(f) matches Err(e) && e.kind == ConversionErrorKind::ReceiverField
            && crate::error::innermost(e) == arg_spec(f.args@[i])->Err_0,
{
    let rs = arg_results(f.args@);
    crate::convert::lemma_collect_all(rs);
    assert(rs[i] == arg_spec(f.args@[i]));
    assert(rs[i] is Err);
    let e = crate::convert::collect_spec(rs)->Err_0;
    let j = choose|j: int|
        0 <= j < rs.len() && #[trigger] rs[j] == Err::<FieldModel, ErrorModel>(e) && forall|k: int|
            0 <= k < j ==> (#[trigger] rs[k]) is Ok;
    if j < i {
        assert(rs[j] == arg_spec(f.args@[j]));
    }
    if j > i {
        assert(rs[i] is Ok);
    }
    assert(j == i);
    crate::error::lemma_wrapped_keeps_innermost(
        e,
        "RsFn"@,
        Some(crate::raw::fn_text(f)),
        Some(f.span),
    );
}

/// A function without a written return type returns the unit primitive.
pub proof fn lemma_missing_return_type_is_unit(f: RawFn)
    requires
        f.ret is None,
    ensures
        fn_spec(f) matches Ok(m) ==> m is Function && *m->Function_ret == TypeModel::Primitive(
            RsPrimitive::Unit,
        ),
        fn_spec(f) is Ok <==> forall|i: int|
            0 <= i < f.args@.len() ==> arg_spec(#[trigger] f.args@[i]) is Ok,
{
    let rs = arg_results(f.args@);
    crate::convert::lemma_collect_all(rs);
    if fn_spec(f) is Ok {
        assert forall|i: int| 0 <= i < f.args@.len() implies arg_spec(
            #[trigger] f.args@[i],
        ) is Ok by {
            assert(rs[i] is Ok);
        }
    }
    if forall|i: int| 0 <= i < f.args@.len() ==> arg_spec(#[trigger] f.args@[i]) is Ok {
        assert forall|i: int| 0 <= i < rs.len() implies (#[trigger] rs[i]) is Ok by {
            assert(arg_spec(f.args@[i]) is Ok);
        }
    }
}

/// A struct is extracted exactly when each of its fields is, and then its
/// fields are those, in declaration order.
pub proof fn lemma_struct_needs_every_field(s: RawStruct)
    ensures
        struct_spec(s) is Ok <==> forall|i: int|
            0 <= i < s.fields@.len() ==> field_spec(#[trigger] s.fields@[i]) is Ok,
        struct_spec(s) matches Ok(m) ==> m is Struct && m->Struct_fields.len() == s.fields@.len()
            && forall|i: int|
            0 <= i < s.fields@.len() ==> field_spec(s.fields@[i]) == Ok::<FieldModel, ErrorModel>(
                #[trigger] m->Struct_fields[i],
            ),
{
    let rs = field_results(s.fields@);
    crate::convert::lemma_collect_all(rs);
    assert forall|i: int| 0 <= i < s.fields@.len() implies rs[i] == field_spec(s.fields@[i]) by {}
    if struct_spec(s) is Ok {
        assert forall|i: int| 0 <= i < s.fields@.len() implies field_spec(
            #[trigger] s.fields@[i],
        ) is Ok by {
            assert(rs[i] is Ok);
        }
    }
    if forall|i: int| 0 <= i < s.fields@.len() ==> field_spec(#[trigger] s.fields@[i]) is Ok {
        assert forall|i: int| 0 <= i < rs.len() implies (#[trigger] rs[i]) is Ok by {
            assert(field_spec(s.fields@[i]) is Ok);
        }
    }
}

/// One field that cannot be extracted fails the whole struct. The failure of
/// the struct wraps the failure of the first such field in declaration order:
/// it has the same kind, and the innermost entry of its chain is the
/// innermost entry of that field's chain.
pub proof fn lemma_struct_fails_with_its_field(s: RawStruct, i: int)
    requires
        0 <= i < s.fields@.len(),
        field_spec(s.fields@[i]) is Err,
    ensures
        struct_spec(s) is Err,
        exists|j: int|
            0 <= j <= i && (#[trigger] field_spec(s.fields@[j])) is Err
                && crate::error::innermost(struct_spec(s)->Err_0) == crate::error::innermost(
                field_spec(s.fields@[j])->Err_0,
            ) && struct_spec(s)->Err_0.kind == field_spec(s.fields@[j])->Err_0.kind
                && forall|k: int| 0 <= k < j ==> field_spec(#[trigger] s.fields@[k]) is Ok,
{
    let rs = field_results(s.fields@);
    crate::convert::lemma_collect_all(rs);
    assert(rs[i] is Err);
    let e = crate::convert::collect_spec(rs)->Err_0;
    let j = choose|j: int|
        0 <= j < rs.len() && #[trigger] rs[j] == Err::<FieldModel, ErrorModel>(e) && forall|k: int|
            0 <= k < j ==> (#[trigger] rs[k]) is Ok;
    assert(j <= i) by {
        if j > i {
            assert(rs[i] is Ok);
        }
    }
    assert(field_spec(s.fields@[j]) == rs[j]);
    crate::error::lemma_wrapped_keeps_innermost(
        e,
        "RsStruct"@,
        Some(crate::raw::struct_text(s)),
        Some(s.span),
    );
    assert forall|k: int| 0 <= k < j implies field_spec(#[trigger] s.fields@[k]) is Ok by {
        assert(rs[k] is Ok);
    }
}

} // verus!
