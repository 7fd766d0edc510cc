//! From the syntax model to the type model: the conversion of types and the
//! extraction of declarations. A conversion never succeeds in part: the first
//! member that fails, in declaration order, fails the whole, and each layer
//! wraps the failure of the layer below.
use vstd::prelude::*;
use vstd::string::*;
use crate::error::{
    ConversionError, ConversionErrorBuilder, ConversionErrorKind, Descriptable, ErrorModel,
    RsSpan,
};
use crate::raw::{RawGenericArg, RawLen, RawPathArgs, RawType};
use crate::text::{parse_decimal, same_text};
use crate::types::{RsArray, RsPointer, RsPrimitive, RsSlice, RsTuple, RsType, TypeModel};

verus! {

/// The primitive that `name` spells, if any.
pub open spec fn primitive_of(name: Seq<char>) -> Option<RsPrimitive> {
    if name == "i8"@ {
        Some(RsPrimitive::I8)
    } else if name == "i16"@ {
        Some(RsPrimitive::I16)
    } else if name == "i32"@ {
        Some(RsPrimitive::I32)
    } else if name == "i64"@ {
        Some(RsPrimitive::I64)
    } else if name == "i128"@ {
        Some(RsPrimitive::I128)
    } else if name == "u8"@ {
        Some(RsPrimitive::U8)
    } else if name == "u16"@ {
        Some(RsPrimitive::U16)
    } else if name == "u32"@ {
        Some(RsPrimitive::U32)
    } else if name == "u64"@ {
        Some(RsPrimitive::U64)
    } else if name == "u128"@ {
        Some(RsPrimitive::U128)
    } else if name == "f32"@ {
        Some(RsPrimitive::F32)
    } else if name == "f64"@ {
        Some(RsPrimitive::F64)
    } else if name == "bool"@ {
        Some(RsPrimitive::Bool)
    } else if name == "Char"@ || name == "char"@ {
        Some(RsPrimitive::Char)
    } else if name == "str"@ {
        Some(RsPrimitive::Str)
    } else if name == "string"@ || name == "String"@ {
        Some(RsPrimitive::String)
    } else if name == "unit"@ || name == "Unit"@ {
        Some(RsPrimitive::Unit)
    } else {
        None
    }
}

/// The failure for a name that is no primitive.
pub open spec fn unknown_primitive(name: Seq<char>) -> ErrorModel {
    crate::error::leaf(
        ConversionErrorKind::UnknownPrimitive,
        name,
        "RsPrimitive"@,
        "Unknown primitive type"@,
    )
}

/// The failure for generic arguments other than the optional wrapper.
pub open spec fn generic_type() -> ErrorModel {
    crate::error::leaf(
        ConversionErrorKind::GenericType,
        "Type::Path"@,
        "RsType"@,
        "Generic types are not supported"@,
    )
}

/// The failure for a path without segments.
pub open spec fn unknown_type() -> ErrorModel {
    crate::error::leaf(ConversionErrorKind::UnknownType, "Type::Path"@, "RsType"@, "Unknown type"@)
}

/// The failure for a type form that is not supported.
pub open spec fn unsupported_form(form: crate::raw::RawForm) -> ErrorModel {
    crate::error::leaf(
        ConversionErrorKind::UnknownType,
        crate::raw::form_text(form),
        "RsType"@,
        "Type form is not supported"@,
    )
}

/// The failure for an array length that is no literal, or does not fit.
pub open spec fn unknown_array_length() -> ErrorModel {
    crate::error::leaf(
        ConversionErrorKind::UnknownArrayLength,
        "Type::Array"@,
        "RsArray"@,
        "Unknown array length"@,
    )
}

/// A failure without a cause at a known place.
pub open spec fn located(
    kind: ConversionErrorKind,
    src: Seq<char>,
    dst: Seq<char>,
    msg: Seq<char>,
    data: Seq<char>,
    span: RsSpan,
) -> ErrorModel {
    ErrorModel {
        kind: kind,
        src: Some(src),
        dst: Some(dst),
        msg: Some(msg),
        data: Some(data),
        cause: None,
        span: Some(span),
    }
}

/// All the values if every result is one, else the first failure.
pub open spec fn collect_spec<T>(rs: Seq<Result<T, ErrorModel>>) -> Result<Seq<T>, ErrorModel>
    decreases rs.len(),
{
    if rs.len() == 0 {
        Ok(Seq::empty())
    } else {
        match collect_spec(rs.drop_last()) {
            Err(e) => Err(e),
            Ok(v) => match rs.last() {
                Ok(x) => Ok(v.push(x)),
                Err(e) => Err(e),
            },
        }
    }
}

/// A failure among the first `n` results is the failure of all of them.
pub proof fn lemma_collect_keeps_failure<T>(rs: Seq<Result<T, ErrorModel>>, n: int)
    requires
        0 <= n <= rs.len(),
        collect_spec(rs.take(n)) is Err,
    ensures
        collect_spec(rs) == collect_spec(rs.take(n)),
    decreases rs.len() - n,
{
    if n == rs.len() {
        assert(rs.take(n) =~= rs);
    } else {
        assert(rs.take(n + 1).drop_last() =~= rs.take(n));
        lemma_collect_keeps_failure(rs, n + 1);
    }
}

/// The results succeed together exactly when each of them does, and then the
/// values come in the same order.
pub proof fn lemma_collect_all<T>(rs: Seq<Result<T, ErrorModel>>)
    ensures
        collect_spec(rs) is Ok <==> forall|i: int| 0 <= i < rs.len() ==> (#[trigger] rs[i]) is Ok,
        collect_spec(rs) matches Ok(v) ==> v.len() == rs.len() && forall|i: int|
            0 <= i < rs.len() ==> rs[i] == Ok::<T, ErrorModel>(#[trigger] v[i]),
        collect_spec(rs) matches Err(e) ==> exists|i: int|
            0 <= i < rs.len() && #[trigger] rs[i] == Err::<T, ErrorModel>(e) && forall|j: int|
                0 <= j < i ==> (#[trigger] rs[j]) is Ok,
    decreases rs.len(),
{
    if rs.len() > 0 {
        let front = rs.drop_last();
        lemma_collect_all(front);
        assert forall|i: int| 0 <= i < front.len() implies front[i] == rs[i] by {}
        match collect_spec(front) {
            Err(e) => {
                let i = choose|i: int|
                    0 <= i < front.len() && #[trigger] front[i] == Err::<T, ErrorModel>(e)
                        && forall|j: int| 0 <= j < i ==> (#[trigger] front[j]) is Ok;
                assert forall|j: int| 0 <= j < i implies (#[trigger] rs[j]) is Ok by {}
            },
            Ok(v) => {
                assert forall|j: int| 0 <= j < front.len() implies (#[trigger] rs[j]) is Ok by {}
                if let Ok(x) = rs.last() {
                    assert forall|i: int| 0 <= i < rs.len() implies rs[i] == Ok::<T, ErrorModel>(
                        #[trigger] v.push(x)[i],
                    ) by {}
                }
            },
        }
    }
}

/// What the conversion of a type returns.
pub open spec fn convert_spec(t: RawType) -> Result<TypeModel, ErrorModel>
    decreases t, 0nat,
{
    match t {
        RawType::Path { segments } => {
            if segments.len() == 0 {
                Err(unknown_type())
            } else {
                match segments[0].args {
                    RawPathArgs::Empty => match primitive_of(segments[0].ident@) {
                        Some(p) => Ok(TypeModel::Primitive(p)),
                        None => Err(unknown_primitive(segments[0].ident@)),
                    },
                    RawPathArgs::Angle(args) => {
                        if segments[0].ident@ == "Option"@ && args.len() == 1
                            && args[0] is Type {
                            match convert_spec(args[0]->Type_0) {
                                Ok(m) => Ok(
                                    TypeModel::Pointer { pointee: Box::new(m), mutable: true },
                                ),
                                Err(e) => Err(
                                    crate::error::wrapped(
                                        e,
                                        "RsPointer"@,
                                        Some(crate::raw::type_text(t)),
                                        None,
                                    ),
                                ),
                            }
                        } else {
                            Err(generic_type())
                        }
                    },
                    RawPathArgs::Paren => Err(generic_type()),
                }
            }
        },
        RawType::Array { elem, len } => match convert_spec(*elem) {
            Err(e) => Err(
                crate::error::wrapped(e, "RsArray"@, Some(crate::raw::type_text(t)), None),
            ),
            Ok(m) => match len {
                RawLen::Literal(d) => match crate::text::parse_decimal_spec(d@) {
                    Some(n) => Ok(TypeModel::Array { element: Box::new(m), length: n as nat }),
                    None => Err(unknown_array_length()),
                },
                RawLen::Other => Err(unknown_array_length()),
            },
        },
        RawType::Tuple { elems } => match collect_spec(convert_each(elems@)) {
            Ok(ms) => Ok(TypeModel::Tuple { elements: ms }),
            Err(e) => Err(
                crate::error::wrapped(e, "RsTuple"@, Some(crate::raw::type_text(t)), None),
            ),
        },
        RawType::Slice { elem } => match convert_spec(*elem) {
            Ok(m) => Ok(TypeModel::Slice { element: Box::new(m) }),
            Err(e) => Err(
                crate::error::wrapped(e, "RsSlice"@, Some(crate::raw::type_text(t)), None),
            ),
        },
        RawType::Ptr { elem, mutable } => match convert_spec(*elem) {
            Ok(m) => Ok(TypeModel::Pointer { pointee: Box::new(m), mutable: mutable }),
            Err(e) => Err(
                crate::error::wrapped(e, "RsPointer"@, Some(crate::raw::type_text(t)), None),
            ),
        },
        RawType::Other { form } => Err(unsupported_form(form)),
    }
}

/// What the conversion of each of `ts` returns, in order.
pub open spec fn convert_each(ts: Seq<RawType>) -> Seq<Result<TypeModel, ErrorModel>>
    decreases ts, 1nat,
{
    Seq::new(
        ts.len(),
        |i: int|
            if 0 <= i < ts.len() {
                convert_spec(ts[i])
            } else {
                Err(crate::error::empty_error())
            },
    )
}

/// The value of the result of a conversion.
pub open spec fn viewed<T: View>(r: Result<T, ConversionError>) -> Result<T::V, ErrorModel> {
    match r {
        Ok(t) => Ok(t@),
        Err(e) => Err(e@),
    }
}

/// The layer that wraps `cause` for the item `data`.
pub(crate) fn wrap<T: Descriptable>(cause: ConversionError, dst: &str, data: &T, span: Option<RsSpan>) -> (r:
    ConversionError)
    ensures
        r@ == crate::error::wrapped(cause@, dst@, Some(data.description_model()), span),
{
    let mut b = ConversionErrorBuilder::new();
    b.with_kind(cause.kind);
    b.with_source_opt(&cause.src);
    b.with_destination(dst);
    b.with_data(data);
    match span {
        Some(s) => {
            b.with_span(s);
        },
        None => {},
    }
    b.with_error_source(cause);
    b.build()
}

/// A failure without a cause, a description or a place.
pub(crate) fn fail(kind: ConversionErrorKind, src: &str, dst: &str, msg: &str) -> (r: ConversionError)
    ensures
        r@ == crate::error::leaf(kind, src@, dst@, msg@),
{
    let mut b = ConversionErrorBuilder::new();
    b.with_kind(kind).with_source(src).with_destination(dst).with_message(msg);
    b.build()
}

/// A failure without a cause for the item `data` at `span`.
pub(crate) fn fail_at<T: Descriptable>(
    kind: ConversionErrorKind,
    src: &str,
    dst: &str,
    msg: &str,
    data: &T,
    span: RsSpan,
) -> (r: ConversionError)
    ensures
        r@ == located(kind, src@, dst@, msg@, data.description_model(), span),
{
    let mut b = ConversionErrorBuilder::new();
    b.with_kind(kind).with_source(src).with_destination(dst).with_message(msg).with_data(
        data,
    ).with_span(span);
    b.build()
}

impl RsPrimitive {
    /// The primitive that `value` spells; `UnknownPrimitive` if it spells none.
    pub fn try_from(value: &str) -> (r: Result<RsPrimitive, ConversionError>)
        ensures
            match primitive_of(value@) {
                Some(p) => r == Ok::<RsPrimitive, ConversionError>(p),
                None => r is Err && r->Err_0@ == unknown_primitive(value@),
            },
    {
        if same_text(value, "i8") {
            Ok(RsPrimitive::I8)
        } else if same_text(value, "i16") {
            Ok(RsPrimitive::I16)
        } else if same_text(value, "i32") {
            Ok(RsPrimitive::I32)
        } else if same_text(value, "i64") {
            Ok(RsPrimitive::I64)
        } else if same_text(value, "i128") {
            Ok(RsPrimitive::I128)
        } else if same_text(value, "u8") {
            Ok(RsPrimitive::U8)
        } else if same_text(value, "u16") {
            Ok(RsPrimitive::U16)
        } else if same_text(value, "u32") {
            Ok(RsPrimitive::U32)
        } else if same_text(value, "u64") {
            Ok(RsPrimitive::U64)
        } else if same_text(value, "u128") {
            Ok(RsPrimitive::U128)
        } else if same_text(value, "f32") {
            Ok(RsPrimitive::F32)
        } else if same_text(value, "f64") {
            Ok(RsPrimitive::F64)
        } else if same_text(value, "bool") {
            Ok(RsPrimitive::Bool)
        } else if same_text(value, "Char") || same_text(value, "char") {
            Ok(RsPrimitive::Char)
        } else if same_text(value, "str") {
            Ok(RsPrimitive::Str)
        } else if same_text(value, "string") || same_text(value, "String") {
            Ok(RsPrimitive::String)
        } else if same_text(value, "unit") || same_text(value, "Unit") {
            Ok(RsPrimitive::Unit)
        } else {
            Err(
                fail(
                    ConversionErrorKind::UnknownPrimitive,
                    value,
                    "RsPrimitive",
                    "Unknown primitive type",
                ),
            )
        }
    }
}

impl RsType {
    /// Converts a type. A path without generic arguments is looked up among
    /// the primitives by its first segment; `Option` of one type becomes a
    /// mutable pointer to it; arrays, tuples, slices and raw pointers convert
    /// member by member; every other form is refused.
    pub fn try_from(value: &RawType) -> (r: Result<RsType, ConversionError>)
        ensures
            viewed(r) == convert_spec(*value),
        decreases value, 0nat,
    {
        match value {
            RawType::Path { segments } => {
                if segments.len() == 0 {
                    return Err(
                        fail(
                            ConversionErrorKind::UnknownType,
                            "Type::Path",
                            "RsType",
                            "Unknown type",
                        ),
                    );
                }
                let first = &segments[0];
                match &first.args {
                    RawPathArgs::Empty => match RsPrimitive::try_from(first.ident.as_str()) {
                        Ok(p) => Ok(RsType::Primitive(p)),
                        Err(e) => Err(e),
                    },
                    RawPathArgs::Angle(args) => {
                        if same_text(first.ident.as_str(), "Option") && args.len() == 1 {
                            match &args[0] {
                                RawGenericArg::Type(inner) => {
                                    return match RsType::try_from(inner) {
                                        Ok(t) => Ok(RsType::Pointer(RsPointer::new(t, true))),
                                        Err(e) => Err(wrap(e, "RsPointer", value, None)),
                                    };
                                },
                                RawGenericArg::Other => {},
                            }
                        }
                        Err(
                            fail(
                                ConversionErrorKind::GenericType,
                                "Type::Path",
                                "RsType",
                                "Generic types are not supported",
                            ),
                        )
                    },
                    RawPathArgs::Paren => Err(
                        fail(
                            ConversionErrorKind::GenericType,
                            "Type::Path",
                            "RsType",
                            "Generic types are not supported",
                        ),
                    ),
                }
            },
            RawType::Array { elem, len } => {
                let ty = match RsType::try_from(elem) {
                    Ok(t) => t,
                    Err(e) => {
                        return Err(wrap(e, "RsArray", value, None));
                    },
                };
                let n = match len {
                    RawLen::Literal(d) => parse_decimal(d.as_str()),
                    RawLen::Other => None,
                };
                match n {
                    Some(n) => Ok(RsType::Array(RsArray::new(ty, n))),
                    None => Err(
                        fail(
                            ConversionErrorKind::UnknownArrayLength,
                            "Type::Array",
                            "RsArray",
                            "Unknown array length",
                        ),
                    ),
                }
            },
            RawType::Tuple { elems } => {
                let mut types: Vec<RsType> = Vec::new();
                let mut i: usize = 0;
                proof {
                    assert(crate::types::types_model(types@) =~= Seq::<TypeModel>::empty());
                }
                while i < elems.len()
                    invariant
                        i <= elems.len(),
                        value is Tuple,
                        value->elems == *elems,
                        collect_spec(convert_each(elems@).take(i as int)) == Ok::<
                            Seq<TypeModel>,
                            ErrorModel,
                        >(crate::types::types_model(types@)),
                    decreases elems.len() - i,
                {
                    proof {
                        assert(convert_each(elems@).take(i + 1).drop_last() =~= convert_each(
                            elems@,
                        ).take(i as int));
                    }
                    match RsType::try_from(&elems[i]) {
                        Ok(t) => {
                            let ghost before = types@;
                            types.push(t);
                            assert(crate::types::types_model(types@)
                                =~= crate::types::types_model(before).push(t@));
                        },
                        Err(e) => {
                            proof {
                                lemma_collect_keeps_failure(convert_each(elems@), i + 1);
                            }
                            return Err(wrap(e, "RsTuple", value, None));
                        },
                    }
                    i += 1;
                }
                assert(convert_each(elems@).take(elems.len() as int) =~= convert_each(elems@));
                Ok(RsType::Tuple(RsTuple::new(types)))
            },
            RawType::Slice { elem } => match RsType::try_from(elem) {
                Ok(t) => Ok(RsType::Slice(RsSlice::new(t))),
                Err(e) => Err(wrap(e, "RsSlice", value, None)),
            },
            RawType::Ptr { elem, mutable } => match RsType::try_from(elem) {
                Ok(t) => Ok(RsType::Pointer(RsPointer::new(t, *mutable))),
                Err(e) => Err(wrap(e, "RsPointer", value, None)),
            },
            RawType::Other { form } => {
                let name = crate::raw::describe_form(*form);
                Err(
                    fail(
                        ConversionErrorKind::UnknownType,
                        name.as_str(),
                        "RsType",
                        "Type form is not supported",
                    ),
                )
            },
        }
    }
}

} // verus!
