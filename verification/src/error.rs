//! Conversion errors: a chain of causes, innermost failure deepest, with the
//! place in the source and a description of the offending item at each layer.
use vstd::prelude::*;
use vstd::string::*;
use crate::text::{push_char, push_decimal};

verus! {

/// Something that can describe itself for a diagnostic.
pub trait Descriptable {
    /// The description.
    spec fn description_model(&self) -> Seq<char>;

    /// Returns the description.
    fn description(&self) -> (r: String)
        ensures
            r@ == self.description_model(),
    ;
}

/// A position in a file.
#[derive(Debug, Clone, Copy, PartialEq, Eq, Hash, Structural)]
pub struct RsPosition {
    /// The line.
    pub line: usize,
    /// The column.
    pub column: usize,
}

/// A span in a file.
#[derive(Debug, Clone, Copy, PartialEq, Eq, Hash, Structural)]
pub struct RsSpan {
    /// The start position.
    pub start: RsPosition,
    /// The end position.
    pub end: RsPosition,
}

/// What went wrong at the innermost layer of a chain.
#[derive(Debug, Clone, Copy, PartialEq, Eq, Hash, Structural)]
pub enum ConversionErrorKind {
    /// Nothing was recorded.
    Unspecified,
    /// A field or an argument without a name where one is needed.
    UnnamedField,
    /// A name that is no primitive of the source language.
    UnknownPrimitive,
    /// A method receiver among the arguments.
    ReceiverField,
    /// A type form that is not supported, or an empty path.
    UnknownType,
    /// Generic arguments other than the one optional wrapper.
    GenericType,
    /// An array length that is no integer literal, or does not fit.
    UnknownArrayLength,
    /// A primitive without a safe mapping at the foreign boundary.
    UnsupportedPrimitive,
    /// A rendered file without a module name.
    MissingModuleName,
    /// A rendered file without a library name.
    MissingLibName,
}

/// A failed conversion. `source` is the failure that caused this one; the
/// innermost failure is the deepest. Every layer of one chain has the kind of
/// its innermost failure.
#[derive(Debug, PartialEq, Eq, Hash)]
pub struct ConversionError {
    /// What went wrong at the innermost layer.
    pub kind: ConversionErrorKind,
    /// The source type.
    pub src: Option<String>,
    /// The destination type.
    pub dst: Option<String>,
    /// The message.
    pub msg: Option<String>,
    /// The description of the offending item.
    pub data: Option<String>,
    /// The cause.
    pub source: Option<Box<ConversionError>>,
    /// The place in the source.
    pub span: Option<RsSpan>,
}

/// The mathematical value of a conversion error.
pub struct ErrorModel {
    pub kind: ConversionErrorKind,
    pub src: Option<Seq<char>>,
    pub dst: Option<Seq<char>>,
    pub msg: Option<Seq<char>>,
    pub data: Option<Seq<char>>,
    pub cause: Option<Box<ErrorModel>>,
    pub span: Option<RsSpan>,
}

/// The characters of an optional string.
pub open spec fn text_of(o: Option<String>) -> Option<Seq<char>> {
    match o {
        Some(s) => Some(s@),
        None => None,
    }
}

/// The value of `e`.
pub open spec fn error_model(e: ConversionError) -> ErrorModel
    decreases e,
{
    ErrorModel {
        kind: e.kind,
        src: text_of(e.src),
        dst: text_of(e.dst),
        msg: text_of(e.msg),
        data: text_of(e.data),
        cause: match e.source {
            Some(b) => Some(Box::new(error_model(*b))),
            None => None,
        },
        span: e.span,
    }
}

/// The error in which nothing is recorded.
pub open spec fn empty_error() -> ErrorModel {
    ErrorModel {
        kind: ConversionErrorKind::Unspecified,
        src: None,
        dst: None,
        msg: None,
        data: None,
        cause: None,
        span: None,
    }
}

/// The innermost failure of a chain.
pub open spec fn innermost(e: ErrorModel) -> ErrorModel
    decreases e,
{
    match e.cause {
        Some(c) => innermost(*c),
        None => e,
    }
}

/// The number of layers of a chain.
pub open spec fn chain_len(e: ErrorModel) -> nat
    decreases e,
{
    match e.cause {
        Some(c) => 1 + chain_len(*c),
        None => 1,
    }
}

/// The layer that wraps `cause`: it keeps the kind and the source type of the
/// cause, and adds a destination type, a description and a place of its own.
pub open spec fn wrapped(
    cause: ErrorModel,
    dst: Seq<char>,
    data: Option<Seq<char>>,
    span: Option<RsSpan>,
) -> ErrorModel {
    ErrorModel {
        kind: cause.kind,
        src: cause.src,
        dst: Some(dst),
        msg: None,
        data: data,
        cause: Some(Box::new(cause)),
        span: span,
    }
}

/// A layer that wraps a failure keeps the kind and the source type of that
/// failure, and the innermost entry of its chain; the chain is one longer.
pub proof fn lemma_wrapped_keeps_innermost(
    cause: ErrorModel,
    dst: Seq<char>,
    data: Option<Seq<char>>,
    span: Option<RsSpan>,
)
    ensures
        innermost(wrapped(cause, dst, data, span)) == innermost(cause),
        wrapped(cause, dst, data, span).kind == cause.kind,
        wrapped(cause, dst, data, span).src == cause.src,
        chain_len(wrapped(cause, dst, data, span)) == chain_len(cause) + 1,
{
}

/// A failure without a cause.
pub open spec fn leaf(
    kind: ConversionErrorKind,
    src: Seq<char>,
    dst: Seq<char>,
    msg: Seq<char>,
) -> ErrorModel {
    ErrorModel {
        kind: kind,
        src: Some(src),
        dst: Some(dst),
        msg: Some(msg),
        data: None,
        cause: None,
        span: None,
    }
}

/// `pre`, the text and `post`, if there is a text; else nothing.
pub open spec fn framed(pre: Seq<char>, o: Option<Seq<char>>, post: Seq<char>) -> Seq<char> {
    match o {
        Some(s) => pre + s + post,
        None => Seq::empty(),
    }
}

/// How a position is written: `@line:column`.
pub open spec fn position_text(p: RsPosition) -> Seq<char> {
    seq!['@'] + crate::text::decimal_spec(p.line as nat) + seq![':'] + crate::text::decimal_spec(
        p.column as nat,
    )
}

/// How a span is written: `@line:column-@line:column`.
pub open spec fn span_text(s: RsSpan) -> Seq<char> {
    position_text(s.start) + seq!['-'] + position_text(s.end)
}

/// How one layer of a chain is written.
pub open spec fn render_spec(e: ErrorModel) -> Seq<char> {
    "ConversionError: failed to convert"@ + framed(" from "@, e.src, Seq::empty()) + framed(
        " to "@,
        e.dst,
        Seq::empty(),
    ) + framed(": "@, e.msg, Seq::empty()) + framed("\n\t- (data: "@, e.data, ")"@) + match e.span {
        Some(s) => "\n\t- (span: "@ + span_text(s) + ")"@,
        None => Seq::empty(),
    }
}

/// How a whole chain is written: each layer on its own, outermost first, each
/// cause introduced by a line break and `because: `.
pub open spec fn trail_spec(e: ErrorModel) -> Seq<char>
    decreases e,
{
    match e.cause {
        Some(c) => render_spec(e) + "\nbecause: "@ + trail_spec(*c),
        None => render_spec(e),
    }
}

impl View for ConversionError {
    type V = ErrorModel;

    open spec fn view(&self) -> ErrorModel {
        error_model(*self)
    }
}

impl RsPosition {
    /// Appends the position, written `@line:column`, to `out`.
    pub fn write_to(&self, out: &mut String)
        ensures
            final(out)@ == old(out)@ + position_text(*self),
    {
        push_char(out, '@');
        push_decimal(out, self.line);
        push_char(out, ':');
        push_decimal(out, self.column);
    }

    /// The position, written `@line:column`.
    pub fn render(&self) -> (r: String)
        ensures
            r@ == position_text(*self),
    {
        let mut out = String::new();
        self.write_to(&mut out);
        out
    }
}

impl RsSpan {
    /// Appends the span, written `start-end`, to `out`.
    pub fn write_to(&self, out: &mut String)
        ensures
            final(out)@ == old(out)@ + span_text(*self),
    {
        self.start.write_to(out);
        push_char(out, '-');
        self.end.write_to(out);
    }

    /// The span, written `start-end`.
    pub fn render(&self) -> (r: String)
        ensures
            r@ == span_text(*self),
    {
        let mut out = String::new();
        self.write_to(&mut out);
        out
    }
}

/// A copy of an optional string.
pub fn copy_text(o: &Option<String>) -> (r: Option<String>)
    ensures
        text_of(r) == text_of(*o),
{
    match o {
        Some(s) => Some(s.clone()),
        None => None,
    }
}

fn write_framed(out: &mut String, pre: &str, o: &Option<String>, post: &str)
    ensures
        final(out)@ == old(out)@ + framed(pre@, text_of(*o), post@),
{
    match o {
        Some(s) => {
            out.append(pre);
            out.append(s.as_str());
            out.append(post);
        },
        None => {},
    }
}

impl Clone for ConversionError {
    fn clone(&self) -> (r: Self)
        ensures
            r@ == self@,
        decreases self,
    {
        ConversionError {
            kind: self.kind,
            src: copy_text(&self.src),
            dst: copy_text(&self.dst),
            msg: copy_text(&self.msg),
            data: copy_text(&self.data),
            source: match &self.source {
                Some(b) => Some(Box::new((&**b).clone())),
                None => None,
            },
            span: self.span,
        }
    }
}

impl Default for ConversionError {
    fn default() -> (r: Self)
        ensures
            r@ == empty_error(),
    {
        ConversionError {
            kind: ConversionErrorKind::Unspecified,
            src: None,
            dst: None,
            msg: None,
            data: None,
            source: None,
            span: None,
        }
    }
}

impl ConversionError {
    /// Writes this layer of the chain, without its cause.
    pub fn render(&self) -> (r: String)
        ensures
            r@ == render_spec(self@),
    {
        let mut out = String::from_str("ConversionError: failed to convert");
        write_framed(&mut out, " from ", &self.src, "");
        write_framed(&mut out, " to ", &self.dst, "");
        write_framed(&mut out, ": ", &self.msg, "");
        write_framed(&mut out, "\n\t- (data: ", &self.data, ")");
        match &self.span {
            Some(s) => {
                out.append("\n\t- (span: ");
                s.write_to(&mut out);
                out.append(")");
            },
            None => {},
        }
        proof {
            reveal_strlit("");
        }
        out
    }

    /// Writes the whole chain, outermost layer first.
    pub fn trail(&self) -> (r: String)
        ensures
            r@ == trail_spec(self@),
        decreases self,
    {
        let mut out = self.render();
        match &self.source {
            Some(b) => {
                out.append("\nbecause: ");
                let rest = (&**b).trail();
                out.append(rest.as_str());
            },
            None => {},
        }
        out
    }

    /// The innermost failure of the chain.
    pub fn root_cause(&self) -> (r: &ConversionError)
        ensures
            r@ == innermost(self@),
        decreases self,
    {
        match &self.source {
            Some(b) => (&**b).root_cause(),
            None => self,
        }
    }
}

/// Builds a `ConversionError` field by field.
pub struct ConversionErrorBuilder {
    error: ConversionError,
}

impl View for ConversionErrorBuilder {
    type V = ErrorModel;

    closed spec fn view(&self) -> ErrorModel {
        self.error@
    }
}

impl ConversionErrorBuilder {
    /// A builder in which nothing is recorded.
    pub fn new() -> (r: Self)
        ensures
            r@ == empty_error(),
    {
        Self { error: ConversionError::default() }
    }

    /// Sets the kind.
    pub fn with_kind(&mut self, kind: ConversionErrorKind) -> (r: &mut Self)
        ensures
            *final(self) == *final(r),
            r@ == (ErrorModel { kind: kind, ..old(self)@ }),
    {
        self.error.kind = kind;
        self
    }

    /// Sets the source type, or clears it.
    pub fn with_source_opt(&mut self, src: &Option<String>) -> (r: &mut Self)
        ensures
            *final(self) == *final(r),
            r@ == (ErrorModel { src: text_of(*src), ..old(self)@ }),
    {
        self.error.src = copy_text(src);
        self
    }

    /// Sets the source type.
    pub fn with_source(&mut self, src: &str) -> (r: &mut Self)
        ensures
            *final(self) == *final(r),
            r@ == (ErrorModel { src: Some(src@), ..old(self)@ }),
    {
        self.error.src = Some(String::from_str(src));
        self
    }

    /// Sets the destination type, or clears it.
    pub fn with_destination_opt(&mut self, dst: &Option<String>) -> (r: &mut Self)
        ensures
            *final(self) == *final(r),
            r@ == (ErrorModel { dst: text_of(*dst), ..old(self)@ }),
    {
        self.error.dst = copy_text(dst);
        self
    }

    /// Sets the destination type.
    pub fn with_destination(&mut self, dst: &str) -> (r: &mut Self)
        ensures
            *final(self) == *final(r),
            r@ == (ErrorModel { dst: Some(dst@), ..old(self)@ }),
    {
        self.error.dst = Some(String::from_str(dst));
        self
    }

    /// Sets the message, or clears it.
    pub fn with_message_opt(&mut self, msg: &Option<String>) -> (r: &mut Self)
        ensures
            *final(self) == *final(r),
            r@ == (ErrorModel { msg: text_of(*msg), ..old(self)@ }),
    {
        self.error.msg = copy_text(msg);
        self
    }

    /// Sets the message.
    pub fn with_message(&mut self, msg: &str) -> (r: &mut Self)
        ensures
            *final(self) == *final(r),
            r@ == (ErrorModel { msg: Some(msg@), ..old(self)@ }),
    {
        self.error.msg = Some(String::from_str(msg));
        self
    }

    /// Records the description of the offending item.
    pub fn with_data<T: Descriptable>(&mut self, data: &T) -> (r: &mut Self)
        ensures
            *final(self) == *final(r),
            r@ == (ErrorModel { data: Some(data.description_model()), ..old(self)@ }),
    {
        self.error.data = Some(data.description());
        self
    }

    /// Records the cause.
    pub fn with_error_source(&mut self, source: ConversionError) -> (r: &mut Self)
        ensures
            *final(self) == *final(r),
            r@ == (ErrorModel { cause: Some(Box::new(source@)), ..old(self)@ }),
    {
        self.error.source = Some(Box::new(source));
        self
    }

    /// Records the place in the source.
    pub fn with_span(&mut self, span: RsSpan) -> (r: &mut Self)
        ensures
            *final(self) == *final(r),
            r@ == (ErrorModel { span: Some(span), ..old(self)@ }),
    {
        self.error.span = Some(span);
        self
    }

    /// The error as recorded so far.
    pub fn build(&self) -> (r: ConversionError)
        ensures
            r@ == self@,
    {
        self.error.clone()
    }
}

} // verus!
