use flusty::error::{
    copy_text, ConversionError, ConversionErrorBuilder, ConversionErrorKind, Descriptable,
    RsPosition, RsSpan,
};
use flusty::raw::{RawStruct, RawType, RawForm};

fn span(a: usize, b: usize, c: usize, d: usize) -> RsSpan {
    RsSpan { start: RsPosition { line: a, column: b }, end: RsPosition { line: c, column: d } }
}

#[test]
fn a_new_builder_holds_the_empty_error() {
    let e = ConversionErrorBuilder::new().build();
    assert_eq!(e, ConversionError::default());
    assert_eq!(e.kind, ConversionErrorKind::Unspecified);
    assert_eq!(e.src, None);
    assert_eq!(e.dst, None);
    assert_eq!(e.msg, None);
    assert_eq!(e.data, None);
    assert_eq!(e.source, None);
    assert_eq!(e.span, None);
}

#[test]
fn each_builder_method_sets_its_field_and_no_other() {
    let cause = ConversionErrorBuilder::new().with_message("inner").build();
    let item = RawStruct { name: "Foo".to_string(), fields: vec![], public: true, attrs: vec![], span: span(1, 0, 1, 10) };
    let mut b = ConversionErrorBuilder::new();
    b.with_kind(ConversionErrorKind::GenericType)
        .with_source("A")
        .with_destination("B")
        .with_message("m")
        .with_data(&item)
        .with_error_source(cause.clone())
        .with_span(span(1, 2, 3, 4));
    let e = b.build();
    assert_eq!(e.kind, ConversionErrorKind::GenericType);
    assert_eq!(e.src.as_deref(), Some("A"));
    assert_eq!(e.dst.as_deref(), Some("B"));
    assert_eq!(e.msg.as_deref(), Some("m"));
    assert_eq!(e.data.as_deref(), Some("struct Foo"));
    assert_eq!(e.source, Some(Box::new(cause)));
    assert_eq!(e.span, Some(span(1, 2, 3, 4)));
}

#[test]
fn the_optional_setters_can_clear_a_field() {
    let mut b = ConversionErrorBuilder::new();
    b.with_source("A").with_destination("B").with_message("m");
    b.with_source_opt(&None).with_destination_opt(&Some("C".to_string())).with_message_opt(&None);
    let e = b.build();
    assert_eq!(e.src, None);
    assert_eq!(e.dst.as_deref(), Some("C"));
    assert_eq!(e.msg, None);
}

#[test]
fn build_leaves_the_builder_usable() {
    let mut b = ConversionErrorBuilder::new();
    b.with_source("A");
    let first = b.build();
    b.with_destination("B");
    let second = b.build();
    assert_eq!(first.dst, None);
    assert_eq!(second.src.as_deref(), Some("A"));
    assert_eq!(second.dst.as_deref(), Some("B"));
}

#[test]
fn render_writes_only_what_is_recorded() {
    assert_eq!(ConversionError::default().render(), "ConversionError: failed to convert");
    let mut b = ConversionErrorBuilder::new();
    b.with_source("Field").with_destination("RsField").with_message("Field must have an identifier");
    assert_eq!(
        b.build().render(),
        "ConversionError: failed to convert from Field to RsField: Field must have an identifier"
    );
}

#[test]
fn render_writes_data_and_span_on_lines_of_their_own() {
    let ty = RawType::Other { form: RawForm::Never };
    let mut b = ConversionErrorBuilder::new();
    b.with_destination("RsType").with_data(&ty).with_span(span(12, 5, 12, 9));
    assert_eq!(
        b.build().render(),
        "ConversionError: failed to convert to RsType\n\t- (data: !)\n\t- (span: @12:5-@12:9)"
    );
}

#[test]
fn positions_and_spans_are_written_with_an_at_sign() {
    assert_eq!(RsPosition { line: 3, column: 14 }.render(), "@3:14");
    assert_eq!(span(1, 0, 20, 7).render(), "@1:0-@20:7");
    let mut out = String::from("at ");
    span(1, 2, 3, 4).write_to(&mut out);
    assert_eq!(out, "at @1:2-@3:4");
}

#[test]
fn trail_writes_the_chain_outermost_first() {
    let inner = {
        let mut b = ConversionErrorBuilder::new();
        b.with_source("u128").with_message("unknown");
        b.build()
    };
    let middle = {
        let mut b = ConversionErrorBuilder::new();
        b.with_destination("RsField").with_error_source(inner.clone());
        b.build()
    };
    let outer = {
        let mut b = ConversionErrorBuilder::new();
        b.with_destination("RsStruct").with_error_source(middle.clone());
        b.build()
    };
    assert_eq!(
        outer.trail(),
        "ConversionError: failed to convert to RsStruct\nbecause: ConversionError: failed to convert to RsField\nbecause: ConversionError: failed to convert from u128: unknown"
    );
    assert_eq!(inner.trail(), inner.render());
    assert_eq!(outer.root_cause(), &inner);
    assert_eq!(middle.root_cause(), &inner);
    assert_eq!(inner.root_cause(), &inner);
}

#[test]
fn clone_copies_the_whole_chain() {
    let inner = ConversionErrorBuilder::new().with_message("inner").with_span(span(1, 1, 1, 2)).build();
    let outer = ConversionErrorBuilder::new().with_kind(ConversionErrorKind::UnknownType).with_error_source(inner).build();
    let copy = outer.clone();
    assert_eq!(copy, outer);
    assert_eq!(copy.source.as_ref().unwrap().msg.as_deref(), Some("inner"));
}

#[test]
fn copy_text_copies() {
    assert_eq!(copy_text(&Some("a".to_string())), Some("a".to_string()));
    assert_eq!(copy_text(&None), None);
}

#[test]
fn descriptions_of_raw_types() {
    assert_eq!(RawType::Other { form: RawForm::Reference }.description(), "&_");
    assert_eq!(RawType::Other { form: RawForm::Nested }.description(), "(nested)");
}
