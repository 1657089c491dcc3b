use flex_error::render::Render;
use flex_error::report::ErrorReport;
use flex_error::source::{
    error_details, BoxDetail, DetailOnly, DisplayError, DisplayOnly, NoSource, TraceClone,
    TraceError, TraceOnly,
};
use flex_error::tracer::{ErrorMessageTracer, ErrorTracer};
use flex_error::tracer_impl::string::StringTracer;

type StrReport = ErrorReport<String, StringTracer>;

fn tracer(text: &str) -> StringTracer {
    StringTracer::new_message(&text.to_string())
}

#[test]
fn decimal_rendering_of_integers() {
    assert_eq!(0u32.render(), "0");
    assert_eq!(7u32.render(), "7");
    assert_eq!(10u32.render(), "10");
    assert_eq!(409u32.render(), "409");
    assert_eq!(u32::MAX.render(), "4294967295");
}

#[test]
fn rendering_of_plain_values() {
    assert_eq!(().render(), "");
    assert_eq!("abc".render(), "abc");
    assert_eq!(String::from("x y").render(), "x y");
}

#[test]
fn new_message_renders_the_message() {
    let t = StringTracer::new_message(&"root cause".to_string());
    assert_eq!(t.render(), "root cause");
    assert_eq!(t.render(), "root cause".to_string().render());
}

#[test]
fn add_message_puts_newest_first() {
    let t = StringTracer::new_message(&"m1".to_string()).add_message(&"m2".to_string());
    assert_eq!(t.render(), "m2: m1");
}

#[test]
fn empty_messages_keep_the_separator() {
    let t = StringTracer::new_message(&()).add_message(&());
    assert_eq!(t.render(), ": ");
}

#[test]
fn three_layers_read_newest_to_root() {
    let t = StringTracer::new_message(&"C".to_string())
        .add_message(&"A".to_string())
        .add_message(&"B".to_string());
    assert_eq!(t.render(), "B: A: C");
}

#[test]
fn new_trace_and_add_trace_render_the_value() {
    let t = <StringTracer as ErrorTracer<u32>>::new_trace(5);
    assert_eq!(t.render(), "5");
    let t = <StringTracer as ErrorTracer<u32>>::add_trace(t, 12);
    assert_eq!(t.render(), "12: 5");
}

#[test]
fn report_parts_and_accessors() {
    let r = StrReport::new("detail".to_string(), tracer("trail"));
    assert_eq!(r.detail(), "detail");
    assert_eq!(r.trace().render(), "trail");
    assert_eq!(r.render(), "trail");
    let r2 = StrReport::new("d".to_string(), tracer("t"));
    assert_eq!(r2.into_detail(), "d");
    let r3 = StrReport::new("d".to_string(), tracer("t"));
    assert_eq!(r3.into_trace().render(), "t");
}

#[test]
fn add_trace_keeps_detail_and_extends_trace() {
    let r = StrReport::new("detail".to_string(), tracer("old")).add_trace(&"context".to_string());
    assert_eq!(r.0, "detail");
    assert_eq!(r.1.render(), "context: old");
}

#[test]
fn equality_ignores_the_trace() {
    let a = StrReport::new("same".to_string(), tracer("one history"));
    let b = StrReport::new("same".to_string(), tracer("another history"));
    let c = StrReport::new("other".to_string(), tracer("one history"));
    assert!(a == b);
    assert!(a != c);
}

#[test]
fn order_follows_the_detail() {
    let a = StrReport::new("a".to_string(), tracer("z"));
    let b = StrReport::new("b".to_string(), tracer("a"));
    assert!(a < b);
    assert_eq!(a.partial_cmp(&b), Some(std::cmp::Ordering::Less));
    let a2 = StrReport::new("a".to_string(), tracer("q"));
    assert_eq!(a.partial_cmp(&a2), Some(std::cmp::Ordering::Equal));
}

#[test]
fn clone_keeps_detail_and_trace_text() {
    let r = StrReport::new("d".to_string(), tracer("t2: t1"));
    let c = r.clone();
    assert_eq!(c.detail(), r.detail());
    assert_eq!(c.trace().render(), r.trace().render());
}

#[test]
fn serialized_parts_round_trip() {
    let r = StrReport::new("d".to_string(), tracer("b: a"));
    let (detail, text) = r.serialized_parts();
    assert_eq!(text, "b: a");
    let back = StrReport::from_serialized_parts(detail.clone(), text);
    assert_eq!(back.detail(), r.detail());
    assert_eq!(back.trace().render(), r.trace().render());
}

#[test]
fn no_source_starts_a_trace() {
    let r = StrReport::trace_from::<NoSource>((), |_| "leaf".to_string());
    assert_eq!(r.0, "leaf");
    assert_eq!(r.1.render(), "leaf");
}

#[test]
fn detail_only_keeps_the_value_without_a_trace() {
    let r = ErrorReport::<u32, StringTracer>::trace_from::<DetailOnly<u32>>(7, |d| d + 1);
    assert_eq!(r.0, 8);
    assert_eq!(r.1.render(), "8");
    let r = StrReport::trace_from::<DetailOnly<u32>>(7, |d| format!("top {}", d));
    assert_eq!(r.1.render(), "top 7");
}

#[test]
fn display_error_keeps_value_and_starts_trace() {
    let r = StrReport::trace_from::<DisplayError<String>>("cause".to_string(), |d| {
        format!("wrapped [{}]", d)
    });
    assert_eq!(r.0, "wrapped [cause]");
    assert_eq!(r.1.render(), "wrapped [cause]: cause");
}

#[test]
fn display_only_drops_the_value() {
    let r = StrReport::trace_from::<DisplayOnly<String>>("cause".to_string(), |d: ()| {
        assert_eq!(d, ());
        "top".to_string()
    });
    assert_eq!(r.1.render(), "top: cause");
}

#[test]
fn trace_only_adopts_the_trace() {
    let r = StrReport::trace_from::<TraceOnly<StringTracer>>(tracer("b: a"), |_| "c".to_string());
    assert_eq!(r.0, "c");
    assert_eq!(r.1.render(), "c: b: a");
}

#[test]
fn trace_error_hands_the_value_to_the_trace() {
    let r = StrReport::trace_from::<TraceError<u32>>(42, |_| "top".to_string());
    assert_eq!(r.1.render(), "top: 42");
}

#[test]
fn trace_clone_keeps_a_clone_and_traces_the_value() {
    let r = StrReport::trace_from::<TraceClone<String>>("orig".to_string(), |d| {
        format!("got {}", d)
    });
    assert_eq!(r.0, "got orig");
    assert_eq!(r.1.render(), "got orig: orig");
}

#[test]
fn report_as_cause_keeps_detail_and_trace() {
    let inner = StrReport::new("inner".to_string(), tracer("x: y"));
    let r = StrReport::trace_from::<StrReport>(inner, |d| format!("outer({})", d));
    assert_eq!(r.0, "outer(inner)");
    assert_eq!(r.1.render(), "outer(inner): x: y");
}

#[test]
fn box_detail_boxes_the_detail_and_adopts_the_trace() {
    let inner = StrReport::new("inner".to_string(), tracer("x"));
    let r = StrReport::trace_from::<BoxDetail<String>>(inner, |d: Box<String>| {
        assert_eq!(*d, "inner");
        format!("boxed {}", d)
    });
    assert_eq!(r.0, "boxed inner");
    assert_eq!(r.1.render(), "boxed inner: x");
}

#[test]
fn error_details_extracts_as_the_kind_says() {
    let (d, t) = error_details::<DisplayError<String>, StringTracer>("e".to_string());
    assert_eq!(d, "e");
    assert_eq!(t.unwrap().render(), "e");
    let (d, t) = error_details::<DetailOnly<u32>, StringTracer>(3);
    assert_eq!(d, 3);
    assert!(t.is_none());
    let (d, t) = error_details::<NoSource, StringTracer>(());
    assert_eq!(d, ());
    assert!(t.is_none());
}
