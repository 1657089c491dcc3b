use flex_error::components::foo::{self, SystemError};
use flex_error::render::Render;
use flex_error::report::ErrorReport;
use flex_error::source::{TraceError, TraceOnly};
use flex_error::tracer::{ErrorMessageTracer, ErrorTracer};
use flex_error::tracer_impl::eyre::EyreTracer;

#[test]
fn eyre_trace_renders_layers_newest_first() {
    let t = EyreTracer::new_message(&"root".to_string()).add_message(&"top".to_string());
    assert_eq!(t.render(), "top: root");
}

#[test]
fn eyre_report_holds_the_chain() {
    let t = EyreTracer::new_message(&"root".to_string()).add_message(&"top".to_string());
    assert_eq!(format!("{}", t.report()), "top");
    assert_eq!(format!("{:#}", t.report()), "top: root");
    let chain: Vec<String> = t.into_report().chain().map(|e| e.to_string()).collect();
    assert_eq!(chain, vec!["top".to_string(), "root".to_string()]);
}

#[test]
fn eyre_trace_takes_rich_values() {
    let t = <EyreTracer as ErrorTracer<SystemError>>::new_trace(SystemError::Error2);
    assert_eq!(t.render(), "error2");
    let t = <EyreTracer as ErrorTracer<u32>>::add_trace(t, 9);
    assert_eq!(t.render(), "9: error2");
}

#[test]
fn eyre_backed_report_composition() {
    type EyreReport = ErrorReport<String, EyreTracer>;
    let r = EyreReport::trace_from::<TraceError<SystemError>>(SystemError::Error1, |_| {
        "system error".to_string()
    });
    assert_eq!(r.1.render(), "system error: error1");
    let r2 = EyreReport::trace_from::<EyreReport>(r, |d| format!("wrapped {}", d));
    assert_eq!(r2.0, "wrapped system error");
    assert_eq!(r2.render(), "wrapped system error: system error: error1");
    let cloned = r2.clone();
    assert_eq!(cloned.render(), r2.render());
    assert!(cloned == r2);
}

#[test]
fn eyre_trace_adopted_by_string_reports_of_foo() {
    let t = EyreTracer::new_message(&"ext".to_string());
    let r = ErrorReport::<String, EyreTracer>::trace_from::<TraceOnly<EyreTracer>>(t, |_| {
        foo::unknown_error().0.render()
    });
    assert_eq!(r.render(), "unknown error: ext");
}
