use js::compartment::CompartmentCall;
use js::report::DiagnosticRecord;

#[test]
fn report_without_source_is_named_none() {
    let r = DiagnosticRecord::from_report(None, 4, b"oops");
    assert_eq!(r.source, "none");
    assert_eq!(r.line, 4);
    assert_eq!(r.message, "oops");
}

#[test]
fn report_with_source_keeps_it() {
    let r = DiagnosticRecord::from_report(Some(b"test.js"), 1, b"SyntaxError: missing operand");
    assert_eq!(r.source, "test.js");
    assert_eq!(r.message, "SyntaxError: missing operand");
}

#[test]
fn invalid_utf8_becomes_replacement_character() {
    let r = DiagnosticRecord::from_report(Some(b"a\xffb"), 2, b"\xfe");
    assert_eq!(r.source, "a\u{FFFD}b");
    assert_eq!(r.message, "\u{FFFD}");
}

#[test]
fn record_from_decoded_parts() {
    let r = DiagnosticRecord::new(Some("x.js".to_string()), 9, "m".to_string());
    assert_eq!(r.source, "x.js");
    let n = DiagnosticRecord::new(None, 9, String::new());
    assert_eq!(n.source, "none");
    assert_eq!(n.message, "");
}

#[test]
fn compartment_is_left_exactly_once() {
    let mut c = CompartmentCall::entered(1, 2, 77);
    assert!(c.is_inside());
    assert_eq!(c.leave(), Some(77));
    assert!(!c.is_inside());
    assert_eq!(c.leave(), None);
    assert_eq!(c.context, 1);
    assert_eq!(c.target, 2);
}

#[test]
fn compartment_left_after_failure_in_body() {
    let mut c = CompartmentCall::entered(1, 2, 5);
    let body: Result<u32, ()> = Err(());
    assert!(body.is_err());
    assert_eq!(c.leave(), Some(5));
    assert_eq!(c.leave(), None);
}
