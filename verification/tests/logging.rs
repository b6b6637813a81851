use agent_ffi::compose_log_message;
use agent_ffi::log_payload;
use agent_ffi::sanitize_bytes;
use agent_ffi::trim_quotes_bytes;
use agent_ffi::LogLevel;
use agent_ffi::LogVisitor;

#[test]
fn explicit_message_is_delivered_verbatim() {
    let mut visitor = LogVisitor::new();
    visitor.record_debug(b"message", b"\"connecting\"".to_vec());
    let message = compose_log_message(&visitor, &b"agent::session".to_vec());
    assert_eq!(message, b"connecting".to_vec());
    let (code, payload) = log_payload(LogLevel::Info, &message);
    assert_eq!(code, 1);
    assert_eq!(payload, b"connecting".to_vec());
}

#[test]
fn fields_alone_are_rendered_as_pairs() {
    let mut visitor = LogVisitor::new();
    visitor.record_debug(b"tunnel", b"7".to_vec());
    visitor.record_debug(b"state", b"up".to_vec());
    let message = compose_log_message(&visitor, &b"agent::session".to_vec());
    assert_eq!(message, b"tunnel=7 state=up".to_vec());
}

#[test]
fn message_and_fields_are_joined() {
    let mut visitor = LogVisitor::new();
    visitor.record_debug(b"message", b"\"poll done\"".to_vec());
    visitor.record_debug(b"tunnels", b"3".to_vec());
    let message = compose_log_message(&visitor, &b"agent::session".to_vec());
    assert_eq!(message, b"poll done tunnels=3".to_vec());
}

#[test]
fn empty_event_falls_back_to_target() {
    let visitor = LogVisitor::new();
    let message = compose_log_message(&visitor, &b"agent::session".to_vec());
    assert_eq!(message, b"agent::session".to_vec());
}

#[test]
fn payload_strips_embedded_nulls() {
    let (code, payload) = log_payload(LogLevel::Warn, &b"bad\0message\0".to_vec());
    assert_eq!(code, 2);
    assert_eq!(payload, b"badmessage".to_vec());
    assert!(!payload.contains(&0u8));
}

#[test]
fn sanitize_keeps_clean_strings() {
    let payload = sanitize_bytes(&b"clean".to_vec());
    assert_eq!(payload, b"clean".to_vec());
    let empty = sanitize_bytes(&b"".to_vec());
    assert_eq!(empty, b"".to_vec());
    let only_nulls = sanitize_bytes(&b"\0\0\0".to_vec());
    assert_eq!(only_nulls, b"".to_vec());
}

#[test]
fn quote_trimming_matches_debug_rendering() {
    assert_eq!(trim_quotes_bytes(b"\"hello\"".to_vec()), b"hello".to_vec());
    assert_eq!(trim_quotes_bytes(b"hello".to_vec()), b"hello".to_vec());
    assert_eq!(trim_quotes_bytes(b"\"\"\"".to_vec()), b"".to_vec());
    assert_eq!(trim_quotes_bytes(b"".to_vec()), b"".to_vec());
    assert_eq!(trim_quotes_bytes(b"a\"b".to_vec()), b"a\"b".to_vec());
}

#[test]
fn level_codes_are_stable() {
    assert_eq!(LogLevel::Trace.code_value(), -1);
    assert_eq!(LogLevel::Debug.code_value(), 0);
    assert_eq!(LogLevel::Info.code_value(), 1);
    assert_eq!(LogLevel::Warn.code_value(), 2);
    assert_eq!(LogLevel::Error.code_value(), 3);
}

#[test]
fn last_message_field_wins() {
    let mut visitor = LogVisitor::new();
    visitor.record_debug(b"message", b"\"first\"".to_vec());
    visitor.record_debug(b"message", b"\"second\"".to_vec());
    let message = compose_log_message(&visitor, &b"agent".to_vec());
    assert_eq!(message, b"second".to_vec());
}
