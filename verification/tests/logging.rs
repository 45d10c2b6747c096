//! Log events and their redaction.

use std::time::{Duration, Instant};

use rustyhip::json::{Json, JsonObject};
use rustyhip::logging::{
    elapsed_ms, is_sensitive_field, level_name, saturated_ms, JsonEventFormatter, JsonVisitor,
    LogLevel, REQUIRED_MEMBERS,
};

#[test]
fn denylist_matches_case_insensitively() {
    assert!(is_sensitive_field("password"));
    assert!(is_sensitive_field("PASSWORD"));
    assert!(is_sensitive_field("user_password"));
    assert!(is_sensitive_field("API_KEY"));
    assert!(is_sensitive_field("authorization"));
    assert!(is_sensitive_field("user_email"));
    assert!(is_sensitive_field("credit_card_last4"));
}

#[test]
fn denylist_does_not_match_unrelated_fields() {
    assert!(!is_sensitive_field("path"));
    assert!(!is_sensitive_field("bucket"));
    assert!(!is_sensitive_field("user_id"));
    assert!(!is_sensitive_field("sql_bytes"));
    assert!(!is_sensitive_field("rows"));
}

fn text(s: &str) -> Json {
    Json::Text(s.to_owned())
}

fn formatter() -> JsonEventFormatter {
    JsonEventFormatter::new("rustyhip".to_owned(), "test".to_owned())
}

fn names(event: &JsonObject) -> Vec<String> {
    let mut names: Vec<String> = event.members().into_iter().map(|(n, _)| n).collect();
    names.sort();
    names
}

#[test]
fn every_denied_name_is_found_inside_longer_names() {
    for name in rustyhip::logging::SENSITIVE_FIELD_NAMES {
        assert!(is_sensitive_field(&format!("X-{}-y", name.to_uppercase())));
    }
    assert!(!is_sensitive_field(""));
    assert!(!is_sensitive_field("pass_word"));
}

#[test]
fn an_event_has_the_required_members() {
    let mut visitor = JsonVisitor::new();
    visitor.record_debug("message", "started".to_owned());
    visitor.record_u64("rows", 3);
    let event = formatter().format_event(
        1_546_300_800_000_000_000,
        LogLevel::Warn,
        "rustyhip::main",
        &visitor.fields,
    );
    assert_eq!(
        names(&event),
        vec!["environment", "event", "level", "logger", "rows", "service", "timestamp"]
    );
    assert_eq!(event.get("timestamp"), Some(&text("2019-01-01T00:00:00Z")));
    assert_eq!(event.get("level"), Some(&text("WARNING")));
    assert_eq!(event.get("logger"), Some(&text("rustyhip::main")));
    assert_eq!(event.get("service"), Some(&text("rustyhip")));
    assert_eq!(event.get("environment"), Some(&text("test")));
    assert_eq!(event.get("event"), Some(&text("started")));
    assert_eq!(event.get("rows"), Some(&Json::Unsigned(3)));
    assert_eq!(event.get("message"), None);
}

#[test]
fn a_time_that_cannot_be_written_is_unknown() {
    let event = formatter().format_event(i128::MAX, LogLevel::Info, "x", &vec![]);
    assert_eq!(event.get("timestamp"), Some(&text("unknown")));
    let event = formatter().assemble(None, LogLevel::Info, "x", &vec![]);
    assert_eq!(event.get("timestamp"), Some(&text("unknown")));
}

#[test]
fn an_event_without_a_message_has_all_required_members() {
    let event = formatter().format_event(0, LogLevel::Info, "x", &vec![]);
    assert_eq!(
        names(&event),
        vec!["environment", "event", "level", "logger", "service", "timestamp"]
    );
    assert_eq!(event.get("event"), Some(&text("(no message)")));
    assert_eq!(event.get("timestamp"), Some(&text("1970-01-01T00:00:00Z")));
}

#[test]
fn no_field_takes_the_place_of_a_required_member() {
    let mut visitor = JsonVisitor::new();
    visitor.record_str("message", "real");
    for name in REQUIRED_MEMBERS {
        visitor.record_str(name, "mine");
    }
    let event = formatter().format_event(0, LogLevel::Error, "x", &visitor.fields);
    assert_eq!(event.get("timestamp"), Some(&text("1970-01-01T00:00:00Z")));
    assert_eq!(event.get("level"), Some(&text("ERROR")));
    assert_eq!(event.get("event"), Some(&text("real")));
    assert_eq!(event.get("logger"), Some(&text("x")));
    assert_eq!(event.get("service"), Some(&text("rustyhip")));
    assert_eq!(event.get("environment"), Some(&text("test")));
    for name in REQUIRED_MEMBERS {
        assert_eq!(event.get(&format!("field.{name}")), Some(&text("mine")));
    }
    assert_eq!(event.members().len(), 12);
}

#[test]
fn sensitive_values_leave_no_trace() {
    let shown = |value: &str| {
        let mut visitor = JsonVisitor::new();
        visitor.record_str("message", "login");
        visitor.record_str("user_email", value);
        visitor.record_str("PASSWORD", value);
        let event = formatter().format_event(0, LogLevel::Info, "x", &visitor.fields);
        let mut members = event.members();
        members.sort_by(|a, b| a.0.cmp(&b.0));
        members
    };
    assert_eq!(shown("one"), shown("another"));
}

#[test]
fn sensitive_fields_are_redacted() {
    let mut visitor = JsonVisitor::new();
    visitor.record_str("auth_token", "abc");
    visitor.record_bool("Secret", true);
    visitor.record_str("path", "/sql");
    let event = formatter().clone().assemble(None, LogLevel::Info, "x", &visitor.fields);
    assert_eq!(event.get("auth_token"), Some(&text("[REDACTED]")));
    assert_eq!(event.get("Secret"), Some(&text("[REDACTED]")));
    assert_eq!(event.get("path"), Some(&text("/sql")));
}

#[test]
fn the_last_field_of_a_name_stays() {
    let mut visitor = JsonVisitor::new();
    visitor.record_i64("n", -1);
    visitor.record_str("message", "first");
    visitor.record_i64("n", -2);
    visitor.record_str("message", "second");
    let event = formatter().assemble(None, LogLevel::Info, "x", &visitor.fields);
    assert_eq!(event.get("n"), Some(&Json::Integer(-2)));
    assert_eq!(event.get("event"), Some(&text("second")));
}

#[test]
fn wide_integers_become_text() {
    let mut visitor = JsonVisitor::new();
    visitor.record_i128("a", i128::from(i64::MIN));
    visitor.record_i128("b", i128::from(i64::MIN) - 1);
    visitor.record_u128("c", u128::from(u64::MAX));
    visitor.record_u128("d", u128::from(u64::MAX) + 1);
    visitor.record_i128("e", i128::MIN);
    visitor.record_u128("f", u128::MAX);
    let values: Vec<Json> = visitor.fields.into_iter().map(|(_, v)| v).collect();
    assert_eq!(
        values,
        vec![
            Json::Integer(i64::MIN),
            text(&(i128::from(i64::MIN) - 1).to_string()),
            Json::Unsigned(u64::MAX),
            text("18446744073709551616"),
            text(&i128::MIN.to_string()),
            text(&u128::MAX.to_string()),
        ]
    );
}

#[test]
fn reals_without_a_json_form_become_null() {
    let mut visitor = JsonVisitor::new();
    visitor.record_f64("a", 0.25f64.to_bits());
    visitor.record_f64("b", f64::NAN.to_bits());
    visitor.record_f64("c", f64::INFINITY.to_bits());
    visitor.record_f64("d", f64::NEG_INFINITY.to_bits());
    visitor.record_f64("e", f64::MAX.to_bits());
    visitor.record_error("f", "broken: deep".to_owned());
    let values: Vec<Json> = visitor.fields.into_iter().map(|(_, v)| v).collect();
    assert_eq!(
        values,
        vec![
            Json::Real(0.25f64.to_bits()),
            Json::Null,
            Json::Null,
            Json::Null,
            Json::Real(f64::MAX.to_bits()),
            text("broken: deep"),
        ]
    );
}

#[test]
fn levels_have_their_names() {
    assert_eq!(level_name(LogLevel::Error), "ERROR");
    assert_eq!(level_name(LogLevel::Warn), "WARNING");
    assert_eq!(level_name(LogLevel::Info), "INFO");
    assert_eq!(level_name(LogLevel::Debug), "DEBUG");
    assert_eq!(level_name(LogLevel::Trace), "TRACE");
}

#[test]
fn elapsed_time_is_in_milliseconds() {
    let start = Instant::now();
    while start.elapsed() < Duration::from_millis(30) {}
    let ms = elapsed_ms(start);
    assert!((30..20_000).contains(&ms), "{ms}");
    assert_eq!(saturated_ms(5), 5);
    assert_eq!(saturated_ms(u128::from(u64::MAX)), u64::MAX);
    assert_eq!(saturated_ms(u128::from(u64::MAX) + 1), u64::MAX);
}
