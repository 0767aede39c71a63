use slack_forwarder::Field;
use slack_forwarder::FieldExclusionSet;
use slack_forwarder::FieldValue;
use slack_forwarder::FilterChain;
use slack_forwarder::Level;
use slack_forwarder::Polarity;
use slack_forwarder::SpanPhase;
use slack_forwarder::apply_exclusions;
use slack_forwarder::apply_key_chain;
use slack_forwarder::dedup_fields;
use slack_forwarder::format_span_context;
use slack_forwarder::i64_to_dec;
use slack_forwarder::level_text;
use slack_forwarder::remove_key;
use slack_forwarder::render;
use slack_forwarder::resolve_message;
use slack_forwarder::u64_to_dec;
use slack_forwarder::value_text;

fn field(key: &str, value: FieldValue) -> Field {
    Field { key: key.to_string(), value }
}

#[test]
fn decimal_rendering_is_exact() {
    assert_eq!(u64_to_dec(0), "0");
    assert_eq!(u64_to_dec(7), "7");
    assert_eq!(u64_to_dec(10), "10");
    assert_eq!(u64_to_dec(90210), "90210");
    assert_eq!(u64_to_dec(u64::MAX), "18446744073709551615");
    assert_eq!(i64_to_dec(0), "0");
    assert_eq!(i64_to_dec(42), "42");
    assert_eq!(i64_to_dec(-42), "-42");
    assert_eq!(i64_to_dec(i64::MAX), "9223372036854775807");
    assert_eq!(i64_to_dec(i64::MIN), "-9223372036854775808");
}

#[test]
fn value_rendering_is_exact() {
    assert_eq!(value_text(&FieldValue::Null), "null");
    assert_eq!(value_text(&FieldValue::Bool(true)), "true");
    assert_eq!(value_text(&FieldValue::Bool(false)), "false");
    assert_eq!(value_text(&FieldValue::Int(-3)), "-3");
    assert_eq!(value_text(&FieldValue::Str("boom".to_string())), "boom");
}

#[test]
fn level_labels() {
    assert_eq!(level_text(Level::Trace), "TRACE");
    assert_eq!(level_text(Level::Debug), "DEBUG");
    assert_eq!(level_text(Level::Info), "INFO");
    assert_eq!(level_text(Level::Warn), "WARN");
    assert_eq!(level_text(Level::Error), "ERROR");
}

#[test]
fn message_falls_back_to_error_field() {
    // No "message" field: the "error" field's string value is the message.
    let fields = vec![field("error", FieldValue::Str("boom".to_string()))];
    assert_eq!(resolve_message(&fields), "boom");
}

#[test]
fn message_falls_back_to_placeholder() {
    // Neither "message" nor "error": the fixed placeholder.
    let fields: Vec<Field> = Vec::new();
    assert_eq!(resolve_message(&fields), "(no message)");
    // A non-string "error" value does not serve as a message either.
    let fields = vec![field("error", FieldValue::Int(5))];
    assert_eq!(resolve_message(&fields), "(no message)");
}

#[test]
fn message_field_wins_over_error_field() {
    let fields = vec![
        field("error", FieldValue::Str("boom".to_string())),
        field("message", FieldValue::Str("all fine".to_string())),
    ];
    assert_eq!(resolve_message(&fields), "all fine");
}

#[test]
fn span_context_is_uppercased_and_bracketed() {
    assert_eq!(
        format_span_context("an_interesting_span", SpanPhase::Start),
        "[AN_INTERESTING_SPAN - START]"
    );
    assert_eq!(format_span_context("db_query", SpanPhase::End), "[DB_QUERY - END]");
    assert_eq!(format_span_context("db_query", SpanPhase::Event), "[DB_QUERY - EVENT]");
}

#[test]
fn render_without_span_or_source_uses_sentinels() {
    let fields = vec![field("k", FieldValue::Int(3))];
    let out = render(Level::Info, "hi", &None, "t", &None, &None, &fields);
    assert_eq!(out, "INFO: hi\nspan: -\ntarget: t\nsource: -:-\n```\nk: 3\n```");
}

#[test]
fn render_with_span_and_source() {
    let fields = vec![
        field("retries", FieldValue::Int(3)),
        field("fatal", FieldValue::Bool(false)),
    ];
    let out = render(
        Level::Error,
        "connection lost",
        &Some("db_query".to_string()),
        "app::db",
        &Some("src/db.rs".to_string()),
        &Some(42),
        &fields,
    );
    assert_eq!(
        out,
        "ERROR: connection lost\nspan: [DB_QUERY - EVENT]\ntarget: app::db\nsource: src/db.rs:42\n```\nretries: 3\nfatal: false\n```"
    );
}

#[test]
fn dedup_keeps_first_occurrence_order_and_last_value() {
    let fields = vec![
        field("a", FieldValue::Int(1)),
        field("b", FieldValue::Int(2)),
        field("a", FieldValue::Str("x".to_string())),
    ];
    let out = dedup_fields(fields);
    assert_eq!(out.len(), 2);
    assert_eq!(out[0].key, "a");
    assert_eq!(value_text(&out[0].value), "x");
    assert_eq!(out[1].key, "b");
    assert_eq!(value_text(&out[1].value), "2");
}

#[test]
fn remove_key_drops_exactly_that_key() {
    let fields = vec![
        field("message", FieldValue::Str("m".to_string())),
        field("other", FieldValue::Int(1)),
    ];
    let out = remove_key(fields, &"message".to_string());
    assert_eq!(out.len(), 1);
    assert_eq!(out[0].key, "other");
}

#[test]
fn excluded_key_never_survives_whatever_its_value() {
    let mut sel = FieldExclusionSet::new();
    assert!(sel.add("^secret".to_string()).is_ok());
    for value in [
        FieldValue::Null,
        FieldValue::Bool(true),
        FieldValue::Int(-7),
        FieldValue::Str("hunter2".to_string()),
    ] {
        let fields = vec![field("secret_token", value), field("ok", FieldValue::Int(1))];
        let out = apply_exclusions(fields, &sel);
        assert_eq!(out.len(), 1);
        assert_eq!(out[0].key, "ok");
    }
}

#[test]
fn invalid_exclusion_pattern_is_refused() {
    let mut sel = FieldExclusionSet::new();
    assert!(sel.add("(".to_string()).is_err());
    // The set is unchanged: nothing is excluded.
    let fields = vec![field("anything", FieldValue::Int(1))];
    let out = apply_exclusions(fields, &sel);
    assert_eq!(out.len(), 1);
}

#[test]
fn field_key_chain_drops_rejected_keys_only() {
    let chain = FilterChain::single(
        slack_forwarder::Filter::new("^debug_".to_string(), Polarity::Additive).ok().unwrap(),
    );
    let fields = vec![
        field("debug_dump", FieldValue::Str("big".to_string())),
        field("retries", FieldValue::Int(3)),
    ];
    let out = apply_key_chain(fields, &chain);
    assert_eq!(out.len(), 1);
    assert_eq!(out[0].key, "retries");
}
