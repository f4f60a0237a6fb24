use rusttp::telemetry::tracing::{object_from_pairs, span_to_json, EventRecord, SpanRecord};

fn make_span(name: &str, properties: Vec<(&str, &str)>) -> SpanRecord {
    SpanRecord {
        trace_id: 42,
        span_id: 1,
        parent_id: 0,
        begin_time_unix_ns: 1000,
        duration_ns: 500,
        name: name.to_string(),
        properties: properties.into_iter().map(|(k, v)| (k.to_string(), v.to_string())).collect(),
        events: vec![],
    }
}

#[test]
fn mod_span_to_json_renders_required_fields() {
    let span = make_span("test-span", vec![]);
    let json = span_to_json(&span);
    assert_eq!(json.name, "test-span");
    assert_eq!(json.trace_id, "0000000000000000000000000000002a");
    assert_eq!(json.span_id, "0000000000000001");
    assert_eq!(json.parent_id, "0000000000000000");
    assert_eq!(json.begin_time_unix_ns, 1000);
    assert_eq!(json.duration_ns, 500);
}

#[test]
fn mod_span_to_json_renders_properties() {
    let span = make_span("props", vec![("http.method", "GET"), ("http.status", "200")]);
    let json = span_to_json(&span);
    assert_eq!(json.properties.get("http.method").unwrap(), "GET");
    assert_eq!(json.properties.get("http.status").unwrap(), "200");
}

#[test]
fn mod_span_to_json_empty_properties_is_empty_object() {
    let span = make_span("empty", vec![]);
    let json = span_to_json(&span);
    assert_eq!(json.properties.len(), 0);
}

#[test]
fn mod_span_to_json_events_are_rendered() {
    let mut span = make_span("with-event", vec![]);
    span.events = vec![EventRecord {
        name: "db.query".to_string(),
        timestamp_unix_ns: 1200,
        properties: vec![("query".to_string(), "SELECT 1".to_string())],
    }];
    let json = span_to_json(&span);
    assert_eq!(json.events[0].name, "db.query");
    assert_eq!(json.events[0].timestamp_unix_ns, 1200);
    assert_eq!(json.events[0].properties.get("query").unwrap(), "SELECT 1");
}

#[test]
fn span_ids_are_fixed_width_lowercase_hex() {
    let mut span = make_span("ids", vec![]);
    span.trace_id = u128::MAX;
    span.span_id = 0xDEADBEEF;
    span.parent_id = u64::MAX;
    let json = span_to_json(&span);
    assert_eq!(json.trace_id, "ffffffffffffffffffffffffffffffff");
    assert_eq!(json.span_id, "00000000deadbeef");
    assert_eq!(json.parent_id, "ffffffffffffffff");
}

#[test]
fn object_later_keys_win() {
    let pairs = vec![
        ("a".to_string(), "1".to_string()),
        ("b".to_string(), "2".to_string()),
        ("a".to_string(), "3".to_string()),
    ];
    let m = object_from_pairs(&pairs);
    assert_eq!(m.len(), 2);
    assert_eq!(m.get("a").unwrap(), "3");
    assert_eq!(m.get("b").unwrap(), "2");
    assert!(m.get("c").is_none());
    assert_eq!(serde_json::Value::Object(m).to_string(), r#"{"a":"3","b":"2"}"#);
}

#[test]
fn span_to_json_properties_have_only_the_span_keys() {
    let span = make_span("keys", vec![("a", "1"), ("b", "2"), ("a", "3")]);
    let json = span_to_json(&span);
    let keys: Vec<&String> = json.properties.keys().collect();
    assert_eq!(keys, vec!["a", "b"]);
    assert_eq!(json.properties["a"], "3");
    let empty = span_to_json(&make_span("none", vec![]));
    assert!(empty.properties.is_empty());
}
