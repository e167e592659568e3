use ghostwriter::icon::{icon_rgba, ICON_SIZE};
use ghostwriter::record::{log_lines, payload_json, record_json, LogEvent};
use ghostwriter::seal::{seal_session, session_file_name, sign_payload};
use ghostwriter::text::decimal;
use sha2::Digest;

fn event(ts: i64, title: &str) -> LogEvent {
    LogEvent::keypress(ts, Some(title.to_string()))
}

fn recompute(payload: &str) -> String {
    let mut h = sha2::Sha256::new();
    h.update(payload);
    h.update("GHOSTWRITER_SECURE_SALT_V1");
    hex::encode(h.finalize())
}

#[test]
fn decimal_renders_integers() {
    assert_eq!(decimal(0), "0");
    assert_eq!(decimal(7), "7");
    assert_eq!(decimal(120), "120");
    assert_eq!(decimal(-45), "-45");
    assert_eq!(decimal(1700000000123), "1700000000123");
    assert_eq!(decimal(i64::MAX), i64::MAX.to_string());
    assert_eq!(decimal(i64::MIN), i64::MIN.to_string());
}

#[test]
fn keypress_uses_unknown_when_lookup_fails() {
    let e = LogEvent::keypress(5, None);
    assert_eq!(e.window_title, "Unknown");
    assert_eq!(e.event_type, "keypress");
    assert_eq!(e.timestamp, 5);
    let f = event(6, "Editor");
    assert_eq!(f.window_title, "Editor");
}

#[test]
fn record_json_is_compact_object() {
    let e = event(1700000000123, "Notes");
    assert_eq!(
        record_json(&e),
        "{\"timestamp\":1700000000123,\"window_title\":\"Notes\",\"event_type\":\"keypress\"}"
    );
}

#[test]
fn record_json_escapes_title() {
    let e = event(1, "a \"b\"\nc\\d");
    let text = record_json(&e);
    assert_eq!(
        text,
        "{\"timestamp\":1,\"window_title\":\"a \\\"b\\\"\\nc\\\\d\",\"event_type\":\"keypress\"}"
    );
    let v: serde_json::Value = serde_json::from_str(&text).unwrap();
    assert_eq!(v["window_title"], "a \"b\"\nc\\d");
}

#[test]
fn payload_json_of_empty_and_two() {
    assert_eq!(payload_json(&vec![]), "[]");
    let events = vec![event(1, "x"), event(2, "y")];
    assert_eq!(
        payload_json(&events),
        "[{\"timestamp\":1,\"window_title\":\"x\",\"event_type\":\"keypress\"},{\"timestamp\":2,\"window_title\":\"y\",\"event_type\":\"keypress\"}]"
    );
}

#[test]
fn log_lines_each_parse_as_record() {
    let events = vec![event(10, "one"), event(11, "two\nlines"), LogEvent::keypress(12, None)];
    let text = log_lines(&events);
    assert!(text.ends_with('\n'));
    let lines: Vec<&str> = text.lines().collect();
    assert_eq!(lines.len(), 3);
    for (i, line) in lines.iter().enumerate() {
        let v: serde_json::Value = serde_json::from_str(line).unwrap();
        let obj = v.as_object().unwrap();
        assert_eq!(obj.len(), 3);
        assert_eq!(obj["timestamp"].as_i64().unwrap(), 10 + i as i64);
        assert_eq!(obj["event_type"], "keypress");
        assert!(obj["window_title"].is_string());
    }
    assert_eq!(log_lines(&vec![]), "");
}

#[test]
fn signature_is_deterministic_and_sensitive() {
    let a = sign_payload("[1,2,3]");
    let b = sign_payload("[1,2,3]");
    assert_eq!(a, b);
    assert_eq!(a.len(), 64);
    assert_eq!(a, recompute("[1,2,3]"));
    assert_ne!(a, sign_payload("[1,2,4]"));
    assert_ne!(a, "[1,2,3]");
}

#[test]
fn sealed_session_of_three_events() {
    let events = vec![event(100, "A"), event(200, "B"), event(300, "C")];
    let text = seal_session(&events);
    let v: serde_json::Value = serde_json::from_str(&text).unwrap();
    assert_eq!(v["header"]["version"], "1.0");
    assert_eq!(v["header"]["algorithm"], "HMAC-SHA256");
    let payload = v["payload"].as_array().unwrap();
    assert_eq!(payload.len(), 3);
    assert_eq!(payload[1]["timestamp"], 200);
    assert_eq!(payload[2]["window_title"], "C");
    let expected = recompute(&payload_json(&events));
    assert_eq!(v["signature"], expected.as_str());
}

#[test]
fn sealed_session_layout() {
    let events = vec![event(1, "x")];
    let sig = sign_payload(&payload_json(&events));
    let expected = format!(
        "{{\n  \"header\": {{\n    \"version\": \"1.0\",\n    \"algorithm\": \"HMAC-SHA256\"\n  }},\n  \"payload\": [\n    {{\n      \"timestamp\": 1,\n      \"window_title\": \"x\",\n      \"event_type\": \"keypress\"\n    }}\n  ],\n  \"signature\": \"{}\"\n}}",
        sig
    );
    assert_eq!(seal_session(&events), expected);
}

#[test]
fn session_file_name_uses_seconds() {
    assert_eq!(session_file_name(1700000000), "Session_1700000000.gw");
    assert_eq!(session_file_name(0), "Session_0.gw");
}

#[test]
fn icon_is_red_square() {
    let px = icon_rgba(ICON_SIZE, ICON_SIZE);
    assert_eq!(px.len(), 32 * 32 * 4);
    for chunk in px.chunks(4) {
        assert_eq!(chunk, &[255, 0, 0, 255]);
    }
    assert!(icon_rgba(0, 5).is_empty());
}
