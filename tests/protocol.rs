use playwright_worker::error::PlaywrightError;
use playwright_worker::protocol::{command_line, decode_reply, encode_command, push_decimal, resolve_reply, Reply};
use serde_json::Value;

fn reply(success: Option<bool>, data: Option<&str>, error: Option<&str>) -> Reply {
    let data_value: Option<Value> = data.map(|d| serde_json::from_str(d).unwrap());
    let data_text = data_value.as_ref().and_then(|v| v.as_str().map(|s| s.to_string()));
    Reply { id: None, success, data: data_value, data_text, ready: None, error: error.map(|e| e.to_string()) }
}

#[test]
fn decimal_digits() {
    for (n, text) in [(0u64, "0"), (7, "7"), (10, "10"), (1234567890, "1234567890"), (u64::MAX, "18446744073709551615")] {
        let mut s = String::from("#");
        push_decimal(&mut s, n);
        assert_eq!(s, format!("#{}", text));
    }
}

#[test]
fn command_line_frame() {
    assert_eq!(command_line(42, "\"checkIn\"", "{\"a\":1}"), "{\"id\":42,\"action\":\"checkIn\",\"params\":{\"a\":1}}\n");
}

#[test]
fn encode_command_quotes_action() {
    let line = encode_command(3, "a\"b\\c", &Value::Null).unwrap();
    assert_eq!(line, "{\"id\":3,\"action\":\"a\\\"b\\\\c\",\"params\":null}\n");
}

#[test]
fn encode_command_escapes_control_characters() {
    let line = encode_command(1, "a\u{1}\u{8}\u{c}\t\r\n\u{1f}é", &Value::Bool(true)).unwrap();
    assert_eq!(line, "{\"id\":1,\"action\":\"a\\u0001\\b\\f\\t\\r\\n\\u001fé\",\"params\":true}\n");
}

#[test]
fn decode_keeps_null_data() {
    let r = decode_reply("{\"data\":null}").unwrap();
    assert_eq!(r.data, Some(Value::Null));
    assert_eq!(r.data_text, None);
    assert!(decode_reply("{\"ready\":1}").is_err());
}

#[test]
fn decode_reads_members() {
    let r = decode_reply("{\"id\":5,\"success\":true,\"data\":\"hi\",\"ready\":false,\"error\":null,\"extra\":[1]}\n").unwrap();
    assert_eq!(r.id, Some(5));
    assert_eq!(r.success, Some(true));
    assert_eq!(r.data, Some(Value::String("hi".to_string())));
    assert_eq!(r.data_text, Some("hi".to_string()));
    assert_eq!(r.ready, Some(false));
    assert_eq!(r.error, None);
    let r = decode_reply("{}").unwrap();
    assert!(r.id.is_none() && r.success.is_none() && r.data.is_none() && r.ready.is_none() && r.error.is_none());
}

#[test]
fn resolve_cases() {
    let r = resolve_reply(reply(Some(true), Some("{\"state\":\"WORK\"}"), None));
    assert_eq!(r.unwrap(), Some(serde_json::from_str::<Value>("{\"state\":\"WORK\"}").unwrap()));
    let r = resolve_reply(reply(None, None, None));
    assert_eq!(r.unwrap(), None);
    let r = resolve_reply(reply(Some(false), Some("\"boom\""), None));
    assert!(matches!(r, Err(PlaywrightError::ResponseError(m)) if m == "boom"));
    let r = resolve_reply(reply(Some(false), None, None));
    assert!(matches!(r, Err(PlaywrightError::ResponseError(m)) if m == "알 수 없는 오류"));
    let r = resolve_reply(reply(Some(true), Some("1"), Some("bad")));
    assert!(matches!(r, Err(PlaywrightError::ResponseError(m)) if m == "bad"));
}
