use serde_json::Value;
use winevt_core::present::{jsonl_value, text_value, OutputFormat};

const RULE: &str = "========================================================";

fn object(entries: &[(&str, Value)]) -> Value {
    let mut map = serde_json::Map::new();
    for (k, v) in entries {
        map.insert(k.to_string(), v.clone());
    }
    Value::Object(map)
}

#[test]
fn only_the_two_formats_are_known() {
    assert_eq!(OutputFormat::parse("text"), Some(OutputFormat::Text));
    assert_eq!(OutputFormat::parse("jsonl"), Some(OutputFormat::Jsonl));
    assert_eq!(OutputFormat::parse("xml"), None);
    assert_eq!(OutputFormat::parse(""), None);
    assert_eq!(OutputFormat::parse("Text"), None);
    assert_eq!(OutputFormat::parse("jsonl "), None);
}

#[test]
fn json_line_carries_the_channel_name() {
    let mapping = object(&[("A", Value::String("x".to_string()))]);
    assert_eq!(
        jsonl_value("Security", mapping),
        Some("{\"A\":\"x\",\"ChannelName\":\"Security\"}".to_string())
    );
    assert_eq!(
        jsonl_value("System", object(&[])),
        Some("{\"ChannelName\":\"System\"}".to_string())
    );
}

#[test]
fn json_line_replaces_an_earlier_channel_name() {
    let mapping = object(&[("ChannelName", Value::from(1u64))]);
    assert_eq!(jsonl_value("App", mapping), Some("{\"ChannelName\":\"App\"}".to_string()));
}

#[test]
fn json_line_parses_back_to_the_same_object() {
    let mapping = object(&[
        ("Count", Value::from(-5i64)),
        ("Name", Value::String("a \"b\" \\ c".to_string())),
        ("On", Value::Bool(false)),
    ]);
    let line = jsonl_value("Chan", mapping.clone()).unwrap();
    let back: Value = serde_json::from_str(&line).unwrap();
    let back = back.as_object().unwrap();
    assert_eq!(back.len(), 4);
    assert_eq!(back["ChannelName"], Value::String("Chan".to_string()));
    for (key, value) in mapping.as_object().unwrap() {
        assert_eq!(&back[key], value);
    }
}

#[test]
fn only_objects_have_a_rendering() {
    assert_eq!(jsonl_value("x", Value::Null), None);
    assert_eq!(jsonl_value("x", Value::Array(Vec::new())), None);
    assert_eq!(text_value("x", &Value::String("s".to_string())), None);
    assert_eq!(text_value("x", &Value::Null), None);
}

#[test]
fn text_block_lists_every_entry() {
    let mapping = object(&[
        ("A", Value::String("x".to_string())),
        ("B", Value::from(2u64)),
        ("C", Value::Array(vec![Value::Bool(true), Value::Null])),
    ]);
    let expected = format!(
        "{}\nChannel: Security\n{}\nA: \"x\"\nB: 2\nC: [true,null]\n\n",
        RULE, RULE
    );
    assert_eq!(text_value("Security", &mapping), Some(expected));
}

#[test]
fn text_block_of_the_empty_object_is_the_header() {
    let expected = format!("{}\nChannel: Empty\n{}\n\n", RULE, RULE);
    assert_eq!(text_value("Empty", &object(&[])), Some(expected));
}
