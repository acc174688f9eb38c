use proxy_core::config::bypass::bypass_from_value;
use proxy_core::config::dns::{dns_from_value, dns_section};
use proxy_core::config::error::{ConfigError, Section, SynthesisError};
use proxy_core::json::render;
use serde_json::Value;

fn object(members: Vec<(&str, Value)>) -> Value {
    let mut map = serde_json::Map::new();
    for (name, value) in members {
        map.insert(name.to_string(), value);
    }
    Value::Object(map)
}

fn text(s: &str) -> Value {
    Value::String(s.to_string())
}

#[test]
fn dns_section_from_a_parsed_document() {
    let hosts = object(vec![("b.example", text("2.2.2.2")), ("a.example", text("1.1.1.1"))]);
    let document = object(vec![("servers", Value::Array(vec![text("8.8.8.8")])), ("hosts", hosts)]);
    let section = dns_from_value(&document).unwrap();
    assert_eq!(
        render(&section).unwrap(),
        "{\n  \"hosts\": {\n    \"b.example\": \"2.2.2.2\",\n    \"a.example\": \"1.1.1.1\"\n  }\n}"
    );
}

#[test]
fn dns_documents_without_a_host_map_are_refused() {
    assert!(dns_from_value(&Value::Null).is_none());
    assert!(dns_from_value(&text("hosts")).is_none());
    assert!(dns_from_value(&Value::Array(vec![])).is_none());
    assert!(dns_from_value(&object(vec![])).is_none());
    assert!(dns_from_value(&object(vec![("hosts", Value::Null)])).is_none());
    assert!(dns_from_value(&object(vec![("hosts", Value::Array(vec![]))])).is_none());
    let mixed = object(vec![("a", text("1.1.1.1")), ("b", Value::Bool(true))]);
    assert!(dns_from_value(&object(vec![("hosts", mixed)])).is_none());
    let nested = object(vec![("a", object(vec![]))]);
    assert!(dns_from_value(&object(vec![("hosts", nested)])).is_none());
    assert!(dns_from_value(&object(vec![("Hosts", object(vec![]))])).is_none());
}

#[test]
fn dns_section_from_text() {
    let section = dns_section("{\"hosts\": {\"x\": \"y\"}}").unwrap();
    assert_eq!(render(&section).unwrap(), "{\n  \"hosts\": {\n    \"x\": \"y\"\n  }\n}");
    // Of a name given twice the later value counts, at the place of the first.
    let section = dns_section("{\"hosts\": {\"x\": \"1\", \"z\": \"2\", \"x\": \"3\"}}").unwrap();
    assert_eq!(
        render(&section).unwrap(),
        "{\n  \"hosts\": {\n    \"x\": \"3\",\n    \"z\": \"2\"\n  }\n}"
    );
    assert_eq!(
        dns_section("{\"hosts\": {\"x\": 1}}").err(),
        Some(SynthesisError::Config(ConfigError::MalformedDocument(Section::Dns)))
    );
    assert_eq!(
        dns_section("{\"hosts\": ").err(),
        Some(SynthesisError::Config(ConfigError::MalformedDocument(Section::Dns)))
    );
}

#[test]
fn bypass_list_from_a_parsed_document() {
    let list = Value::Array(vec![text("localhost"), text("*.lan")]);
    let document = object(vec![("bypass", list), ("more", Value::Null)]);
    assert_eq!(
        bypass_from_value(&document),
        Some(vec!["localhost".to_string(), "*.lan".to_string()])
    );
    assert_eq!(bypass_from_value(&object(vec![("bypass", Value::Array(vec![]))])), Some(vec![]));
    assert_eq!(bypass_from_value(&object(vec![])), None);
    assert_eq!(bypass_from_value(&Value::Array(vec![text("a")])), None);
    assert_eq!(bypass_from_value(&object(vec![("bypass", text("a"))])), None);
    let numbers = Value::Array(vec![text("a"), Value::from(1)]);
    assert_eq!(bypass_from_value(&object(vec![("bypass", numbers)])), None);
}
