use serde_json::Value;
use url_handler::{
    build_record_from_string, build_record_from_string_with_extension,
    build_string_from_record_with_extension, FormatHandler, FormatHandlerRegistry, HandlerError,
    JsonHandler, KnownFormatHandler, TomlHandler,
};

fn test_struct(name: &str, is_pretty: bool) -> Value {
    let mut m = serde_json::Map::new();
    m.insert(
        "last_updated".to_string(),
        serde_json::to_value(chrono::Utc::now()).expect("Could not encode time"),
    );
    m.insert("id".to_string(), Value::from(1u32));
    m.insert("name".to_string(), Value::from(name));
    m.insert("is_pretty".to_string(), Value::from(is_pretty));
    Value::Object(m)
}

fn build_foo() -> Value {
    test_struct("Foo", true)
}

fn build_bar() -> Value {
    test_struct("Bar", false)
}

fn build_struct_with_items() -> Value {
    let mut map = serde_json::Map::new();
    map.insert("Foo".to_string(), build_foo());
    let mut m = serde_json::Map::new();
    m.insert("map".to_string(), Value::Object(map));
    m.insert("set".to_string(), Value::Array(vec![build_bar()]));
    Value::Object(m)
}

fn build_struct_without_items() -> Value {
    let mut m = serde_json::Map::new();
    m.insert("map".to_string(), Value::Object(serde_json::Map::new()));
    m.insert("set".to_string(), Value::Array(vec![]));
    Value::Object(m)
}

fn round_trip(good_record: Value, bad_record: Value, format: &str) {
    let handlers = FormatHandlerRegistry::new();
    let string = build_string_from_record_with_extension(&good_record, format, &handlers)
        .expect("Could not serialize record");
    let candidate =
        build_record_from_string(&string, &handlers).expect("Could not deserialize record");
    assert_eq!(good_record, candidate.clone());

    let duplicate = build_record_from_string_with_extension(&string, format, &handlers)
        .expect("Could not deserialize record");
    assert_eq!(duplicate, candidate.clone());

    assert_ne!(bad_record, candidate);
}

#[test]
fn formats_struct_can_be_stored_in_toml() {
    round_trip(build_foo(), build_bar(), "toml");
}

#[test]
fn formats_struct_can_be_stored_in_json() {
    round_trip(build_foo(), build_bar(), "json");
}

#[test]
fn formats_nested_struct_without_items_can_be_stored_in_toml() {
    round_trip(build_struct_without_items(), build_struct_with_items(), "toml");
}

#[test]
fn formats_nested_struct_without_items_can_be_stored_in_json() {
    round_trip(build_struct_without_items(), build_struct_with_items(), "json");
}

#[test]
fn formats_nested_struct_with_items_can_be_stored_in_toml() {
    round_trip(build_struct_with_items(), build_struct_without_items(), "toml");
}

#[test]
fn formats_nested_struct_with_items_can_be_stored_in_json() {
    round_trip(build_struct_with_items(), build_struct_without_items(), "json");
}

#[test]
fn json_name_selects_the_json_codec() {
    let handlers = FormatHandlerRegistry::new();
    assert_eq!(
        handlers.get_handler_for_format("json"),
        Some(&KnownFormatHandler::Json(JsonHandler {}))
    );
    assert_eq!(
        handlers.get_handler_for_format("toml"),
        Some(&KnownFormatHandler::Toml(TomlHandler {}))
    );
    assert_eq!(handlers.get_handler_for_format("yaml"), None);
    assert_eq!(handlers.get_handler_for_format(""), None);
}

#[test]
fn json_extension_writes_json_text() {
    let handlers = FormatHandlerRegistry::new();
    let mut m = serde_json::Map::new();
    m.insert("id".to_string(), Value::from(7));
    let text = build_string_from_record_with_extension(&Value::Object(m), "json", &handlers)
        .expect("Could not serialize record");
    assert_eq!(text, "{\"id\":7}");
}

#[test]
fn toml_extension_writes_toml_text() {
    let handlers = FormatHandlerRegistry::new();
    let mut m = serde_json::Map::new();
    m.insert("id".to_string(), Value::from(7));
    let text = build_string_from_record_with_extension(&Value::Object(m), "toml", &handlers)
        .expect("Could not serialize record");
    assert_eq!(text, "id = 7\n");
}

#[test]
fn handlers_are_probed_toml_first() {
    let handlers = FormatHandlerRegistry::default();
    let order = handlers.get_handlers();
    assert_eq!(order.len(), 2);
    assert_eq!(*order[0], KnownFormatHandler::Toml(TomlHandler {}));
    assert_eq!(*order[1], KnownFormatHandler::Json(JsonHandler {}));
}

#[test]
fn probing_reads_json_text() {
    let handlers = FormatHandlerRegistry::new();
    let record = build_record_from_string("{\"a\":[1,2]}", &handlers).expect("Could not parse");
    assert_eq!(record["a"][1], Value::from(2));
}

#[test]
fn probing_reads_toml_text() {
    let handlers = FormatHandlerRegistry::new();
    let record = build_record_from_string("a = \"b\"\n", &handlers).expect("Could not parse");
    assert_eq!(record["a"], Value::from("b"));
}

#[test]
fn text_valid_in_both_grammars_is_read_by_toml() {
    // The empty text is an empty TOML table and no JSON value.
    let handlers = FormatHandlerRegistry::new();
    let record = build_record_from_string("", &handlers).expect("Could not parse");
    assert_eq!(record, Value::Object(serde_json::Map::new()));
}

#[test]
fn probing_fails_when_no_codec_parses() {
    let handlers = FormatHandlerRegistry::new();
    assert_eq!(
        build_record_from_string("{ not = valid", &handlers),
        Err(HandlerError::NoMatchingFormat)
    );
}

#[test]
fn unknown_extension_is_unsupported_format() {
    let handlers = FormatHandlerRegistry::new();
    assert_eq!(
        build_string_from_record_with_extension(&build_foo(), "yaml", &handlers),
        Err(HandlerError::UnsupportedFormat("yaml".to_string()))
    );
    assert_eq!(
        build_record_from_string_with_extension("a = 1", "txt", &handlers),
        Err(HandlerError::UnsupportedFormat("txt".to_string()))
    );
}

#[test]
fn invalid_text_for_named_codec_is_parse_error() {
    let handlers = FormatHandlerRegistry::new();
    assert_eq!(
        build_record_from_string_with_extension("a = 1", "json", &handlers),
        Err(HandlerError::Parse)
    );
    assert_eq!(TomlHandler {}.from_str("{\"a\": 1}"), Err(HandlerError::Parse));
}

#[test]
fn unrepresentable_record_is_serialize_error() {
    let handlers = FormatHandlerRegistry::new();
    assert_eq!(
        build_string_from_record_with_extension(&Value::Null, "toml", &handlers),
        Err(HandlerError::Serialize)
    );
    assert_eq!(JsonHandler {}.to_string(&Value::Null), Ok("null".to_string()));
}
