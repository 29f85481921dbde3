use serde_json::Value;
use url_handler::{
    file_address, plan_for_url, plan_record_push, record_from_fetched, Action, Address,
    FileProtocolHandler, FormatHandlerRegistry, Operation, ProtocolHandlerRegistry,
};

#[test]
fn listing_keeps_created_entry_and_not_absent_sibling() {
    let handler = FileProtocolHandler {};
    let good_url = file_address("/tmp/test_parent_container/good_record").expect("Could not build url");
    let bad_url = file_address("/tmp/test_parent_container/bad_record").expect("Could not build url");
    let entries = vec!["/tmp/test_parent_container/good_record".to_string()];
    let candidate = handler.list_urls_in_url_container(&entries);
    assert!(candidate.contains(&good_url));
    assert!(!candidate.contains(&bad_url));
}

#[test]
fn container_entries_that_are_no_address_are_skipped() {
    let handler = FileProtocolHandler {};
    let entries = vec!["/c/good_record".to_string(), "relative".to_string(), "/c/other".to_string()];
    let found = handler.list_urls_in_url_container(&entries);
    let texts: Vec<&str> = found.iter().map(|a| a.as_str()).collect();
    assert_eq!(texts, vec!["file:///c/good_record", "file:///c/other"]);
}

fn test_struct(name: &str, is_pretty: bool) -> Value {
    let mut m = serde_json::Map::new();
    m.insert(
        "last_updated".to_string(),
        serde_json::to_value(chrono::Utc::now()).expect("Could not encode time"),
    );
    m.insert("id".to_string(), Value::from(1u32));
    m.insert("name".to_string(), Value::from(name));
    m.insert("is_pretty".to_string(), Value::from(is_pretty));
    Value::Object(m)
}

fn nested(with_items: bool) -> Value {
    let mut map = serde_json::Map::new();
    let mut set = Vec::new();
    if with_items {
        map.insert("Foo".to_string(), test_struct("Foo", true));
        set.push(test_struct("Bar", false));
    }
    let mut m = serde_json::Map::new();
    m.insert("map".to_string(), Value::Object(map));
    m.insert("set".to_string(), Value::Array(set));
    Value::Object(m)
}

/// Stores a record at a file address and loads it back, the written text standing in for the
/// file's content.
fn store_and_load(file_name: &str, good_record: Value, bad_record: Value) {
    let mut text = "/tmp/store_and_load/".to_string();
    text.push_str(file_name);
    let url: Address = file_address(&text).expect("Could not build url");
    let format_handlers = FormatHandlerRegistry::default();
    let protocol_handlers = ProtocolHandlerRegistry::default();

    let written = match plan_record_push(&url, &good_record, &protocol_handlers, &format_handlers)
        .expect("Could not push record")
    {
        Action::WriteFile(path, contents) => {
            assert_eq!(path, text);
            contents
        }
        other => panic!("unexpected {:?}", other),
    };

    let fetch = plan_for_url(&url, Operation::Fetch, &protocol_handlers).expect("Could not parse record");
    assert_eq!(fetch, Action::ReadFile(text.clone()));
    let candidate =
        record_from_fetched(Some(written), &format_handlers).expect("Could not parse record");

    assert_eq!(good_record, candidate.clone());
    assert_ne!(bad_record, candidate);
}

#[test]
fn url_handler_struct_can_be_stored_in_toml() {
    store_and_load("test.toml", test_struct("Foo", true), test_struct("Bar", false));
}

#[test]
fn url_handler_struct_can_be_stored_in_json() {
    store_and_load("test.json", test_struct("Foo", true), test_struct("Bar", false));
}

#[test]
fn url_handler_nested_struct_without_items_can_be_stored_in_toml() {
    store_and_load("test.toml", nested(false), nested(true));
}

#[test]
fn url_handler_nested_struct_without_items_can_be_stored_in_json() {
    store_and_load("test.json", nested(false), nested(true));
}

#[test]
fn url_handler_nested_struct_with_items_can_be_stored_in_json() {
    store_and_load("test.json", nested(true), nested(false));
}

#[test]
fn url_handler_nested_struct_with_items_can_be_stored_in_toml() {
    store_and_load("test.toml", nested(true), nested(false));
}

#[test]
fn toml_text_is_stored_as_toml_and_json_text_as_json() {
    let protocol_handlers = ProtocolHandlerRegistry::default();
    let format_handlers = FormatHandlerRegistry::default();
    let record = test_struct("Foo", true);
    let toml_url = file_address("/tmp/r.toml").expect("Could not build url");
    let json_url = file_address("/tmp/r.json").expect("Could not build url");
    let Ok(Action::WriteFile(_, as_toml)) =
        plan_record_push(&toml_url, &record, &protocol_handlers, &format_handlers)
    else {
        panic!("no write planned");
    };
    let Ok(Action::WriteFile(_, as_json)) =
        plan_record_push(&json_url, &record, &protocol_handlers, &format_handlers)
    else {
        panic!("no write planned");
    };
    assert!(as_toml.contains("name = \"Foo\""));
    assert!(as_json.contains("\"name\":\"Foo\""));
}
