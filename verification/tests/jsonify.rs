use std::collections::BTreeMap;

use json_responder::{jsonify, PencilError};

fn record() -> serde_json::Value {
    let mut fields = serde_json::Map::new();
    fields.insert(String::from("id"), serde_json::Value::from(1u8));
    fields.insert(String::from("name"), serde_json::Value::from("admin"));
    serde_json::Value::Object(fields)
}

fn rejected_value() -> BTreeMap<(u8, u8), u8> {
    let mut keyed_by_tuple: BTreeMap<(u8, u8), u8> = BTreeMap::new();
    keyed_by_tuple.insert((1, 2), 3);
    keyed_by_tuple
}

#[test]
fn record_encodes_to_compact_json() {
    let response = jsonify(&record()).expect("a plain record must encode");
    assert_eq!(response.body, "{\"id\":1,\"name\":\"admin\"}");
    assert_eq!(response.content_type, "application/json");
    assert_eq!(response.status_code, 200);
}

#[test]
fn body_matches_the_encoder_output_exactly() {
    let values = vec![
        serde_json::Value::Null,
        serde_json::Value::from(true),
        serde_json::Value::from(-7i64),
        serde_json::Value::from("with \"quotes\" and \u{e9}"),
        serde_json::Value::Array(vec![serde_json::Value::from(1u8), record()]),
        record(),
    ];
    for value in values {
        let expected = serde_json::to_string(&value).expect("a Value always encodes");
        let response = jsonify(&value).expect("a Value always encodes");
        assert_eq!(response.body, expected);
        assert_eq!(response.content_type, "application/json");
    }
}

#[test]
fn empty_object_and_empty_string_encode() {
    let empty = serde_json::Value::Object(serde_json::Map::new());
    let response = jsonify(&empty).expect("an empty object must encode");
    assert_eq!(response.body, "{}");

    let response = jsonify(&String::new()).expect("an empty string must encode");
    assert_eq!(response.body, "\"\"");
    assert_eq!(response.content_type, "application/json");
}

#[test]
fn two_calls_on_the_same_value_agree() {
    let value = record();
    let first = jsonify(&value).expect("a plain record must encode");
    let second = jsonify(&value).expect("a plain record must encode");
    assert_eq!(first.body, second.body);
    assert_eq!(first.content_type, second.content_type);
    assert_eq!(first.status_code, second.status_code);
}

#[test]
fn only_the_body_differs_between_values() {
    let first = jsonify(&record()).expect("a plain record must encode");
    let second = jsonify(&serde_json::Value::from(true)).expect("a bool must encode");
    assert_ne!(first.body, second.body);
    assert_eq!(first.content_type, second.content_type);
    assert_eq!(first.status_code, second.status_code);
}

#[test]
fn tuple_keyed_map_is_rejected_as_a_user_error() {
    let error = match jsonify(&rejected_value()) {
        Ok(_) => panic!("a map keyed by a tuple must be rejected"),
        Err(error) => error,
    };
    match error {
        PencilError::PenUserError(user_error) => {
            assert!(user_error.desc.starts_with("Json encoder error: "));
            assert_eq!(user_error.desc, "Json encoder error: key must be a string");
        }
        PencilError::PenHTTPError(_) => panic!("an encoder failure is user-caused"),
    }
}
