use iron_json_response::{JsonResponse, JsonValue, SerializationError};
use rustc_serialize::json::Json;
use serde_json::Value;

#[test]
fn serde_values_serialize_to_compact_json() {
    assert_eq!(JsonValue::Serde(Value::Null).serialize(), Ok("null".to_string()));
    assert_eq!(JsonValue::Serde(Value::Bool(false)).serialize(), Ok("false".to_string()));
    assert_eq!(JsonValue::Serde(Value::from(-12)).serialize(), Ok("-12".to_string()));
    assert_eq!(
        JsonValue::Serde(Value::from("a \"quoted\" word")).serialize(),
        Ok("\"a \\\"quoted\\\" word\"".to_string())
    );
    assert_eq!(
        JsonValue::Serde(Value::Array(vec![Value::from(1), Value::from("two"), Value::Null]))
            .serialize(),
        Ok("[1,\"two\",null]".to_string())
    );
}

#[test]
fn serde_value_built_from_a_serializable_type() {
    let value = match serde_json::to_value(vec![("a", 1), ("b", 2)]) {
        Ok(value) => value,
        Err(_) => panic!("a vector of pairs is serializable"),
    };
    assert_eq!(JsonValue::Serde(value).serialize(), Ok("[[\"a\",1],[\"b\",2]]".to_string()));
}

#[test]
fn rustc_serialize_values_serialize_to_compact_json() {
    assert_eq!(JsonValue::RustcSerialize(Json::Null).serialize(), Ok("null".to_string()));
    assert_eq!(JsonValue::RustcSerialize(Json::I64(-5)).serialize(), Ok("-5".to_string()));
    assert_eq!(
        JsonValue::RustcSerialize(Json::String("tab\there".to_string())).serialize(),
        Ok("\"tab\\there\"".to_string())
    );
    assert_eq!(
        JsonValue::RustcSerialize(Json::Array(vec![Json::Boolean(true), Json::U64(2)]))
            .serialize(),
        Ok("[true,2]".to_string())
    );
}

#[test]
fn the_two_libraries_are_kept_apart() {
    let serde = JsonValue::Serde(Value::from("x"));
    let rustc = JsonValue::RustcSerialize(Json::String("x".to_string()));
    assert_ne!(serde, rustc);
    assert_eq!(serde.serialize(), rustc.serialize());
}

#[test]
fn serialization_errors_name_their_library() {
    assert_ne!(SerializationError::Serde, SerializationError::RustcSerialize);
    let failed: Result<String, SerializationError> = Err(SerializationError::Serde);
    assert_eq!(failed, Err(SerializationError::Serde));
}

#[test]
fn holder_keeps_value_and_callback() {
    let plain = JsonResponse::json(JsonValue::Serde(Value::from(1)));
    assert_eq!(plain.value(), &JsonValue::Serde(Value::from(1)));
    assert_eq!(plain.callback(), &None);

    let wrapped = JsonResponse::jsonp(JsonValue::Serde(Value::from(1)), "cb".to_string());
    assert_eq!(wrapped.value(), &JsonValue::Serde(Value::from(1)));
    assert_eq!(wrapped.callback(), &Some("cb".to_string()));

    let made = JsonResponse::new(JsonValue::Serde(Value::from(1)), Some("cb".to_string()));
    assert_eq!(made, wrapped);
    assert_ne!(made, plain);
}

#[test]
fn holder_is_a_snapshot_of_the_value() {
    let mut source = vec![1, 2];
    let value = match serde_json::to_value(&source) {
        Ok(value) => value,
        Err(_) => panic!("a vector of numbers is serializable"),
    };
    let holder = JsonResponse::json(JsonValue::Serde(value));
    source.push(3);
    assert_eq!(holder.value().serialize(), Ok("[1,2]".to_string()));
}

#[test]
fn clone_equals_what_it_was_made_from() {
    let holder = JsonResponse::jsonp(
        JsonValue::RustcSerialize(Json::Array(vec![Json::I64(1)])),
        "cb".to_string(),
    );
    assert_eq!(holder.clone(), holder);
    assert_eq!(holder.value().clone(), JsonValue::RustcSerialize(Json::Array(vec![Json::I64(1)])));
}
