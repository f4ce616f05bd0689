use fortuna_miner::json::{read_bool_at, read_str_at, read_u64_at, JsonNumber, JsonValue};

fn sample() -> Option<JsonValue> {
    Some(JsonValue::Array(vec![
        JsonValue::String("job".to_string()),
        JsonValue::Number(JsonNumber::PosInt(42)),
        JsonValue::Bool(true),
        JsonValue::Number(JsonNumber::NegInt(-1)),
        JsonValue::Number(JsonNumber::Float("0.5".to_string())),
    ]))
}

#[test]
fn array_elements_read_by_kind() {
    let v = sample();
    assert_eq!(read_str_at(&v, 0).as_deref(), Some("job"));
    assert_eq!(read_u64_at(&v, 1), Some(42));
    assert_eq!(read_bool_at(&v, 2), Some(true));
}

#[test]
fn wrong_kind_or_position_reads_nothing() {
    let v = sample();
    assert_eq!(read_str_at(&v, 1), None);
    assert_eq!(read_u64_at(&v, 3), None);
    assert_eq!(read_u64_at(&v, 4), None);
    assert_eq!(read_bool_at(&v, 9), None);
    assert_eq!(read_str_at(&None, 0), None);
    let not_array = Some(JsonValue::String("x".to_string()));
    assert_eq!(read_str_at(&not_array, 0), None);
}

#[test]
fn value_accessors() {
    let v = JsonValue::Array(vec![JsonValue::Null]);
    assert_eq!(v.at(0), Some(&JsonValue::Null));
    assert_eq!(v.at(1), None);
    assert_eq!(JsonValue::String("s".to_string()).as_str(), Some("s"));
    assert_eq!(JsonValue::Bool(false).as_bool(), Some(false));
    assert_eq!(JsonValue::Null.as_u64(), None);
}
