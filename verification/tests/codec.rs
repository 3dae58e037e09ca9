use datastorers::Bytes;
use datastorers::DatastoreDeserializeError;
use datastorers::DatastoreParseError;
use datastorers::DatastoreProperties;
use datastorers::DatastoreSerializeError;
use datastorers::DatastoreValue;
use datastorers::DatastorersError;
use datastorers::DoubleBits;
use datastorers::Timestamp;
use datastorers::deserialize::Deserialize;
use datastorers::serialize::Serialize;

#[test]
fn round_trip_string() {
    let value = "hello world".to_string();
    let stored = value.clone().serialize().unwrap().unwrap();
    let back = String::deserialize(stored).unwrap();
    assert_eq!(value, back);
}

#[test]
fn round_trip_integer() {
    let stored = 12345i64.serialize().unwrap().unwrap();
    assert_eq!(DatastoreValue::IntegerValue(12345), stored);
    let back = i64::deserialize(stored).unwrap();
    assert_eq!(12345, back);
}

#[test]
fn round_trip_boolean() {
    let stored = true.serialize().unwrap().unwrap();
    assert_eq!(DatastoreValue::BooleanValue(true), stored);
    let back = bool::deserialize(stored).unwrap();
    assert_eq!(true, back);
}

#[test]
fn round_trip_double_bits() {
    let value = DoubleBits::from_bits(987.12f64.to_bits());
    let stored = value.serialize().unwrap().unwrap();
    let back = DoubleBits::deserialize(stored).unwrap();
    assert_eq!(987.12, f64::from_bits(back.bits));
}

#[test]
fn round_trip_bytes() {
    let value = Bytes(vec![104, 101, 108, 108, 111]);
    let stored = value.serialize().unwrap().unwrap();
    // The blob rides the wire as standard base64 text.
    assert_eq!(DatastoreValue::BlobValue("aGVsbG8=".to_string()), stored);
    let back = Bytes::deserialize(stored).unwrap();
    assert_eq!(vec![104, 101, 108, 108, 111], back.0);
}

#[test]
fn round_trip_timestamp() {
    let value = Timestamp::from_millis(1609592019392);
    let stored = value.clone().serialize().unwrap().unwrap();
    // The instant rides the wire as RFC 3339 text at millisecond precision.
    assert_eq!(DatastoreValue::TimestampValue("2021-01-02T12:53:39.392Z".to_string()), stored);
    let back = Timestamp::deserialize(stored).unwrap();
    assert_eq!(value, back);
}

#[test]
fn round_trip_vec_of_strings() {
    let value = vec!["a".to_string(), "b".to_string(), "c".to_string()];
    let stored = value.clone().serialize().unwrap().unwrap();
    let back = Vec::<String>::deserialize(stored).unwrap();
    assert_eq!(value, back);
}

#[test]
fn round_trip_option_present() {
    let value = Some(42i64);
    let stored = value.serialize().unwrap();
    assert_eq!(Some(DatastoreValue::IntegerValue(42)), stored);
    let back = Option::<i64>::deserialize(stored.unwrap()).unwrap();
    assert_eq!(Some(42), back);
}

#[test]
fn absent_option_serializes_to_nothing() {
    let value: Option<i64> = None;
    let stored = value.serialize().unwrap();
    assert_eq!(None, stored);
}

#[test]
fn round_trip_through_property_map() {
    let mut properties = DatastoreProperties::new();
    properties.set("name", "x".to_string()).unwrap();
    properties.set("n", 5i64).unwrap();
    properties.set("absent", None::<i64>).unwrap();

    let name: String = properties.get("name").unwrap();
    let n: i64 = properties.get("n").unwrap();
    let absent: Option<i64> = properties.get("absent").unwrap();
    assert_eq!("x", name);
    assert_eq!(5, n);
    assert_eq!(None, absent);
}

#[test]
fn missing_property_is_none_for_optional() {
    let mut properties = DatastoreProperties::new();
    let value: Option<String> = properties.get("never_set").unwrap();
    assert_eq!(None, value);
}

#[test]
fn missing_property_is_error_for_required() {
    let mut properties = DatastoreProperties::new();
    let result: Result<String, DatastorersError> = properties.get("never_set");
    match result {
        Err(DatastorersError::ParseError(DatastoreParseError::NoSuchValue)) => (),
        other => panic!("expected a missing-value error, got {:?}", other),
    }
}

#[test]
fn missing_vector_is_error_but_empty_list_is_empty_vector() {
    // An absent list property is an error ...
    let mut properties = DatastoreProperties::new();
    let result: Result<Vec<String>, DatastorersError> = properties.get("never_set");
    match result {
        Err(DatastorersError::ParseError(DatastoreParseError::NoSuchValue)) => (),
        other => panic!("expected a missing-value error, got {:?}", other),
    }

    // ... but a present, empty list is an empty vector.
    let empty: Vec<String> = Vec::new();
    let mut properties = DatastoreProperties::new();
    properties.set("empty_list", empty).unwrap();
    let back: Vec<String> = properties.get("empty_list").unwrap();
    assert_eq!(Vec::<String>::new(), back);
}

#[test]
fn present_value_with_wrong_tag_is_no_such_value() {
    let result = String::deserialize(DatastoreValue::IntegerValue(5));
    assert_eq!(Err(DatastoreDeserializeError::NoSuchValue), result);
    // A wrong (not just absent) tag propagates through an optional reading.
    let result = Option::<String>::deserialize(DatastoreValue::IntegerValue(5));
    assert_eq!(Ok(None), result);
}

#[test]
fn malformed_base64_is_decode_error() {
    let result = Bytes::deserialize(DatastoreValue::BlobValue("!!!not base64!!!".to_string()));
    assert_eq!(Err(DatastoreDeserializeError::Base64DecodeError), result);
}

#[test]
fn malformed_timestamp_is_parse_error() {
    let result =
        Timestamp::deserialize(DatastoreValue::TimestampValue("yesterday at noon".to_string()));
    assert_eq!(Err(DatastoreDeserializeError::ParseError), result);
}

#[test]
fn unrepresentable_instant_is_date_time_error() {
    let result = Timestamp::from_millis(i64::MAX).serialize();
    assert_eq!(Err(DatastoreSerializeError::DateTimeError), result);
}

#[test]
fn vector_member_error_propagates() {
    let stored = DatastoreValue::ArrayValue(vec![
        DatastoreValue::StringValue("fine".to_string()),
        DatastoreValue::IntegerValue(5),
    ]);
    let result = Vec::<String>::deserialize(stored);
    assert_eq!(Err(DatastoreDeserializeError::NoSuchValue), result);
}

#[test]
fn timestamp_rendering_discards_offset() {
    // Parsing applies the offset; rendering is always UTC with a Z suffix.
    let parsed =
        Timestamp::deserialize(DatastoreValue::TimestampValue("2021-01-02T14:53:39.392+02:00".to_string()))
            .unwrap();
    let rendered = parsed.serialize().unwrap().unwrap();
    assert_eq!(DatastoreValue::TimestampValue("2021-01-02T12:53:39.392Z".to_string()), rendered);
}

#[test]
fn vanishing_members_shrink_a_list() {
    // An absent optional inside a list is omitted from the stored list, so
    // such a list does not round-trip unchanged: round trips are only owed
    // for values no member of which vanishes.
    let value: Vec<Option<i64>> = vec![Some(1), None, Some(3)];
    let stored = value.serialize().unwrap().unwrap();
    let back = Vec::<Option<i64>>::deserialize(stored).unwrap();
    assert_eq!(vec![Some(1), Some(3)], back);
}
