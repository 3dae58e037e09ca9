use datastorers::DatastoreEntity;
use datastorers::DatastoreProperties;
use datastorers::DatastoreValue;
use datastorers::DatastorersError;
use datastorers::DoubleBits;
use datastorers::IdentifierId;
use datastorers::Key;
use datastorers::KeyPathElement;
use datastorers::Timestamp;
use datastorers::deserialize::Deserialize;
use datastorers::serialize::Serialize;

#[derive(Debug)]
pub struct Thing {
    pub key_is_good: Option<Key>,
    pub prop_string: String,
    pub prop_integer: i64,
    pub prop_double: f64,
    pub prop_boolean: bool,
    pub prop_str_array: Vec<String>,
    pub prop_date: Timestamp,
}

impl Thing {
    fn kind(&self) -> &'static str {
        "thingy"
    }

    fn id(&self) -> &Option<Key> {
        &self.key_is_good
    }

    fn into_entity(self) -> Result<DatastoreEntity, DatastorersError> {
        let mut properties = DatastoreProperties::new();
        properties.set("prop_string", self.prop_string)?;
        properties.set("prop_integer", self.prop_integer)?;
        properties.set("prop_double", DoubleBits::from_bits(self.prop_double.to_bits()))?;
        properties.set("prop_boolean", self.prop_boolean)?;
        properties.set("prop_str_array", self.prop_str_array)?;
        properties.set("prop_date", self.prop_date)?;
        Ok(DatastoreEntity::from(self.key_is_good, properties, None))
    }

    fn from_entity(entity: DatastoreEntity) -> Result<Thing, DatastorersError> {
        let key = entity.key();
        let mut properties = entity.into_properties();
        Ok(Thing {
            key_is_good: key,
            prop_string: properties.get("prop_string")?,
            prop_integer: properties.get("prop_integer")?,
            prop_double: f64::from_bits(properties.get::<DoubleBits>("prop_double")?.bits),
            prop_boolean: properties.get("prop_boolean")?,
            prop_str_array: properties.get("prop_str_array")?,
            prop_date: properties.get("prop_date")?,
        })
    }
}

#[derive(Debug)]
pub struct VersionedThing {
    pub key_is_good: Option<Key>,
    pub thing_version: Option<i64>,
    pub prop_string: String,
}

impl VersionedThing {
    fn into_entity(self) -> Result<DatastoreEntity, DatastorersError> {
        let mut properties = DatastoreProperties::new();
        properties.set("prop_string", self.prop_string)?;
        Ok(DatastoreEntity::from(self.key_is_good, properties, self.thing_version))
    }

    fn from_entity(entity: DatastoreEntity) -> Result<VersionedThing, DatastorersError> {
        let key = entity.key();
        let version = entity.version();
        let mut properties = entity.into_properties();
        Ok(VersionedThing {
            key_is_good: key,
            thing_version: version,
            prop_string: properties.get("prop_string")?,
        })
    }
}

fn datastore_timestamp_now() -> Timestamp {
    let now = Timestamp::from_millis(chrono::Utc::now().timestamp_millis());
    // Make `now` into a store-accepted format string wrapped in a DatastoreValue
    let value = now.serialize().unwrap().unwrap();
    // Convert the DatastoreValue back to a Timestamp
    Timestamp::deserialize(value).unwrap()
}

#[test]
fn test_version() -> Result<(), DatastorersError> {
    let test_version = 5345345;
    let versioned_thing = VersionedThing {
        key_is_good: None,
        thing_version: Some(test_version),
        prop_string: "StrStr".to_string(),
    };

    // From VersionedThing to DatastoreEntity, version shall be included in entity
    let entity: DatastoreEntity = versioned_thing.into_entity()?;
    assert_eq!(Some(test_version), entity.version());

    // And back again
    let thing_is_back: VersionedThing = VersionedThing::from_entity(entity).unwrap();
    assert_eq!(Some(test_version), thing_is_back.thing_version);
    assert_eq!("StrStr", thing_is_back.prop_string);
    Ok(())
}

#[test]
fn into_datastore_entity_and_back() -> Result<(), DatastorersError> {
    let now = datastore_timestamp_now();
    let thing = Thing {
        key_is_good: None,
        prop_string: "StrStr".to_string(),
        prop_integer: 777,
        prop_double: 987.12,
        prop_boolean: false,
        prop_str_array: vec![String::from("Str"), String::from("Array")],
        prop_date: now,
    };

    assert_eq!("thingy", thing.kind());
    assert_eq!(&None, thing.id());

    let prop_string = thing.prop_string.clone();
    let prop_integer = thing.prop_integer;
    let prop_double = thing.prop_double;
    let prop_boolean = thing.prop_boolean;
    let prop_str_array = thing.prop_str_array.clone();
    let prop_date = thing.prop_date;

    let entity: DatastoreEntity = thing.into_entity()?;

    let thing_is_back: Thing = Thing::from_entity(entity).unwrap();

    assert_eq!(prop_string, thing_is_back.prop_string);
    assert_eq!("StrStr", thing_is_back.prop_string);
    assert_eq!(prop_integer, thing_is_back.prop_integer);
    assert_eq!(777, thing_is_back.prop_integer);
    assert_eq!(prop_double.to_bits(), thing_is_back.prop_double.to_bits());
    assert_eq!(987.12f64.to_bits(), thing_is_back.prop_double.to_bits());
    assert_eq!(prop_boolean, thing_is_back.prop_boolean);
    assert_eq!(false, thing_is_back.prop_boolean);
    assert_eq!(vec![String::from("Str"), String::from("Array")], prop_str_array);
    assert_eq!(prop_str_array, thing_is_back.prop_str_array);
    assert_eq!(prop_date, thing_is_back.prop_date);
    assert_eq!(now, thing_is_back.prop_date);
    Ok(())
}

#[test]
fn main_into_datastore_entity_and_back() {
    let mut properties = DatastoreProperties::new();
    properties.set("prop_string", "StrStr".to_string()).unwrap();
    properties.set("prop_integer", 777i64).unwrap();
    properties.set("prop_boolean", false).unwrap();
    let entity = DatastoreEntity::from(None, properties, None);

    let mut back = entity.into_properties();
    let prop_string: String = back.get("prop_string").unwrap();
    let prop_integer: i64 = back.get("prop_integer").unwrap();
    let prop_boolean: bool = back.get("prop_boolean").unwrap();

    assert_eq!("StrStr", prop_string);
    assert_eq!(777, prop_integer);
    assert_eq!(false, prop_boolean);
}

#[test]
fn timestap_deserialize_serialize() -> Result<(), DatastorersError> {
    let date_str = "2021-01-02T12:53:39.392Z";
    let value_to_deserialize = DatastoreValue::TimestampValue(date_str.to_string());
    let date_time = Timestamp::deserialize(value_to_deserialize)
        .map_err(DatastorersError::DatastoreDeserializeError)?;
    let serialized = date_time.serialize().map_err(DatastorersError::DatastoreSerializeError)?;
    match serialized {
        Some(DatastoreValue::TimestampValue(serialized_value)) => {
            assert_eq!(date_str, serialized_value);
        },
        other => panic!("expected a timestamp value, got {:?}", other),
    }
    Ok(())
}

#[test]
fn entity_key_accessors() {
    let mut entity = DatastoreEntity::from(None, DatastoreProperties::new(), None);
    assert!(!entity.has_key());
    assert_eq!(None, entity.key());
    let key = IdentifierId::id("Test", Some(7), KeyPathElement::end()).get_key();
    entity.set_key(Some(key.clone()));
    assert!(entity.has_key());
    assert_eq!(Some(key), entity.key());
}
