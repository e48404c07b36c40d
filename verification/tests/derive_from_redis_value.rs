use std::fmt;
use serde::de::VariantAccess;
use serde::ser::SerializeStruct;

use redis_codec::{from_redis_value, ErrorKind, RedisValue};

#[derive(Debug, PartialEq)]
enum Address {
    Street(String),
    Road(String),
}

#[derive(Debug, PartialEq)]
struct User {
    id: u32,
    name: String,
    addresses: Vec<Address>,
}

impl serde::Serialize for Address {
    fn serialize<S: serde::Serializer>(&self, serializer: S) -> Result<S::Ok, S::Error> {
        match self {
            Address::Street(s) => serializer.serialize_newtype_variant("Address", 0, "Street", s),
            Address::Road(s) => serializer.serialize_newtype_variant("Address", 1, "Road", s),
        }
    }
}

struct AddressVisitor;

impl<'de> serde::de::Visitor<'de> for AddressVisitor {
    type Value = Address;

    fn expecting(&self, f: &mut fmt::Formatter) -> fmt::Result {
        f.write_str("enum Address")
    }

    fn visit_enum<A: serde::de::EnumAccess<'de>>(self, data: A) -> Result<Address, A::Error> {
        let (tag, variant) = data.variant::<String>()?;
        match tag.as_str() {
            "Street" => Ok(Address::Street(variant.newtype_variant::<String>()?)),
            "Road" => Ok(Address::Road(variant.newtype_variant::<String>()?)),
            other => Err(serde::de::Error::unknown_variant(other, &["Street", "Road"])),
        }
    }
}

impl<'de> serde::Deserialize<'de> for Address {
    fn deserialize<D: serde::Deserializer<'de>>(deserializer: D) -> Result<Address, D::Error> {
        deserializer.deserialize_enum("Address", &["Street", "Road"], AddressVisitor)
    }
}

struct UserVisitor;

impl<'de> serde::de::Visitor<'de> for UserVisitor {
    type Value = User;

    fn expecting(&self, f: &mut fmt::Formatter) -> fmt::Result {
        f.write_str("struct User")
    }

    fn visit_map<A: serde::de::MapAccess<'de>>(self, mut map: A) -> Result<User, A::Error> {
        let mut id: Option<u32> = None;
        let mut name: Option<String> = None;
        let mut addresses: Option<Vec<Address>> = None;
        while let Some(key) = map.next_key::<String>()? {
            match key.as_str() {
                "id" => id = Some(map.next_value()?),
                "name" => name = Some(map.next_value()?),
                "addresses" => addresses = Some(map.next_value()?),
                _ => {
                    let _ = map.next_value::<serde::de::IgnoredAny>()?;
                }
            }
        }
        Ok(User {
            id: id.ok_or_else(|| serde::de::Error::missing_field("id"))?,
            name: name.ok_or_else(|| serde::de::Error::missing_field("name"))?,
            addresses: addresses.ok_or_else(|| serde::de::Error::missing_field("addresses"))?,
        })
    }
}

impl<'de> serde::Deserialize<'de> for User {
    fn deserialize<D: serde::Deserializer<'de>>(deserializer: D) -> Result<User, D::Error> {
        deserializer.deserialize_struct("User", &["id", "name", "addresses"], UserVisitor)
    }
}

impl serde::Serialize for User {
    fn serialize<S: serde::Serializer>(&self, serializer: S) -> Result<S::Ok, S::Error> {
        let mut state = serializer.serialize_struct("User", 3)?;
        state.serialize_field("id", &self.id)?;
        state.serialize_field("name", &self.name)?;
        state.serialize_field("addresses", &self.addresses)?;
        state.end()
    }
}

impl redis_codec::RedisCodec for User {
    // The ghost members exist only for verification; compiled code never
    // calls them.
    fn spec_parse(_text: vstd::seq::Seq<char>) -> Option<User> {
        unreachable!()
    }

    fn spec_render(_v: User) -> vstd::seq::Seq<char> {
        unreachable!()
    }

    fn spec_uses_default_serializer() -> bool {
        unreachable!()
    }

    fn spec_target_name() -> vstd::seq::Seq<char> {
        unreachable!()
    }

    fn spec_serializer_name() -> vstd::seq::Seq<char> {
        unreachable!()
    }

    fn parse_text(text: &str) -> Option<User> {
        serde_json::from_str(text).ok()
    }

    fn render_text(&self) -> String {
        serde_json::to_string(self).expect("User serializes")
    }

    fn uses_default_serializer() -> bool {
        true
    }

    fn target_name() -> String {
        "User".to_string()
    }

    fn serializer_name() -> String {
        "serde_json".to_string()
    }
}

#[test]
pub fn it_should_implement_the_from_redis_value_trait() {
    let user = User {
        id: 1,
        name: "Ziggy".to_string(),
        addresses: vec![
            Address::Street("Downing".to_string()),
            Address::Road("Abbey".to_string()),
        ],
    };

    let val = RedisValue::BulkString("{\"id\":1,\"name\":\"Ziggy\",\"addresses\":[{\"Street\":\"Downing\"},{\"Road\":\"Abbey\"}]}".as_bytes().into());
    let result = from_redis_value::<User>(&val);
    assert_eq!(result, Ok(user));
}

#[test]
pub fn it_should_also_deserialize_if_the_input_is_in_brackets() {
    let user = User {
        id: 1,
        name: "Ziggy".to_string(),
        addresses: vec![
            Address::Street("Downing".to_string()),
            Address::Road("Abbey".to_string()),
        ],
    };

    let val = RedisValue::BulkString("[{\"id\":1,\"name\":\"Ziggy\",\"addresses\":[{\"Street\":\"Downing\"},{\"Road\":\"Abbey\"}]}]".as_bytes().into());
    let result = from_redis_value::<User>(&val);
    assert_eq!(result, Ok(user));
}

#[test]
pub fn derive_from_redis_value_it_should_fail_if_input_is_not_compatible_with_type() {
    let val = RedisValue::BulkString("{}".as_bytes().into());
    let result = from_redis_value::<User>(&val);
    if let Err(err) = result {
        assert_eq!(err.kind, ErrorKind::IncompatibleType);
        assert_eq!(err.message(), "Incompatible type - Response type not deserializable to User with serde_json. (response was bulk-string('\"{}\"'))".to_string());
    } else {
        panic!("Deserialization should fail.");
    }
}

#[test]
pub fn derive_from_redis_value_it_should_fail_if_input_is_not_valid_utf8() {
    let val = RedisValue::BulkString(vec![0, 159, 146, 150]); // Some invalid utf8
    let result = from_redis_value::<User>(&val);
    if let Err(err) = result {
        assert_eq!(err.kind, ErrorKind::InvalidEncoding);
        assert_eq!(err.message(), "Incompatible type - Response was not valid UTF-8 string. (response was binary-data([0, 159, 146, 150]))".to_string());
    } else {
        panic!("UTF-8 parsing should fail.");
    }
}

#[test]
pub fn derive_from_redis_value_it_should_fail_if_input_is_missing() {
    let val = RedisValue::Nil;
    let result = from_redis_value::<User>(&val);
    if let Err(err) = result {
        assert_eq!(err.kind, ErrorKind::IncompatibleType);
        assert_eq!(
            err.message(),
            "Incompatible type - Response type was not deserializable to User. (response was nil)"
                .to_string()
        );
    } else {
        panic!("UTF-8 parsing should fail.");
    }
}
