use std::fmt;
use serde::ser::SerializeStruct;

use redis_codec::{from_redis_value, to_redis_args, Json, RedisValue};

#[derive(Debug, PartialEq)]
struct Pair<K, V> {
    key: K,
    value: V,
}

struct PairVisitor;

impl<'de> serde::de::Visitor<'de> for PairVisitor {
    type Value = Pair<u32, String>;

    fn expecting(&self, f: &mut fmt::Formatter) -> fmt::Result {
        f.write_str("struct Pair")
    }

    fn visit_map<A: serde::de::MapAccess<'de>>(
        self,
        mut map: A,
    ) -> Result<Pair<u32, String>, A::Error> {
        let mut key: Option<u32> = None;
        let mut value: Option<String> = None;
        while let Some(field) = map.next_key::<String>()? {
            match field.as_str() {
                "key" => key = Some(map.next_value()?),
                "value" => value = Some(map.next_value()?),
                _ => {
                    let _ = map.next_value::<serde::de::IgnoredAny>()?;
                }
            }
        }
        Ok(Pair {
            key: key.ok_or_else(|| serde::de::Error::missing_field("key"))?,
            value: value.ok_or_else(|| serde::de::Error::missing_field("value"))?,
        })
    }
}

impl<'de> serde::Deserialize<'de> for Pair<u32, String> {
    fn deserialize<D: serde::Deserializer<'de>>(
        deserializer: D,
    ) -> Result<Pair<u32, String>, D::Error> {
        deserializer.deserialize_struct("Pair", &["key", "value"], PairVisitor)
    }
}

impl serde::Serialize for Pair<u32, String> {
    fn serialize<S: serde::Serializer>(&self, serializer: S) -> Result<S::Ok, S::Error> {
        let mut state = serializer.serialize_struct("Pair", 2)?;
        state.serialize_field("key", &self.key)?;
        state.serialize_field("value", &self.value)?;
        state.end()
    }
}

impl redis_codec::RedisCodec for Pair<u32, String> {
    // The ghost members exist only for verification; compiled code never
    // calls them.
    fn spec_parse(_text: vstd::seq::Seq<char>) -> Option<Pair<u32, String>> {
        unreachable!()
    }

    fn spec_render(_v: Pair<u32, String>) -> vstd::seq::Seq<char> {
        unreachable!()
    }

    fn spec_uses_default_serializer() -> bool {
        unreachable!()
    }

    fn spec_target_name() -> vstd::seq::Seq<char> {
        unreachable!()
    }

    fn spec_serializer_name() -> vstd::seq::Seq<char> {
        unreachable!()
    }

    fn parse_text(text: &str) -> Option<Pair<u32, String>> {
        serde_json::from_str(text).ok()
    }

    fn render_text(&self) -> String {
        serde_json::to_string(self).expect("Pair serializes")
    }

    fn uses_default_serializer() -> bool {
        true
    }

    fn target_name() -> String {
        "Pair".to_string()
    }

    fn serializer_name() -> String {
        "serde_json".to_string()
    }
}

#[test]
pub fn it_should_deserialize_struct_with_multiple_generics() {
    let pair = Pair {
        key: 42u32,
        value: "answer".to_string(),
    };
    let bytes = to_redis_args(&pair);
    let json = "{\"key\":42,\"value\":\"answer\"}".as_bytes();
    assert_eq!(bytes[0], json);

    let val = RedisValue::BulkString(json.into());
    let result = from_redis_value::<Pair<u32, String>>(&val);
    assert_eq!(result, Ok(pair));
}

#[derive(Debug, PartialEq)]
struct PairWithoutTrait<K, V> {
    key: K,
    value: V,
}

struct PairWithoutTraitVisitor;

impl<'de> serde::de::Visitor<'de> for PairWithoutTraitVisitor {
    type Value = PairWithoutTrait<u16, String>;

    fn expecting(&self, f: &mut fmt::Formatter) -> fmt::Result {
        f.write_str("struct PairWithoutTrait")
    }

    fn visit_map<A: serde::de::MapAccess<'de>>(
        self,
        mut map: A,
    ) -> Result<PairWithoutTrait<u16, String>, A::Error> {
        let mut key: Option<u16> = None;
        let mut value: Option<String> = None;
        while let Some(field) = map.next_key::<String>()? {
            match field.as_str() {
                "key" => key = Some(map.next_value()?),
                "value" => value = Some(map.next_value()?),
                _ => {
                    let _ = map.next_value::<serde::de::IgnoredAny>()?;
                }
            }
        }
        Ok(PairWithoutTrait {
            key: key.ok_or_else(|| serde::de::Error::missing_field("key"))?,
            value: value.ok_or_else(|| serde::de::Error::missing_field("value"))?,
        })
    }
}

impl<'de> serde::Deserialize<'de> for PairWithoutTrait<u16, String> {
    fn deserialize<D: serde::Deserializer<'de>>(
        deserializer: D,
    ) -> Result<PairWithoutTrait<u16, String>, D::Error> {
        deserializer.deserialize_struct("PairWithoutTrait", &["key", "value"], PairWithoutTraitVisitor)
    }
}

impl serde::Serialize for PairWithoutTrait<u16, String> {
    fn serialize<S: serde::Serializer>(&self, serializer: S) -> Result<S::Ok, S::Error> {
        let mut state = serializer.serialize_struct("PairWithoutTrait", 2)?;
        state.serialize_field("key", &self.key)?;
        state.serialize_field("value", &self.value)?;
        state.end()
    }
}

impl redis_codec::RedisCodec for PairWithoutTrait<u16, String> {
    // The ghost members exist only for verification; compiled code never
    // calls them.
    fn spec_parse(_text: vstd::seq::Seq<char>) -> Option<PairWithoutTrait<u16, String>> {
        unreachable!()
    }

    fn spec_render(_v: PairWithoutTrait<u16, String>) -> vstd::seq::Seq<char> {
        unreachable!()
    }

    fn spec_uses_default_serializer() -> bool {
        unreachable!()
    }

    fn spec_target_name() -> vstd::seq::Seq<char> {
        unreachable!()
    }

    fn spec_serializer_name() -> vstd::seq::Seq<char> {
        unreachable!()
    }

    fn parse_text(text: &str) -> Option<PairWithoutTrait<u16, String>> {
        serde_json::from_str(text).ok()
    }

    fn render_text(&self) -> String {
        serde_json::to_string(self).expect("PairWithoutTrait serializes")
    }

    fn uses_default_serializer() -> bool {
        true
    }

    fn target_name() -> String {
        "PairWithoutTrait".to_string()
    }

    fn serializer_name() -> String {
        "serde_json".to_string()
    }
}

#[test]
pub fn it_should_deserialize_json_wrapper_with_multiple_generics() {
    let expected = PairWithoutTrait {
        key: 10u16,
        value: "ok".to_string(),
    };
    let val = RedisValue::BulkString("[{\"key\":10,\"value\":\"ok\"}]".as_bytes().into());
    let result = Json::<PairWithoutTrait<u16, String>>::from_redis_value(&val);
    if let Ok(Json(parsed)) = result {
        assert_eq!(parsed, expected);
    } else {
        panic!("Generic JSON deserialization should succeed.");
    }
}
