//! Store-and-fetch adapters between a key-value store's protocol values and
//! typed data, through a pluggable text serializer.
//!
//! The store client hands back a protocol value: a byte payload, an absence
//! marker, or some other kind of response. This crate decodes such a value
//! into a typed result (with a tolerance for the one layer of list-wrapping
//! that document-store commands add around their replies), and encodes typed
//! data back into a payload. Each conversion is a pure, single-call transform;
//! every failure is categorized and carries enough context to reproduce it
//! from a log line.

pub mod codec;
pub mod error;
pub mod json;
pub mod primitives;
pub mod text;
pub mod value;

pub use codec::{encode_then_decode, from_redis_value, to_redis_args, to_redis_value, RedisCodec};
pub use error::{DecodeError, ErrorKind};
pub use json::Json;
pub use value::RedisValue;
