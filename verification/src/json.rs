//! The wrapper for document-store replies.
//!
//! The document-store command set wraps its replies in one layer of list
//! brackets. The plain adapter tolerates that wrapping as a fallback; the
//! [`Json`] wrapper instead expects it always, and never falls back to a
//! non-stripped reading. It is the way to fetch types that the store client
//! already has its own, incompatible conversions for.

use vstd::prelude::*;
use vstd::utf8::{decode_utf8, valid_utf8};

use crate::codec::RedisCodec;
use crate::error::{
    invalid_utf8_detail, invalid_utf8_error, json_not_deserializable_detail,
    json_not_deserializable_error, not_json_detail, not_json_error, not_redis_json_detail,
    not_redis_json_error, DecodeError, ErrorKind,
};
use crate::text::{bracket_inner, bracket_wrapped, strip_brackets};
use crate::value::{bytes_as_utf8, spec_describe, RedisValue, ValueView};

verus! {

/// What the wrapper's decoding yields for a type `T`: the typed result, or
/// the exact category and detail of the failure.
///
/// A byte payload must be valid UTF-8 and must carry the list wrapping;
/// exactly one layer is stripped, and the configured serializer reads the
/// content. A payload without the wrapping is its own failure category,
/// distinct from wrapped content that does not deserialize.
pub open spec fn spec_json_decode<T: RedisCodec>(v: ValueView) -> Result<
    T,
    (ErrorKind, Seq<char>),
> {
    match v {
        ValueView::BulkString(bytes) => {
            if !valid_utf8(bytes) {
                Err((ErrorKind::InvalidEncoding, invalid_utf8_detail(spec_describe(v))))
            } else {
                let text = decode_utf8(bytes);
                if bracket_wrapped(text) {
                    match T::spec_parse(bracket_inner(text)) {
                        Some(t) => Ok(t),
                        None => Err(
                            (
                                ErrorKind::IncompatibleType,
                                json_not_deserializable_detail(spec_describe(v)),
                            ),
                        ),
                    }
                } else {
                    Err((ErrorKind::NotBracketed, not_json_detail(spec_describe(v))))
                }
            }
        },
        _ => Err((ErrorKind::IncompatibleType, not_redis_json_detail(spec_describe(v)))),
    }
}

/// A single-use holder around a typed result, for decoding document-store
/// replies: it always strips exactly one layer of list wrapping before
/// handing the content to the type's serializer.
#[derive(Debug)]
pub struct Json<T>(
    /// The decoded inner value.
    pub T,
);

impl<T> Json<T> {
    /// Wraps a value.
    pub fn new(value: T) -> (r: Json<T>)
        ensures
            r.0 == value,
    {
        Json(value)
    }

    /// Hands the inner value back.
    pub fn into_inner(self) -> (r: T)
        ensures
            r == self.0,
    {
        self.0
    }
}

impl<T: RedisCodec> Json<T> {
    /// Decodes a document-store reply: exactly the conversion that
    /// [`spec_json_decode`] describes, including the category and detail
    /// of every failure.
    pub fn from_redis_value(v: &RedisValue) -> (r: Result<Json<T>, DecodeError>)
        ensures
            (match r {
                Ok(w) => Ok(w.0),
                Err(e) => Err(e.model()),
            }) == spec_json_decode::<T>(v@),
    {
        match v {
            RedisValue::BulkString(bytes) => {
                match bytes_as_utf8(bytes.as_slice()) {
                    Some(text) => {
                        match strip_brackets(text) {
                            Some(inner_text) => {
                                match T::parse_text(inner_text) {
                                    Some(t) => Ok(Json(t)),
                                    None => Err(json_not_deserializable_error(v.describe())),
                                }
                            },
                            None => Err(not_json_error(v.describe())),
                        }
                    },
                    None => Err(invalid_utf8_error(v.describe())),
                }
            },
            _ => Err(not_redis_json_error(v.describe())),
        }
    }
}

/// Distinct-failures law: on a valid UTF-8 payload the wrapper reports a
/// missing list wrapping as its own category, and wrapped content that does
/// not deserialize as an incompatible type — never the one for the other.
pub proof fn lemma_wrapper_failures_distinct<T: RedisCodec>(bytes: Seq<u8>)
    requires
        valid_utf8(bytes),
    ensures
        !bracket_wrapped(decode_utf8(bytes)) ==> spec_json_decode::<T>(
            ValueView::BulkString(bytes),
        ) == Err::<T, (ErrorKind, Seq<char>)>(
            (ErrorKind::NotBracketed, not_json_detail(spec_describe(ValueView::BulkString(bytes)))),
        ),
        bracket_wrapped(decode_utf8(bytes)) && T::spec_parse(
            bracket_inner(decode_utf8(bytes)),
        ) is None ==> spec_json_decode::<T>(ValueView::BulkString(bytes)) == Err::<
            T,
            (ErrorKind, Seq<char>),
        >(
            (
                ErrorKind::IncompatibleType,
                json_not_deserializable_detail(spec_describe(ValueView::BulkString(bytes))),
            ),
        ),
{
}

} // verus!
