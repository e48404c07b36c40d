//! The categorized failures a conversion can report, each carrying enough
//! context — the target type's name, the serializer's name where it matters,
//! and the rendering of the offending value — to reproduce the failure from
//! a log line.

use vstd::prelude::*;

verus! {

/// The category of a conversion failure.
#[derive(Debug, Clone, Copy, PartialEq, Eq, Structural)]
pub enum ErrorKind {
    /// The payload bytes were not valid UTF-8.
    InvalidEncoding,
    /// The value's kind is unsupported, or no deserialization attempt
    /// succeeded.
    IncompatibleType,
    /// The wrapper expected list-wrapped content but found none.
    NotBracketed,
}

/// A conversion failure: its category, and a human-readable detail line.
#[derive(Debug, PartialEq, Eq)]
pub struct DecodeError {
    /// The category of the failure.
    pub kind: ErrorKind,
    /// The detail line, which names what failed and carries the rendering of
    /// the offending value.
    pub detail: String,
}

impl DecodeError {
    /// The model of an error: its category and its detail text.
    pub open spec fn model(&self) -> (ErrorKind, Seq<char>) {
        (self.kind, self.detail@)
    }

    /// The full message for this error, rendered the way the store client
    /// displays a type conversion failure, so that logs read the same
    /// whether an error was reported by the client or by this crate.
    pub fn message(&self) -> (r: String)
        ensures
            r@ == "Incompatible type - "@ + self.detail@,
    {
        String::from_str("Incompatible type - ").concat(self.detail.as_str())
    }
}

/// Detail line: the payload was not valid UTF-8.
pub open spec fn invalid_utf8_detail(described: Seq<char>) -> Seq<char> {
    "Response was not valid UTF-8 string. (response was "@ + described + ")"@
}

/// Detail line: the text did not deserialize with the configured serializer
/// (and, under the default serializer, carried no list wrapping to strip).
pub open spec fn not_deserializable_detail(
    target_name: Seq<char>,
    serializer_name: Seq<char>,
    described: Seq<char>,
) -> Seq<char> {
    "Response type not deserializable to "@ + target_name + " with "@ + serializer_name
        + ". (response was "@ + described + ")"@
}

/// Detail line: the text carried list wrapping, but its content did not
/// deserialize either.
pub open spec fn not_wrapped_deserializable_detail(
    target_name: Seq<char>,
    described: Seq<char>,
) -> Seq<char> {
    "Response type not RedisJSON deserializable to "@ + target_name + ". (response was "@
        + described + ")"@
}

/// Detail line: the value was no byte payload at all.
pub open spec fn unsupported_kind_detail(target_name: Seq<char>, described: Seq<char>) -> Seq<
    char,
> {
    "Response type was not deserializable to "@ + target_name + ". (response was "@ + described
        + ")"@
}

/// Detail line (wrapper): the text carried no list wrapping.
pub open spec fn not_json_detail(described: Seq<char>) -> Seq<char> {
    "Response type was not JSON type. (response was "@ + described + ")"@
}

/// Detail line (wrapper): the wrapped content did not deserialize.
pub open spec fn json_not_deserializable_detail(described: Seq<char>) -> Seq<char> {
    "Response type in JSON was not deserializable. (response was "@ + described + ")"@
}

/// Detail line (wrapper): the value was no byte payload at all.
pub open spec fn not_redis_json_detail(described: Seq<char>) -> Seq<char> {
    "Response type not RedisJSON deserializable. (response was "@ + described + ")"@
}

/// The payload was not valid UTF-8.
pub(crate) fn invalid_utf8_error(described: String) -> (r: DecodeError)
    ensures
        r.model() == (ErrorKind::InvalidEncoding, invalid_utf8_detail(described@)),
{
    DecodeError {
        kind: ErrorKind::InvalidEncoding,
        detail: String::from_str("Response was not valid UTF-8 string. (response was ").concat(
            described.as_str(),
        ).concat(")"),
    }
}

/// The text did not deserialize with the configured serializer.
pub(crate) fn not_deserializable_error(
    target_name: String,
    serializer_name: String,
    described: String,
) -> (r: DecodeError)
    ensures
        r.model() == (
            ErrorKind::IncompatibleType,
            not_deserializable_detail(target_name@, serializer_name@, described@),
        ),
{
    DecodeError {
        kind: ErrorKind::IncompatibleType,
        detail: String::from_str("Response type not deserializable to ").concat(
            target_name.as_str(),
        ).concat(" with ").concat(serializer_name.as_str()).concat(". (response was ").concat(
            described.as_str(),
        ).concat(")"),
    }
}

/// The list wrapping was there, but its content did not deserialize either.
pub(crate) fn not_wrapped_deserializable_error(target_name: String, described: String) -> (r:
    DecodeError)
    ensures
        r.model() == (
            ErrorKind::IncompatibleType,
            not_wrapped_deserializable_detail(target_name@, described@),
        ),
{
    DecodeError {
        kind: ErrorKind::IncompatibleType,
        detail: String::from_str("Response type not RedisJSON deserializable to ").concat(
            target_name.as_str(),
        ).concat(". (response was ").concat(described.as_str()).concat(")"),
    }
}

/// The value was no byte payload at all.
pub(crate) fn unsupported_kind_error(target_name: String, described: String) -> (r: DecodeError)
    ensures
        r.model() == (
            ErrorKind::IncompatibleType,
            unsupported_kind_detail(target_name@, described@),
        ),
{
    DecodeError {
        kind: ErrorKind::IncompatibleType,
        detail: String::from_str("Response type was not deserializable to ").concat(
            target_name.as_str(),
        ).concat(". (response was ").concat(described.as_str()).concat(")"),
    }
}

/// The wrapper found no list wrapping on the text.
pub(crate) fn not_json_error(described: String) -> (r: DecodeError)
    ensures
        r.model() == (ErrorKind::NotBracketed, not_json_detail(described@)),
{
    DecodeError {
        kind: ErrorKind::NotBracketed,
        detail: String::from_str("Response type was not JSON type. (response was ").concat(
            described.as_str(),
        ).concat(")"),
    }
}

/// The wrapper stripped the list wrapping, but the content did not
/// deserialize.
pub(crate) fn json_not_deserializable_error(described: String) -> (r: DecodeError)
    ensures
        r.model() == (ErrorKind::IncompatibleType, json_not_deserializable_detail(described@)),
{
    DecodeError {
        kind: ErrorKind::IncompatibleType,
        detail: String::from_str(
            "Response type in JSON was not deserializable. (response was ",
        ).concat(described.as_str()).concat(")"),
    }
}

/// The wrapper got no byte payload at all.
pub(crate) fn not_redis_json_error(described: String) -> (r: DecodeError)
    ensures
        r.model() == (ErrorKind::IncompatibleType, not_redis_json_detail(described@)),
{
    DecodeError {
        kind: ErrorKind::IncompatibleType,
        detail: String::from_str(
            "Response type not RedisJSON deserializable. (response was ",
        ).concat(described.as_str()).concat(")"),
    }
}

} // verus!
