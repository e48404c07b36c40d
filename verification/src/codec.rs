//! The value adapter: decoding a protocol value into typed data through a
//! pluggable text serializer, and encoding typed data back into a payload.
//!
//! A type opts in by implementing [`RedisCodec`]: it names its serializer,
//! supplies the serializer's parse and render operations, and inherits the
//! decoding and encoding entry points, which are verified here once for
//! every implementation.

use vstd::prelude::*;
use vstd::utf8::{decode_utf8, encode_utf8, valid_utf8};

use crate::error::{
    invalid_utf8_detail, invalid_utf8_error, not_deserializable_detail, not_deserializable_error,
    not_wrapped_deserializable_detail, not_wrapped_deserializable_error, unsupported_kind_detail,
    unsupported_kind_error, DecodeError, ErrorKind,
};
use crate::text::{bracket_inner, bracket_wrapped, strip_brackets};
use crate::value::{bytes_as_utf8, spec_describe, RedisValue, ValueView};

verus! {

/// A conversion result reduced to its model: the typed value on success, or
/// the failure's category and detail text.
pub open spec fn result_model<T>(r: Result<T, DecodeError>) -> Result<T, (ErrorKind, Seq<char>)> {
    match r {
        Ok(t) => Ok(t),
        Err(e) => Err(e.model()),
    }
}

/// What decoding a protocol value yields for a type `T`: the typed result,
/// or the exact category and detail of the failure.
///
/// A byte payload must be valid UTF-8; the decoded text is handed to the
/// configured serializer, and if that fails under the default serializer and
/// the text carries the document-store list wrapping, one layer of wrapping
/// is stripped and the serializer tried once more. An absence marker and
/// every other kind of value are incompatible outright.
pub open spec fn spec_decode<T: RedisCodec>(v: ValueView) -> Result<T, (ErrorKind, Seq<char>)> {
    match v {
        ValueView::BulkString(bytes) => {
            if !valid_utf8(bytes) {
                Err((ErrorKind::InvalidEncoding, invalid_utf8_detail(spec_describe(v))))
            } else {
                let text = decode_utf8(bytes);
                match T::spec_parse(text) {
                    Some(t) => Ok(t),
                    None => {
                        if T::spec_uses_default_serializer() && bracket_wrapped(text) {
                            match T::spec_parse(bracket_inner(text)) {
                                Some(t) => Ok(t),
                                None => Err(
                                    (
                                        ErrorKind::IncompatibleType,
                                        not_wrapped_deserializable_detail(
                                            T::spec_target_name(),
                                            spec_describe(v),
                                        ),
                                    ),
                                ),
                            }
                        } else {
                            Err(
                                (
                                    ErrorKind::IncompatibleType,
                                    not_deserializable_detail(
                                        T::spec_target_name(),
                                        T::spec_serializer_name(),
                                        spec_describe(v),
                                    ),
                                ),
                            )
                        }
                    },
                }
            }
        },
        _ => Err(
            (
                ErrorKind::IncompatibleType,
                unsupported_kind_detail(T::spec_target_name(), spec_describe(v)),
            ),
        ),
    }
}

/// A type that can be stored in and fetched from the key-value store
/// through a text serializer chosen at implementation time.
///
/// Implementations supply the serializer's two operations and its name;
/// the decoding and encoding entry points come with verified default
/// bodies. The render operation must be a section of the parse operation:
/// parsing a rendered text yields the rendered value back.
pub trait RedisCodec: Sized {
    /// What the configured serializer parses a text to, if anything.
    spec fn spec_parse(text: Seq<char>) -> Option<Self>;

    /// The text the configured serializer renders a value to.
    spec fn spec_render(v: Self) -> Seq<char>;

    /// Whether the configured serializer is the default JSON one, whose
    /// failures get the bracket-stripping retry.
    spec fn spec_uses_default_serializer() -> bool;

    /// The name of the target type, for diagnostics.
    spec fn spec_target_name() -> Seq<char>;

    /// The name of the configured serializer, for diagnostics.
    spec fn spec_serializer_name() -> Seq<char>;

    /// Parses a text with the configured serializer.
    fn parse_text(text: &str) -> (r: Option<Self>)
        ensures
            r == Self::spec_parse(text@),
    ;

    /// Renders a value with the configured serializer. Parsing the rendered
    /// text yields the value back.
    fn render_text(&self) -> (r: String)
        ensures
            r@ == Self::spec_render(*self),
            Self::spec_parse(r@) == Some(*self),
    ;

    /// Whether the configured serializer is the default JSON one.
    fn uses_default_serializer() -> (r: bool)
        ensures
            r == Self::spec_uses_default_serializer(),
    ;

    /// The name of the target type, for diagnostics.
    fn target_name() -> (r: String)
        ensures
            r@ == Self::spec_target_name(),
    ;

    /// The name of the configured serializer, for diagnostics.
    fn serializer_name() -> (r: String)
        ensures
            r@ == Self::spec_serializer_name(),
    ;
}

/// Decodes a protocol value into a `T`: exactly the conversion that
/// [`spec_decode`] describes, including the category and detail of every
/// failure.
pub fn from_redis_value<T: RedisCodec>(v: &RedisValue) -> (r: Result<T, DecodeError>)
    ensures
        result_model(r) == spec_decode::<T>(v@),
{
    match v {
        RedisValue::BulkString(bytes) => {
            match bytes_as_utf8(bytes.as_slice()) {
                Some(text) => {
                    match T::parse_text(text) {
                        Some(t) => Ok(t),
                        None => {
                            if T::uses_default_serializer() {
                                match strip_brackets(text) {
                                    Some(inner_text) => {
                                        match T::parse_text(inner_text) {
                                            Some(t) => Ok(t),
                                            None => Err(
                                                not_wrapped_deserializable_error(
                                                    T::target_name(),
                                                    v.describe(),
                                                ),
                                            ),
                                        }
                                    },
                                    None => Err(
                                        not_deserializable_error(
                                            T::target_name(),
                                            T::serializer_name(),
                                            v.describe(),
                                        ),
                                    ),
                                }
                            } else {
                                Err(
                                    not_deserializable_error(
                                        T::target_name(),
                                        T::serializer_name(),
                                        v.describe(),
                                    ),
                                )
                            }
                        },
                    }
                },
                None => Err(invalid_utf8_error(v.describe())),
            }
        },
        _ => Err(unsupported_kind_error(T::target_name(), v.describe())),
    }
}

/// Encodes a value into a protocol value: a byte payload holding the UTF-8
/// encoding of the rendered text.
pub fn to_redis_value<T: RedisCodec>(x: &T) -> (r: RedisValue)
    ensures
        r@ == ValueView::BulkString(encode_utf8(T::spec_render(*x))),
        T::spec_parse(T::spec_render(*x)) == Some(*x),
{
    let text: String = x.render_text();
    RedisValue::BulkString(text.as_str().as_bytes_vec())
}

/// Encodes a value the way the store client passes command arguments: one
/// argument, holding the UTF-8 encoding of the rendered text.
pub fn to_redis_args<T: RedisCodec>(x: &T) -> (r: Vec<Vec<u8>>)
    ensures
        r@.len() == 1,
        r@[0]@ == encode_utf8(T::spec_render(*x)),
        T::spec_parse(T::spec_render(*x)) == Some(*x),
{
    let text: String = x.render_text();
    let bytes: Vec<u8> = text.as_str().as_bytes_vec();
    let mut out: Vec<Vec<u8>> = Vec::new();
    out.push(bytes);
    out
}

/// Round-trip law: encoding a value into a protocol value and decoding that
/// protocol value yields the original value back, for every value of every
/// implementation.
pub fn encode_then_decode<T: RedisCodec>(v: &T) -> (r: Result<T, DecodeError>)
    ensures
        r matches Ok(w) && w == *v,
{
    let stored: RedisValue = to_redis_value(v);
    proof {
        vstd::utf8::encode_utf8_valid_utf8(T::spec_render(*v));
        vstd::utf8::encode_utf8_decode_utf8(T::spec_render(*v));
    }
    from_redis_value::<T>(&stored)
}

/// Round-trip law, at the level of the decode model: whenever the
/// serializer parses back what it renders — which every implementation's
/// `render_text` promises — decoding an encoded payload yields the encoded
/// value.
pub proof fn lemma_round_trip<T: RedisCodec>(v: T)
    requires
        T::spec_parse(T::spec_render(v)) == Some(v),
    ensures
        spec_decode::<T>(ValueView::BulkString(encode_utf8(T::spec_render(v)))) == Ok::<
            T,
            (ErrorKind, Seq<char>),
        >(v),
{
    vstd::utf8::encode_utf8_valid_utf8(T::spec_render(v));
    vstd::utf8::encode_utf8_decode_utf8(T::spec_render(v));
}

/// Bracket-tolerance law: under the default serializer, a payload that
/// wraps a parseable text in one layer of brackets decodes successfully —
/// to whatever the wrapped text itself parses to if the serializer accepts
/// it whole, and otherwise, through the stripping retry, to the same value
/// as the unwrapped payload.
pub proof fn lemma_bracket_tolerance<T: RedisCodec>(bytes: Seq<u8>, text: Seq<char>, v: T)
    requires
        T::spec_uses_default_serializer(),
        valid_utf8(bytes),
        decode_utf8(bytes) == seq!['['] + text + seq![']'],
        T::spec_parse(text) == Some(v),
    ensures
        spec_decode::<T>(ValueView::BulkString(bytes)) == (match T::spec_parse(
            seq!['['] + text + seq![']'],
        ) {
            Some(w) => Ok::<T, (ErrorKind, Seq<char>)>(w),
            None => Ok(v),
        }),
{
    let wrapped = seq!['['] + text + seq![']'];
    assert(wrapped[0] == '[');
    assert(wrapped[wrapped.len() - 1] == ']');
    assert(bracket_wrapped(wrapped));
    assert(bracket_inner(wrapped) =~= text);
}

/// No-fallback law: under any serializer but the default one, a payload
/// whose text does not parse fails at once with the incompatible-type
/// error that names the type and the serializer — there is no
/// bracket-stripping retry, however the text looks.
pub proof fn lemma_no_fallback_for_other_serializers<T: RedisCodec>(bytes: Seq<u8>)
    requires
        !T::spec_uses_default_serializer(),
        valid_utf8(bytes),
        T::spec_parse(decode_utf8(bytes)) is None,
    ensures
        spec_decode::<T>(ValueView::BulkString(bytes)) == Err::<T, (ErrorKind, Seq<char>)>(
            (
                ErrorKind::IncompatibleType,
                not_deserializable_detail(
                    T::spec_target_name(),
                    T::spec_serializer_name(),
                    spec_describe(ValueView::BulkString(bytes)),
                ),
            ),
        ),
{
}

/// Invalid-encoding law: a payload of invalid UTF-8 fails with the
/// invalid-encoding category, whatever the target type.
pub proof fn lemma_invalid_utf8_always_invalid_encoding<T: RedisCodec>(bytes: Seq<u8>)
    requires
        !valid_utf8(bytes),
    ensures
        spec_decode::<T>(ValueView::BulkString(bytes)) == Err::<T, (ErrorKind, Seq<char>)>(
            (
                ErrorKind::InvalidEncoding,
                invalid_utf8_detail(spec_describe(ValueView::BulkString(bytes))),
            ),
        ),
{
}

/// Absence law: the absence marker fails with the incompatible-type
/// category, whatever the target type.
pub proof fn lemma_absence_always_incompatible<T: RedisCodec>()
    ensures
        spec_decode::<T>(ValueView::Nil) == Err::<T, (ErrorKind, Seq<char>)>(
            (
                ErrorKind::IncompatibleType,
                unsupported_kind_detail(T::spec_target_name(), spec_describe(ValueView::Nil)),
            ),
        ),
{
}

} // verus!
