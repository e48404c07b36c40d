//! The protocol value handed back by the key-value store client, as this
//! crate models it.
//!
//! The store client's own response type has many variants; the conversions
//! here only ever distinguish a byte payload from an absence marker and from
//! everything else, so the model keeps exactly that. Code that talks to the
//! client converts its response type into [`RedisValue`] before decoding.

use vstd::prelude::*;
use vstd::utf8::{decode_utf8, valid_utf8};

use crate::text::{byte_list_rep, escape_text, escaped_chars, render_byte_list};

verus! {

/// A response from the key-value store, reduced to what decoding inspects.
#[derive(Debug)]
pub enum RedisValue {
    /// A byte payload (the client calls this a bulk string).
    BulkString(Vec<u8>),
    /// The absence marker: the key or path held nothing.
    Nil,
    /// Any other kind of response, carrying the client's rendering of it,
    /// kept only for diagnostics.
    Other(String),
}

/// The mathematical model of a [`RedisValue`].
pub enum ValueView {
    BulkString(Seq<u8>),
    Nil,
    Other(Seq<char>),
}

impl View for RedisValue {
    type V = ValueView;

    open spec fn view(&self) -> ValueView {
        match self {
            RedisValue::BulkString(bytes) => ValueView::BulkString(bytes@),
            RedisValue::Nil => ValueView::Nil,
            RedisValue::Other(rendering) => ValueView::Other(rendering@),
        }
    }
}

/// Relies on std::str::from_utf8: it yields the decoded string exactly when
/// the bytes are valid UTF-8, under the same reading of UTF-8 that vstd's
/// `valid_utf8` and `decode_utf8` formalize.
#[verifier::external_body]
pub(crate) fn bytes_as_utf8(bytes: &[u8]) -> (r: Option<&str>)
    ensures
        (r is Some) == valid_utf8(bytes@),
        r matches Some(s) ==> s@ == decode_utf8(bytes@),
{
    std::str::from_utf8(bytes).ok()
}

/// The diagnostic rendering of a value: a payload of valid UTF-8 as a
/// quoted, escaped bulk string, any other payload as a decimal byte list,
/// absence as `nil`, and any other kind by the rendering it was converted
/// with. This follows the store client's own display of a response, with
/// the escaping of [`crate::text::escaped_char`].
pub open spec fn spec_describe(v: ValueView) -> Seq<char> {
    match v {
        ValueView::BulkString(bytes) => if valid_utf8(bytes) {
            "bulk-string('\""@ + escaped_chars(decode_utf8(bytes)) + "\"')"@
        } else {
            "binary-data("@ + byte_list_rep(bytes) + ")"@
        },
        ValueView::Nil => "nil"@,
        ValueView::Other(rendering) => rendering,
    }
}

impl RedisValue {
    /// Renders this value for diagnostics, as [`spec_describe`] lays it
    /// out.
    pub fn describe(&self) -> (r: String)
        ensures
            r@ == spec_describe(self@),
    {
        match self {
            RedisValue::BulkString(bytes) => match bytes_as_utf8(bytes.as_slice()) {
                Some(text) => {
                    let escaped: String = escape_text(text);
                    let r: String = String::from_str("bulk-string('\"").concat(
                        escaped.as_str(),
                    ).concat("\"')");
                    proof {
                        assert(r@ =~= spec_describe(self@));
                    }
                    r
                },
                None => {
                    let listed: String = render_byte_list(bytes.as_slice());
                    let r: String = String::from_str("binary-data(").concat(
                        listed.as_str(),
                    ).concat(")");
                    proof {
                        assert(r@ =~= spec_describe(self@));
                    }
                    r
                },
            },
            RedisValue::Nil => String::from_str("nil"),
            RedisValue::Other(rendering) => rendering.clone(),
        }
    }
}

} // verus!
