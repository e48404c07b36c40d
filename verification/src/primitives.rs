//! Ready-made codec implementations for primitive targets, backed by the
//! default JSON serializer.
//!
//! These are the types the [`crate::json::Json`] wrapper is most often used
//! with: the store client has built-in conversions for numbers and strings
//! that do not understand document-store replies, so fetching a number or a
//! string from a document path goes through these implementations instead.

use vstd::prelude::*;

use crate::codec::RedisCodec;
use crate::text::{dec_rep, digit_char};

verus! {

/// What `serde_json` parses a text to at the `u32` target: one JSON number
/// in range, a function of the text alone.
pub uninterp spec fn json_u32_of(text: Seq<char>) -> Option<u32>;

/// What `serde_json` parses a text to at the `String` target: one JSON
/// string, a function of the text alone.
pub uninterp spec fn json_string_of(text: Seq<char>) -> Option<String>;

/// How one character appears inside a JSON string literal: the double
/// quote and the backslash get a backslash escape, the common control
/// characters their short escapes, every other control character a
/// four-digit `\u00..` escape, and everything else stands as itself.
pub open spec fn json_escaped_char(c: char) -> Seq<char> {
    if c == '"' {
        seq!['\\', '"']
    } else if c == '\\' {
        seq!['\\', '\\']
    } else if c == '\u{8}' {
        seq!['\\', 'b']
    } else if c == '\t' {
        seq!['\\', 't']
    } else if c == '\n' {
        seq!['\\', 'n']
    } else if c == '\u{c}' {
        seq!['\\', 'f']
    } else if c == '\r' {
        seq!['\\', 'r']
    } else if (c as u32) < 32 {
        seq!['\\', 'u', '0', '0', digit_char((c as u32 / 16) as nat), digit_char(
            (c as u32 % 16) as nat,
        )]
    } else {
        seq![c]
    }
}

/// The escaped body of a JSON string literal.
pub open spec fn json_escaped(s: Seq<char>) -> Seq<char>
    decreases s.len(),
{
    if s.len() == 0 {
        Seq::<char>::empty()
    } else {
        json_escaped(s.drop_last()) + json_escaped_char(s.last())
    }
}

/// A whole JSON string literal: the escaped body between double quotes.
pub open spec fn json_quoted(s: Seq<char>) -> Seq<char> {
    seq!['"'] + json_escaped(s) + seq!['"']
}

/// Relies on serde_json::from_str::<u32>: what a text parses to at the
/// `u32` target is a function of the text alone.
#[verifier::external_body]
fn parse_json_u32(text: &str) -> (r: Option<u32>)
    ensures
        r == json_u32_of(text@),
{
    serde_json::from_str(text).ok()
}

/// Relies on serde_json::to_string::<u32>: a number renders as its decimal
/// digits (integer serialization cannot fail), and serde_json parses the
/// rendering back to the same number.
#[verifier::external_body]
fn render_json_u32(n: u32) -> (r: String)
    ensures
        r@ == dec_rep(n as nat),
        json_u32_of(r@) == Some(n),
{
    serde_json::to_string(&n).unwrap_or_default()
}

/// Relies on serde_json::from_str::<String>: what a text parses to at the
/// `String` target is a function of the text alone.
#[verifier::external_body]
fn parse_json_string(text: &str) -> (r: Option<String>)
    ensures
        r == json_string_of(text@),
{
    serde_json::from_str(text).ok()
}

/// Relies on serde_json::to_string::<&String>: a string renders as a JSON
/// string literal with exactly serde_json's escaping (string serialization
/// cannot fail), and serde_json parses the rendering back to an equal
/// string.
#[verifier::external_body]
fn render_json_string(s: &String) -> (r: String)
    ensures
        r@ == json_quoted(s@),
        json_string_of(r@) == Some(*s),
{
    serde_json::to_string(s).unwrap_or_default()
}

/// What `serde_json` parses a text to at the `bool` target: one JSON
/// boolean, a function of the text alone.
pub uninterp spec fn json_bool_of(text: Seq<char>) -> Option<bool>;

/// Relies on serde_json::from_str::<bool>: what a text parses to at the
/// `bool` target is a function of the text alone.
#[verifier::external_body]
fn parse_json_bool(text: &str) -> (r: Option<bool>)
    ensures
        r == json_bool_of(text@),
{
    serde_json::from_str(text).ok()
}

/// Relies on serde_json::to_string::<bool>: a boolean renders as the
/// keyword `true` or `false` (boolean serialization cannot fail), and
/// serde_json parses the keyword back to the same boolean.
#[verifier::external_body]
fn render_json_bool(b: bool) -> (r: String)
    ensures
        r@ == (if b {
            "true"@
        } else {
            "false"@
        }),
        json_bool_of(r@) == Some(b),
{
    serde_json::to_string(&b).unwrap_or_default()
}

impl RedisCodec for bool {
    open spec fn spec_parse(text: Seq<char>) -> Option<bool> {
        json_bool_of(text)
    }

    open spec fn spec_render(v: bool) -> Seq<char> {
        if v {
            "true"@
        } else {
            "false"@
        }
    }

    open spec fn spec_uses_default_serializer() -> bool {
        true
    }

    open spec fn spec_target_name() -> Seq<char> {
        "bool"@
    }

    open spec fn spec_serializer_name() -> Seq<char> {
        "serde_json"@
    }

    fn parse_text(text: &str) -> (r: Option<bool>) {
        parse_json_bool(text)
    }

    fn render_text(&self) -> (r: String) {
        render_json_bool(*self)
    }

    fn uses_default_serializer() -> (r: bool) {
        true
    }

    fn target_name() -> (r: String) {
        String::from_str("bool")
    }

    fn serializer_name() -> (r: String) {
        String::from_str("serde_json")
    }
}

impl RedisCodec for u32 {
    open spec fn spec_parse(text: Seq<char>) -> Option<u32> {
        json_u32_of(text)
    }

    open spec fn spec_render(v: u32) -> Seq<char> {
        dec_rep(v as nat)
    }

    open spec fn spec_uses_default_serializer() -> bool {
        true
    }

    open spec fn spec_target_name() -> Seq<char> {
        "u32"@
    }

    open spec fn spec_serializer_name() -> Seq<char> {
        "serde_json"@
    }

    fn parse_text(text: &str) -> (r: Option<u32>) {
        parse_json_u32(text)
    }

    fn render_text(&self) -> (r: String) {
        render_json_u32(*self)
    }

    fn uses_default_serializer() -> (r: bool) {
        true
    }

    fn target_name() -> (r: String) {
        String::from_str("u32")
    }

    fn serializer_name() -> (r: String) {
        String::from_str("serde_json")
    }
}

impl RedisCodec for String {
    open spec fn spec_parse(text: Seq<char>) -> Option<String> {
        json_string_of(text)
    }

    open spec fn spec_render(v: String) -> Seq<char> {
        json_quoted(v@)
    }

    open spec fn spec_uses_default_serializer() -> bool {
        true
    }

    open spec fn spec_target_name() -> Seq<char> {
        "String"@
    }

    open spec fn spec_serializer_name() -> Seq<char> {
        "serde_json"@
    }

    fn parse_text(text: &str) -> (r: Option<String>) {
        parse_json_string(text)
    }

    fn render_text(&self) -> (r: String) {
        render_json_string(self)
    }

    fn uses_default_serializer() -> (r: bool) {
        true
    }

    fn target_name() -> (r: String) {
        String::from_str("String")
    }

    fn serializer_name() -> (r: String) {
        String::from_str("serde_json")
    }
}

} // verus!
