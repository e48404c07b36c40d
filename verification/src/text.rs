//! Verified text helpers: decimal and escape renderings used by the
//! diagnostic descriptions, and the bracket handling that the document-store
//! response convention calls for.

use vstd::prelude::*;

verus! {

/// The character for one digit value below sixteen (decimal digits first,
/// then the lowercase hex letters).
pub open spec fn digit_char(d: nat) -> char {
    if d == 0 {
        '0'
    } else if d == 1 {
        '1'
    } else if d == 2 {
        '2'
    } else if d == 3 {
        '3'
    } else if d == 4 {
        '4'
    } else if d == 5 {
        '5'
    } else if d == 6 {
        '6'
    } else if d == 7 {
        '7'
    } else if d == 8 {
        '8'
    } else if d == 9 {
        '9'
    } else if d == 10 {
        'a'
    } else if d == 11 {
        'b'
    } else if d == 12 {
        'c'
    } else if d == 13 {
        'd'
    } else if d == 14 {
        'e'
    } else {
        'f'
    }
}

/// The decimal rendering of a number, most significant digit first, with no
/// leading zeroes (zero itself renders as "0").
pub open spec fn dec_rep(n: nat) -> Seq<char>
    decreases n,
{
    if n < 10 {
        seq![digit_char(n)]
    } else {
        dec_rep(n / 10) + seq![digit_char(n % 10)]
    }
}

/// The lowercase hexadecimal rendering of a number, most significant digit
/// first, with no leading zeroes.
pub open spec fn hex_rep(n: nat) -> Seq<char>
    decreases n,
{
    if n < 16 {
        seq![digit_char(n)]
    } else {
        hex_rep(n / 16) + seq![digit_char(n % 16)]
    }
}

/// One digit character as a string slice.
fn digit_str(d: u8) -> (r: &'static str)
    requires
        d < 16,
    ensures
        r@ == seq![digit_char(d as nat)],
{
    proof {
        reveal_strlit("0");
        reveal_strlit("1");
        reveal_strlit("2");
        reveal_strlit("3");
        reveal_strlit("4");
        reveal_strlit("5");
        reveal_strlit("6");
        reveal_strlit("7");
        reveal_strlit("8");
        reveal_strlit("9");
        reveal_strlit("a");
        reveal_strlit("b");
        reveal_strlit("c");
        reveal_strlit("d");
        reveal_strlit("e");
        reveal_strlit("f");
    }
    let r: &'static str = match d {
        0 => "0",
        1 => "1",
        2 => "2",
        3 => "3",
        4 => "4",
        5 => "5",
        6 => "6",
        7 => "7",
        8 => "8",
        9 => "9",
        10 => "a",
        11 => "b",
        12 => "c",
        13 => "d",
        14 => "e",
        _ => "f",
    };
    proof {
        assert(r@ =~= seq![digit_char(d as nat)]);
    }
    r
}

/// Appends the decimal rendering of one byte.
fn push_decimal_u8(out: &mut String, b: u8)
    ensures
        final(out)@ == old(out)@ + dec_rep(b as nat),
{
    if b >= 100 {
        proof {
            assert(b as nat / 10 / 10 == b as nat / 100) by (nonlinear_arith);
            assert(dec_rep(b as nat / 100) =~= seq![digit_char(b as nat / 100)]);
            assert(dec_rep(b as nat / 10) =~= dec_rep(b as nat / 100) + seq![
                digit_char(b as nat / 10 % 10),
            ]);
            assert(dec_rep(b as nat) =~= dec_rep(b as nat / 10) + seq![digit_char(b as nat % 10)]);
        }
        out.append(digit_str(b / 100));
        out.append(digit_str((b / 10) % 10));
        out.append(digit_str(b % 10));
        proof {
            assert(out@ =~= old(out)@ + dec_rep(b as nat));
        }
    } else if b >= 10 {
        proof {
            assert(dec_rep(b as nat / 10) =~= seq![digit_char(b as nat / 10)]);
            assert(dec_rep(b as nat) =~= dec_rep(b as nat / 10) + seq![digit_char(b as nat % 10)]);
        }
        out.append(digit_str(b / 10));
        out.append(digit_str(b % 10));
        proof {
            assert(out@ =~= old(out)@ + dec_rep(b as nat));
        }
    } else {
        out.append(digit_str(b));
        proof {
            assert(out@ =~= old(out)@ + dec_rep(b as nat));
        }
    }
}

/// The rendering of a byte sequence as a bracketed, comma-separated decimal
/// list, the way the store client displays binary data.
pub open spec fn byte_list_rep(bytes: Seq<u8>) -> Seq<char> {
    "["@ + byte_list_items(bytes) + "]"@
}

/// The comma-separated items of [`byte_list_rep`].
pub open spec fn byte_list_items(bytes: Seq<u8>) -> Seq<char>
    decreases bytes.len(),
{
    if bytes.len() == 0 {
        Seq::<char>::empty()
    } else if bytes.len() == 1 {
        dec_rep(bytes[0] as nat)
    } else {
        byte_list_items(bytes.drop_last()) + ", "@ + dec_rep(bytes.last() as nat)
    }
}

/// Renders a byte sequence as the store client displays binary data.
pub fn render_byte_list(bytes: &[u8]) -> (r: String)
    ensures
        r@ == byte_list_rep(bytes@),
{
    let mut out: String = String::from_str("[");
    let n: usize = bytes.len();
    let mut i: usize = 0;
    while i < n
        invariant
            n == bytes@.len(),
            i <= n,
            out@ == "["@ + byte_list_items(bytes@.take(i as int)),
        decreases n - i,
    {
        if i > 0 {
            out.append(", ");
        }
        push_decimal_u8(&mut out, bytes[i]);
        proof {
            assert(bytes@.take(i + 1).drop_last() =~= bytes@.take(i as int));
            assert(bytes@.take(i + 1).last() == bytes@[i as int]);
            assert(out@ =~= "["@ + byte_list_items(bytes@.take(i + 1)));
        }
        i = i + 1;
    }
    proof {
        assert(bytes@.take(n as int) =~= bytes@);
    }
    out.append("]");
    proof {
        assert(out@ =~= byte_list_rep(bytes@));
    }
    out
}

/// How one character appears inside the quoted rendering of a payload:
/// the double quote, the backslash and the common control characters get a
/// backslash escape, any other control character a `\u{..}` escape, and
/// everything else stands as itself.
pub open spec fn escaped_char(c: char) -> Seq<char> {
    if c == '"' {
        seq!['\\', '"']
    } else if c == '\\' {
        seq!['\\', '\\']
    } else if c == '\n' {
        seq!['\\', 'n']
    } else if c == '\r' {
        seq!['\\', 'r']
    } else if c == '\t' {
        seq!['\\', 't']
    } else if c == '\0' {
        seq!['\\', '0']
    } else if (c as u32) < 32 || (c as u32) == 127 {
        seq!['\\', 'u', '{'] + hex_rep(c as u32 as nat) + seq!['}']
    } else {
        seq![c]
    }
}

/// The escaped rendering of a whole character sequence.
pub open spec fn escaped_chars(s: Seq<char>) -> Seq<char>
    decreases s.len(),
{
    if s.len() == 0 {
        Seq::<char>::empty()
    } else {
        escaped_chars(s.drop_last()) + escaped_char(s.last())
    }
}

/// Appends the `\u{..}` escape of a control character's code, which is below
/// 128 and so at most two hex digits wide.
fn push_control_escape(out: &mut String, code: u32)
    requires
        code < 128,
    ensures
        final(out)@ == old(out)@ + seq!['\\', 'u', '{'] + hex_rep(code as nat) + seq!['}'],
{
    proof {
        reveal_strlit("\\u{");
        reveal_strlit("}");
        assert("\\u{"@ =~= seq!['\\', 'u', '{']);
        assert("}"@ =~= seq!['}']);
        if code >= 16 {
            assert(hex_rep(code as nat / 16) =~= seq![digit_char(code as nat / 16)]);
            assert(hex_rep(code as nat) =~= hex_rep(code as nat / 16) + seq![
                digit_char(code as nat % 16),
            ]);
        }
    }
    out.append("\\u{");
    if code >= 16 {
        out.append(digit_str((code / 16) as u8));
    }
    out.append(digit_str((code % 16) as u8));
    out.append("}");
    proof {
        assert(out@ =~= old(out)@ + seq!['\\', 'u', '{'] + hex_rep(code as nat) + seq!['}']);
    }
}

/// Escapes a string for the quoted payload rendering.
pub fn escape_text(s: &str) -> (r: String)
    ensures
        r@ == escaped_chars(s@),
{
    let mut out: String = String::new();
    let n: usize = s.unicode_len();
    let mut i: usize = 0;
    while i < n
        invariant
            n == s@.len(),
            i <= n,
            out@ == escaped_chars(s@.take(i as int)),
        decreases n - i,
    {
        let c: char = s.get_char(i);
        if c == '"' {
            proof {
                reveal_strlit("\\\"");
                assert("\\\""@ =~= escaped_char(c));
            }
            out.append("\\\"");
        } else if c == '\\' {
            proof {
                reveal_strlit("\\\\");
                assert("\\\\"@ =~= escaped_char(c));
            }
            out.append("\\\\");
        } else if c == '\n' {
            proof {
                reveal_strlit("\\n");
                assert("\\n"@ =~= escaped_char(c));
            }
            out.append("\\n");
        } else if c == '\r' {
            proof {
                reveal_strlit("\\r");
                assert("\\r"@ =~= escaped_char(c));
            }
            out.append("\\r");
        } else if c == '\t' {
            proof {
                reveal_strlit("\\t");
                assert("\\t"@ =~= escaped_char(c));
            }
            out.append("\\t");
        } else if c == '\0' {
            proof {
                reveal_strlit("\\0");
                assert("\\0"@ =~= escaped_char(c));
            }
            out.append("\\0");
        } else if (c as u32) < 32 || (c as u32) == 127 {
            push_control_escape(&mut out, c as u32);
        } else {
            let piece: &str = s.substring_char(i, i + 1);
            proof {
                assert(piece@ =~= escaped_char(c));
            }
            out.append(piece);
        }
        proof {
            assert(s@.take(i + 1).drop_last() =~= s@.take(i as int));
            assert(s@.take(i + 1).last() == s@[i as int]);
            assert(out@ =~= escaped_chars(s@.take(i + 1)));
        }
        i = i + 1;
    }
    proof {
        assert(s@.take(n as int) =~= s@);
    }
    out
}

/// Whether a text has the document-store list wrapping: at least two
/// characters, the first an opening bracket and the last a closing one.
pub open spec fn bracket_wrapped(s: Seq<char>) -> bool {
    s.len() >= 2 && s[0] == '[' && s[s.len() - 1] == ']'
}

/// The text with its one layer of list wrapping removed.
pub open spec fn bracket_inner(s: Seq<char>) -> Seq<char> {
    s.subrange(1, s.len() - 1)
}

/// Removes exactly one leading and one trailing bracket, if the text carries
/// that pair; yields nothing otherwise.
pub fn strip_brackets(s: &str) -> (r: Option<&str>)
    ensures
        (r is Some) == bracket_wrapped(s@),
        r matches Some(t) ==> t@ == bracket_inner(s@),
{
    let n: usize = s.unicode_len();
    if n >= 2 && s.get_char(0) == '[' && s.get_char(n - 1) == ']' {
        Some(s.substring_char(1, n - 1))
    } else {
        None
    }
}

} // verus!
