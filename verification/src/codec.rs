//! Hex-escape codec: turns a human-typed command string into the literal
//! character sequence to transmit, decoding 4-character escapes of the form
//! `0xHH` (marker `x` or `X`; digits `0`-`9` or upper-case `A`-`F`) into the
//! single character with that code.

use vstd::prelude::*;

verus! {

/// A hex digit of an escape: `0`-`9` or upper-case `A`-`F` (lower-case
/// `a`-`f` is accepted only as the marker, never as a digit).
pub open spec fn is_escape_hex_digit(c: char) -> bool {
    ('0' <= c && c <= '9') || ('A' <= c && c <= 'F')
}

/// Numeric value of an escape hex digit.
pub open spec fn escape_hex_val(c: char) -> int
    recommends
        is_escape_hex_digit(c),
{
    if '0' <= c && c <= '9' {
        c as int - '0' as int
    } else {
        c as int - 'A' as int + 10
    }
}

/// The 4-character window starting at `i` is a well-formed escape:
/// `'0'`, then `'x'` or `'X'`, then two escape hex digits.
pub open spec fn escape_at(s: Seq<char>, i: int) -> bool {
    &&& 0 <= i
    &&& i + 4 <= s.len()
    &&& s[i] == '0'
    &&& (s[i + 1] == 'x' || s[i + 1] == 'X')
    &&& is_escape_hex_digit(s[i + 2])
    &&& is_escape_hex_digit(s[i + 3])
}

/// The character an escape at `i` denotes: the code point given by its
/// two hex digits (always at most 255).
pub open spec fn escape_char(s: Seq<char>, i: int) -> char
    recommends
        escape_at(s, i),
{
    ((escape_hex_val(s[i + 2]) * 16 + escape_hex_val(s[i + 3])) as u8) as char
}

/// The scan from window position `i` on: a matching window contributes its
/// decoded character and the window jumps past the whole escape; any other
/// window contributes its first character and the window slides by one.
/// The scan stops as soon as no full 4-character window is left, so up to
/// three trailing characters not consumed by an escape are dropped.
pub open spec fn encode_from(s: Seq<char>, i: int) -> Seq<char>
    decreases s.len() - i,
{
    if i < 0 || i + 4 > s.len() {
        Seq::empty()
    } else if escape_at(s, i) {
        seq![escape_char(s, i)] + encode_from(s, i + 4)
    } else {
        seq![s[i]] + encode_from(s, i + 1)
    }
}

/// What the codec produces: inputs shorter than four characters are returned
/// unchanged; anything longer is scanned from the start.
pub open spec fn encode(s: Seq<char>) -> Seq<char> {
    if s.len() < 4 {
        s
    } else {
        encode_from(s, 0)
    }
}

/// Law: escape matching demands the digits `0`-`9` or upper-case `A`-`F`; a
/// lower-case letter `a`-`f` in either digit position defeats the escape, and
/// the window's first character is then copied through verbatim, the window
/// sliding on by one.
pub proof fn lemma_lowercase_digit_defeats_escape(s: Seq<char>, i: int)
    requires
        0 <= i,
        i + 4 <= s.len(),
        ('a' <= s[i + 2] && s[i + 2] <= 'f') || ('a' <= s[i + 3] && s[i + 3] <= 'f'),
    ensures
        !escape_at(s, i),
        encode_from(s, i) == seq![s[i]] + encode_from(s, i + 1),
{
}

/// Law: a well-formed escape window is decoded into the single character its
/// two digits denote, and the scan consumes all four characters of the window.
pub proof fn lemma_escape_consumed(s: Seq<char>, i: int)
    requires
        escape_at(s, i),
    ensures
        encode_from(s, i) == seq![escape_char(s, i)] + encode_from(s, i + 4),
{
}

/// Relies on str::chars: yields exactly the characters of the string, in order.
#[verifier::external_body]
fn str_chars(s: &str) -> (r: Vec<char>)
    ensures
        r@ == s@,
{
    s.chars().collect()
}

/// Relies on String's FromIterator impl over char: the collected string holds
/// exactly the given characters, in order.
#[verifier::external_body]
pub(crate) fn chars_to_string(v: &Vec<char>) -> (r: String)
    ensures
        r@ == v@,
{
    v.iter().collect()
}

/// Numeric value of an escape hex digit.
fn escape_hex_digit_val(c: char) -> (v: u8)
    requires
        is_escape_hex_digit(c),
    ensures
        v == escape_hex_val(c),
        v <= 15,
{
    let u = c as u32;
    if u <= 57 {
        (u - 48) as u8
    } else {
        (u - 65 + 10) as u8
    }
}

/// Whether `c` may stand as a hex digit of an escape.
fn is_escape_hex_digit_exec(c: char) -> (r: bool)
    ensures
        r == is_escape_hex_digit(c),
{
    let u = c as u32;
    (48 <= u && u <= 57) || (65 <= u && u <= 70)
}

/// Decodes every `0xHH` escape of `s` (marker `x` or `X`, digits `0`-`9` or
/// upper-case `A`-`F`) into the single character with that code and copies
/// every character not part of an escape through verbatim, scanning with a
/// 4-character sliding window; inputs shorter than four characters come back
/// unchanged.
pub fn parse_str_to_serial(s: &str) -> (r: String)
    ensures
        r@ == encode(s@),
        s@.len() < 4 ==> r@ == s@,
{
    let chars: Vec<char> = str_chars(s);
    let n: usize = chars.len();
    if n < 4 {
        return chars_to_string(&chars);
    }
    let mut out: Vec<char> = Vec::new();
    let mut i: usize = 0;
    while i <= n - 4
        invariant
            chars@ == s@,
            n == s@.len(),
            4 <= n,
            0 <= i <= n,
            encode_from(s@, 0) == out@ + encode_from(s@, i as int),
        decreases n - i,
    {
        let c0 = chars[i];
        let c1 = chars[i + 1];
        let c2 = chars[i + 2];
        let c3 = chars[i + 3];
        if c0 == '0' && (c1 == 'x' || c1 == 'X') && is_escape_hex_digit_exec(c2)
            && is_escape_hex_digit_exec(c3) {
            assert(escape_at(s@, i as int));
            let hi = escape_hex_digit_val(c2);
            let lo = escape_hex_digit_val(c3);
            let b: u8 = hi * 16 + lo;
            assert(b as char == escape_char(s@, i as int));
            out.push(b as char);
            assert(encode_from(s@, i as int) == seq![escape_char(s@, i as int)] + encode_from(
                s@,
                i as int + 4,
            ));
            i = i + 4;
        } else {
            assert(!escape_at(s@, i as int));
            out.push(c0);
            assert(encode_from(s@, i as int) == seq![s@[i as int]] + encode_from(
                s@,
                i as int + 1,
            ));
            i = i + 1;
        }
    }
    assert(encode_from(s@, i as int) =~= Seq::<char>::empty());
    assert(out@ =~= encode(s@));
    chars_to_string(&out)
}

} // verus!
