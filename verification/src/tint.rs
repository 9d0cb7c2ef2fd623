//! A profile's `#RRGGBB` chrome tint, read as three byte channels. The
//! renderer turns them into colour components.
//!
//! A tint is an optional `#` followed by exactly six ASCII hex digits (either
//! case); any other text is no colour.

use vstd::prelude::*;
use vstd::string::*;

verus! {

/// The value of an ASCII hex digit (either case).
pub open spec fn hex_digit_spec(c: char) -> Option<u8> {
    if '0' <= c <= '9' {
        Some((c as u32 - '0' as u32) as u8)
    } else if 'a' <= c <= 'f' {
        Some((c as u32 - 'a' as u32 + 10) as u8)
    } else if 'A' <= c <= 'F' {
        Some((c as u32 - 'A' as u32 + 10) as u8)
    } else {
        None
    }
}

/// The byte two hex digits `hi lo` spell.
pub open spec fn hex_pair_spec(hi: char, lo: char) -> Option<u8> {
    match (hex_digit_spec(hi), hex_digit_spec(lo)) {
        (Some(h), Some(l)) => Some((h * 16 + l) as u8),
        _ => None,
    }
}

/// The text after its leading `#`, if it has one.
pub open spec fn strip_hash(s: Seq<char>) -> Seq<char> {
    if s.len() > 0 && s[0] == '#' { s.drop_first() } else { s }
}

/// The channels of a tint text: `Some([r, g, b])` exactly when it is an
/// optional `#` and six hex digits `RRGGBB`.
pub open spec fn tint_spec(s: Seq<char>) -> Option<[u8; 3]> {
    let d = strip_hash(s);
    if d.len() != 6 {
        None
    } else {
        match (hex_pair_spec(d[0], d[1]), hex_pair_spec(d[2], d[3]), hex_pair_spec(d[4], d[5])) {
            (Some(r), Some(g), Some(b)) => Some([r, g, b]),
            _ => None,
        }
    }
}

fn hex_digit(c: char) -> (v: Option<u8>)
    ensures
        v == hex_digit_spec(c),
{
    if '0' <= c && c <= '9' {
        Some((c as u32 - '0' as u32) as u8)
    } else if 'a' <= c && c <= 'f' {
        Some((c as u32 - 'a' as u32 + 10) as u8)
    } else if 'A' <= c && c <= 'F' {
        Some((c as u32 - 'A' as u32 + 10) as u8)
    } else {
        None
    }
}

fn hex_pair(hi: char, lo: char) -> (v: Option<u8>)
    ensures
        v == hex_pair_spec(hi, lo),
{
    match (hex_digit(hi), hex_digit(lo)) {
        (Some(h), Some(l)) => Some(h * 16 + l),
        _ => None,
    }
}

/// Reads a `#RRGGBB` tint into its red, green and blue bytes; `None` when
/// the text is not such a colour.
pub fn parse_hex_rgb(hex: &str) -> (r: Option<[u8; 3]>)
    ensures
        r == tint_spec(hex@),
{
    let n = hex.unicode_len();
    let start: usize = if n > 0 && hex.get_char(0) == '#' { 1 } else { 0 };
    if n - start != 6 {
        return None;
    }
    proof {
        let d = strip_hash(hex@);
        assert forall|i: int| 0 <= i < 6 implies d[i] == hex@[start + i] by {}
    }
    let r = hex_pair(hex.get_char(start), hex.get_char(start + 1));
    let g = hex_pair(hex.get_char(start + 2), hex.get_char(start + 3));
    let b = hex_pair(hex.get_char(start + 4), hex.get_char(start + 5));
    match (r, g, b) {
        (Some(r), Some(g), Some(b)) => Some([r, g, b]),
        _ => None,
    }
}

/// `c` with a lowercase hex letter `a`..`f` turned into its capital.
pub open spec fn upcase_hex_letter(c: char) -> char {
    if 'a' <= c <= 'f' { (c as u32 - 32) as char } else { c }
}

/// Hex digits are read in either case: every ASCII hex digit has a value
/// below 16, a capital letter `A`..`F` has the same value as its lowercase
/// spelling, the letters count on from ten (`a`/`A` is 10, `f`/`F` is 15),
/// the decimal digits count from zero, and nothing else is a digit.
pub proof fn lemma_hex_digits_either_case(c: char)
    ensures
        ('0' <= c <= '9' || 'a' <= c <= 'f' || 'A' <= c <= 'F') <==> hex_digit_spec(c) is Some,
        hex_digit_spec(c) matches Some(v) ==> v < 16,
        'a' <= c <= 'f' ==> hex_digit_spec(upcase_hex_letter(c)) == hex_digit_spec(c),
        'a' <= c <= 'f' ==> hex_digit_spec(c) == Some((10 + (c as u32 - 'a' as u32)) as u8),
        '0' <= c <= '9' ==> hex_digit_spec(c) == Some((c as u32 - '0' as u32) as u8),
{
}

/// Capitalising the hex letters of a tint does not change its colour.
pub proof fn lemma_tint_ignores_letter_case(s: Seq<char>)
    ensures
        tint_spec(s.map_values(|c: char| upcase_hex_letter(c))) == tint_spec(s),
{
    let u = s.map_values(|c: char| upcase_hex_letter(c));
    let ds = strip_hash(s);
    let du = strip_hash(u);
    assert(du =~= ds.map_values(|c: char| upcase_hex_letter(c)));
    if ds.len() == 6 {
        assert forall|k: int| 0 <= k < 6 implies hex_digit_spec(#[trigger] du[k]) == hex_digit_spec(ds[k]) by {
            lemma_hex_digits_either_case(ds[k]);
        }
        assert(hex_pair_spec(du[0], du[1]) == hex_pair_spec(ds[0], ds[1]));
        assert(hex_pair_spec(du[2], du[3]) == hex_pair_spec(ds[2], ds[3]));
        assert(hex_pair_spec(du[4], du[5]) == hex_pair_spec(ds[4], ds[5]));
    }
}

} // verus!
