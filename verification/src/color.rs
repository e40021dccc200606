//! Color parsing: hex strings and a small set of named colors, resolved to
//! 8-bit RGBA values.

use vstd::prelude::*;

verus! {

/// An 8-bit-per-channel RGBA color.
#[derive(Clone, Copy, Debug, PartialEq, Eq, Structural)]
pub struct Rgba8 {
    pub r: u8,
    pub g: u8,
    pub b: u8,
    pub a: u8,
}

/// Why a color string was rejected.
#[derive(Clone, Copy, Debug, PartialEq, Eq, Structural)]
pub enum ColorError {
    /// The string is neither a known color name nor 6 or 8 hex digits
    /// (optionally prefixed with `#`).
    InvalidColorFormat,
}

pub open spec fn is_hex_digit(c: char) -> bool {
    ('0' <= c && c <= '9') || ('a' <= c && c <= 'f') || ('A' <= c && c <= 'F')
}

pub open spec fn hex_val(c: char) -> int {
    if '0' <= c && c <= '9' {
        c as int - '0' as int
    } else if 'a' <= c && c <= 'f' {
        c as int - 'a' as int + 10
    } else {
        c as int - 'A' as int + 10
    }
}

/// The byte denoted by two hex digits, high digit first.
pub open spec fn hex_byte(hi: char, lo: char) -> int {
    hex_val(hi) * 16 + hex_val(lo)
}

/// Strip one optional leading `#`.
pub open spec fn strip_hash(s: Seq<char>) -> Seq<char> {
    if s.len() > 0 && s[0] == '#' {
        s.drop_first()
    } else {
        s
    }
}

pub open spec fn all_hex(s: Seq<char>) -> bool {
    forall|i: int| 0 <= i < s.len() ==> is_hex_digit(#[trigger] s[i])
}

/// The color denoted by a hex string: after stripping one optional `#`,
/// exactly 6 hex digits give RGB with full alpha, exactly 8 give RGBA,
/// anything else is rejected.
pub open spec fn hex_color_spec(s: Seq<char>) -> Option<Rgba8> {
    let h = strip_hash(s);
    if h.len() == 6 && all_hex(h) {
        Some(
            Rgba8 {
                r: hex_byte(h[0], h[1]) as u8,
                g: hex_byte(h[2], h[3]) as u8,
                b: hex_byte(h[4], h[5]) as u8,
                a: 255,
            },
        )
    } else if h.len() == 8 && all_hex(h) {
        Some(
            Rgba8 {
                r: hex_byte(h[0], h[1]) as u8,
                g: hex_byte(h[2], h[3]) as u8,
                b: hex_byte(h[4], h[5]) as u8,
                a: hex_byte(h[6], h[7]) as u8,
            },
        )
    } else {
        None
    }
}

/// Character codes compared case-insensitively: ASCII upper-case letters
/// are folded onto their lower-case counterparts.
pub open spec fn lower_code(c: char) -> int {
    if 'A' <= c && c <= 'Z' {
        c as int + 32
    } else {
        c as int
    }
}

pub open spec fn eq_ignore_case_spec(s: Seq<char>, t: Seq<char>) -> bool {
    s.len() == t.len() && forall|i: int|
        0 <= i < s.len() ==> lower_code(#[trigger] s[i]) == lower_code(t[i])
}

/// The fixed set of color names, matched case-insensitively.
pub open spec fn named_color_spec(s: Seq<char>) -> Option<Rgba8> {
    if eq_ignore_case_spec(s, "white"@) {
        Some(Rgba8 { r: 255, g: 255, b: 255, a: 255 })
    } else if eq_ignore_case_spec(s, "black"@) {
        Some(Rgba8 { r: 0, g: 0, b: 0, a: 255 })
    } else if eq_ignore_case_spec(s, "red"@) {
        Some(Rgba8 { r: 255, g: 0, b: 0, a: 255 })
    } else if eq_ignore_case_spec(s, "green"@) {
        Some(Rgba8 { r: 0, g: 255, b: 0, a: 255 })
    } else if eq_ignore_case_spec(s, "blue"@) {
        Some(Rgba8 { r: 0, g: 0, b: 255, a: 255 })
    } else if eq_ignore_case_spec(s, "yellow"@) {
        Some(Rgba8 { r: 255, g: 255, b: 0, a: 255 })
    } else if eq_ignore_case_spec(s, "orange"@) {
        Some(Rgba8 { r: 255, g: 165, b: 0, a: 255 })
    } else if eq_ignore_case_spec(s, "purple"@) {
        Some(Rgba8 { r: 128, g: 0, b: 128, a: 255 })
    } else {
        None
    }
}

/// What a color string denotes: a name is resolved before hex parsing is
/// attempted.
pub open spec fn color_spec(s: Seq<char>) -> Option<Rgba8> {
    match named_color_spec(s) {
        Some(c) => Some(c),
        None => hex_color_spec(s),
    }
}

/// Case-insensitive string comparison.
pub fn eq_ignore_case(s: &str, t: &str) -> (r: bool)
    ensures
        r == eq_ignore_case_spec(s@, t@),
{
    let ns = s.unicode_len();
    let nt = t.unicode_len();
    if ns != nt {
        return false;
    }
    for i in 0..ns
        invariant
            ns == s@.len() && ns == t@.len(),
            forall|j: int| 0 <= j < i ==> lower_code(#[trigger] s@[j]) == lower_code(t@[j]),
    {
        let cs = s.get_char(i) as u32;
        let ct = t.get_char(i) as u32;
        let ls = if 65 <= cs && cs <= 90 {
            cs + 32
        } else {
            cs
        };
        let lt = if 65 <= ct && ct <= 90 {
            ct + 32
        } else {
            ct
        };
        if ls != lt {
            return false;
        }
    }
    true
}

/// Resolve a color string: a member of the fixed name set (case-insensitive),
/// or else a hex string as `hex_to_rgba` accepts it.
pub fn parse_color(input: &str) -> (r: Result<Rgba8, ColorError>)
    ensures
        match r {
            Ok(c) => color_spec(input@) == Some(c),
            Err(e) => color_spec(input@) is None && e == ColorError::InvalidColorFormat,
        },
{
    if eq_ignore_case(input, "white") {
        Ok(Rgba8 { r: 255, g: 255, b: 255, a: 255 })
    } else if eq_ignore_case(input, "black") {
        Ok(Rgba8 { r: 0, g: 0, b: 0, a: 255 })
    } else if eq_ignore_case(input, "red") {
        Ok(Rgba8 { r: 255, g: 0, b: 0, a: 255 })
    } else if eq_ignore_case(input, "green") {
        Ok(Rgba8 { r: 0, g: 255, b: 0, a: 255 })
    } else if eq_ignore_case(input, "blue") {
        Ok(Rgba8 { r: 0, g: 0, b: 255, a: 255 })
    } else if eq_ignore_case(input, "yellow") {
        Ok(Rgba8 { r: 255, g: 255, b: 0, a: 255 })
    } else if eq_ignore_case(input, "orange") {
        Ok(Rgba8 { r: 255, g: 165, b: 0, a: 255 })
    } else if eq_ignore_case(input, "purple") {
        Ok(Rgba8 { r: 128, g: 0, b: 128, a: 255 })
    } else {
        hex_to_rgba(input)
    }
}

/// A valid 6-digit hex string always parses with full alpha.
pub proof fn lemma_six_digit_alpha(s: Seq<char>)
    requires
        strip_hash(s).len() == 6,
        all_hex(strip_hash(s)),
    ensures
        hex_color_spec(s) is Some,
        hex_color_spec(s)->0.a == 255,
{
}

/// A valid 8-digit hex string parses, and its alpha is exactly the byte
/// written by the fourth digit pair.
pub proof fn lemma_eight_digit_alpha(s: Seq<char>)
    requires
        strip_hash(s).len() == 8,
        all_hex(strip_hash(s)),
    ensures
        hex_color_spec(s) is Some,
        hex_color_spec(s)->0.a == hex_byte(strip_hash(s)[6], strip_hash(s)[7]),
{
    let h = strip_hash(s);
    assert(is_hex_digit(h[6]) && is_hex_digit(h[7]));
    assert(0 <= hex_val(h[6]) < 16 && 0 <= hex_val(h[7]) < 16);
}

/// Any hex string of the wrong length, or with a non-hex character in a
/// digit position, denotes no color.
pub proof fn lemma_bad_hex_rejected(s: Seq<char>)
    requires
        (strip_hash(s).len() != 6 && strip_hash(s).len() != 8) || !all_hex(strip_hash(s)),
    ensures
        hex_color_spec(s) is None,
{
}

/// The value of one hex digit, or `None` for any other character.
fn hex_digit_val(c: char) -> (r: Option<u8>)
    ensures
        r is Some <==> is_hex_digit(c),
        r is Some ==> r->0 == hex_val(c) && r->0 < 16,
{
    let u = c as u32;
    if 48 <= u && u <= 57 {
        Some((u - 48) as u8)
    } else if 97 <= u && u <= 102 {
        Some((u - 97 + 10) as u8)
    } else if 65 <= u && u <= 70 {
        Some((u - 65 + 10) as u8)
    } else {
        None
    }
}

/// The byte written by the two hex digits of `s` at `i` and `i + 1`, or
/// `None` if either character is not a hex digit.
fn hex_byte_at(s: &str, i: usize) -> (r: Option<u8>)
    requires
        i + 1 < s@.len(),
        s@.len() <= usize::MAX,
    ensures
        r is Some <==> is_hex_digit(s@[i as int]) && is_hex_digit(s@[i + 1]),
        r is Some ==> r->0 == hex_byte(s@[i as int], s@[i + 1]),
{
    let hi = s.get_char(i);
    let lo = s.get_char(i + 1);
    match (hex_digit_val(hi), hex_digit_val(lo)) {
        (Some(h), Some(l)) => Some(h * 16 + l),
        _ => None,
    }
}

/// Parse a hex color string: one optional `#`, then exactly 6 hex digits
/// (alpha defaults to 255) or exactly 8 (the last pair is the alpha).
pub fn hex_to_rgba(hex: &str) -> (r: Result<Rgba8, ColorError>)
    ensures
        match r {
            Ok(c) => hex_color_spec(hex@) == Some(c),
            Err(e) => hex_color_spec(hex@) is None && e == ColorError::InvalidColorFormat,
        },
{
    let n = hex.unicode_len();
    let start: usize = if n > 0 && hex.get_char(0) == '#' {
        1
    } else {
        0
    };
    let ghost h = strip_hash(hex@);
    proof {
        assert(h =~= hex@.subrange(start as int, hex@.len() as int));
    }
    let digits = n - start;
    if digits != 6 && digits != 8 {
        return Err(ColorError::InvalidColorFormat);
    }
    let rr = hex_byte_at(hex, start);
    let gg = hex_byte_at(hex, start + 2);
    let bb = hex_byte_at(hex, start + 4);
    match (rr, gg, bb) {
        (Some(r), Some(g), Some(b)) => {
            if digits == 8 {
                match hex_byte_at(hex, start + 6) {
                    Some(a) => {
                        proof {
                            assert(all_hex(h)) by {
                                assert forall|i: int| 0 <= i < h.len() implies is_hex_digit(
                                    #[trigger] h[i],
                                ) by {
                                    assert(h[i] == hex@[start + i]);
                                }
                            }
                        }
                        Ok(Rgba8 { r, g, b, a })
                    },
                    None => Err(ColorError::InvalidColorFormat),
                }
            } else {
                proof {
                    assert(all_hex(h)) by {
                        assert forall|i: int| 0 <= i < h.len() implies is_hex_digit(
                            #[trigger] h[i],
                        ) by {
                            assert(h[i] == hex@[start + i]);
                        }
                    }
                }
                Ok(Rgba8 { r, g, b, a: 255 })
            }
        },
        _ => Err(ColorError::InvalidColorFormat),
    }
}

} // verus!
