//! Strict hex color parsing: one optional leading `#`, then exactly six
//! hex digits, two per channel. Anything else is an explicit error that
//! carries the offending remainder.

use vstd::prelude::*;

verus! {

/// Errors this library reports. Each variant carries the offending input.
#[derive(Debug, Clone, PartialEq, Eq)]
pub enum MakeColorsError {
    InvalidHexColor(String),
    InvalidColorName(String),
}

impl MakeColorsError {
    /// A human-readable description of the error.
    pub fn message(&self) -> (s: String)
        ensures
            match self {
                MakeColorsError::InvalidHexColor(h) => s@ == "Invalid hex color: "@ + h@,
                MakeColorsError::InvalidColorName(n) => s@ == "Invalid color name: "@ + n@,
            },
    {
        match self {
            MakeColorsError::InvalidHexColor(h) => {
                let mut m = String::from_str("Invalid hex color: ");
                m.append(h.as_str());
                m
            },
            MakeColorsError::InvalidColorName(n) => {
                let mut m = String::from_str("Invalid color name: ");
                m.append(n.as_str());
                m
            },
        }
    }
}

/// Whether `c` is a hex digit, upper or lower case.
pub open spec fn is_hex_digit(c: char) -> bool {
    (48 <= c as u32 && c as u32 <= 57) || (97 <= c as u32 && c as u32 <= 102) || (65 <= c as u32
        && c as u32 <= 70)
}

/// The value of a hex digit.
pub open spec fn hex_val(c: char) -> int {
    if 48 <= c as u32 && c as u32 <= 57 {
        c as int - 48
    } else if 97 <= c as u32 && c as u32 <= 102 {
        c as int - 87
    } else {
        c as int - 55
    }
}

/// The input with one leading `#`, if any, removed.
pub open spec fn strip_hash(s: Seq<char>) -> Seq<char> {
    if s.len() > 0 && s[0] == '#' {
        s.drop_first()
    } else {
        s
    }
}

/// Whether the remainder after `strip_hash` is exactly six hex digits.
pub open spec fn valid_hex(s: Seq<char>) -> bool {
    let h = strip_hash(s);
    h.len() == 6 && (forall|i: int| 0 <= i < 6 ==> is_hex_digit(h[i]))
}

/// The channel value of a two-digit pair.
pub open spec fn pair_val(hi: char, lo: char) -> int {
    16 * hex_val(hi) + hex_val(lo)
}

/// The three channels a valid hex color string denotes.
pub open spec fn hex_channels(s: Seq<char>) -> (u8, u8, u8)
    recommends
        valid_hex(s),
{
    let h = strip_hash(s);
    (pair_val(h[0], h[1]) as u8, pair_val(h[2], h[3]) as u8, pair_val(h[4], h[5]) as u8)
}

/// Whether `c` is a hex digit.
fn is_hex_digit_exec(c: char) -> (r: bool)
    ensures
        r == is_hex_digit(c),
{
    let u: u32 = c as u32;
    (48 <= u && u <= 57) || (97 <= u && u <= 102) || (65 <= u && u <= 70)
}

/// The value of the hex digit `c`.
fn hex_val_exec(c: char) -> (v: u8)
    requires
        is_hex_digit(c),
    ensures
        v as int == hex_val(c),
        v < 16,
{
    let u: u32 = c as u32;
    if 48 <= u && u <= 57 {
        (u - 48) as u8
    } else if 97 <= u && u <= 102 {
        (u - 87) as u8
    } else {
        (u - 55) as u8
    }
}

/// Parses a hex color string (`"#RRGGBB"` or `"RRGGBB"`) into its three
/// channels. Succeeds exactly on valid six-digit strings; any other input
/// is an `InvalidHexColor` error carrying the remainder after the `#`.
pub fn hex_to_rgb(hex: &str) -> (r: Result<(u8, u8, u8), MakeColorsError>)
    ensures
        valid_hex(hex@) ==> (r matches Ok(t) && t == hex_channels(hex@)),
        !valid_hex(hex@) ==> (r matches Err(e) && (e matches MakeColorsError::InvalidHexColor(s)
            && s@ == strip_hash(hex@))),
{
    let n = hex.unicode_len();
    let start: usize = if n >= 1 && hex.get_char(0) == '#' {
        1
    } else {
        0
    };
    proof {
        assert(strip_hash(hex@) =~= hex@.subrange(start as int, n as int));
    }
    if n - start != 6 {
        let rest = hex.substring_char(start, n);
        return Err(MakeColorsError::InvalidHexColor(String::from_str(rest)));
    }
    let c0 = hex.get_char(start);
    let c1 = hex.get_char(start + 1);
    let c2 = hex.get_char(start + 2);
    let c3 = hex.get_char(start + 3);
    let c4 = hex.get_char(start + 4);
    let c5 = hex.get_char(start + 5);
    if !(is_hex_digit_exec(c0) && is_hex_digit_exec(c1) && is_hex_digit_exec(c2)
        && is_hex_digit_exec(c3) && is_hex_digit_exec(c4) && is_hex_digit_exec(c5)) {
        proof {
            let h = strip_hash(hex@);
            assert(h[0] == c0 && h[1] == c1 && h[2] == c2 && h[3] == c3 && h[4] == c4 && h[5]
                == c5);
        }
        let rest = hex.substring_char(start, n);
        return Err(MakeColorsError::InvalidHexColor(String::from_str(rest)));
    }
    proof {
        let h = strip_hash(hex@);
        assert(h[0] == c0 && h[1] == c1 && h[2] == c2 && h[3] == c3 && h[4] == c4 && h[5] == c5);
    }
    let red: u8 = 16 * hex_val_exec(c0) + hex_val_exec(c1);
    let green: u8 = 16 * hex_val_exec(c2) + hex_val_exec(c3);
    let blue: u8 = 16 * hex_val_exec(c4) + hex_val_exec(c5);
    Ok((red, green, blue))
}

} // verus!
