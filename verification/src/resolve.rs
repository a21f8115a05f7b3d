//! Color and attribute resolution: normalizes user-supplied names
//! (lowercase, trim, an optional `light` prefix, abbreviations) to the
//! eight base palette colors, and maps attribute names to their SGR codes.

use vstd::prelude::*;

use crate::codes::{dec_rep, esc_of_num, esc_seq};
use crate::text::{eq_str, lower_chars, lower_seq, str_to_chars, subvec, trim_chars, trim_seq};

verus! {

/// The eight base colors of the standard terminal palette.
#[derive(Clone, Copy, PartialEq, Eq, Structural, Debug)]
pub enum BaseColor {
    Black,
    Red,
    Green,
    Yellow,
    Blue,
    Magenta,
    Cyan,
    White,
}

/// The offset of a base color within an SGR color block.
pub open spec fn color_offset(c: BaseColor) -> int {
    match c {
        BaseColor::Black => 0,
        BaseColor::Red => 1,
        BaseColor::Green => 2,
        BaseColor::Yellow => 3,
        BaseColor::Blue => 4,
        BaseColor::Magenta => 5,
        BaseColor::Cyan => 6,
        BaseColor::White => 7,
    }
}

/// The SGR code number for a palette color: the 30 block for foregrounds,
/// the 40 block for backgrounds, and 60 more for the light variants.
pub open spec fn color_code_num(c: BaseColor, light: bool, background: bool) -> int {
    color_offset(c) + (if background {
        40int
    } else {
        30int
    }) + (if light {
        60int
    } else {
        0int
    })
}

/// The escape sequence for a palette color.
pub open spec fn color_code_seq(c: BaseColor, light: bool, background: bool) -> Seq<char> {
    esc_seq(dec_rep(color_code_num(c, light, background) as nat))
}

/// The canonical base color for an already-normalized name: each color
/// accepts its full name and a fixed set of abbreviations.
pub open spec fn base_of(s: Seq<char>) -> Option<BaseColor> {
    if s == "b"@ || s == "bk"@ || s == "black"@ {
        Some(BaseColor::Black)
    } else if s == "r"@ || s == "rd"@ || s == "re"@ || s == "red"@ {
        Some(BaseColor::Red)
    } else if s == "g"@ || s == "gr"@ || s == "ge"@ || s == "green"@ {
        Some(BaseColor::Green)
    } else if s == "y"@ || s == "ye"@ || s == "yl"@ || s == "yellow"@ {
        Some(BaseColor::Yellow)
    } else if s == "bl"@ || s == "blue"@ {
        Some(BaseColor::Blue)
    } else if s == "m"@ || s == "mg"@ || s == "ma"@ || s == "magenta"@ {
        Some(BaseColor::Magenta)
    } else if s == "c"@ || s == "cy"@ || s == "cn"@ || s == "cyan"@ {
        Some(BaseColor::Cyan)
    } else if s == "w"@ || s == "wh"@ || s == "wi"@ || s == "wt"@ || s == "white"@ {
        Some(BaseColor::White)
    } else {
        None
    }
}

/// A user-supplied color name, lowercased and trimmed.
pub open spec fn normalize(s: Seq<char>) -> Seq<char> {
    trim_seq(lower_seq(s))
}

/// The meaning of a color name: its base color, and whether the `light`
/// prefix asked for the light variant. Unrecognized names mean nothing.
pub open spec fn resolve_color(name: Seq<char>) -> Option<(BaseColor, bool)> {
    let n = normalize(name);
    if n.len() >= 5 && n.subrange(0, 5) == "light"@ {
        match base_of(n.skip(5)) {
            Some(b) => Some((b, true)),
            None => None,
        }
    } else {
        match base_of(n) {
            Some(b) => Some((b, false)),
            None => None,
        }
    }
}

/// The escape code a color name denotes, if it resolves.
pub open spec fn named_code(name: Seq<char>, background: bool) -> Option<Seq<char>> {
    match resolve_color(name) {
        Some((b, light)) => Some(color_code_seq(b, light, background)),
        None => None,
    }
}

/// The SGR code number an attribute name denotes (lowercased, not trimmed).
pub open spec fn attribute_num(s: Seq<char>) -> Option<int> {
    let n = lower_seq(s);
    if n == "bold"@ {
        Some(1int)
    } else if n == "dim"@ {
        Some(2int)
    } else if n == "italic"@ {
        Some(3int)
    } else if n == "underline"@ {
        Some(4int)
    } else if n == "blink"@ {
        Some(5int)
    } else if n == "reverse"@ {
        Some(7int)
    } else if n == "hidden"@ {
        Some(8int)
    } else if n == "strikethrough"@ {
        Some(9int)
    } else {
        None
    }
}

/// The escape code for an attribute name, if recognized.
pub open spec fn attribute_code(s: Seq<char>) -> Option<Seq<char>> {
    match attribute_num(s) {
        Some(n) => Some(esc_seq(dec_rep(n as nat))),
        None => None,
    }
}

/// The SGR code number for a palette color, as an executable value.
fn color_num_exec(c: BaseColor, light: bool, background: bool) -> (n: u8)
    ensures
        n as int == color_code_num(c, light, background),
{
    let off: u8 = match c {
        BaseColor::Black => 0,
        BaseColor::Red => 1,
        BaseColor::Green => 2,
        BaseColor::Yellow => 3,
        BaseColor::Blue => 4,
        BaseColor::Magenta => 5,
        BaseColor::Cyan => 6,
        BaseColor::White => 7,
    };
    let block: u8 = if background {
        40
    } else {
        30
    };
    let light_off: u8 = if light {
        60
    } else {
        0
    };
    off + block + light_off
}

/// Looks an already-normalized name up in the abbreviation table.
fn base_of_exec(v: &Vec<char>) -> (r: Option<BaseColor>)
    ensures
        r == base_of(v@),
{
    if eq_str(v, "b") || eq_str(v, "bk") || eq_str(v, "black") {
        Some(BaseColor::Black)
    } else if eq_str(v, "r") || eq_str(v, "rd") || eq_str(v, "re") || eq_str(v, "red") {
        Some(BaseColor::Red)
    } else if eq_str(v, "g") || eq_str(v, "gr") || eq_str(v, "ge") || eq_str(v, "green") {
        Some(BaseColor::Green)
    } else if eq_str(v, "y") || eq_str(v, "ye") || eq_str(v, "yl") || eq_str(v, "yellow") {
        Some(BaseColor::Yellow)
    } else if eq_str(v, "bl") || eq_str(v, "blue") {
        Some(BaseColor::Blue)
    } else if eq_str(v, "m") || eq_str(v, "mg") || eq_str(v, "ma") || eq_str(v, "magenta") {
        Some(BaseColor::Magenta)
    } else if eq_str(v, "c") || eq_str(v, "cy") || eq_str(v, "cn") || eq_str(v, "cyan") {
        Some(BaseColor::Cyan)
    } else if eq_str(v, "w") || eq_str(v, "wh") || eq_str(v, "wi") || eq_str(v, "wt") || eq_str(
        v,
        "white",
    ) {
        Some(BaseColor::White)
    } else {
        None
    }
}

/// Resolves a color name or abbreviation (`"red"`, `"r"`, `"lightblue"`,
/// ...) to its escape string; `None` when the name is not recognized.
pub fn get_color_code(color: &str, background: bool) -> (r: Option<String>)
    ensures
        r.deep_view() == named_code(color@, background),
{
    let chars = str_to_chars(color);
    let lowered = lower_chars(&chars);
    let mut base_chars = trim_chars(&lowered);
    let mut light = false;
    proof {
        assert(base_chars@ == normalize(color@));
    }
    if base_chars.len() >= 5 {
        let prefix = subvec(&base_chars, 0, 5);
        if eq_str(&prefix, "light") {
            light = true;
            let rest = subvec(&base_chars, 5, base_chars.len());
            proof {
                assert(rest@ =~= normalize(color@).skip(5));
            }
            base_chars = rest;
        }
    }
    match base_of_exec(&base_chars) {
        Some(b) => {
            let num = color_num_exec(b, light, background);
            let code = esc_of_num(num);
            proof {
                assert(num as nat == color_code_num(b, light, background) as nat);
            }
            Some(code)
        },
        None => None,
    }
}

/// Maps an attribute name (`"bold"`, `"underline"`, ...) to its escape
/// string; `None` when the name is not recognized.
pub fn get_attribute_code(attr: &str) -> (r: Option<String>)
    ensures
        r.deep_view() == attribute_code(attr@),
{
    let chars = str_to_chars(attr);
    let lowered = lower_chars(&chars);
    if eq_str(&lowered, "bold") {
        Some(esc_of_num(1))
    } else if eq_str(&lowered, "dim") {
        Some(esc_of_num(2))
    } else if eq_str(&lowered, "italic") {
        Some(esc_of_num(3))
    } else if eq_str(&lowered, "underline") {
        Some(esc_of_num(4))
    } else if eq_str(&lowered, "blink") {
        Some(esc_of_num(5))
    } else if eq_str(&lowered, "reverse") {
        Some(esc_of_num(7))
    } else if eq_str(&lowered, "hidden") {
        Some(esc_of_num(8))
    } else if eq_str(&lowered, "strikethrough") {
        Some(esc_of_num(9))
    } else {
        None
    }
}

} // verus!
