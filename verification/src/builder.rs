//! A chainable accumulator for colorize requests: named or explicit RGB
//! colors per channel, hex shortcuts, and attributes, built into the same
//! output the direct functions produce.

use vstd::prelude::*;

use crate::codes::{reset_str, rgb_code, rgb_code_seq};
use crate::hex::{hex_channels, hex_to_rgb, strip_hash, valid_hex, MakeColorsError};
use crate::resolve::{get_color_code, named_code};
use crate::style::{attrs_part_vec, styled_output};

verus! {

/// Accumulated state for one colorize operation. On `build`, an explicit
/// RGB value set for a channel takes precedence over a named color set
/// for the same channel.
pub struct ColorBuilder {
    pub text: String,
    pub fg: Option<String>,
    pub bg: Option<String>,
    pub fg_rgb: Option<(u8, u8, u8)>,
    pub bg_rgb: Option<(u8, u8, u8)>,
    pub attrs: Vec<String>,
}

/// The foreground code a builder denotes: the explicit RGB value if one
/// is set, else the named color, else none.
pub open spec fn builder_fg_code(b: ColorBuilder) -> Option<Seq<char>> {
    match b.fg_rgb {
        Some(t) => Some(rgb_code_seq(false, t.0, t.1, t.2)),
        None => match b.fg {
            Some(name) => named_code(name@, false),
            None => None,
        },
    }
}

/// The background code a builder denotes, with the same precedence.
pub open spec fn builder_bg_code(b: ColorBuilder) -> Option<Seq<char>> {
    match b.bg_rgb {
        Some(t) => Some(rgb_code_seq(true, t.0, t.1, t.2)),
        None => match b.bg {
            Some(name) => named_code(name@, true),
            None => None,
        },
    }
}

/// The string a builder builds.
pub open spec fn builder_output(b: ColorBuilder) -> Seq<char> {
    styled_output(b.text@, builder_fg_code(b), builder_bg_code(b), b.attrs.deep_view())
}

impl ColorBuilder {
    /// A builder for `text` with nothing set yet.
    pub fn new(text: &str) -> (res: Self)
        ensures
            res.text@ == text@,
            res.fg is None,
            res.bg is None,
            res.fg_rgb is None,
            res.bg_rgb is None,
            res.attrs@.len() == 0,
    {
        ColorBuilder {
            text: String::from_str(text),
            fg: None,
            bg: None,
            fg_rgb: None,
            bg_rgb: None,
            attrs: Vec::new(),
        }
    }

    /// Sets the named foreground color.
    pub fn fg(self, color: &str) -> (res: Self)
        ensures
            res.fg matches Some(c) && c@ == color@,
            res.text == self.text,
            res.bg == self.bg,
            res.fg_rgb == self.fg_rgb,
            res.bg_rgb == self.bg_rgb,
            res.attrs == self.attrs,
    {
        ColorBuilder { fg: Some(String::from_str(color)), ..self }
    }

    /// Sets the named background color.
    pub fn bg(self, color: &str) -> (res: Self)
        ensures
            res.bg matches Some(c) && c@ == color@,
            res.text == self.text,
            res.fg == self.fg,
            res.fg_rgb == self.fg_rgb,
            res.bg_rgb == self.bg_rgb,
            res.attrs == self.attrs,
    {
        ColorBuilder { bg: Some(String::from_str(color)), ..self }
    }

    /// Sets the explicit RGB foreground from a hex string; fails on a
    /// malformed one, short-circuiting the chain.
    pub fn fg_hex(self, hex: &str) -> (res: Result<Self, MakeColorsError>)
        ensures
            valid_hex(hex@) ==> (res matches Ok(b) && (b.fg_rgb == Some(hex_channels(hex@))
                && b.text == self.text && b.fg == self.fg && b.bg == self.bg && b.bg_rgb
                == self.bg_rgb && b.attrs == self.attrs)),
            !valid_hex(hex@) ==> (res matches Err(e) && (e
                matches MakeColorsError::InvalidHexColor(h) && h@ == strip_hash(hex@))),
    {
        match hex_to_rgb(hex) {
            Ok(t) => Ok(ColorBuilder { fg_rgb: Some(t), ..self }),
            Err(e) => Err(e),
        }
    }

    /// Sets the explicit RGB background from a hex string; fails on a
    /// malformed one.
    pub fn bg_hex(self, hex: &str) -> (res: Result<Self, MakeColorsError>)
        ensures
            valid_hex(hex@) ==> (res matches Ok(b) && (b.bg_rgb == Some(hex_channels(hex@))
                && b.text == self.text && b.fg == self.fg && b.bg == self.bg && b.fg_rgb
                == self.fg_rgb && b.attrs == self.attrs)),
            !valid_hex(hex@) ==> (res matches Err(e) && (e
                matches MakeColorsError::InvalidHexColor(h) && h@ == strip_hash(hex@))),
    {
        match hex_to_rgb(hex) {
            Ok(t) => Ok(ColorBuilder { bg_rgb: Some(t), ..self }),
            Err(e) => Err(e),
        }
    }

    /// Sets the explicit RGB foreground.
    pub fn fg_rgb(self, r: u8, g: u8, b: u8) -> (res: Self)
        ensures
            res.fg_rgb == Some((r, g, b)),
            res.text == self.text,
            res.fg == self.fg,
            res.bg == self.bg,
            res.bg_rgb == self.bg_rgb,
            res.attrs == self.attrs,
    {
        ColorBuilder { fg_rgb: Some((r, g, b)), ..self }
    }

    /// Sets the explicit RGB background.
    pub fn bg_rgb(self, r: u8, g: u8, b: u8) -> (res: Self)
        ensures
            res.bg_rgb == Some((r, g, b)),
            res.text == self.text,
            res.fg == self.fg,
            res.bg == self.bg,
            res.fg_rgb == self.fg_rgb,
            res.attrs == self.attrs,
    {
        ColorBuilder { bg_rgb: Some((r, g, b)), ..self }
    }

    /// Adds an attribute by name; unrecognized names are kept and later
    /// skipped by `build`.
    pub fn attr(self, attr: &str) -> (res: Self)
        ensures
            res.attrs.deep_view() == self.attrs.deep_view().push(attr@),
            res.text == self.text,
            res.fg == self.fg,
            res.bg == self.bg,
            res.fg_rgb == self.fg_rgb,
            res.bg_rgb == self.bg_rgb,
    {
        let mut s = self;
        s.attrs.push(String::from_str(attr));
        proof {
            assert(s.attrs.deep_view() =~= self.attrs.deep_view().push(attr@));
        }
        s
    }

    /// Adds the bold attribute.
    pub fn bold(self) -> (res: Self)
        ensures
            res.attrs.deep_view() == self.attrs.deep_view().push("bold"@),
            res.text == self.text,
            res.fg == self.fg,
            res.bg == self.bg,
            res.fg_rgb == self.fg_rgb,
            res.bg_rgb == self.bg_rgb,
    {
        self.attr("bold")
    }

    /// Adds the italic attribute.
    pub fn italic(self) -> (res: Self)
        ensures
            res.attrs.deep_view() == self.attrs.deep_view().push("italic"@),
            res.text == self.text,
            res.fg == self.fg,
            res.bg == self.bg,
            res.fg_rgb == self.fg_rgb,
            res.bg_rgb == self.bg_rgb,
    {
        self.attr("italic")
    }

    /// Adds the underline attribute.
    pub fn underline(self) -> (res: Self)
        ensures
            res.attrs.deep_view() == self.attrs.deep_view().push("underline"@),
            res.text == self.text,
            res.fg == self.fg,
            res.bg == self.bg,
            res.fg_rgb == self.fg_rgb,
            res.bg_rgb == self.bg_rgb,
    {
        self.attr("underline")
    }

    /// Adds the dim attribute.
    pub fn dim(self) -> (res: Self)
        ensures
            res.attrs.deep_view() == self.attrs.deep_view().push("dim"@),
            res.text == self.text,
            res.fg == self.fg,
            res.bg == self.bg,
            res.fg_rgb == self.fg_rgb,
            res.bg_rgb == self.bg_rgb,
    {
        self.attr("dim")
    }

    /// Adds the blink attribute.
    pub fn blink(self) -> (res: Self)
        ensures
            res.attrs.deep_view() == self.attrs.deep_view().push("blink"@),
            res.text == self.text,
            res.fg == self.fg,
            res.bg == self.bg,
            res.fg_rgb == self.fg_rgb,
            res.bg_rgb == self.bg_rgb,
    {
        self.attr("blink")
    }

    /// Adds the reverse-video attribute.
    pub fn reverse(self) -> (res: Self)
        ensures
            res.attrs.deep_view() == self.attrs.deep_view().push("reverse"@),
            res.text == self.text,
            res.fg == self.fg,
            res.bg == self.bg,
            res.fg_rgb == self.fg_rgb,
            res.bg_rgb == self.bg_rgb,
    {
        self.attr("reverse")
    }

    /// Builds the output string: attribute codes, the resolved foreground
    /// and background codes (explicit RGB over named), the text, one reset.
    pub fn build(self) -> (res: String)
        ensures
            res@ == builder_output(self),
    {
        let mut out = attrs_part_vec(&self.attrs);
        let fg_code: Option<String> = match self.fg_rgb {
            Some((r, g, b)) => Some(rgb_code(false, r, g, b)),
            None => match &self.fg {
                Some(name) => get_color_code(name.as_str(), false),
                None => None,
            },
        };
        match fg_code {
            Some(code) => out.append(code.as_str()),
            None => {},
        }
        let bg_code: Option<String> = match self.bg_rgb {
            Some((r, g, b)) => Some(rgb_code(true, r, g, b)),
            None => match &self.bg {
                Some(name) => get_color_code(name.as_str(), true),
                None => None,
            },
        };
        match bg_code {
            Some(code) => out.append(code.as_str()),
            None => {},
        }
        out.append(self.text.as_str());
        let rst = reset_str();
        out.append(rst.as_str());
        proof {
            assert(out@ =~= builder_output(self));
        }
        out
    }
}

} // verus!
