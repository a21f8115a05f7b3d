//! Output assembly: attribute codes first, then the foreground code, then
//! the background code, then the text itself, then exactly one reset.

use vstd::prelude::*;

use crate::codes::{reset_seq, reset_str, rgb_code, rgb_code_seq};
use crate::hex::{hex_channels, hex_to_rgb, strip_hash, valid_hex, MakeColorsError};
use crate::resolve::{attribute_code, get_attribute_code, get_color_code, named_code};

verus! {

/// A code that may be absent: absent parts contribute nothing.
pub open spec fn opt_code(c: Option<Seq<char>>) -> Seq<char> {
    match c {
        Some(s) => s,
        None => Seq::empty(),
    }
}

/// The attribute prefix: the codes of the recognized attribute names, in
/// the given order; unknown names are skipped.
pub open spec fn attrs_prefix(attrs: Seq<Seq<char>>) -> Seq<char>
    decreases attrs.len(),
{
    if attrs.len() == 0 {
        Seq::empty()
    } else {
        attrs_prefix(attrs.drop_last()) + opt_code(attribute_code(attrs.last()))
    }
}

/// The output of a colorize operation: attribute codes, then the
/// foreground code, then the background code, then the text verbatim,
/// then one reset — in that order.
pub open spec fn styled_output(
    text: Seq<char>,
    fg: Option<Seq<char>>,
    bg: Option<Seq<char>>,
    attrs: Seq<Seq<char>>,
) -> Seq<char> {
    attrs_prefix(attrs) + opt_code(fg) + opt_code(bg) + text + reset_seq()
}

/// The background code an optional named background denotes.
pub open spec fn opt_named_code(bg: Option<Seq<char>>) -> Option<Seq<char>> {
    match bg {
        Some(b) => named_code(b, true),
        None => None,
    }
}

/// The background code an optional RGB background denotes.
pub open spec fn opt_rgb_code(bg: Option<(u8, u8, u8)>) -> Option<Seq<char>> {
    match bg {
        Some(t) => Some(rgb_code_seq(true, t.0, t.1, t.2)),
        None => None,
    }
}

/// The background code an optional (valid) hex background denotes.
pub open spec fn opt_hex_code(bg: Option<Seq<char>>) -> Option<Seq<char>> {
    match bg {
        Some(h) => Some(
            rgb_code_seq(true, hex_channels(h).0, hex_channels(h).1, hex_channels(h).2),
        ),
        None => None,
    }
}

/// Concatenates the codes of the recognized attributes, in order.
fn attrs_part(attrs: &[&str]) -> (r: String)
    ensures
        r@ == attrs_prefix(attrs.deep_view()),
{
    let mut out = String::new();
    let mut i: usize = 0;
    while i < attrs.len()
        invariant
            i <= attrs@.len(),
            out@ == attrs_prefix(attrs.deep_view().take(i as int)),
        decreases attrs@.len() - i,
    {
        match get_attribute_code(attrs[i]) {
            Some(code) => out.append(code.as_str()),
            None => {},
        }
        proof {
            let dv = attrs.deep_view();
            assert(dv.take(i + 1).drop_last() =~= dv.take(i as int));
            assert(dv.take(i + 1).last() == dv[i as int]);
        }
        i += 1;
    }
    proof {
        assert(attrs.deep_view().take(attrs@.len() as int) =~= attrs.deep_view());
    }
    out
}

/// Concatenates the codes of the recognized attributes, in order.
pub(crate) fn attrs_part_vec(attrs: &Vec<String>) -> (r: String)
    ensures
        r@ == attrs_prefix(attrs.deep_view()),
{
    let mut out = String::new();
    let mut i: usize = 0;
    while i < attrs.len()
        invariant
            i <= attrs@.len(),
            out@ == attrs_prefix(attrs.deep_view().take(i as int)),
        decreases attrs@.len() - i,
    {
        match get_attribute_code(attrs[i].as_str()) {
            Some(code) => out.append(code.as_str()),
            None => {},
        }
        proof {
            let dv = attrs.deep_view();
            assert(dv.take(i + 1).drop_last() =~= dv.take(i as int));
            assert(dv.take(i + 1).last() == dv[i as int]);
        }
        i += 1;
    }
    proof {
        assert(attrs.deep_view().take(attrs@.len() as int) =~= attrs.deep_view());
    }
    out
}

/// Colorizes `text` with a named foreground and optional named
/// background; unrecognized names are silently skipped.
pub fn make_colors(text: &str, fg: &str, bg: Option<&str>) -> (res: String)
    ensures
        res@ == styled_output(
            text@,
            named_code(fg@, false),
            opt_named_code(bg.deep_view()),
            Seq::empty(),
        ),
{
    let res = make_colors_with_attrs(text, fg, bg, &[]);
    proof {
        let empty: &[&str] = &[];
        assert(empty.deep_view() =~= Seq::<Seq<char>>::empty());
    }
    res
}

/// Colorizes `text` with named colors and the given attributes, emitted
/// in order before the color codes.
pub fn make_colors_with_attrs(text: &str, fg: &str, bg: Option<&str>, attrs: &[&str]) -> (res:
    String)
    ensures
        res@ == styled_output(
            text@,
            named_code(fg@, false),
            opt_named_code(bg.deep_view()),
            attrs.deep_view(),
        ),
{
    let mut out = attrs_part(attrs);
    match get_color_code(fg, false) {
        Some(code) => out.append(code.as_str()),
        None => {},
    }
    match bg {
        Some(bg_name) => {
            match get_color_code(bg_name, true) {
                Some(code) => out.append(code.as_str()),
                None => {},
            }
        },
        None => {},
    }
    out.append(text);
    let rst = reset_str();
    out.append(rst.as_str());
    proof {
        assert(out@ =~= styled_output(
            text@,
            named_code(fg@, false),
            opt_named_code(bg.deep_view()),
            attrs.deep_view(),
        ));
    }
    out
}

/// Colorizes `text` with a true-color foreground and optional true-color
/// background.
pub fn make_colors_rgb(text: &str, fg_rgb: (u8, u8, u8), bg_rgb: Option<(u8, u8, u8)>) -> (res:
    String)
    ensures
        res@ == styled_output(
            text@,
            Some(rgb_code_seq(false, fg_rgb.0, fg_rgb.1, fg_rgb.2)),
            opt_rgb_code(bg_rgb),
            Seq::empty(),
        ),
{
    let res = make_colors_rgb_with_attrs(text, fg_rgb, bg_rgb, &[]);
    proof {
        let empty: &[&str] = &[];
        assert(empty.deep_view() =~= Seq::<Seq<char>>::empty());
    }
    res
}

/// Colorizes `text` with true-color codes and the given attributes.
pub fn make_colors_rgb_with_attrs(
    text: &str,
    fg_rgb: (u8, u8, u8),
    bg_rgb: Option<(u8, u8, u8)>,
    attrs: &[&str],
) -> (res: String)
    ensures
        res@ == styled_output(
            text@,
            Some(rgb_code_seq(false, fg_rgb.0, fg_rgb.1, fg_rgb.2)),
            opt_rgb_code(bg_rgb),
            attrs.deep_view(),
        ),
{
    let mut out = attrs_part(attrs);
    let fg_code = rgb_code(false, fg_rgb.0, fg_rgb.1, fg_rgb.2);
    out.append(fg_code.as_str());
    match bg_rgb {
        Some((r, g, b)) => {
            let code = rgb_code(true, r, g, b);
            out.append(code.as_str());
        },
        None => {},
    }
    out.append(text);
    let rst = reset_str();
    out.append(rst.as_str());
    proof {
        assert(out@ =~= styled_output(
            text@,
            Some(rgb_code_seq(false, fg_rgb.0, fg_rgb.1, fg_rgb.2)),
            opt_rgb_code(bg_rgb),
            attrs.deep_view(),
        ));
    }
    out
}

/// Colorizes `text` with a hex foreground and optional hex background.
/// Fails, with the offending remainder, on any malformed hex string.
pub fn make_colors_hex(text: &str, fg_hex: &str, bg_hex: Option<&str>) -> (res: Result<
    String,
    MakeColorsError,
>)
    ensures
        valid_hex(fg_hex@) && (bg_hex matches Some(b) ==> valid_hex(b@)) ==> (res matches Ok(s)
            && s@ == styled_output(
            text@,
            Some(
                rgb_code_seq(
                    false,
                    hex_channels(fg_hex@).0,
                    hex_channels(fg_hex@).1,
                    hex_channels(fg_hex@).2,
                ),
            ),
            opt_hex_code(bg_hex.deep_view()),
            Seq::empty(),
        )),
        !valid_hex(fg_hex@) ==> (res matches Err(e) && (e
            matches MakeColorsError::InvalidHexColor(h) && h@ == strip_hash(fg_hex@))),
        valid_hex(fg_hex@) && (bg_hex matches Some(b) && !valid_hex(b@)) ==> (res matches Err(e)
            && (e matches MakeColorsError::InvalidHexColor(h) && (bg_hex matches Some(b) && h@
            == strip_hash(b@)))),
{
    let res = make_colors_hex_with_attrs(text, fg_hex, bg_hex, &[]);
    proof {
        let empty: &[&str] = &[];
        assert(empty.deep_view() =~= Seq::<Seq<char>>::empty());
    }
    res
}

/// Colorizes `text` with hex colors and the given attributes.
pub fn make_colors_hex_with_attrs(
    text: &str,
    fg_hex: &str,
    bg_hex: Option<&str>,
    attrs: &[&str],
) -> (res: Result<String, MakeColorsError>)
    ensures
        valid_hex(fg_hex@) && (bg_hex matches Some(b) ==> valid_hex(b@)) ==> (res matches Ok(s)
            && s@ == styled_output(
            text@,
            Some(
                rgb_code_seq(
                    false,
                    hex_channels(fg_hex@).0,
                    hex_channels(fg_hex@).1,
                    hex_channels(fg_hex@).2,
                ),
            ),
            opt_hex_code(bg_hex.deep_view()),
            attrs.deep_view(),
        )),
        !valid_hex(fg_hex@) ==> (res matches Err(e) && (e
            matches MakeColorsError::InvalidHexColor(h) && h@ == strip_hash(fg_hex@))),
        valid_hex(fg_hex@) && (bg_hex matches Some(b) && !valid_hex(b@)) ==> (res matches Err(e)
            && (e matches MakeColorsError::InvalidHexColor(h) && (bg_hex matches Some(b) && h@
            == strip_hash(b@)))),
{
    let fg = match hex_to_rgb(fg_hex) {
        Ok(t) => t,
        Err(e) => {
            return Err(e);
        },
    };
    let bg_rgb: Option<(u8, u8, u8)> = match bg_hex {
        Some(bh) => match hex_to_rgb(bh) {
            Ok(t) => Some(t),
            Err(e) => {
                return Err(e);
            },
        },
        None => None,
    };
    Ok(make_colors_rgb_with_attrs(text, fg, bg_rgb, attrs))
}

} // verus!
