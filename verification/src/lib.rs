//! Terminal text styling: ANSI SGR escape sequences for named colors
//! (with light variants and abbreviations), 24-bit RGB and hex colors,
//! text attributes, and a chainable builder.
//!
//! Every public operation carries a contract that pins its output down to
//! a sequence-level model of the escape codes it emits.

pub mod builder;
pub mod codes;
pub mod hex;
pub mod laws;
pub mod resolve;
pub mod style;
pub mod text;

pub use builder::ColorBuilder;
pub use codes::{dec_str, esc_of_num, reset_str, rgb_code};
pub use hex::{hex_to_rgb, MakeColorsError};
pub use resolve::{get_attribute_code, get_color_code, BaseColor};
pub use style::{
    make_colors, make_colors_hex, make_colors_hex_with_attrs, make_colors_rgb,
    make_colors_rgb_with_attrs, make_colors_with_attrs,
};
