//! Output composition order, true-color forms, and the builder chain.

use make_colors::{
    make_colors_hex, make_colors_hex_with_attrs, make_colors_rgb, make_colors_rgb_with_attrs,
    make_colors_with_attrs, ColorBuilder, MakeColorsError,
};

#[test]
fn test_make_colors_hex() {
    let result = make_colors_hex("Test", "#00FFFF", None).unwrap();
    assert!(result.contains("Test"));
    assert!(result.contains("\x1b[38;2;"));
}

#[test]
fn test_color_builder() {
    let result = ColorBuilder::new("Test").fg("red").bold().build();
    assert!(result.contains("Test"));
}

#[test]
fn rgb_output_is_exact() {
    let result = make_colors_rgb("X", (255, 165, 0), None);
    assert_eq!(result, "\x1b[38;2;255;165;0mX\x1b[0m");
    let with_bg = make_colors_rgb("X", (0, 0, 0), Some((255, 255, 255)));
    assert_eq!(with_bg, "\x1b[38;2;0;0;0m\x1b[48;2;255;255;255mX\x1b[0m");
}

#[test]
fn attributes_come_first_in_order() {
    let result = make_colors_with_attrs("X", "red", None, &["bold", "underline"]);
    assert_eq!(result, "\x1b[1m\x1b[4m\x1b[31mX\x1b[0m");
    let swapped = make_colors_with_attrs("X", "red", None, &["underline", "bold"]);
    assert_eq!(swapped, "\x1b[4m\x1b[1m\x1b[31mX\x1b[0m");
}

#[test]
fn unknown_attributes_are_skipped() {
    let result = make_colors_with_attrs("X", "red", None, &["sparkly", "bold"]);
    assert_eq!(result, "\x1b[1m\x1b[31mX\x1b[0m");
}

#[test]
fn hex_with_attrs_composes_in_order() {
    let result = make_colors_hex_with_attrs("X", "#010203", Some("040506"), &["bold"]).unwrap();
    assert_eq!(result, "\x1b[1m\x1b[38;2;1;2;3m\x1b[48;2;4;5;6mX\x1b[0m");
}

#[test]
fn rgb_with_attrs_composes_in_order() {
    let result = make_colors_rgb_with_attrs("X", (1, 2, 3), None, &["reverse"]);
    assert_eq!(result, "\x1b[7m\x1b[38;2;1;2;3mX\x1b[0m");
}

#[test]
fn hex_failure_reports_first_bad_string() {
    match make_colors_hex("X", "bad", None) {
        Err(MakeColorsError::InvalidHexColor(s)) => assert_eq!(s, "bad"),
        other => panic!("expected InvalidHexColor, got {:?}", other),
    }
    match make_colors_hex("X", "#010203", Some("#nothex")) {
        Err(MakeColorsError::InvalidHexColor(s)) => assert_eq!(s, "nothex"),
        other => panic!("expected InvalidHexColor, got {:?}", other),
    }
}

#[test]
fn builder_rgb_overrides_named_foreground() {
    let result = ColorBuilder::new("X").fg("red").fg_rgb(0, 255, 0).build();
    assert!(result.contains("\x1b[38;2;0;255;0m"));
    assert!(!result.contains("\x1b[31m"));
    assert_eq!(result, "\x1b[38;2;0;255;0mX\x1b[0m");
}

#[test]
fn builder_rgb_overrides_named_background() {
    let result = ColorBuilder::new("X").bg("red").bg_rgb(1, 2, 3).build();
    assert!(result.contains("\x1b[48;2;1;2;3m"));
    assert!(!result.contains("\x1b[41m"));
}

#[test]
fn builder_background_stands_alone() {
    let result = ColorBuilder::new("X").bg("red").build();
    assert_eq!(result, "\x1b[41mX\x1b[0m");
}

#[test]
fn builder_matches_direct_calls() {
    let built = ColorBuilder::new("Hello").fg("red").bg("white").bold().build();
    let direct = make_colors_with_attrs("Hello", "red", Some("white"), &["bold"]);
    assert_eq!(built, direct);
}

#[test]
fn builder_hex_channels() {
    let built = ColorBuilder::new("X").fg_hex("#00FFFF").unwrap().underline().build();
    assert_eq!(built, "\x1b[4m\x1b[38;2;0;255;255mX\x1b[0m");
    let with_bg = ColorBuilder::new("X").bg_hex("010203").unwrap().build();
    assert_eq!(with_bg, "\x1b[48;2;1;2;3mX\x1b[0m");
}

#[test]
fn builder_hex_error_short_circuits() {
    match ColorBuilder::new("X").fg_hex("nope") {
        Err(MakeColorsError::InvalidHexColor(s)) => assert_eq!(s, "nope"),
        Err(other) => panic!("expected InvalidHexColor, got {:?}", other),
        Ok(_) => panic!("expected an error for a malformed hex string"),
    }
    assert!(ColorBuilder::new("X").bg_hex("#12345").is_err());
}

#[test]
fn builder_attributes_in_chain_order() {
    let result = ColorBuilder::new("X").bold().italic().underline().dim().blink().reverse().build();
    assert_eq!(result, "\x1b[1m\x1b[3m\x1b[4m\x1b[2m\x1b[5m\x1b[7mX\x1b[0m");
}

#[test]
fn builder_generic_attr() {
    let result = ColorBuilder::new("X").attr("strikethrough").attr("hidden").build();
    assert_eq!(result, "\x1b[9m\x1b[8mX\x1b[0m");
    let skipped = ColorBuilder::new("X").attr("sparkly").build();
    assert_eq!(skipped, "X\x1b[0m");
}

#[test]
fn builder_plain_text_still_resets() {
    assert_eq!(ColorBuilder::new("X").build(), "X\x1b[0m");
}
