//! Hex parsing and raw escape-code assembly.

use make_colors::{dec_str, esc_of_num, hex_to_rgb, reset_str, rgb_code, MakeColorsError};

#[test]
fn test_hex_to_rgb() {
    assert_eq!(hex_to_rgb("#00FFFF").unwrap(), (0, 255, 255));
    assert_eq!(hex_to_rgb("#FF0000").unwrap(), (255, 0, 0));
    assert_eq!(hex_to_rgb("00FF00").unwrap(), (0, 255, 0));
}

#[test]
fn hex_decodes_pairwise() {
    assert_eq!(hex_to_rgb("#ffa500").unwrap(), (255, 165, 0));
    assert_eq!(hex_to_rgb("abcdef").unwrap(), (171, 205, 239));
    assert_eq!(hex_to_rgb("#000000").unwrap(), (0, 0, 0));
    assert_eq!(hex_to_rgb("FFFFFF").unwrap(), (255, 255, 255));
    assert_eq!(hex_to_rgb("#0a0B0c").unwrap(), (10, 11, 12));
}

#[test]
fn hex_rejects_wrong_length() {
    assert!(hex_to_rgb("12345").is_err());
    assert!(hex_to_rgb("#12345").is_err());
    assert!(hex_to_rgb("1234567").is_err());
    assert!(hex_to_rgb("").is_err());
    assert!(hex_to_rgb("#").is_err());
    // exactly one leading '#' is stripped, so a second one is a digit slot
    assert!(hex_to_rgb("##123456").is_err());
}

#[test]
fn hex_rejects_non_hex_digits() {
    assert!(hex_to_rgb("#12345G").is_err());
    assert!(hex_to_rgb("zzzzzz").is_err());
    assert!(hex_to_rgb("12 456").is_err());
    assert!(hex_to_rgb("+1+2+3").is_err());
}

#[test]
fn hex_error_carries_remainder() {
    match hex_to_rgb("#12345") {
        Err(MakeColorsError::InvalidHexColor(s)) => assert_eq!(s, "12345"),
        other => panic!("expected InvalidHexColor, got {:?}", other),
    }
    match hex_to_rgb("12345G") {
        Err(MakeColorsError::InvalidHexColor(s)) => assert_eq!(s, "12345G"),
        other => panic!("expected InvalidHexColor, got {:?}", other),
    }
}

#[test]
fn hex_resolution_is_repeatable() {
    assert_eq!(hex_to_rgb("#00FFFF").unwrap(), hex_to_rgb("#00FFFF").unwrap());
    assert_eq!(hex_to_rgb("0A1B2C").unwrap(), hex_to_rgb("0A1B2C").unwrap());
    let first = hex_to_rgb("nonsense");
    let second = hex_to_rgb("nonsense");
    assert_eq!(first.unwrap_err(), second.unwrap_err());
}

#[test]
fn error_message_names_the_input() {
    let e = MakeColorsError::InvalidHexColor(String::from("12345"));
    assert_eq!(e.message(), "Invalid hex color: 12345");
    let e = MakeColorsError::InvalidColorName(String::from("nope"));
    assert_eq!(e.message(), "Invalid color name: nope");
}

#[test]
fn decimal_rendering() {
    assert_eq!(dec_str(0), "0");
    assert_eq!(dec_str(7), "7");
    assert_eq!(dec_str(10), "10");
    assert_eq!(dec_str(42), "42");
    assert_eq!(dec_str(100), "100");
    assert_eq!(dec_str(255), "255");
}

#[test]
fn escape_assembly() {
    assert_eq!(esc_of_num(31), "\x1b[31m");
    assert_eq!(esc_of_num(0), "\x1b[0m");
    assert_eq!(reset_str(), "\x1b[0m");
    assert_eq!(rgb_code(false, 255, 165, 0), "\x1b[38;2;255;165;0m");
    assert_eq!(rgb_code(true, 0, 10, 200), "\x1b[48;2;0;10;200m");
}
