//! Named-color resolution: abbreviations, light variants, normalization,
//! and the best-effort treatment of unknown names.

use make_colors::{get_attribute_code, get_color_code, make_colors};

#[test]
fn test_make_colors() {
    let result = make_colors("Test", "red", None);
    assert!(result.contains("Test"));
    assert!(result.contains("\x1b["));
}

#[test]
fn red_output_shape() {
    let result = make_colors("Test", "red", None);
    assert!(result.contains("Test"));
    assert!(result.contains("\x1b[31m"));
    assert!(result.ends_with("\x1b[0m"));
    assert_eq!(result, "\x1b[31mTest\x1b[0m");
}

#[test]
fn light_variant_differs_from_base() {
    let light = make_colors("X", "lightred", None);
    let base = make_colors("X", "red", None);
    assert_ne!(light, base);
    assert!(light.contains("\x1b[91m"));
    assert!(base.contains("\x1b[31m"));
}

#[test]
fn abbreviations_match_full_names() {
    let table: &[(&str, &str)] = &[
        ("b", "black"),
        ("bk", "black"),
        ("r", "red"),
        ("rd", "red"),
        ("re", "red"),
        ("g", "green"),
        ("gr", "green"),
        ("ge", "green"),
        ("y", "yellow"),
        ("ye", "yellow"),
        ("yl", "yellow"),
        ("bl", "blue"),
        ("m", "magenta"),
        ("mg", "magenta"),
        ("ma", "magenta"),
        ("c", "cyan"),
        ("cy", "cyan"),
        ("cn", "cyan"),
        ("w", "white"),
        ("wh", "white"),
        ("wi", "white"),
        ("wt", "white"),
    ];
    for (short, full) in table {
        assert_eq!(
            make_colors("X", short, None),
            make_colors("X", full, None),
            "abbreviation {} should equal {}",
            short,
            full
        );
        assert_eq!(
            make_colors("X", "w", Some(short)),
            make_colors("X", "w", Some(full)),
            "background abbreviation {} should equal {}",
            short,
            full
        );
    }
}

#[test]
fn light_prefix_composes_with_abbreviations() {
    assert_eq!(make_colors("X", "lightr", None), make_colors("X", "lightred", None));
    assert_eq!(make_colors("X", "lightbl", None), make_colors("X", "lightblue", None));
}

#[test]
fn unknown_color_leaves_text_plain() {
    let result = make_colors("X", "notacolor", None);
    assert_eq!(result, "X\x1b[0m");
    // "light" alone has no base color left
    assert_eq!(make_colors("X", "light", None), "X\x1b[0m");
    // unknown background is skipped too
    assert_eq!(make_colors("X", "red", Some("notacolor")), "\x1b[31mX\x1b[0m");
}

#[test]
fn names_are_lowercased_and_trimmed() {
    assert_eq!(make_colors("X", " RED ", None), make_colors("X", "red", None));
    assert_eq!(make_colors("X", "Red", None), make_colors("X", "red", None));
    assert_eq!(make_colors("X", "LIGHTBLUE", None), make_colors("X", "lightblue", None));
    assert_eq!(make_colors("X", "\tcyan\n", None), make_colors("X", "cyan", None));
}

#[test]
fn background_codes_use_their_own_block() {
    assert_eq!(make_colors("X", "white", Some("red")), "\x1b[37m\x1b[41mX\x1b[0m");
    assert_eq!(make_colors("X", "w", Some("lightblue")), "\x1b[37m\x1b[104mX\x1b[0m");
}

#[test]
fn empty_text_still_gets_codes_and_reset() {
    assert_eq!(make_colors("", "red", None), "\x1b[31m\x1b[0m");
    assert_eq!(make_colors("", "notacolor", None), "\x1b[0m");
}

#[test]
fn text_passes_through_verbatim() {
    let tricky = "a\x1b[5mb";
    assert_eq!(make_colors(tricky, "green", None), format!("\x1b[32m{}\x1b[0m", tricky));
    let accented = "h\u{e9}llo";
    assert_eq!(make_colors(accented, "red", None), format!("\x1b[31m{}\x1b[0m", accented));
}

#[test]
fn non_ascii_names_do_not_resolve() {
    assert_eq!(make_colors("X", "r\u{f6}t", None), "X\x1b[0m");
    assert_eq!(make_colors("X", "\u{340d}", None), "X\x1b[0m");
}

#[test]
fn color_code_lookup() {
    assert_eq!(get_color_code("red", false).unwrap(), "\x1b[31m");
    assert_eq!(get_color_code("red", true).unwrap(), "\x1b[41m");
    assert_eq!(get_color_code("lightblack", false).unwrap(), "\x1b[90m");
    assert_eq!(get_color_code("lightwhite", true).unwrap(), "\x1b[107m");
    assert!(get_color_code("nonsense", false).is_none());
    assert!(get_color_code("", false).is_none());
}

#[test]
fn attribute_code_lookup() {
    assert_eq!(get_attribute_code("bold").unwrap(), "\x1b[1m");
    assert_eq!(get_attribute_code("dim").unwrap(), "\x1b[2m");
    assert_eq!(get_attribute_code("italic").unwrap(), "\x1b[3m");
    assert_eq!(get_attribute_code("underline").unwrap(), "\x1b[4m");
    assert_eq!(get_attribute_code("blink").unwrap(), "\x1b[5m");
    assert_eq!(get_attribute_code("reverse").unwrap(), "\x1b[7m");
    assert_eq!(get_attribute_code("hidden").unwrap(), "\x1b[8m");
    assert_eq!(get_attribute_code("strikethrough").unwrap(), "\x1b[9m");
    assert_eq!(get_attribute_code("BOLD").unwrap(), "\x1b[1m");
    assert!(get_attribute_code("sparkly").is_none());
}
