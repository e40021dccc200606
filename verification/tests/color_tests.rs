//! Color parsing: hex strings, named colors, and every rejection case.

use certmaker::color::{hex_to_rgba, parse_color, ColorError, Rgba8};

fn ok(r: Result<Rgba8, ColorError>) -> Rgba8 {
    r.expect("color must parse")
}

#[test]
fn six_digit_hex_has_full_alpha() {
    let c = ok(hex_to_rgba("FF8040"));
    assert_eq!(c, Rgba8 { r: 255, g: 128, b: 64, a: 255 });
    let c2 = ok(hex_to_rgba("#000000"));
    assert_eq!(c2, Rgba8 { r: 0, g: 0, b: 0, a: 255 });
    let c3 = ok(hex_to_rgba("#abcdef"));
    assert_eq!(c3, Rgba8 { r: 0xAB, g: 0xCD, b: 0xEF, a: 255 });
}

#[test]
fn eight_digit_hex_carries_its_alpha() {
    let c = ok(hex_to_rgba("#11223344"));
    assert_eq!(c, Rgba8 { r: 0x11, g: 0x22, b: 0x33, a: 0x44 });
    let c2 = ok(hex_to_rgba("FFFFFF00"));
    assert_eq!(c2.a, 0);
    let c3 = ok(hex_to_rgba("00000080"));
    assert_eq!(c3.a, 128);
}

#[test]
fn mixed_case_hex_digits_parse() {
    let c = ok(hex_to_rgba("#aAbBcC"));
    assert_eq!(c, Rgba8 { r: 0xAA, g: 0xBB, b: 0xCC, a: 255 });
}

#[test]
fn wrong_lengths_are_rejected() {
    for s in ["", "#", "F", "FF000", "FF00000", "FF0000000", "#FF0", "123456789"] {
        assert_eq!(hex_to_rgba(s), Err(ColorError::InvalidColorFormat), "input {s:?}");
    }
}

#[test]
fn non_hex_characters_are_rejected() {
    for s in ["GG0000", "#FF00ZZ", "12 456", "#FF00F-", "FF00FF0x"] {
        assert_eq!(hex_to_rgba(s), Err(ColorError::InvalidColorFormat), "input {s:?}");
    }
}

#[test]
fn only_one_hash_prefix_is_stripped() {
    assert_eq!(hex_to_rgba("##FF0000"), Err(ColorError::InvalidColorFormat));
}

#[test]
fn named_colors_resolve() {
    let cases = [
        ("white", (255, 255, 255)),
        ("black", (0, 0, 0)),
        ("red", (255, 0, 0)),
        ("green", (0, 255, 0)),
        ("blue", (0, 0, 255)),
        ("yellow", (255, 255, 0)),
        ("orange", (255, 165, 0)),
        ("purple", (128, 0, 128)),
    ];
    for (name, (r, g, b)) in cases {
        let c = ok(parse_color(name));
        assert_eq!((c.r, c.g, c.b, c.a), (r, g, b, 255), "color {name:?}");
    }
}

#[test]
fn named_colors_are_case_insensitive() {
    assert_eq!(ok(parse_color("RED")), ok(parse_color("red")));
    assert_eq!(ok(parse_color("White")), ok(parse_color("white")));
    assert_eq!(ok(parse_color("oRaNgE")), ok(parse_color("orange")));
}

#[test]
fn parse_color_falls_back_to_hex() {
    let c = ok(parse_color("#FF0000"));
    assert_eq!(c, Rgba8 { r: 255, g: 0, b: 0, a: 255 });
    assert_eq!(parse_color("mauve"), Err(ColorError::InvalidColorFormat));
}
