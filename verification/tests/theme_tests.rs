use freecord::theme::{color_to_hex, hex_to_color, Rgba8};

fn rgba(r: u8, g: u8, b: u8, a: u8) -> Rgba8 {
    Rgba8 { r, g, b, a }
}

#[test]
fn parses_rgb_and_rgba() {
    assert_eq!(hex_to_color("#FF8000"), Some(rgba(255, 128, 0, 255)));
    assert_eq!(hex_to_color("#ff800040"), Some(rgba(255, 128, 0, 64)));
    assert_eq!(hex_to_color("#282828"), Some(rgba(0x28, 0x28, 0x28, 255)));
}

#[test]
fn rejects_malformed_colours() {
    assert_eq!(hex_to_color("FF8000"), None);
    assert_eq!(hex_to_color("#FF80"), None);
    assert_eq!(hex_to_color("#GG8000"), None);
    assert_eq!(hex_to_color("FF800000#"), None);
    assert_eq!(hex_to_color("#-F0000"), None);
}

#[test]
fn bad_alpha_is_opaque() {
    assert_eq!(hex_to_color("#102030ZZ"), Some(rgba(0x10, 0x20, 0x30, 255)));
}

#[test]
fn plus_sign_pair_parses() {
    assert_eq!(hex_to_color("#+F0000"), Some(rgba(15, 0, 0, 255)));
}

#[test]
fn writes_upper_case_and_omits_opaque_alpha() {
    assert_eq!(color_to_hex(rgba(255, 128, 0, 255)), "#FF8000");
    assert_eq!(color_to_hex(rgba(1, 2, 3, 4)), "#01020304");
}

#[test]
fn hex_roundtrip() {
    for c in [rgba(0, 0, 0, 0), rgba(255, 255, 255, 255), rgba(18, 52, 86, 120)] {
        assert_eq!(hex_to_color(&color_to_hex(c)), Some(c));
    }
}

#[test]
fn colour_text_reads_back_in_upper_case() {
    assert_eq!(color_to_hex(hex_to_color("#a1B2c3").unwrap()), "#A1B2C3");
    assert_eq!(color_to_hex(hex_to_color("#0f0f0f80").unwrap()), "#0F0F0F80");
    assert_eq!(color_to_hex(hex_to_color("#abcdefff").unwrap()), "#ABCDEF");
}
