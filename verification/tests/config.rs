use cpmenu::config::{
    hex_digit_value, parse_color, parse_color_with_alpha, parse_hex_u32, Button, Color,
    CHANNEL_FULL, CHANNEL_HALF,
};
use cpmenu::units::ONE;

/// A colour as fractions of one, the way a drawing surface takes it.
fn rgba(c: Color) -> (f64, f64, f64, f64) {
    (
        c.red as f64 / CHANNEL_FULL as f64,
        c.green as f64 / CHANNEL_FULL as f64,
        c.blue as f64 / CHANNEL_FULL as f64,
        c.alpha as f64 / ONE as f64,
    )
}

fn button(label: &str) -> Button {
    Button {
        label: label.to_string(),
        action: format!("run {}", label),
        text: label.to_uppercase(),
        keybind: None,
        icon_path: None,
        icon_char: None,
        color: None,
        hover_color: None,
        show_label: false,
        children: Vec::new(),
    }
}

#[test]
fn test_parse_color() {
    let (r, g, b, a) = rgba(parse_color("#FF0000"));
    assert_eq!(r, 1.0);
    assert_eq!(g, 0.0);
    assert_eq!(b, 0.0);
    assert_eq!(a, 1.0);
}

#[test]
fn test_parse_color_with_alpha() {
    let (r, g, b, a) = rgba(parse_color_with_alpha("#00FF00", 500));
    assert_eq!(r, 0.0);
    assert_eq!(g, 1.0);
    assert_eq!(b, 0.0);
    assert_eq!(a, 0.5);
}

#[test]
fn channels_are_twice_the_byte() {
    assert_eq!(
        parse_color("#81A1C1"),
        Color { red: 2 * 0x81, green: 2 * 0xA1, blue: 2 * 0xC1, alpha: ONE }
    );
    assert_eq!(
        parse_color("5e81ac"),
        Color { red: 2 * 0x5E, green: 2 * 0x81, blue: 2 * 0xAC, alpha: ONE }
    );
    let (r, g, b, _) = rgba(parse_color("#81A1C1"));
    assert_eq!(r, 129.0 / 255.0);
    assert_eq!(g, 161.0 / 255.0);
    assert_eq!(b, 193.0 / 255.0);
}

#[test]
fn leading_hashes_and_a_plus_sign_are_skipped() {
    let red = Color { red: CHANNEL_FULL, green: 0, blue: 0, alpha: ONE };
    assert_eq!(parse_color("FF0000"), red);
    assert_eq!(parse_color("###FF0000"), red);
    assert_eq!(parse_color("#+FF0000"), red);
    assert_eq!(parse_color("+ff0000"), red);
    assert_eq!(parse_color("#0000000000000000FF0000"), red);
}

#[test]
fn short_and_long_numbers_are_read_by_their_low_bytes() {
    assert_eq!(parse_color("#FF"), Color { red: 0, green: 0, blue: CHANNEL_FULL, alpha: ONE });
    assert_eq!(parse_color("#0"), Color { red: 0, green: 0, blue: 0, alpha: ONE });
    // With eight digits the top byte is not part of the colour.
    assert_eq!(
        parse_color("#12FF8000"),
        Color { red: CHANNEL_FULL, green: 2 * 0x80, blue: 0, alpha: ONE }
    );
    assert_eq!(
        parse_color("#FFFFFFFF"),
        Color { red: CHANNEL_FULL, green: CHANNEL_FULL, blue: CHANNEL_FULL, alpha: ONE }
    );
}

#[test]
fn anything_else_is_mid_gray() {
    let gray = Color { red: CHANNEL_HALF, green: CHANNEL_HALF, blue: CHANNEL_HALF, alpha: ONE };
    for text in [
        "", "#", "##", "+", "#+", "-FF0000", "#GG0000", "FF 00 00", " FF0000", "FF0000 ",
        "#FF_0000", "#100000000", "#FFFFFFFFF", "++FF", "#FF#00", "red", "#ÿ0", "0x10",
    ] {
        assert_eq!(parse_color(text), gray);
        assert_eq!(parse_color_with_alpha(text, 250), Color { alpha: 250, ..gray });
    }
    assert_eq!(rgba(gray), (0.5, 0.5, 0.5, 1.0));
}

#[test]
fn hex_numbers_agree_with_the_standard_parser() {
    for text in [
        "0", "7", "f", "F", "10", "ff", "FF", "+1", "+", "", "-1", "g", "12345678", "ffffffff",
        "100000000", "0000000000", "00000000000000ffffffff", "+ffffffff", "+100000000", "1 ",
        "é", "1é", "+-1", "abcdef", "ABCDEF", "aBcDeF", "1_0", "٣",
    ] {
        assert_eq!(parse_hex_u32(text), u32::from_str_radix(text, 16).ok());
    }
    for c in ['0', '9', 'a', 'f', 'A', 'F', 'g', 'G', '/', ':', '@', '`', ' ', 'é'] {
        assert_eq!(hex_digit_value(c), c.to_digit(16));
    }
}

#[test]
fn alpha_is_taken_as_given() {
    assert_eq!(parse_color_with_alpha("#000000", 0).alpha, 0);
    assert_eq!(parse_color_with_alpha("#000000", -5).alpha, -5);
    assert_eq!(parse_color_with_alpha("#000000", i64::MAX).alpha, i64::MAX);
}

#[test]
fn buttons_with_children_have_a_submenu() {
    let mut parent = button("power");
    assert!(!parent.has_submenu());
    let mut child = button("reboot");
    child.children.push(button("now"));
    parent.children.push(child);
    parent.children.push(button("halt"));
    assert!(parent.has_submenu());
    let copy = parent.clone();
    assert_eq!(copy.label, "power");
    assert_eq!(copy.action, "run power");
    assert_eq!(copy.children.len(), 2);
    assert_eq!(copy.children[0].label, "reboot");
    assert_eq!(copy.children[0].children[0].text, "NOW");
    assert_eq!(copy.children[1].action, "run halt");
    assert!(!copy.children[1].has_submenu());
    let twin = parent.duplicate();
    assert_eq!(format!("{:?}", twin), format!("{:?}", parent));
}
