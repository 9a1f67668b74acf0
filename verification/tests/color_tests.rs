use blured::color::{Color, HexColor, RgbColor};
use blured::hex::{format_hex_color, parse_hex_color, HexParseError};

#[test]
fn default_color_is_dark_blue() {
    assert_eq!(Color::default(), Color::Hex(HexColor(0x071019)));
    assert_eq!(Color::default().channels(), (0x07, 0x10, 0x19));
}

#[test]
fn hex_channels() {
    assert_eq!(HexColor::new(0xAABBCCDD).channels(), (0xBB, 0xCC, 0xDD));
    assert_eq!(RgbColor::new(1, 2, 3).channels(), (1, 2, 3));
}

#[test]
fn parse_prefixes() {
    assert_eq!(parse_hex_color("#071019"), Ok(0x071019));
    assert_eq!(parse_hex_color("0x071019"), Ok(0x071019));
    assert_eq!(parse_hex_color("0X071019"), Ok(0x071019));
    assert_eq!(parse_hex_color("FFffFF"), Ok(0xffffff));
    assert_eq!(parse_hex_color("0x0x#ff"), Ok(0xff));
    assert_eq!(parse_hex_color("##+1"), Ok(1));
}

#[test]
fn parse_errors() {
    assert_eq!(parse_hex_color(""), Err(HexParseError::Empty));
    assert_eq!(parse_hex_color("0x"), Err(HexParseError::Empty));
    assert_eq!(parse_hex_color("#0xff"), Err(HexParseError::InvalidDigit));
    assert_eq!(parse_hex_color("+"), Err(HexParseError::InvalidDigit));
    assert_eq!(parse_hex_color("-1"), Err(HexParseError::InvalidDigit));
    assert_eq!(parse_hex_color("12g"), Err(HexParseError::InvalidDigit));
    assert_eq!(parse_hex_color("100000000"), Err(HexParseError::PosOverflow));
    assert_eq!(parse_hex_color("0000000ffffffff"), Ok(0xffffffff));
}

#[test]
fn parse_matches_std() {
    for s in ["", "+", "-", "+f", "ff", "g", "ffffffff", "1ffffffff", "000000001", "é", "\u{212A}"] {
        let std = u32::from_str_radix(s, 16).map_err(|e| format!("{:?}", e.kind()));
        let ours = parse_hex_color(s).map_err(|e| format!("{:?}", e));
        assert_eq!(std, ours, "input {s:?}");
    }
}

#[test]
fn format_and_roundtrip() {
    assert_eq!(format_hex_color(0x071019), "#71019");
    assert_eq!(format_hex_color(0), "#0");
    assert_eq!(format_hex_color(0xABCDEF), "#ABCDEF");
    for v in [0u32, 1, 15, 16, 0x071019, 0xffffffff] {
        assert_eq!(parse_hex_color(&format_hex_color(v)), Ok(v));
        assert_eq!(HexColor::parse(&HexColor(v).to_text()), Ok(HexColor(v)));
    }
}

#[test]
fn error_messages_match_std() {
    for s in ["", "+", "zz", "1ffffffff"] {
        let std = u32::from_str_radix(s, 16).unwrap_err().to_string();
        let ours = parse_hex_color(s).unwrap_err();
        assert_eq!(ours.message(), std);
    }
}

#[test]
fn hex_color_parse_results() {
    assert_eq!(HexColor::parse("#071019"), Ok(HexColor(0x071019)));
    assert_eq!(HexColor::parse("#"), Err(HexParseError::Empty));
    assert_eq!(Color::Rgb(RgbColor(9, 8, 7)).channels(), (9, 8, 7));
}
