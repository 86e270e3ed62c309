use colo::hex::{format_hex, parse, rgb_to_u32, HexColor, ParseHexError};

fn rgb_of(input: &str) -> (u8, u8, u8) {
    parse(input).unwrap().to_rgb8()
}

fn rgb_to_string(rgb: (u8, u8, u8)) -> String {
    format!("#{:06x}", rgb_to_u32(rgb.0, rgb.1, rgb.2))
}

#[test]
fn test_parse() {
    assert_eq!(rgb_of("000"), (0, 0, 0));
    assert_eq!(rgb_of("FFF"), (255, 255, 255));
    assert_eq!(rgb_of("123456"), (0x12, 0x34, 0x56));
    assert_eq!(rgb_of("22222222_44444444_66666666"), (0x22, 0x44, 0x66));
}

#[test]
fn test_parse_and_to_hex() {
    assert_eq!(rgb_to_string(rgb_of("224466")), "#224466");
    assert_eq!(rgb_to_string(rgb_of("246")), "#224466");
    assert_eq!(rgb_to_string(rgb_of("222_444_666")), "#224466");
    assert_eq!(rgb_to_string(rgb_of("2222_4444_6666")), "#224466");
    assert_eq!(rgb_to_string(rgb_of("222222_444444_666666")), "#224466");
    assert_eq!(rgb_to_string(rgb_of("12345678_3456789A_56789ABC")), "#123456");
}

#[test]
fn parse_keeps_digit_groups() {
    assert_eq!(parse("#F70"), Ok(HexColor { r: 15, g: 7, b: 0, width: 1 }));
    assert_eq!(parse("##ff_77_00"), Ok(HexColor { r: 255, g: 0x77, b: 0, width: 2 }));
    assert_eq!(parse("07F").unwrap().to_rgb8(), (0, 119, 255));
    assert_eq!(rgb_of("F70"), rgb_of("FF7700"));
}

#[test]
fn group_max_by_width() {
    assert_eq!(parse("F70").unwrap().max(), 0xF);
    assert_eq!(parse("FFFFFFFF_77777777_00000000").unwrap().max(), 0xFFFF_FFFF);
    assert_eq!(rgb_of("FFFFFFFF_77777777_00000000"), (255, 0x77, 0));
}

#[test]
fn parse_errors() {
    assert_eq!(
        parse("#12G"),
        Err(ParseHexError::NotHexadecimal { string: "#12G".to_string(), c: 'G' })
    );
    assert_eq!(
        parse("x_G"),
        Err(ParseHexError::NotHexadecimal { string: "x_G".to_string(), c: 'x' })
    );
    assert_eq!(parse("#"), Err(ParseHexError::NoDigits));
    assert_eq!(parse("__"), Err(ParseHexError::NoDigits));
    assert_eq!(
        parse("1234"),
        Err(ParseHexError::DigitsNotDivisibleBy3 { string: "1234".to_string(), got: 4 })
    );
    let long = "123456789_123456789_123456789";
    assert_eq!(
        parse(long),
        Err(ParseHexError::TooManyDigits { string: long.to_string(), got: 27, max: 24 })
    );
}

#[test]
fn format_hex_is_uppercase_rrggbb() {
    assert_eq!(format_hex(15, 0, 255), "#0F00FF");
    assert_eq!(format_hex(0, 0, 0), "#000000");
    assert_eq!(format_hex(0xAB, 0xCD, 0xEF), "#ABCDEF");
}

#[test]
fn hex_round_trip_examples() {
    for &(r, g, b) in &[(0u8, 0u8, 0u8), (255, 255, 255), (1, 128, 254), (0x66, 0x33, 0x99)] {
        let parsed = parse(&format_hex(r, g, b)).unwrap();
        assert_eq!(parsed, HexColor { r: r as u32, g: g as u32, b: b as u32, width: 2 });
        assert_eq!(parsed.to_rgb8(), (r, g, b));
    }
}

#[test]
fn packs_channels() {
    assert_eq!(rgb_to_u32(15, 0, 255), 0x0F00FF);
    assert_eq!(rgb_to_u32(0x12, 0x34, 0x56), 0x123456);
}
