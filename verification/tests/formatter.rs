use binary_calculator::dec_formats::{format_decimal, DecFormats};
use binary_calculator::digits::{parse_number, push_radix, strip_separators, to_digit};
use binary_calculator::formatter::{
    decimal_display, decimal_input, hex_display, hex_input, octal_display, text_input,
};
use binary_calculator::hex_formats::{format_hex, push_block, HexFormats};

const SAMPLES: [u32; 10] = [
    0,
    1,
    9,
    10,
    999,
    1000,
    0x8000_0000,
    0xFFFF_FFFF,
    0x1234_5678,
    0x0011_EEFF,
];

fn radix(value: u32, base: u32, width: u32) -> String {
    let mut text = String::new();
    push_radix(&mut text, value, base, width);
    text
}

#[test]
fn radix_text_matches_std_formatting() {
    for value in SAMPLES {
        assert_eq!(radix(value, 10, 1), value.to_string());
        assert_eq!(radix(value, 10, 0), value.to_string());
        assert_eq!(radix(value, 16, 8), format!("{:08x}", value));
        assert_eq!(radix(value, 16, 1), format!("{:x}", value));
        assert_eq!(radix(value, 8, 3), format!("{:03o}", value));
        assert_eq!(radix(value, 2, 32), format!("{:032b}", value));
        assert_eq!(radix(value, 10, 12), format!("{:012}", value));
    }
}

#[test]
fn radix_text_appends() {
    let mut text = String::from("x=");
    push_radix(&mut text, 255, 16, 4);
    assert_eq!(text, "x=00ff");
}

#[test]
fn hex_layouts_of_a_value() {
    let value = 0x0011_EEFF;
    assert_eq!(format_hex(value, HexFormats::MotorolaSmall1Block), "0011eeff");
    assert_eq!(format_hex(value, HexFormats::MotorolaSmall2Blocks), "0011 eeff");
    assert_eq!(format_hex(value, HexFormats::MotorolaSmall4Blocks), "00 11 ee ff");
    assert_eq!(format_hex(value, HexFormats::MotorolaSmall1BlockWithX), "0x0011eeff");
    assert_eq!(format_hex(value, HexFormats::MotorolaSmall2BlocksWithX), "0x0011 0xeeff");
    assert_eq!(format_hex(value, HexFormats::MotorolaSmall4BlocksWithX), "0x00 0x11 0xee 0xff");
    assert_eq!(
        format_hex(value, HexFormats::MotorolaSmall4BlocksWithXWithBrackets),
        "[0x00] [0x11] [0xee] [0xff]"
    );
    assert_eq!(format_hex(value, HexFormats::MotorolaArray), "[0x00, 0x11, 0xee, 0xff]");
    assert_eq!(format_hex(value, HexFormats::Intel4Blocks), "ff ee 11 00");
    assert_eq!(format_hex(value, HexFormats::Intel4BlocksWithX), "0xff 0xee 0x11 0x00");
    assert_eq!(
        format_hex(value, HexFormats::Intel4BlocksWithXWitchBrackets),
        "[0xff] [0xee] [0x11] [0x00]"
    );
    assert_eq!(format_hex(value, HexFormats::IntelArray), "[0xff, 0xee, 0x11, 0x00]");
}

#[test]
fn hex_layouts_match_std_formatting() {
    for v in SAMPLES {
        let (b3, b2, b1, b0) = ((v >> 24) & 0xFF, (v >> 16) & 0xFF, (v >> 8) & 0xFF, v & 0xFF);
        assert_eq!(format_hex(v, HexFormats::MotorolaSmall1Block), format!("{:08x}", v));
        assert_eq!(
            format_hex(v, HexFormats::MotorolaSmall2Blocks),
            format!("{:04x} {:04x}", (v >> 16) & 0xFFFF, v & 0xFFFF)
        );
        assert_eq!(
            format_hex(v, HexFormats::MotorolaSmall4Blocks),
            format!("{:02x} {:02x} {:02x} {:02x}", b3, b2, b1, b0)
        );
        assert_eq!(format_hex(v, HexFormats::MotorolaSmall1BlockWithX), format!("{:#010x}", v));
        assert_eq!(
            format_hex(v, HexFormats::MotorolaSmall2BlocksWithX),
            format!("{:#06x} {:#06x}", (v >> 16) & 0xFFFF, v & 0xFFFF)
        );
        assert_eq!(
            format_hex(v, HexFormats::MotorolaSmall4BlocksWithX),
            format!("{:#04x} {:#04x} {:#04x} {:#04x}", b3, b2, b1, b0)
        );
        assert_eq!(
            format_hex(v, HexFormats::MotorolaSmall4BlocksWithXWithBrackets),
            format!("[{:#04x}] [{:#04x}] [{:#04x}] [{:#04x}]", b3, b2, b1, b0)
        );
        assert_eq!(
            format_hex(v, HexFormats::MotorolaArray),
            format!("[{:#04x}, {:#04x}, {:#04x}, {:#04x}]", b3, b2, b1, b0)
        );
        assert_eq!(
            format_hex(v, HexFormats::Intel4Blocks),
            format!("{:02x} {:02x} {:02x} {:02x}", b0, b1, b2, b3)
        );
        assert_eq!(
            format_hex(v, HexFormats::Intel4BlocksWithX),
            format!("{:#04x} {:#04x} {:#04x} {:#04x}", b0, b1, b2, b3)
        );
        assert_eq!(
            format_hex(v, HexFormats::Intel4BlocksWithXWitchBrackets),
            format!("[{:#04x}] [{:#04x}] [{:#04x}] [{:#04x}]", b0, b1, b2, b3)
        );
        assert_eq!(
            format_hex(v, HexFormats::IntelArray),
            format!("[{:#04x}, {:#04x}, {:#04x}, {:#04x}]", b0, b1, b2, b3)
        );
    }
}

#[test]
fn intel_layouts_mirror_motorola_layouts() {
    let pairs = [
        (HexFormats::Intel4Blocks, HexFormats::MotorolaSmall4Blocks),
        (HexFormats::Intel4BlocksWithX, HexFormats::MotorolaSmall4BlocksWithX),
        (
            HexFormats::Intel4BlocksWithXWitchBrackets,
            HexFormats::MotorolaSmall4BlocksWithXWithBrackets,
        ),
        (HexFormats::IntelArray, HexFormats::MotorolaArray),
    ];
    for v in SAMPLES {
        for (intel, motorola) in pairs {
            assert_eq!(format_hex(v, intel), format_hex(v.swap_bytes(), motorola));
        }
    }
    assert_eq!(format_hex(0x1234_5678, HexFormats::Intel4Blocks), "78 56 34 12");
    assert_eq!(format_hex(0x1234_5678, HexFormats::MotorolaSmall4Blocks), "12 34 56 78");
}

#[test]
fn hex_layouts_show_what_their_samples_show() {
    let value = 0x0011_EEFF;
    for format in HexFormats::ALL {
        if format != HexFormats::MotorolaSmall2Blocks {
            assert_eq!(format_hex(value, format), format.sample());
        }
    }
    assert_eq!(HexFormats::MotorolaSmall2Blocks.sample(), "0011 ee ff");
    assert_eq!(format_hex(value, HexFormats::MotorolaSmall2Blocks), "0011 eeff");
}

#[test]
fn hex_block_options() {
    let mut text = String::new();
    push_block(&mut text, 0xAB, 2, true, true);
    assert_eq!(text, "[0xab]");
    let mut text = String::new();
    push_block(&mut text, 0xABC, 2, false, false);
    assert_eq!(text, "abc");
}

#[test]
fn hex_format_lists() {
    assert_eq!(HexFormats::ALL.len(), 12);
    assert_eq!(HexFormats::ALL[0], HexFormats::MotorolaSmall1Block);
    assert_eq!(HexFormats::ALL[11], HexFormats::IntelArray);
    assert_eq!(HexFormats::default(), HexFormats::MotorolaSmall1Block);
    assert_eq!(HexFormats::MotorolaSmall2Blocks.sample(), "0011 ee ff");
    assert_eq!(HexFormats::Intel4Blocks.sample(), "ff ee 11 00");
    assert_eq!(HexFormats::IntelArray.sample(), "[0xff, 0xee, 0x11, 0x00]");
    assert_eq!(DecFormats::ALL, [DecFormats::Plain, DecFormats::PointSeperator, DecFormats::CommaSeperator]);
    assert_eq!(DecFormats::default(), DecFormats::Plain);
    assert_eq!(DecFormats::Plain.sample(), "123456");
    assert_eq!(DecFormats::PointSeperator.sample(), "123.456");
    assert_eq!(DecFormats::CommaSeperator.sample(), "123,456");
}

#[test]
fn decimal_layouts_of_a_value() {
    assert_eq!(format_decimal(1234567, DecFormats::Plain), "1234567");
    assert_eq!(format_decimal(1234567, DecFormats::PointSeperator), "1.234.567");
    assert_eq!(format_decimal(1234567, DecFormats::CommaSeperator), "1,234,567");
    assert_eq!(format_decimal(0, DecFormats::PointSeperator), "0");
    assert_eq!(format_decimal(999, DecFormats::CommaSeperator), "999");
    assert_eq!(format_decimal(1000, DecFormats::CommaSeperator), "1,000");
    assert_eq!(format_decimal(1_000_001, DecFormats::PointSeperator), "1.000.001");
    assert_eq!(format_decimal(u32::MAX, DecFormats::PointSeperator), "4.294.967.295");
    assert_eq!(format_decimal(u32::MAX, DecFormats::CommaSeperator), "4,294,967,295");
    assert_eq!(format_decimal(u32::MAX, DecFormats::Plain), "4294967295");
}

#[test]
fn decimal_display_signed_and_unsigned() {
    assert_eq!(decimal_display(0, false), "0");
    assert_eq!(decimal_display(0, true), "0");
    assert_eq!(decimal_display(1234, false), "1.234");
    assert_eq!(decimal_display(0xFFFF_FFFF, false), "4.294.967.295");
    assert_eq!(decimal_display(0xFFFF_FFFF, true), "-1");
    assert_eq!(decimal_display(0x8000_0000, true), "-2.147.483.648");
    assert_eq!(decimal_display(0x8000_0000, false), "2.147.483.648");
    assert_eq!(decimal_display(0x7FFF_FFFF, true), "2.147.483.647");
    assert_eq!(decimal_display(0xFFFF_FC18, true), "-1.000");
}

#[test]
fn octal_display_layout() {
    assert_eq!(octal_display(0xFFFF_FFFF), "37 777 777 777");
    assert_eq!(octal_display(0), "00 000 000 000");
    assert_eq!(octal_display(0o12_345_670_123), "12 345 670 123");
    assert_eq!(octal_display(8), "00 000 000 010");
    for v in SAMPLES {
        assert_eq!(
            octal_display(v),
            format!(
                "{:02o} {:03o} {:03o} {:03o}",
                (v >> 27) & 0o777,
                (v >> 18) & 0o777,
                (v >> 9) & 0o777,
                v & 0o777
            )
        );
    }
}

#[test]
fn hex_display_is_two_blocks() {
    assert_eq!(hex_display(0), "0000 0000");
    assert_eq!(hex_display(0x1234_ABCD), "1234 abcd");
    assert_eq!(hex_display(0xFFFF_FFFF), "ffff ffff");
}

#[test]
fn strip_separators_drops_points_commas_spaces() {
    assert_eq!(strip_separators("1.234,567 890"), "1234567890");
    assert_eq!(strip_separators(""), "");
    assert_eq!(strip_separators(" ., "), "");
    assert_eq!(strip_separators("a-b_c"), "a-b_c");
}

#[test]
fn to_digit_matches_std() {
    for base in [2u32, 8, 10, 16, 36] {
        for c in ['0', '1', '7', '8', '9', 'a', 'f', 'g', 'z', 'A', 'F', 'G', 'Z', ' ', '+', '-', '/', ':', '@', '[', '`', '{', '\u{e9}'] {
            assert_eq!(to_digit(c, base), c.to_digit(base));
        }
    }
}

#[test]
fn parse_number_matches_std() {
    let texts = [
        "", "0", "00", "7", "+7", "++7", "+", "-", "-7", "12a", "a", "ff", "FF", "fF", "g",
        "4294967295", "4294967296", "04294967295", "99999999999", "ffffffff", "100000000",
        "0ffffffff", "37777777777", "40000000000", " 1", "1 ", "1.0", "\u{663}",
    ];
    for text in texts {
        for base in [2u32, 8, 10, 16] {
            assert_eq!(parse_number(text, base), u32::from_str_radix(text, base).ok());
        }
    }
}

#[test]
fn decimal_input_cases() {
    assert_eq!(decimal_input(77, ""), 0);
    assert_eq!(decimal_input(77, "123"), 123);
    assert_eq!(decimal_input(77, "1.234.567"), 1234567);
    assert_eq!(decimal_input(77, "1,234,567"), 1234567);
    assert_eq!(decimal_input(77, "1 234 567"), 1234567);
    assert_eq!(decimal_input(77, "4.294.967.295"), 4294967295);
    assert_eq!(decimal_input(77, "4.294.967.296"), 77);
    assert_eq!(decimal_input(77, "12x"), 77);
    assert_eq!(decimal_input(77, "-1"), 77);
    assert_eq!(decimal_input(77, " "), 77);
    assert_eq!(decimal_input(77, "."), 77);
    assert_eq!(decimal_input(77, "+5"), 5);
    assert_eq!(decimal_input(77, "ff"), 77);
}

#[test]
fn hex_input_cases() {
    assert_eq!(hex_input(77, ""), 0);
    assert_eq!(hex_input(77, "ff"), 255);
    assert_eq!(hex_input(77, "FF"), 255);
    assert_eq!(hex_input(77, "1234 abcd"), 0x1234_ABCD);
    assert_eq!(hex_input(77, "ffff ffff"), 0xFFFF_FFFF);
    assert_eq!(hex_input(77, "1 ffff ffff"), 77);
    assert_eq!(hex_input(77, "0x10"), 77);
    assert_eq!(hex_input(77, "xyz"), 77);
    assert_eq!(hex_input(77, "10"), 16);
}

#[test]
fn text_input_in_octal() {
    assert_eq!(text_input(77, "17 777", 8), 0o17777);
    assert_eq!(text_input(77, "8", 8), 77);
}

#[test]
fn input_matches_the_std_pipeline() {
    let texts = ["", "12", "1.2", "1,2 3", "+9", "abc", "ab c", "4294967296", " ", "0.0", "dead beef"];
    for text in texts {
        let stripped = text.replace(['.', ',', ' '], "");
        let expected_dec =
            if text.is_empty() { 0 } else { stripped.parse::<u32>().unwrap_or(5) };
        let expected_hex =
            if text.is_empty() { 0 } else { u32::from_str_radix(&stripped, 16).unwrap_or(5) };
        assert_eq!(decimal_input(5, text), expected_dec);
        assert_eq!(hex_input(5, text), expected_hex);
    }
}

#[test]
fn plain_decimal_round_trip() {
    for value in SAMPLES {
        let text = format_decimal(value, DecFormats::Plain);
        assert_eq!(decimal_input(value.wrapping_add(1), &text), value);
    }
}

#[test]
fn grouped_decimal_round_trip() {
    for value in SAMPLES {
        for format in DecFormats::ALL {
            let text = format_decimal(value, format);
            assert_eq!(decimal_input(value.wrapping_add(1), &text), value);
        }
    }
}

#[test]
fn hex_display_round_trip() {
    for value in SAMPLES {
        let text = hex_display(value);
        assert_eq!(hex_input(value.wrapping_add(1), &text), value);
    }
}
