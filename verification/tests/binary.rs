use td4::binary::{byte_text, parse_cell};

#[test]
fn byte_text_is_eight_binary_digits() {
    assert_eq!(byte_text(0), "00000000");
    assert_eq!(byte_text(1), "00000001");
    assert_eq!(byte_text(4), "00000100");
    assert_eq!(byte_text(0x31), "00110001");
    assert_eq!(byte_text(0xfa), "11111010");
    assert_eq!(byte_text(0x80), "10000000");
    assert_eq!(byte_text(255), "11111111");
}

#[test]
fn byte_text_agrees_with_binary_formatting() {
    for byte in 0u8..=255 {
        assert_eq!(byte_text(byte), format!("{:08b}", byte));
    }
}

#[test]
fn parse_cell_reads_binary_digits() {
    assert_eq!(parse_cell("0"), 0);
    assert_eq!(parse_cell("1"), 1);
    assert_eq!(parse_cell("101"), 5);
    assert_eq!(parse_cell("00110001"), 0x31);
    assert_eq!(parse_cell("11111010"), 0xfa);
    assert_eq!(parse_cell("11111111"), 255);
}

#[test]
fn parse_cell_undoes_byte_text() {
    for byte in 0u8..=255 {
        assert_eq!(parse_cell(&byte_text(byte)), byte);
    }
}

#[test]
fn parse_cell_accepts_leading_zeros() {
    assert_eq!(parse_cell("0000000000000101"), 5);
    let mut text = "0".repeat(100);
    text.push('1');
    assert_eq!(parse_cell(&text), 1);
}

#[test]
fn parse_cell_accepts_one_sign() {
    assert_eq!(parse_cell("+101"), 5);
    assert_eq!(parse_cell("-0"), 0);
    assert_eq!(parse_cell("-1"), 255);
    assert_eq!(parse_cell("-10"), 254);
    assert_eq!(parse_cell("-100000000"), 0);
    assert_eq!(parse_cell("-11111111"), 1);
}

#[test]
fn parse_cell_keeps_the_low_eight_bits() {
    assert_eq!(parse_cell("100000000"), 0);
    assert_eq!(parse_cell("100000001"), 1);
    assert_eq!(parse_cell("1100110001"), 0x31);
    assert_eq!(parse_cell("1111111111111111"), 255);
}

#[test]
fn parse_cell_gives_zero_for_text_that_is_no_number() {
    assert_eq!(parse_cell(""), 0);
    assert_eq!(parse_cell("+"), 0);
    assert_eq!(parse_cell("-"), 0);
    assert_eq!(parse_cell("2"), 0);
    assert_eq!(parse_cell("12"), 0);
    assert_eq!(parse_cell("1 1"), 0);
    assert_eq!(parse_cell(" 11"), 0);
    assert_eq!(parse_cell("11 "), 0);
    assert_eq!(parse_cell("1_1"), 0);
    assert_eq!(parse_cell("0b11"), 0);
    assert_eq!(parse_cell("ff"), 0);
    assert_eq!(parse_cell("+-1"), 0);
    assert_eq!(parse_cell("--1"), 0);
    assert_eq!(parse_cell("1-"), 0);
    assert_eq!(parse_cell("\u{ff11}"), 0);
}

#[test]
fn parse_cell_gives_zero_for_a_number_beyond_a_machine_word() {
    assert_eq!(parse_cell(&"1".repeat(64)), 0);
    assert_eq!(parse_cell(&"1".repeat(200)), 0);
    let mut text = String::from("-");
    text.push_str(&"1".repeat(64));
    assert_eq!(parse_cell(&text), 0);
}
