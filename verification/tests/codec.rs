use serial_term_rpc::serial_port::parse_str_to_serial;

#[test]
fn parse_str_untouched() {
    assert_eq!("ok", parse_str_to_serial("ok"));
}

#[test]
fn parse_str_hex() {
    assert_eq!("\x02#", parse_str_to_serial("0x020x23"));
    assert_eq!(
        "\x02iii\x17ii\x03",
        parse_str_to_serial("0x02iii0x17ii0x03")
    );
}

#[test]
fn parse_str_short_inputs_identity() {
    assert_eq!("", parse_str_to_serial(""));
    assert_eq!("a", parse_str_to_serial("a"));
    assert_eq!("0x0", parse_str_to_serial("0x0"));
    assert_eq!("0xF", parse_str_to_serial("0xF"));
}

#[test]
fn parse_str_single_escape() {
    assert_eq!("A", parse_str_to_serial("0x41"));
    assert_eq!("\n", parse_str_to_serial("0x0A"));
}

#[test]
fn parse_str_upper_marker_accepted() {
    assert_eq!("\n", parse_str_to_serial("0X0Azzz"));
}

#[test]
fn parse_str_lowercase_digit_rejected() {
    assert_eq!("0x0a", parse_str_to_serial("0x0azzz"));
    assert_eq!("0xaa", parse_str_to_serial("0xaazzz"));
}

#[test]
fn parse_str_marker_must_be_zero_then_x() {
    assert_eq!("1x41", parse_str_to_serial("1x41zzz"));
    assert_eq!("0y41", parse_str_to_serial("0y41zzz"));
}

#[test]
fn parse_str_letter_digits_carry_their_value() {
    assert_eq!("J", parse_str_to_serial("0x4A"));
    assert_eq!("\u{FF}", parse_str_to_serial("0xFF"));
}

#[test]
fn parse_str_unconsumed_tail_dropped() {
    assert_eq!("abcd", parse_str_to_serial("abcdefg"));
    assert_eq!("o", parse_str_to_serial("okay"));
}
