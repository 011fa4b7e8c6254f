use macutil::hex::{hex_digit, push_octet_text};

#[test]
fn reads_digits_of_either_case() {
    let digits = "0123456789abcdef";
    for (value, c) in digits.chars().enumerate() {
        assert_eq!(hex_digit(c), Some(value as u8));
        assert_eq!(hex_digit(c.to_ascii_uppercase()), Some(value as u8));
    }
}

#[test]
fn reads_nothing_else_as_a_digit() {
    for c in ['g', 'G', 'z', ' ', ':', '-', '+', '/', '@', '`', '\0', 'é', '٣', '０'] {
        assert_eq!(hex_digit(c), None);
    }
    let mut digits = 0;
    for code in 0..0x300u32 {
        if let Some(c) = char::from_u32(code) {
            if hex_digit(c).is_some() {
                digits += 1;
            }
        }
    }
    assert_eq!(digits, 22);
}

#[test]
fn writes_two_upper_case_digits() {
    let mut text = String::from("x");
    push_octet_text(&mut text, 0);
    assert_eq!(text, "x00");
    push_octet_text(&mut text, 0xff);
    assert_eq!(text, "x00FF");
    push_octet_text(&mut text, 0x0a);
    push_octet_text(&mut text, 0xa0);
    push_octet_text(&mut text, 0x9c);
    assert_eq!(text, "x00FF0AA09C");
}

#[test]
fn digits_written_are_read_back() {
    for v in 0..=255u8 {
        let mut text = String::new();
        push_octet_text(&mut text, v);
        let digits: Vec<char> = text.chars().collect();
        assert_eq!(digits.len(), 2);
        let high = hex_digit(digits[0]).unwrap();
        let low = hex_digit(digits[1]).unwrap();
        assert_eq!(16 * high + low, v);
    }
}
