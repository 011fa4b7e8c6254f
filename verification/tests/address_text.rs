use macutil::mac::MacAddr;
use macutil::parse::MacParseError;

#[test]
fn formats_zero_padded_upper_case() {
    assert_eq!(MacAddr::new([0, 0, 0, 0, 0, 0]).to_string(), "00:00:00:00:00:00");
    assert_eq!(MacAddr::new([255; 6]).to_string(), "FF:FF:FF:FF:FF:FF");
    assert_eq!(
        MacAddr::new([0x00, 0x1a, 0xb2, 0x3c, 0x0d, 0xef]).to_string(),
        "00:1A:B2:3C:0D:EF"
    );
    assert_eq!(MacAddr::new([1, 2, 3, 10, 11, 12]).to_string(), "01:02:03:0A:0B:0C");
}

#[test]
fn format_has_canonical_shape() {
    for seed in 0..=255u8 {
        let addr = MacAddr::new([
            seed,
            seed.wrapping_mul(7),
            seed.wrapping_add(13),
            !seed,
            seed ^ 0x5a,
            seed.rotate_left(3),
        ]);
        let text = addr.to_string();
        assert_eq!(text.len(), 17);
        for (i, c) in text.chars().enumerate() {
            if i % 3 == 2 {
                assert_eq!(c, ':');
            } else {
                assert!(matches!(c, '0'..='9' | 'A'..='F'));
            }
        }
    }
}

#[test]
fn octets_are_kept_in_order() {
    let bytes = [0xde, 0xad, 0xbe, 0xef, 0x00, 0x01];
    assert_eq!(MacAddr::new(bytes).octets(), bytes);
}

#[test]
fn parses_colon_separated() {
    assert_eq!(
        MacAddr::from_str("AA:BB:CC:DD:EE:FF"),
        Ok(MacAddr::new([0xaa, 0xbb, 0xcc, 0xdd, 0xee, 0xff]))
    );
    assert_eq!(
        MacAddr::from_str("00:00:00:00:00:00"),
        Ok(MacAddr::new([0; 6]))
    );
}

#[test]
fn parses_hyphens_and_mixed_separators() {
    let expected = Ok(MacAddr::new([0x01, 0x23, 0x45, 0x67, 0x89, 0xab]));
    assert_eq!(MacAddr::from_str("01-23-45-67-89-AB"), expected);
    assert_eq!(MacAddr::from_str("01:23-45:67-89:AB"), expected);
}

#[test]
fn parses_either_case() {
    let expected = Ok(MacAddr::new([0xaa, 0xbb, 0xcc, 0xdd, 0xee, 0xff]));
    assert_eq!(MacAddr::from_str("aa:bb:cc:dd:ee:ff"), expected);
    assert_eq!(MacAddr::from_str("aA:Bb:cC:Dd:eE:Ff"), expected);
}

#[test]
fn parses_single_digit_fields() {
    assert_eq!(
        MacAddr::from_str("1:2:3:a:B:0"),
        Ok(MacAddr::new([1, 2, 3, 10, 11, 0]))
    );
}

#[test]
fn too_few_fields_is_invalid_length() {
    assert_eq!(MacAddr::from_str("00"), Err(MacParseError::InvalidLength));
    assert_eq!(
        MacAddr::from_str("00:11:22:33:44"),
        Err(MacParseError::InvalidLength)
    );
}

#[test]
fn too_many_fields_is_invalid_length() {
    assert_eq!(
        MacAddr::from_str("00:11:22:33:44:55:66"),
        Err(MacParseError::InvalidLength)
    );
    assert_eq!(
        MacAddr::from_str("00:11:22:33:44:55:66:77:88"),
        Err(MacParseError::InvalidLength)
    );
}

#[test]
fn a_seventh_field_is_not_read() {
    assert_eq!(
        MacAddr::from_str("00:11:22:33:44:55:zz"),
        Err(MacParseError::InvalidLength)
    );
    assert_eq!(
        MacAddr::from_str("00:11:22:33:44:55:"),
        Err(MacParseError::InvalidLength)
    );
}

#[test]
fn non_hex_field_is_invalid_digit() {
    assert_eq!(
        MacAddr::from_str("zz:11:22:33:44:55"),
        Err(MacParseError::InvalidDigit)
    );
    assert_eq!(
        MacAddr::from_str("00:11:22:33:44:5g"),
        Err(MacParseError::InvalidDigit)
    );
    assert_eq!(
        MacAddr::from_str("00:11:2 :33:44:55"),
        Err(MacParseError::InvalidDigit)
    );
}

#[test]
fn bad_field_is_found_before_the_count() {
    assert_eq!(MacAddr::from_str("zz"), Err(MacParseError::InvalidDigit));
    assert_eq!(
        MacAddr::from_str("zz:11:22:33:44:55:66"),
        Err(MacParseError::InvalidDigit)
    );
    assert_eq!(
        MacAddr::from_str("00:11:xx"),
        Err(MacParseError::InvalidDigit)
    );
}

#[test]
fn empty_field_is_invalid_digit() {
    assert_eq!(MacAddr::from_str(""), Err(MacParseError::InvalidDigit));
    assert_eq!(
        MacAddr::from_str("00::22:33:44:55"),
        Err(MacParseError::InvalidDigit)
    );
    assert_eq!(
        MacAddr::from_str(":11:22:33:44:55"),
        Err(MacParseError::InvalidDigit)
    );
}

#[test]
fn field_longer_than_two_digits_is_invalid_digit() {
    assert_eq!(
        MacAddr::from_str("000:11:22:33:44:55"),
        Err(MacParseError::InvalidDigit)
    );
    assert_eq!(
        MacAddr::from_str("0011:22:33:44:55:66"),
        Err(MacParseError::InvalidDigit)
    );
    assert_eq!(
        MacAddr::from_str("001122334455"),
        Err(MacParseError::InvalidDigit)
    );
}

#[test]
fn sign_is_no_digit() {
    assert_eq!(
        MacAddr::from_str("+1:11:22:33:44:55"),
        Err(MacParseError::InvalidDigit)
    );
    assert_eq!(
        MacAddr::from_str("-1:11:22:33:44:55"),
        Err(MacParseError::InvalidDigit)
    );
}

#[test]
fn other_scripts_are_no_digits() {
    assert_eq!(
        MacAddr::from_str("٠٠:11:22:33:44:55"),
        Err(MacParseError::InvalidDigit)
    );
    assert_eq!(
        MacAddr::from_str("é:11:22:33:44:55"),
        Err(MacParseError::InvalidDigit)
    );
    assert_eq!(
        MacAddr::from_str("00:11:22:33:44:55:é"),
        Err(MacParseError::InvalidLength)
    );
}

#[test]
fn other_separators_do_not_split() {
    assert_eq!(
        MacAddr::from_str("00.11.22.33.44.55"),
        Err(MacParseError::InvalidDigit)
    );
    assert_eq!(
        MacAddr::from_str("00 11 22 33 44 55"),
        Err(MacParseError::InvalidDigit)
    );
}

#[test]
fn round_trip_of_text() {
    let mut state: u32 = 0x1234_5678;
    for _ in 0..5000 {
        let mut bytes = [0u8; 6];
        for b in bytes.iter_mut() {
            state = state.wrapping_mul(1_664_525).wrapping_add(1_013_904_223);
            *b = (state >> 24) as u8;
        }
        let addr = MacAddr::new(bytes);
        assert_eq!(MacAddr::from_str(&addr.to_string()), Ok(addr));
    }
}

#[test]
fn round_trip_of_every_octet_value() {
    for v in 0..=255u8 {
        let addr = MacAddr::new([v, 255 - v, v, 0, 255, v]);
        let text = addr.to_string();
        assert_eq!(MacAddr::from_str(&text), Ok(addr));
        assert_eq!(MacAddr::from_str(&text.to_lowercase()), Ok(addr));
        assert_eq!(MacAddr::from_str(&text.replace(':', "-")), Ok(addr));
    }
}

#[test]
fn error_messages() {
    assert_eq!(MacParseError::InvalidDigit.to_string(), "invalid digit");
    assert_eq!(MacParseError::InvalidLength.to_string(), "invalid length");
}

#[test]
fn zero_address_is_recognised() {
    assert!(MacAddr::new([0; 6]).is_zero());
    assert!(!MacAddr::new([0, 0, 0, 0, 0, 1]).is_zero());
    assert!(!MacAddr::new([1, 0, 0, 0, 0, 0]).is_zero());
    assert!(!MacAddr::new([0, 0, 0x80, 0, 0, 0]).is_zero());
}
