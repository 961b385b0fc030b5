use hex::{decode, decode_to_fixed, FromHexError};

#[test]
fn decode_reads_the_example() {
    assert_eq!(
        decode("48656c6c6f"),
        Ok(vec![0x48, 0x65, 0x6c, 0x6c, 0x6f])
    );
}

#[test]
fn decode_puts_the_first_digit_in_the_high_half() {
    assert_eq!(decode("10"), Ok(vec![0x10]));
    assert_eq!(decode("01"), Ok(vec![0x01]));
    assert_eq!(decode("f0"), Ok(vec![0xf0]));
    assert_eq!(decode("0f"), Ok(vec![0x0f]));
    assert_eq!(decode("00ff"), Ok(vec![0x00, 0xff]));
    assert_eq!(decode("0123456789abcdef"), Ok(vec![0x01, 0x23, 0x45, 0x67, 0x89, 0xab, 0xcd, 0xef]));
}

#[test]
fn decode_accepts_letters_in_either_case() {
    assert_eq!(decode("dead"), Ok(vec![0xDE, 0xAD]));
    assert_eq!(decode("DEAD"), Ok(vec![0xDE, 0xAD]));
    assert_eq!(decode("DeAd"), Ok(vec![0xDE, 0xAD]));
}

#[test]
fn decode_of_the_empty_string_is_empty() {
    assert_eq!(decode(""), Ok(vec![]));
}

#[test]
fn decode_reports_an_odd_length_before_any_character() {
    assert_eq!(decode("abc"), Err(FromHexError::OddLength));
    assert_eq!(decode("a"), Err(FromHexError::OddLength));
    assert_eq!(decode("g"), Err(FromHexError::OddLength));
    assert_eq!(decode("ab$"), Err(FromHexError::OddLength));
    assert_eq!(decode("$bc"), Err(FromHexError::OddLength));
}

#[test]
fn decode_reports_the_first_invalid_character() {
    assert_eq!(
        decode("0g1h"),
        Err(FromHexError::InvalidHexCharacter { c: 'g', index: 1 })
    );
    assert_eq!(
        decode("abc$"),
        Err(FromHexError::InvalidHexCharacter { c: '$', index: 3 })
    );
    assert_eq!(
        decode("x0"),
        Err(FromHexError::InvalidHexCharacter { c: 'x', index: 0 })
    );
    assert_eq!(
        decode("00 1"),
        Err(FromHexError::InvalidHexCharacter { c: ' ', index: 2 })
    );
    assert_eq!(
        decode("0x1f"),
        Err(FromHexError::InvalidHexCharacter { c: 'x', index: 1 })
    );
}

#[test]
fn decode_counts_characters_not_bytes() {
    // 'é' is one character of two bytes.
    assert_eq!(decode("é"), Err(FromHexError::OddLength));
    assert_eq!(
        decode("aé"),
        Err(FromHexError::InvalidHexCharacter { c: 'é', index: 1 })
    );
    assert_eq!(
        decode("éé0g"),
        Err(FromHexError::InvalidHexCharacter { c: 'é', index: 0 })
    );
    assert_eq!(
        decode("00\u{1F600}g"),
        Err(FromHexError::InvalidHexCharacter { c: '\u{1F600}', index: 2 })
    );
    assert_eq!(
        decode("00é\u{1F600}0g"),
        Err(FromHexError::InvalidHexCharacter { c: 'é', index: 2 })
    );
}

#[test]
fn decode_gives_the_same_error_each_time() {
    for input in ["0g1h", "abc", "zz", "0", "12345", "é0"] {
        let first = decode(input);
        let second = decode(input);
        assert!(first.is_err());
        assert_eq!(first, second);
    }
}

#[test]
fn decode_gives_half_as_many_bytes_as_characters() {
    let mut input = String::new();
    for k in 0..40usize {
        assert_eq!(decode(&input).map(|bytes| bytes.len()), Ok(k));
        input.push_str("a7");
    }
}

#[test]
fn decode_reads_a_long_string() {
    let input = "0f".repeat(5000);
    assert_eq!(decode(&input), Ok(vec![0x0f; 5000]));
    let mut broken = input.clone();
    broken.push_str("0_");
    assert_eq!(
        decode(&broken),
        Err(FromHexError::InvalidHexCharacter { c: '_', index: 10001 })
    );
}

#[test]
fn decode_to_fixed_reads_a_string_of_the_right_length() {
    assert_eq!(decode_to_fixed::<2>("dead"), Ok([0xde, 0xad]));
    assert_eq!(decode_to_fixed::<2>("DeAd"), Ok([0xde, 0xad]));
    assert_eq!(
        decode_to_fixed::<5>("48656c6c6f"),
        Ok([0x48, 0x65, 0x6c, 0x6c, 0x6f])
    );
    assert_eq!(decode_to_fixed::<1>("07"), Ok([0x07]));
}

#[test]
fn decode_to_fixed_of_the_empty_string_is_the_empty_array() {
    assert_eq!(decode_to_fixed::<0>(""), Ok([]));
}

#[test]
fn decode_to_fixed_reports_a_wrong_length_before_anything_else() {
    assert_eq!(
        decode_to_fixed::<2>("0011223344"),
        Err(FromHexError::InvalidStringLength)
    );
    assert_eq!(
        decode_to_fixed::<2>("00"),
        Err(FromHexError::InvalidStringLength)
    );
    assert_eq!(
        decode_to_fixed::<2>(""),
        Err(FromHexError::InvalidStringLength)
    );
    assert_eq!(
        decode_to_fixed::<0>("00"),
        Err(FromHexError::InvalidStringLength)
    );
    // Odd, and with a character that is no digit: the length comes first.
    assert_eq!(
        decode_to_fixed::<2>("abc"),
        Err(FromHexError::InvalidStringLength)
    );
    assert_eq!(
        decode_to_fixed::<2>("0g1"),
        Err(FromHexError::InvalidStringLength)
    );
    assert_eq!(
        decode_to_fixed::<2>("zzzzzz"),
        Err(FromHexError::InvalidStringLength)
    );
    assert_eq!(
        decode_to_fixed::<1>("é"),
        Err(FromHexError::InvalidStringLength)
    );
}

#[test]
fn decode_to_fixed_reports_the_first_invalid_character() {
    assert_eq!(
        decode_to_fixed::<2>("0g1h"),
        Err(FromHexError::InvalidHexCharacter { c: 'g', index: 1 })
    );
    assert_eq!(
        decode_to_fixed::<2>("001h"),
        Err(FromHexError::InvalidHexCharacter { c: 'h', index: 3 })
    );
    assert_eq!(
        decode_to_fixed::<1>("éa"),
        Err(FromHexError::InvalidHexCharacter { c: 'é', index: 0 })
    );
}

#[test]
fn decode_to_fixed_agrees_with_decode_on_the_right_length() {
    for input in ["0123", "abcd", "ABCD", "0g00", "00g0", "zzzz", "ffff"] {
        let fixed = decode_to_fixed::<2>(input).map(|bytes| bytes.to_vec());
        assert_eq!(fixed, decode(input));
    }
}
