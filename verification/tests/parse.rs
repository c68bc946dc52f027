use discv5_cli::parse::{hex_decode, parse_u64, split_commas};

#[test]
fn hex_decodes_bytes() {
    assert_eq!(hex_decode("0aff"), Some(vec![0x0a, 0xff]));
    assert_eq!(hex_decode("00"), Some(vec![0x00]));
    assert_eq!(hex_decode(""), Some(vec![]));
    assert_eq!(
        hex_decode("DeadBeef"),
        Some(vec![0xde, 0xad, 0xbe, 0xef])
    );
}

#[test]
fn hex_rejects_odd_length() {
    assert_eq!(hex_decode("a"), None);
    assert_eq!(hex_decode("abc"), None);
}

#[test]
fn hex_rejects_non_hex_characters() {
    assert_eq!(hex_decode("zz"), None);
    assert_eq!(hex_decode("0g"), None);
    assert_eq!(hex_decode("a bc"), None);
    assert_eq!(hex_decode("日本"), None);
}

#[test]
fn hex_round_trips_with_encoder() {
    let bytes: Vec<u8> = (0u16..=255).map(|b| b as u8).collect();
    let text = hex::encode(&bytes);
    assert_eq!(hex_decode(&text), Some(bytes));
}

#[test]
fn decimal_parses_u64() {
    assert_eq!(parse_u64("0"), Some(0));
    assert_eq!(parse_u64("407"), Some(407));
    assert_eq!(parse_u64("+407"), Some(407));
    assert_eq!(parse_u64("007"), Some(7));
    assert_eq!(parse_u64("18446744073709551615"), Some(u64::MAX));
}

#[test]
fn decimal_rejects_bad_input() {
    assert_eq!(parse_u64(""), None);
    assert_eq!(parse_u64("+"), None);
    assert_eq!(parse_u64("-1"), None);
    assert_eq!(parse_u64("12a"), None);
    assert_eq!(parse_u64("1 2"), None);
    assert_eq!(parse_u64("18446744073709551616"), None);
}

#[test]
fn decimal_agrees_with_std() {
    for text in ["9000", "+123", "0", "18446744073709551615", "18446744073709551616", "x", ""] {
        assert_eq!(parse_u64(text), text.parse::<u64>().ok(), "input {text:?}");
    }
}

#[test]
fn split_matches_std() {
    for text in ["", "a", "a,b", "0.0.0.0,::1", ",", "x,,y", "1,2,3"] {
        let expected: Vec<&str> = text.split(',').collect();
        assert_eq!(split_commas(text), expected, "input {text:?}");
    }
}
