use sarne::encoding::{macaroon_hex, node_pubkey_bytes, HexError};
use sarne::network::to_channel_id;
use sarne::text::{
    contains_char, decimal_text, first_two_pieces, parse_u32, push_decimal, push_padded, push_signed_decimal,
};
use sarne::time::{span_text, Timestamp, FIRST_SECOND, LAST_SECOND, LONGEST_SPAN};

#[test]
fn numbers_are_written_in_decimal() {
    assert_eq!(decimal_text(0), "0");
    assert_eq!(decimal_text(1_204), "1204");
    assert_eq!(decimal_text(-7), "-7");
    assert_eq!(decimal_text(i64::MIN), i64::MIN.to_string());
    assert_eq!(decimal_text(i64::MAX), i64::MAX.to_string());
    let mut text = String::from("n=");
    push_decimal(&mut text, u64::MAX);
    assert_eq!(text, format!("n={}", u64::MAX));
}

#[test]
fn differences_are_written_with_a_sign() {
    for n in [0i64, 5, -5, i64::MIN, i64::MAX] {
        let mut text = String::new();
        push_signed_decimal(&mut text, n);
        assert_eq!(text, format!("{:+}", n));
    }
}

#[test]
fn columns_are_right_aligned() {
    for content in ["", "7", "12345", "1234567"] {
        let mut text = String::from("|");
        push_padded(&mut text, &content.to_string(), 5);
        assert_eq!(text, format!("|{:>5}", content));
    }
}

#[test]
fn output_indices_are_read() {
    for text in [
        "0", "1", "17", "+3", "007", "4294967295", "4294967296", "", "+", "-1", "1a", " 1", "++1",
        "99999999999999999999",
    ] {
        assert_eq!(parse_u32(text), text.parse::<u32>().ok(), "{}", text);
    }
}

#[test]
fn funding_outputs_are_split() {
    assert!(contains_char("abc:1", ':') && contains_char(":", ':'));
    assert!(!contains_char("abc", ':') && !contains_char("", ':'));
    let (txid, index) = first_two_pieces("abc:1", ':');
    assert_eq!((txid.as_str(), index.as_str()), ("abc", "1"));
    let (txid, index) = first_two_pieces(":", ':');
    assert_eq!((txid.as_str(), index.as_str()), ("", ""));
    let (txid, index) = first_two_pieces("a:b:c", ':');
    assert_eq!((txid.as_str(), index.as_str()), ("a", "b"));
}

#[test]
fn channel_ids_keep_their_value_in_a_signed_column() {
    assert_eq!(to_channel_id(0), 0);
    assert_eq!(to_channel_id(916_453_883_412_611_072), 916_453_883_412_611_072);
    assert_eq!(to_channel_id(i64::MAX as u64), i64::MAX);
    assert_eq!(to_channel_id(i64::MAX as u64 + 1), i64::MIN);
    assert_eq!(to_channel_id(u64::MAX), -1);
    assert_eq!(to_channel_id(u64::MAX) as u64, u64::MAX);
    assert_ne!(to_channel_id(1), to_channel_id(i64::MAX as u64 + 2));
}

#[test]
fn public_keys_are_decoded() {
    assert_eq!(node_pubkey_bytes("").unwrap(), Vec::<u8>::new());
    assert_eq!(node_pubkey_bytes("02aBFf00").unwrap(), vec![0x02, 0xab, 0xff, 0x00]);
}

#[test]
fn texts_that_are_no_keys_are_refused() {
    assert_eq!(node_pubkey_bytes("abc"), Err(HexError::OddLength));
    assert_eq!(node_pubkey_bytes("zzz"), Err(HexError::OddLength));
    assert_eq!(
        node_pubkey_bytes("0g1x"),
        Err(HexError::InvalidHexCharacter { c: 'g', index: 1 })
    );
    assert_eq!(
        node_pubkey_bytes("00/0"),
        Err(HexError::InvalidHexCharacter { c: '/', index: 2 })
    );
    // Bytes are read one by one, whatever character they belong to.
    assert_eq!(
        node_pubkey_bytes("\u{e9}"),
        Err(HexError::InvalidHexCharacter { c: '\u{c3}', index: 0 })
    );
}

#[test]
fn macaroons_are_encoded_in_lower_case() {
    assert_eq!(macaroon_hex(&[]), "");
    assert_eq!(macaroon_hex(&[0x02, 0x01, 0x03, 0xfa, 0x0e]), "020103fa0e");
}

#[test]
fn decoding_undoes_encoding() {
    let data: Vec<u8> = (0..=255).collect();
    assert_eq!(node_pubkey_bytes(&macaroon_hex(&data)).unwrap(), data);
}

#[test]
fn the_calendar_has_two_ends() {
    assert_eq!(chrono::NaiveDateTime::MIN.and_utc().timestamp(), FIRST_SECOND);
    assert_eq!(chrono::NaiveDateTime::MAX.and_utc().timestamp(), LAST_SECOND);
    assert!(Timestamp::from_parts(FIRST_SECOND, 0).is_some());
    assert!(Timestamp::from_parts(FIRST_SECOND - 1, 999_999_999).is_none());
    assert!(Timestamp::from_parts(LAST_SECOND, 999_999_999).is_some());
    assert!(Timestamp::from_parts(LAST_SECOND + 1, 0).is_none());
    assert!(Timestamp::from_parts(0, 1_000_000_000).is_none());
}

#[test]
fn spans_have_a_longest() {
    assert!(chrono::TimeDelta::try_seconds(LONGEST_SPAN).is_some());
    assert!(chrono::TimeDelta::try_seconds(-LONGEST_SPAN).is_some());
    assert!(chrono::TimeDelta::try_seconds(LONGEST_SPAN + 1).is_none());
}

#[test]
fn seconds_are_added() {
    let t = Timestamp::from_parts(1_700_000_000, 5).unwrap();
    let later = t.plus_seconds(14_400);
    assert_eq!((later.secs(), later.nanos()), (1_700_014_400, 5));
    let earlier = t.plus_seconds(-1_700_000_001);
    assert_eq!((earlier.secs(), earlier.nanos()), (-1, 5));
    let last = Timestamp::from_parts(LAST_SECOND - 1, 999_999_999).unwrap().plus_seconds(1);
    assert_eq!((last.secs(), last.nanos()), (LAST_SECOND, 999_999_999));
    let first = Timestamp::from_parts(0, 1).unwrap().plus_seconds(FIRST_SECOND);
    assert_eq!((first.secs(), first.nanos()), (FIRST_SECOND, 1));
}

#[test]
fn the_calendar_ends() {
    let t = Timestamp::from_parts(LAST_SECOND - 10, 999_999_999).unwrap();
    assert!(t.can_plus_seconds(10) && !t.can_plus_seconds(11));
    let t = Timestamp::from_parts(FIRST_SECOND + 10, 0).unwrap();
    assert!(t.can_plus_seconds(-10) && !t.can_plus_seconds(-11));
    assert!(!t.can_plus_seconds(i64::MAX) && !t.can_plus_seconds(i64::MIN));
}

#[test]
fn elapsed_time_is_compared_to_the_nanosecond() {
    let start = Timestamp::from_parts(100, 500_000_000).unwrap();
    let end = Timestamp::from_parts(110, 500_000_000).unwrap();
    let just_before = Timestamp::from_parts(110, 499_999_999).unwrap();
    let just_after = Timestamp::from_parts(110, 500_000_001).unwrap();
    assert!(!end.is_later_by_more_than(&start, 10));
    assert!(!end.is_later_by_less_than(&start, 10));
    assert!(just_before.is_later_by_less_than(&start, 10));
    assert!(!just_before.is_later_by_more_than(&start, 10));
    assert!(just_after.is_later_by_more_than(&start, 10));
    assert!(!just_after.is_later_by_less_than(&start, 10));
    assert!(start.is_later_by_less_than(&end, 0));
    assert!(!start.is_later_by_less_than(&just_before, -10));
    assert!(start.is_later_by_more_than(&just_before, -10));
}

#[test]
fn the_whole_calendar_can_be_measured() {
    let first = Timestamp::from_parts(FIRST_SECOND, 0).unwrap();
    let last = Timestamp::from_parts(LAST_SECOND, 999_999_999).unwrap();
    assert!(last.is_later_by_more_than(&first, LAST_SECOND - FIRST_SECOND));
    assert!(last.is_later_by_less_than(&first, LAST_SECOND - FIRST_SECOND + 1));
    assert!(first.is_later_by_less_than(&last, FIRST_SECOND - LAST_SECOND));
    assert!(first.is_later_by_more_than(&last, FIRST_SECOND - LAST_SECOND - 1));
}

#[test]
fn points_in_time_are_ordered() {
    let a = Timestamp::from_parts(-1, 999_999_999).unwrap();
    let b = Timestamp::from_unix(0);
    let c = Timestamp::from_parts(0, 1).unwrap();
    assert!(a.is_before(&b) && b.is_before(&c) && a.is_before(&c));
    assert!(!b.is_before(&a) && !b.is_before(&b));
    assert_eq!(Timestamp::from_unix(u32::MAX).secs(), 4_294_967_295);
}

#[test]
fn points_in_time_are_written_in_utc() {
    let t = Timestamp::from_parts(1_700_000_000, 500_000_000).unwrap();
    assert_eq!(t.to_rfc3339(), "2023-11-14T22:13:20.500+00:00");
    assert_eq!(Timestamp::from_unix(0).to_rfc3339(), "1970-01-01T00:00:00+00:00");
    assert_eq!(
        Timestamp::from_parts(LAST_SECOND, 999_999_999).unwrap().to_rfc3339(),
        "+262142-12-31T23:59:59.999999999+00:00"
    );
}

#[test]
fn the_clock_runs() {
    let before = chrono::Utc::now().timestamp();
    let now = Timestamp::now();
    let after = chrono::Utc::now().timestamp();
    assert!(before <= now.secs() && now.secs() <= after);
    assert!(now.nanos() < 1_000_000_000);
}

#[test]
fn spans_are_written_in_seconds() {
    assert_eq!(span_text(0), "P0D");
    assert_eq!(span_text(14_400), "PT14400S");
    assert_eq!(span_text(172_800), "PT172800S");
    assert_eq!(span_text(-5), "-PT5S");
    assert_eq!(span_text(LONGEST_SPAN), format!("PT{}S", LONGEST_SPAN));
}
