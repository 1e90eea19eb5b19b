use paynow::date;
use paynow::date::Date;
use paynow::form;
use paynow::status::Status;
use paynow::text;

#[test]
fn form_decodes_pairs_in_order() {
    let pairs = form::decode_form("a=1&b=two&c=").unwrap();
    assert_eq!(pairs.len(), 3);
    assert_eq!(pairs[0], ("a".to_string(), "1".to_string()));
    assert_eq!(pairs[1], ("b".to_string(), "two".to_string()));
    assert_eq!(pairs[2], ("c".to_string(), "".to_string()));
}

#[test]
fn form_decodes_escapes() {
    let pairs = form::decode_form("msg=hello+world%21&url=https%3A%2F%2Fx%2F").unwrap();
    assert_eq!(pairs[0].1, "hello world!");
    assert_eq!(pairs[1].1, "https://x/");
}

#[test]
fn form_keeps_later_equals_in_value() {
    let pairs = form::decode_form("k=a=b").unwrap();
    assert_eq!(pairs[0], ("k".to_string(), "a=b".to_string()));
}

#[test]
fn form_pair_without_equals_has_empty_value() {
    let pairs = form::decode_form("lonely").unwrap();
    assert_eq!(pairs[0], ("lonely".to_string(), "".to_string()));
}

#[test]
fn form_rejects_malformed_escape() {
    assert!(form::decode_form("a=%G1").is_none());
    assert!(form::decode_form("a=%4").is_none());
    assert!(form::decode_form("a=%FF").is_none());
}

#[test]
fn parse_u64_values() {
    assert_eq!(text::parse_u64("0"), Some(0));
    assert_eq!(text::parse_u64("007"), Some(7));
    assert_eq!(text::parse_u64("18446744073709551615"), Some(u64::MAX));
    assert_eq!(text::parse_u64("18446744073709551616"), None);
    assert_eq!(text::parse_u64(""), None);
    assert_eq!(text::parse_u64("12a"), None);
}

#[test]
fn u64_to_string_round_trip() {
    assert_eq!(text::u64_to_string(0), "0");
    assert_eq!(text::u64_to_string(314), "314");
    assert_eq!(text::u64_to_string(u64::MAX), "18446744073709551615");
}

#[test]
fn decimal_text_grammar() {
    assert!(text::is_decimal_str("314.1874"));
    assert!(text::is_decimal_str("0"));
    assert!(text::is_decimal_str("-10.50"));
    assert!(!text::is_decimal_str(""));
    assert!(!text::is_decimal_str("."));
    assert!(!text::is_decimal_str("5."));
    assert!(!text::is_decimal_str(".5"));
    assert!(!text::is_decimal_str("1.2.3"));
    assert!(!text::is_decimal_str("12x"));
}

#[test]
fn date_formats_ddmonyyyy() {
    let d = Date::new(2024, 1, 5).unwrap();
    assert_eq!(d.format(), "05Jan2024");
    let d = Date::new(1999, 12, 31).unwrap();
    assert_eq!(d.format(), "31Dec1999");
}

#[test]
fn date_parses_ddmonyyyy() {
    assert_eq!(date::parse("05Jan2024"), Some(Date { year: 2024, month: 1, day: 5 }));
    assert_eq!(date::parse("31Dec1999"), Some(Date { year: 1999, month: 12, day: 31 }));
    assert_eq!(date::parse("32Jan2024"), None);
    assert_eq!(date::parse("00Jan2024"), None);
    assert_eq!(date::parse("05Foo2024"), None);
    assert_eq!(date::parse("5Jan2024"), None);
    assert_eq!(date::parse("05jan2024"), None);
}

#[test]
fn date_round_trips() {
    for (y, m, d) in [(2024u16, 2u8, 29u8), (2000, 7, 1), (9999, 12, 31)] {
        let date = Date::new(y, m, d).unwrap();
        assert_eq!(date::parse(&date.format()), Some(date));
    }
}

#[test]
fn status_texts_round_trip() {
    let all = [
        Status::Created,
        Status::Cancelled,
        Status::Sent,
        Status::AwaitingDelivery,
        Status::Delivered,
        Status::Paid,
        Status::Disputed,
        Status::Refunded,
    ];
    for st in all {
        assert_eq!(Status::parse(st.text()), Some(st));
    }
    assert_eq!(Status::AwaitingDelivery.text(), "Awaiting Delivery");
    assert_eq!(Status::parse("Unknown"), None);
}

#[test]
fn hex_rendering_is_uppercase_two_digits() {
    assert_eq!(text::to_hex_upper(&vec![0x00, 0x0f, 0xa5, 0xff]), "000FA5FF");
}
