use interact_sms::codec::{escape_extend, u64_to_dec};
use interact_sms::time::{UtcTime, MAX_TIMESTAMP, MIN_TIMESTAMP};
use interact_sms::wire::Phonenumber;

#[test]
fn timestamps_outside_the_range_are_rejected() {
    assert!(UtcTime::from_timestamp(0).is_some());
    assert!(UtcTime::from_timestamp(MIN_TIMESTAMP).is_some());
    assert!(UtcTime::from_timestamp(MAX_TIMESTAMP).is_some());
    assert!(UtcTime::from_timestamp(MIN_TIMESTAMP - 1).is_none());
    assert!(UtcTime::from_timestamp(MAX_TIMESTAMP + 1).is_none());
    assert_eq!(UtcTime::from_timestamp(12345).unwrap().timestamp(), 12345);
}

#[test]
fn plus_seconds_saturates_at_the_latest_instant() {
    let t = UtcTime::from_timestamp(MAX_TIMESTAMP).unwrap();
    assert_eq!(t.plus_seconds(10).timestamp(), MAX_TIMESTAMP);
    let t = UtcTime::from_timestamp(100).unwrap();
    assert_eq!(t.plus_seconds(300).timestamp(), 400);
}

#[test]
fn extreme_instants_still_render() {
    let msg = interact_sms::message::sms_api("KEY".to_string())
        .send_at(UtcTime::from_timestamp(MIN_TIMESTAMP).unwrap())
        .expires(UtcTime::from_timestamp(MAX_TIMESTAMP).unwrap());
    let req = msg.prepare_at(UtcTime::from_timestamp(0).unwrap());
    let body = String::from_utf8(req.body).unwrap();
    assert!(body.contains("-01-01T00:00:00Z"));
    assert!(body.contains("-12-31T23:59:59Z"));
}

#[test]
fn decimal_rendering_is_exact() {
    assert_eq!(u64_to_dec(0), "0");
    assert_eq!(u64_to_dec(7), "7");
    assert_eq!(u64_to_dec(10), "10");
    assert_eq!(u64_to_dec(400), "400");
    assert_eq!(u64_to_dec(u64::MAX), "18446744073709551615");
}

#[test]
fn escaping_is_exact() {
    let mut out: Vec<u8> = Vec::new();
    escape_extend(&mut out, b"plain");
    assert_eq!(out, b"plain".to_vec());
    let mut out: Vec<u8> = Vec::new();
    escape_extend(&mut out, b"a\"b\\c\x08\x09\x0a\x0c\x0d\x01\x1f");
    assert_eq!(out, b"a\\\"b\\\\c\\b\\t\\n\\f\\r\\u0001\\u001f".to_vec());
    let mut out: Vec<u8> = Vec::new();
    escape_extend(&mut out, "caf\u{e9}".as_bytes());
    assert_eq!(out, "caf\u{e9}".as_bytes().to_vec());
}

#[test]
fn phone_group_keeps_the_numbers() {
    let group = Phonenumber::group(vec!["1".to_string(), "2".to_string()]);
    assert_eq!(group.numbers(), &vec!["1".to_string(), "2".to_string()]);
}
