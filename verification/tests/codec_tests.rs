use sysfs_pwm::codec::{
    decode_bool, decode_polarity, decode_u32, decode_u32_fields, encode_bool, encode_polarity,
    encode_u32,
};
use sysfs_pwm::common::{Error, Polarity};

#[test]
fn encode_u32_renders_decimal() {
    assert_eq!(encode_u32(0), "0");
    assert_eq!(encode_u32(7), "7");
    assert_eq!(encode_u32(10), "10");
    assert_eq!(encode_u32(20000), "20000");
    assert_eq!(encode_u32(u32::MAX), "4294967295");
}

#[test]
fn decode_u32_trims_and_parses() {
    assert_eq!(decode_u32("42").unwrap(), 42);
    assert_eq!(decode_u32("  42\n").unwrap(), 42);
    assert_eq!(decode_u32("\t007 ").unwrap(), 7);
    assert_eq!(decode_u32("+123").unwrap(), 123);
    assert_eq!(decode_u32("4294967295").unwrap(), u32::MAX);
}

#[test]
fn decode_u32_rejects_bad_content() {
    assert!(matches!(decode_u32(""), Err(Error::Decode(_))));
    assert!(matches!(decode_u32("   "), Err(Error::Decode(_))));
    assert!(matches!(decode_u32("12a"), Err(Error::Decode(_))));
    assert!(matches!(decode_u32("-3"), Err(Error::Decode(_))));
    assert!(matches!(decode_u32("+"), Err(Error::Decode(_))));
    assert!(matches!(decode_u32("1 2"), Err(Error::Decode(_))));
    assert!(matches!(decode_u32("4294967296"), Err(Error::Decode(_))));
}

#[test]
fn u32_round_trips_through_text() {
    for v in [0u32, 1, 9, 10, 99, 100, 12345, 999_999_999, u32::MAX] {
        assert_eq!(decode_u32(&encode_u32(v)).unwrap(), v);
    }
}

#[test]
fn fields_split_on_whitespace_runs() {
    assert_eq!(decode_u32_fields("1000000 250000"), vec![1000000, 250000]);
    assert_eq!(decode_u32_fields("  1 \t2  3\n"), vec![1, 2, 3]);
    assert_eq!(decode_u32_fields(""), Vec::<u32>::new());
    assert_eq!(decode_u32_fields(" \n\t "), Vec::<u32>::new());
}

#[test]
fn fields_drop_unparseable_tokens() {
    assert_eq!(decode_u32_fields("a 1 b 2"), vec![1, 2]);
    assert_eq!(decode_u32_fields("9999999999 5"), vec![5]);
    assert_eq!(decode_u32_fields("1,2 3"), vec![3]);
}

#[test]
fn bool_text_encodes_and_decodes() {
    assert_eq!(encode_bool(true), "1");
    assert_eq!(encode_bool(false), "0");
    assert_eq!(decode_bool("1").unwrap(), true);
    assert_eq!(decode_bool("0\n").unwrap(), false);
    assert!(matches!(decode_bool("2"), Err(Error::Decode(_))));
    assert!(matches!(decode_bool(""), Err(Error::Decode(_))));
    assert!(matches!(decode_bool("10"), Err(Error::Decode(_))));
}

#[test]
fn polarity_text_encodes_and_decodes() {
    assert_eq!(encode_polarity(Polarity::Normal), "normal");
    assert_eq!(encode_polarity(Polarity::Inverse), "inversed");
    assert_eq!(decode_polarity("normal\n").unwrap(), Polarity::Normal);
    assert_eq!(decode_polarity(" inversed ").unwrap(), Polarity::Inverse);
    assert!(matches!(decode_polarity("foo"), Err(Error::Decode(_))));
    assert!(matches!(decode_polarity("inverse"), Err(Error::Decode(_))));
    assert!(matches!(decode_polarity(""), Err(Error::Decode(_))));
}

#[test]
fn polarity_round_trips_through_text() {
    for p in [Polarity::Normal, Polarity::Inverse] {
        assert_eq!(decode_polarity(&encode_polarity(p)).unwrap(), p);
    }
}
