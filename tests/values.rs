use hls_m3u8::decimal::{
    DecimalFloatingPoint, DecimalResolution, Duration, SignedDecimalFloatingPoint,
};
use hls_m3u8::error::ErrorKind;
use hls_m3u8::pairs::attribute_pairs;
use hls_m3u8::tokens::{
    ClosedCaptions, EncryptionMethod, HdcpLevel, MediaType, PlaylistType, ProtocolVersion,
    SessionEncryptionMethod, Yes, YesOrNo,
};
use hls_m3u8::value::{DecimalInteger, HexadecimalSequence, M3u8String, QuotedString};

fn pairs(s: &str) -> Vec<(String, String)> {
    attribute_pairs(s).unwrap()
}

#[test]
fn tokenizer_keeps_commas_inside_quotes() {
    let p = pairs("KEY=\"a,b\",K2=c");
    assert_eq!(
        p,
        vec![
            ("KEY".to_string(), "\"a,b\"".to_string()),
            ("K2".to_string(), "c".to_string())
        ]
    );
}

#[test]
fn tokenizer_rejects_unterminated_quote() {
    assert!(attribute_pairs("KEY=\"a,b").is_err());
    assert!(attribute_pairs("A=1,KEY=\"open").is_err());
}

#[test]
fn tokenizer_rejects_duplicate_keys() {
    let e = attribute_pairs("A=1,B=2,A=3").unwrap_err();
    assert_eq!(e.kind(), ErrorKind::InvalidInput);
}

#[test]
fn tokenizer_rejects_missing_equals() {
    assert!(attribute_pairs("A").is_err());
    assert!(attribute_pairs("A,B=1").is_err());
    assert!(attribute_pairs("=1").is_err());
}

#[test]
fn tokenizer_edge_cases() {
    assert!(pairs("").is_empty());
    assert_eq!(pairs("A=1,"), vec![("A".to_string(), "1".to_string())]);
    assert_eq!(
        pairs("A=,B=\"x\"y"),
        vec![
            ("A".to_string(), "".to_string()),
            ("B".to_string(), "\"x\"y".to_string())
        ]
    );
    assert_eq!(pairs("lower=1")[0].0, "lower");
}

#[test]
fn quoted_string_parse_and_write() {
    let q = QuotedString::from_str("\"abc, def\"").unwrap();
    assert_eq!(q.as_str(), "abc, def");
    assert_eq!(q.to_string(), "\"abc, def\"");
    assert_eq!(QuotedString::from_str("\"\"").unwrap().as_str(), "");
}

#[test]
fn quoted_string_rejects_bad_input() {
    assert!(QuotedString::from_str("abc").is_err());
    assert!(QuotedString::from_str("\"").is_err());
    assert!(QuotedString::from_str("\"a\"b\"").is_err());
    assert!(QuotedString::from_str("\"a\nb\"").is_err());
    assert!(QuotedString::new("a\"b").is_err());
    assert!(QuotedString::new("tab\there").is_err());
    assert_eq!(QuotedString::new("fine").unwrap().as_str(), "fine");
}

#[test]
fn m3u8_string_rejects_line_breaks() {
    assert!(M3u8String::new("one\ntwo").is_err());
    assert!(M3u8String::new("one\rtwo").is_err());
    assert_eq!(M3u8String::new("title, with comma").unwrap().as_str(), "title, with comma");
}

#[test]
fn hexadecimal_sequence_parse_and_write() {
    let h = HexadecimalSequence::from_str("0x0aFf").unwrap();
    assert_eq!(h.as_bytes(), &[0x0a, 0xff]);
    assert_eq!(h.to_string(), "0x0AFF");
    assert_eq!(HexadecimalSequence::from_str("0X").unwrap().as_bytes().len(), 0);
    assert_eq!(HexadecimalSequence::new(vec![1, 2, 171]).to_string(), "0x0102AB");
}

#[test]
fn hexadecimal_sequence_rejects_bad_input() {
    assert!(HexadecimalSequence::from_str("0x123").is_err());
    assert!(HexadecimalSequence::from_str("1234").is_err());
    assert!(HexadecimalSequence::from_str("0xZZ").is_err());
    assert!(HexadecimalSequence::from_str("").is_err());
}

#[test]
fn decimal_integer_parse_and_write() {
    assert_eq!(DecimalInteger::from_str("123").unwrap().0, 123);
    assert_eq!(DecimalInteger::from_str("007").unwrap().0, 7);
    assert_eq!(
        DecimalInteger::from_str("18446744073709551615").unwrap().0,
        u64::MAX
    );
    assert_eq!(DecimalInteger(u64::MAX).to_string(), "18446744073709551615");
    assert_eq!(DecimalInteger(0).to_string(), "0");
}

#[test]
fn decimal_integer_rejects_bad_input() {
    assert!(DecimalInteger::from_str("").is_err());
    assert!(DecimalInteger::from_str("18446744073709551616").is_err());
    assert!(DecimalInteger::from_str("+1").is_err());
    assert!(DecimalInteger::from_str("-1").is_err());
    assert!(DecimalInteger::from_str("12a").is_err());
}

#[test]
fn decimal_float_keeps_fraction() {
    let f = DecimalFloatingPoint::from_str("6.006").unwrap();
    assert_eq!((f.secs, f.nanos), (6, 6_000_000));
    assert_eq!(f.to_string(), "6.006");
    let g = DecimalFloatingPoint::from_str("6.0").unwrap();
    assert_eq!((g.secs, g.nanos), (6, 0));
    assert_eq!(g.to_string(), "6");
    assert_eq!(DecimalFloatingPoint::from_str("29.97").unwrap().to_string(), "29.97");
    assert_eq!(DecimalFloatingPoint::from_str("0.000000001").unwrap().nanos, 1);
}

#[test]
fn decimal_float_cuts_after_nine_places() {
    let f = DecimalFloatingPoint::from_str("0.1234567891").unwrap();
    assert_eq!(f.nanos, 123_456_789);
    assert_eq!(f.to_string(), "0.123456789");
}

#[test]
fn decimal_float_rejects_bad_input() {
    assert!(DecimalFloatingPoint::from_str("6.").is_err());
    assert!(DecimalFloatingPoint::from_str(".5").is_err());
    assert!(DecimalFloatingPoint::from_str("-1").is_err());
    assert!(DecimalFloatingPoint::from_str("1e3").is_err());
    assert!(DecimalFloatingPoint::from_str("1.2.3").is_err());
    assert!(DecimalFloatingPoint::from_str("").is_err());
}

#[test]
fn decimal_float_and_duration() {
    let d = Duration::new(6, 6_000_000);
    let f = DecimalFloatingPoint::from_duration(d);
    assert_eq!(f.to_string(), "6.006");
    assert_eq!(f.to_duration(), d);
    assert_eq!(Duration::from_secs(10).as_secs(), 10);
    assert_eq!(Duration::from_secs(10).subsec_nanos(), 0);
}

#[test]
fn signed_decimal_float() {
    let f = SignedDecimalFloatingPoint::from_str("-1.5").unwrap();
    assert!(f.negative);
    assert_eq!(f.to_string(), "-1.5");
    let z = SignedDecimalFloatingPoint::from_str("-0").unwrap();
    assert!(!z.negative);
    assert_eq!(z.to_string(), "0");
    assert_eq!(SignedDecimalFloatingPoint::from_str("12.25").unwrap().to_string(), "12.25");
    assert!(SignedDecimalFloatingPoint::from_str("--1").is_err());
    assert!(SignedDecimalFloatingPoint::from_str("-").is_err());
}

#[test]
fn decimal_resolution() {
    let r = DecimalResolution::from_str("1920x1080").unwrap();
    assert_eq!((r.width, r.height), (1920, 1080));
    assert_eq!(DecimalResolution::from_str("1280X720").unwrap().to_string(), "1280x720");
    assert!(DecimalResolution::from_str("0x10").is_err());
    assert!(DecimalResolution::from_str("1920").is_err());
    assert!(DecimalResolution::from_str("x10").is_err());
    assert!(DecimalResolution::from_str("10x").is_err());
}

#[test]
fn enumerated_tokens() {
    assert_eq!(EncryptionMethod::from_str("NONE").unwrap(), EncryptionMethod::NoEncryption);
    assert_eq!(EncryptionMethod::from_str("AES-128").unwrap(), EncryptionMethod::Aes128);
    assert_eq!(EncryptionMethod::SampleAes.to_string(), "SAMPLE-AES");
    let e = EncryptionMethod::from_str("aes-128").unwrap_err();
    assert_eq!(e.kind(), ErrorKind::InvalidInput);
    assert_eq!(e.context(), "aes-128");
    assert!(SessionEncryptionMethod::from_str("NONE").is_err());
    assert_eq!(SessionEncryptionMethod::Aes128.to_string(), "AES-128");
    assert_eq!(PlaylistType::from_str("VOD").unwrap(), PlaylistType::Vod);
    assert_eq!(PlaylistType::Event.to_string(), "EVENT");
    assert_eq!(MediaType::from_str("CLOSED-CAPTIONS").unwrap(), MediaType::ClosedCaptions);
    assert_eq!(MediaType::Subtitles.to_string(), "SUBTITLES");
    assert_eq!(YesOrNo::from_str("NO").unwrap(), YesOrNo::No);
    assert!(YesOrNo::from_str("yes").is_err());
    assert_eq!(Yes::from_str("YES").unwrap(), Yes);
    assert!(Yes::from_str("NO").is_err());
    assert_eq!(HdcpLevel::from_str("TYPE-0").unwrap(), HdcpLevel::Type0);
    assert_eq!(HdcpLevel::NoHdcp.to_string(), "NONE");
}

#[test]
fn closed_captions_values() {
    assert!(matches!(ClosedCaptions::from_str("NONE").unwrap(), ClosedCaptions::NoCaptions));
    match ClosedCaptions::from_str("\"cc1\"").unwrap() {
        ClosedCaptions::GroupId(q) => assert_eq!(q.as_str(), "cc1"),
        ClosedCaptions::NoCaptions => panic!("expected a group id"),
    }
    assert!(ClosedCaptions::from_str("cc1").is_err());
    assert_eq!(ClosedCaptions::NoCaptions.to_string(), "NONE");
}

#[test]
fn protocol_versions() {
    assert_eq!(ProtocolVersion::from_str("7").unwrap(), ProtocolVersion::V7);
    assert_eq!(ProtocolVersion::from_str("1").unwrap(), ProtocolVersion::V1);
    assert!(ProtocolVersion::from_str("0").is_err());
    assert!(ProtocolVersion::from_str("8").is_err());
    assert!(ProtocolVersion::V1 < ProtocolVersion::V2);
    assert!(ProtocolVersion::V5 > ProtocolVersion::V2);
    assert_eq!(ProtocolVersion::V4.number_of(), 4);
}
