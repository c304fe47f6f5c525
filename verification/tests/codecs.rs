//! The text codecs and identifier types: cursors, ids, UUID handling,
//! base64url checking and environment-variable naming.

use api::env::key;
use api::graphql::cursor::Cursor;
use api::graphql::cursor::cursor_round_trip;
use api::graphql::id::Id;
use api::graphql::id::id_round_trip;
use api::graphql::InputFault;
use api::jwk::b64url_text;
use api::text::bytes_to_string;
use api::text::decode_b64url;
use api::text::encode_b64url;
use api::text::parse_u32_bytes;
use api::text::parse_url;
use api::text::str_eq;
use api::text::to_upper;
use api::text::trim_str;
use api::text::u32_decimal_bytes;
use api::uid::UuidValue;
use api::uid::uuid_parse;
use api::uid::uuid_to_string;
use base64::Engine;

#[test]
fn cursor_encodes_offset_as_base64url_digits() {
    let cursor = Cursor::new(0);
    // "0" in base64url without padding.
    assert_eq!(cursor.encode(), "MA");
    let cursor = Cursor::new(12345);
    // "12345" in base64url without padding.
    assert_eq!(cursor.encode(), "MTIzNDU");
    assert_eq!(cursor.as_offset(), 12345);
}

#[test]
fn cursor_round_trips_through_its_wire_text() {
    for offset in [0i64, 1, 7, 42, 1000, u32::MAX as i64] {
        let cursor = Cursor::new(offset);
        let wire = cursor.encode();
        let back = Cursor::decode(&wire).expect("an encoded cursor must decode");
        assert_eq!(back.as_offset(), offset);
    }
}

#[test]
fn cursor_round_trip_theorem_runs() {
    assert_eq!(cursor_round_trip(Cursor::new(0)), Some(Cursor::new(0)));
    assert_eq!(cursor_round_trip(Cursor::new(987654)), Some(Cursor::new(987654)));
}

#[test]
fn cursor_rejects_bad_wire_text() {
    assert!(Cursor::decode("!!!").is_none());
    // Valid base64url, but the bytes are not digits.
    assert!(Cursor::decode("aGVsbG8").is_none());
    // Digits denoting a value beyond u32.
    let too_big = base64::engine::general_purpose::URL_SAFE_NO_PAD.encode(b"4294967296");
    assert!(Cursor::decode(&too_big).is_none());
}

#[test]
fn decimal_codec_round_trips() {
    for x in [0u32, 9, 10, 305419896, u32::MAX] {
        let bytes = u32_decimal_bytes(x);
        assert_eq!(parse_u32_bytes(&bytes), Some(x));
    }
    assert_eq!(parse_u32_bytes(&vec![]), None);
    assert_eq!(parse_u32_bytes(&b"12a".to_vec()), None);
    assert_eq!(parse_u32_bytes(&b"4294967295".to_vec()), Some(u32::MAX));
    assert_eq!(parse_u32_bytes(&b"4294967296".to_vec()), None);
}

#[test]
fn base64url_wrapper_round_trips() {
    let bytes = vec![1u8, 2, 3, 250, 251, 252];
    let text = encode_b64url(&bytes);
    assert_eq!(decode_b64url(&text), Some(bytes));
    assert_eq!(decode_b64url("not base64!"), None);
}

#[test]
fn b64url_text_checker_matches_the_alphabet() {
    assert!(b64url_text("AQAB"));
    assert!(b64url_text("abc-_09"));
    assert!(!b64url_text(""));
    assert!(!b64url_text("abc+d"));
    assert!(!b64url_text("abc=="));
    // Length 1 modulo 4 can never come out of unpadded base64.
    assert!(!b64url_text("abcde"));
}

#[test]
fn id_hands_its_uuid_out_only_under_its_own_type() {
    let uuid = UuidValue { hi: 7, lo: 9 };
    let id = Id::new("Shelter", uuid);
    assert_eq!(id.get("Shelter"), Ok(uuid));
    assert_eq!(id.get("Signal"), Err(InputFault::InvalidId));
}

#[test]
fn id_round_trips_through_its_wire_text() {
    let uuid = UuidValue { hi: 0x0123456789abcdef, lo: 0xfedcba9876543210 };
    let id = Id::new("Shelter", uuid);
    let wire = id.encode();
    let back = Id::decode(&wire).expect("an encoded id must decode");
    assert_eq!(back.get("Shelter"), Ok(uuid));
}

#[test]
fn id_round_trip_theorem_runs() {
    let id = Id::new("Shelter", UuidValue { hi: 11, lo: 13 });
    let back = id_round_trip(&id).expect("the round trip always succeeds");
    assert_eq!(back.get("Shelter"), Ok(UuidValue { hi: 11, lo: 13 }));
}

#[test]
fn id_rejects_wire_text_without_separator() {
    let engine = base64::engine::general_purpose::URL_SAFE_NO_PAD;
    assert!(Id::decode(&engine.encode(b"no-separator")).is_none());
    assert!(Id::decode(&engine.encode(b"Shelter:not-a-uuid")).is_none());
    assert!(Id::decode("!!!").is_none());
}

#[test]
fn uuid_text_round_trips() {
    let uuid = UuidValue { hi: 1, lo: 2 };
    let text = uuid_to_string(uuid);
    assert_eq!(text.len(), 36);
    assert_eq!(uuid_parse(&text), Some(uuid));
    assert_eq!(uuid_parse("not a uuid"), None);
}

#[test]
fn env_key_is_namespaced_and_upper_cased() {
    assert_eq!(key("port"), "API_PORT");
    assert_eq!(key("database_url"), "API_DATABASE_URL");
}

#[test]
fn small_std_wrappers_behave() {
    assert_eq!(to_upper("a-b"), "A-B");
    assert_eq!(trim_str("  x  "), "x");
    assert!(str_eq("ab", "ab"));
    assert!(!str_eq("ab", "ac"));
    assert_eq!(bytes_to_string(b"hi".to_vec()), Some("hi".to_string()));
    assert_eq!(bytes_to_string(vec![0xff, 0xfe]), None);
    assert_eq!(parse_url("https://example.com/a"), Some("https://example.com/a".to_string()));
    assert_eq!(parse_url("not a url"), None);
}
