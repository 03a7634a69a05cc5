//! Text, numbers, digests, maps and payloads.

use serde_json::Value;
use zode::datum::{Datum, Same};
use zode::digest::hex_text;
use zode::domain::{
    BlobRef, DomainError, DurablePayload, OpaqueContinuation, MAX_INLINE_PAYLOAD_BYTES,
    MAX_OPAQUE_CONTINUATION_BYTES,
};
use zode::json::Json;
use zode::number::{decimal_text, parse_unsigned, signed_text};
use zode::sorting::sort_by_name;
use zode::text::{
    characters, comes_before, contains_control, contains_text, has_prefix, has_suffix,
    is_white_space, joined, same_text, text_bytes,
};
use zode::text_map::TextMap;
use zode::web::{parse_address, shares_origin};

fn words(list: &[&str]) -> Vec<String> {
    list.iter().map(|word| word.to_string()).collect()
}

#[test]
fn texts_are_measured_in_bytes() {
    assert_eq!(text_bytes("abc"), 3);
    assert_eq!(text_bytes("h\u{e9}llo\u{20ac}"), 9);
    assert_eq!(characters("a\u{20ac}"), vec!['a', '\u{20ac}']);
    assert!(same_text("a", "a"));
    assert!(!same_text("a", "b"));
    assert!(contains_control("a\u{7f}"));
    assert!(!contains_control("a b"));
    assert!(contains_text(&words(&["a", "b"]), "b"));
    assert!(has_prefix("abc", "ab") && !has_prefix("abc", "b"));
    assert!(has_suffix("abc", "bc") && !has_suffix("abc", "b"));
    assert_eq!(joined("a", "b"), "ab");
}

#[test]
fn texts_are_ordered_by_their_bytes() {
    assert!(comes_before("a", "b"));
    assert!(comes_before("a", "aa"));
    assert!(!comes_before("a", "a"));
    assert!(comes_before("Z", "a"));
    assert!(comes_before("z", "\u{e9}"));
}

#[test]
fn white_space_is_what_unicode_calls_so() {
    for code in 0..0x3100u32 {
        let c = char::from_u32(code).unwrap();
        assert_eq!(is_white_space(c), c.is_whitespace());
    }
}

#[test]
fn numbers_are_written_and_read() {
    for number in [0, 9, 10, 12_345, u64::MAX] {
        assert_eq!(decimal_text(number), number.to_string());
        assert_eq!(parse_unsigned(&decimal_text(number)), Some(number));
    }
    for number in [i64::MIN, -10, -1, 0, 7, i64::MAX] {
        assert_eq!(signed_text(number), number.to_string());
    }
    assert_eq!(parse_unsigned("+7"), Some(7));
    assert_eq!(parse_unsigned("007"), Some(7));
    for bad in ["", "+", "-1", "1 ", "18446744073709551616", "1x"] {
        assert_eq!(parse_unsigned(bad), None);
    }
}

#[test]
fn digests_are_written_in_hexadecimal() {
    assert_eq!(hex_text(&[0, 15, 16, 255]), "000f10ff");
}

#[test]
fn names_are_put_in_order() {
    assert_eq!(sort_by_name(&words(&["b", "a", "c", "a"])), words(&["a", "a", "b", "c"]));
}

#[test]
fn a_map_walks_its_keys_in_order() {
    let mut map: TextMap<u64> = TextMap::new();
    map.insert("b".to_string(), 2);
    map.insert("a".to_string(), 1);
    map.insert("c".to_string(), 3);
    map.insert("b".to_string(), 4);
    assert_eq!(map.len(), 3);
    assert_eq!(map.key_at(0), "a");
    assert_eq!(*map.value_at(1), 4);
    assert_eq!(map.get("c"), Some(&3));
    assert_eq!(map.get("d"), None);
    assert!(map.contains_key("a"));
    map.remove("b");
    assert_eq!(map.get("b"), None);
    assert_eq!(map.get("c"), Some(&3));
    map.keep_above(1);
    assert_eq!(map.len(), 1);
    assert_eq!(map.key_at(0), "c");
}

#[test]
fn a_replica_is_the_same() {
    let list = words(&["a", "b"]);
    assert_eq!(list.replica(), list);
    assert!(Some("a".to_string()).same(&Some("a".to_string())));
    assert!(!Some("a".to_string()).same(&None));
}

#[test]
fn addresses_have_parts() {
    let address = parse_address("https://User:pw@Host.Test:8443/a?b#c").unwrap();
    assert_eq!(address.username, "User");
    assert_eq!(address.password, Some("pw".to_string()));
    assert_eq!(address.query, Some("b".to_string()));
    assert_eq!(address.fragment, Some("c".to_string()));
    let near = parse_address("https://host.test:8443/").unwrap();
    assert!(shares_origin(&address, &near));
    let far = parse_address("https://host.test/").unwrap();
    assert!(!shares_origin(&address, &far));
    let default_port = parse_address("https://host.test:443/x").unwrap();
    assert!(shares_origin(&far, &default_port));
    assert!(parse_address("nowhere").is_none());
    let opaque = parse_address("mailto:a@b").unwrap();
    assert!(!shares_origin(&opaque, &opaque));
}

#[test]
fn a_payload_stays_in_its_bound() {
    let payload = DurablePayload::inline(Value::from("abc")).unwrap();
    assert_eq!(payload.validate(), Ok(()));
    match &payload {
        DurablePayload::Inline(inline) => {
            assert_eq!(inline.encoded_len(), 5);
            assert_eq!(inline.value(), &Value::from("abc"));
        }
        _ => panic!("not inline"),
    }
    let most = "x".repeat(MAX_INLINE_PAYLOAD_BYTES - 2);
    assert!(DurablePayload::inline(Value::from(most.as_str())).is_ok());
    let more = format!("{}x", most);
    assert_eq!(
        DurablePayload::inline(Value::from(more.as_str())).unwrap_err(),
        DomainError::DurablePayloadTooLarge {
            bytes: MAX_INLINE_PAYLOAD_BYTES + 1,
            max: MAX_INLINE_PAYLOAD_BYTES
        }
    );
}

#[test]
fn payloads_agree_in_content() {
    let parse = |text: &str| {
        DurablePayload::inline(serde_json::from_str(text).unwrap()).unwrap()
    };
    assert!(parse("{\"a\":1,\"b\":[true,null]}").agrees(&parse("{\"b\":[true,null],\"a\":1}")));
    assert!(!parse("{\"a\":1}").agrees(&parse("{\"a\":2}")));
    assert!(!parse("{\"a\":1}").agrees(&parse("{\"a\":1.0}")));
    assert!(parse("[0.5]").agrees(&parse("[0.5]")));
    assert!(!parse("\"a\"").agrees(&DurablePayload::redacted("secret".to_string())));
}

#[test]
fn a_blob_has_a_name() {
    let blob = |id: &str| BlobRef {
        blob_id: id.to_string(),
        byte_len: 1,
        sha256: "a".repeat(64),
        media_type: None,
    };
    assert_eq!(blob("b").validate(), Ok(()));
    assert_eq!(blob("").validate(), Err(DomainError::EmptyField { field: "blob_id" }));
}

#[test]
fn a_continuation_is_bounded() {
    let make = |bytes: usize| {
        OpaqueContinuation::new("models".to_string(), 1, "reasoning".to_string(), vec![0; bytes])
    };
    assert!(make(MAX_OPAQUE_CONTINUATION_BYTES).is_ok());
    assert!(make(MAX_OPAQUE_CONTINUATION_BYTES + 1).is_err());
    assert!(OpaqueContinuation::new("".to_string(), 1, "k".to_string(), vec![1]).is_err());
}

#[test]
fn json_is_kept_as_it_is() {
    let mut object = serde_json::Map::new();
    object.insert("a".to_string(), Value::from(1));
    let json = Json { value: Value::Object(object) };
    assert_eq!(json.replica(), json);
}

#[test]
fn a_map_stays_in_order_whatever_is_done() {
    let mut map: TextMap<u64> = TextMap::new();
    for (key, value) in [("d", 4), ("a", 1), ("\u{e9}", 9), ("ab", 2), ("B", 7), ("d", 5)] {
        map.insert(key.to_string(), value);
    }
    map.remove("a");
    map.keep_above(2);
    let copy = map.clone();
    let keys: Vec<&str> =
        (0..copy.len()).map(|index| copy.key_at(index).as_str()).collect();
    assert_eq!(keys, vec!["B", "d", "\u{e9}"]);
    assert_eq!(map, copy);
}
