use session_keys::key_id::KeyId;
use session_keys::record::SessionKeys;
use session_keys::wire::{encode_key, encode_keys};

#[test]
fn parse_reads_hyphenated_and_other_forms() {
    let id = KeyId::parse("a1a2a3a4-b1b2-c1c2-d1d2-d3d4d5d6d7d8").unwrap();
    assert_eq!(id.value, 0xa1a2a3a4b1b2c1c2d1d2d3d4d5d6d7d8u128);
    let simple = KeyId::parse("a1a2a3a4b1b2c1c2d1d2d3d4d5d6d7d8").unwrap();
    assert_eq!(simple, id);
    let braced = KeyId::parse("{a1a2a3a4-b1b2-c1c2-d1d2-d3d4d5d6d7d8}").unwrap();
    assert_eq!(braced, id);
}

#[test]
fn parse_rejects_text_that_is_no_uuid() {
    let err = KeyId::parse("not-a-uuid").unwrap_err();
    assert_eq!(err.text, "not-a-uuid");
    assert!(KeyId::parse("").is_err());
    assert!(KeyId::parse("11111111-1111-1111-1111-11111111111").is_err());
}

#[test]
fn hyphenated_text_is_lowercase_and_grouped() {
    let id = KeyId::from_u128(0xA1A2A3A4B1B2C1C2D1D2D3D4D5D6D7D8);
    assert_eq!(id.to_hyphenated(), "a1a2a3a4-b1b2-c1c2-d1d2-d3d4d5d6d7d8");
    assert_eq!(KeyId::from_u128(1).to_hyphenated(), "00000000-0000-0000-0000-000000000001");
}

#[test]
fn generated_ids_are_version_four() {
    let a = KeyId::generate();
    let b = KeyId::generate();
    assert_eq!((a.value >> 76) & 0xf, 4);
    assert_eq!((a.value >> 62) & 0x3, 2);
    assert_eq!(uuid::Uuid::from_u128(b.value).get_version_num(), 4);
    assert_ne!(a, b);
}

#[test]
fn generated_record_keeps_the_session_text() {
    let k = SessionKeys::generate("Hallo");
    assert_eq!(k.session_key, "Hallo");
    assert_eq!((k.id.value >> 76) & 0xf, 4);
}

#[test]
fn display_string_joins_id_and_key() {
    let k = SessionKeys::new(KeyId::from_u128(0x11111111111111111111111111111111), "Hallo");
    assert_eq!(k.to_display_string(), "11111111-1111-1111-1111-111111111111 - Hallo");
}

#[test]
fn key_object_escapes_the_key_text() {
    let k = SessionKeys::new(KeyId::from_u128(2), "a\"b\\c\nd\u{1}é");
    assert_eq!(
        encode_key(&k),
        "{\"id\":\"00000000-0000-0000-0000-000000000002\",\"session_key\":\"a\\\"b\\\\c\\nd\\u0001é\"}"
    );
}

#[test]
fn key_array_lists_objects_in_order() {
    assert_eq!(encode_keys(&Vec::new()), "[]");
    let a = SessionKeys::new(KeyId::from_u128(1), "x");
    let b = SessionKeys::new(KeyId::from_u128(2), "y");
    assert_eq!(
        encode_keys(&vec![a, b]),
        "[{\"id\":\"00000000-0000-0000-0000-000000000001\",\"session_key\":\"x\"},\
{\"id\":\"00000000-0000-0000-0000-000000000002\",\"session_key\":\"y\"}]"
    );
}
