use clevis_pin_trustee::error::PayloadDecodeError;
use clevis_pin_trustee::key::{decode_key, key_document, key_material, text_of_bytes, Key};

const RESOLVED: &str =
    "eyJrZXlfdHlwZSI6Im9jdCIsImtleSI6IjAxMjM0NTY3ODkwMTIzNDU2Nzg5MDEyMzQ1Njc4OTAxIn0=";

#[test]
fn resolved_key_decodes_to_key_material() {
    let key = decode_key(RESOLVED).unwrap();
    assert_eq!(key.key_type, "oct");
    assert_eq!(key.key, "01234567890123456789012345678901");
}

#[test]
fn key_document_is_the_json_text() {
    assert_eq!(
        key_document(RESOLVED),
        Ok("{\"key_type\":\"oct\",\"key\":\"01234567890123456789012345678901\"}".to_string())
    );
}

#[test]
fn key_that_is_not_base64_is_a_payload_error() {
    assert_eq!(decode_key("not base64!"), Err(PayloadDecodeError::Base64));
    assert_eq!(key_document("not base64!"), Err(PayloadDecodeError::Base64));
    // the padding is required
    assert_eq!(decode_key("bm90IGpzb24"), Err(PayloadDecodeError::Base64));
    // the URL-safe alphabet is not the standard one
    assert_eq!(decode_key("__4="), Err(PayloadDecodeError::Base64));
}

#[test]
fn key_that_is_not_utf8_is_a_payload_error() {
    assert_eq!(decode_key("//4="), Err(PayloadDecodeError::Utf8));
    assert_eq!(text_of_bytes(vec![0xff, 0xfe]), Err(PayloadDecodeError::Utf8));
    assert_eq!(text_of_bytes(vec![0x6b, 0xc3, 0xa9]), Ok("k\u{e9}".to_string()));
}

#[test]
fn key_that_is_not_json_is_a_payload_error() {
    assert_eq!(decode_key("bm90IGpzb24="), Err(PayloadDecodeError::Json));
    assert_eq!(Key::from_json("not json"), Err(PayloadDecodeError::Json));
    assert_eq!(Key::from_json(""), Err(PayloadDecodeError::Json));
}

#[test]
fn key_document_without_a_member_is_a_payload_error() {
    assert_eq!(decode_key("eyJrZXlfdHlwZSI6Im9jdCJ9"), Err(PayloadDecodeError::Json));
    assert_eq!(Key::from_json("{\"key\":\"k\"}"), Err(PayloadDecodeError::Json));
    assert_eq!(Key::from_json("{\"key_type\":1,\"key\":\"k\"}"), Err(PayloadDecodeError::Json));
    assert_eq!(Key::from_json("{\"key_type\":\"oct\",\"key\":null}"), Err(PayloadDecodeError::Json));
    assert_eq!(Key::from_json("[\"oct\",\"k\"]"), Err(PayloadDecodeError::Json));
}

#[test]
fn empty_key_value_is_a_payload_error() {
    assert_eq!(decode_key("eyJrZXlfdHlwZSI6Im9jdCIsImtleSI6IiJ9"), Err(PayloadDecodeError::Json));
    assert_eq!(
        key_material(Some(("oct".to_string(), String::new()))),
        Err(PayloadDecodeError::Json)
    );
}

#[test]
fn key_material_from_what_was_read() {
    assert_eq!(
        key_material(Some(("oct".to_string(), "secret".to_string()))),
        Ok(Key { key_type: "oct".to_string(), key: "secret".to_string() })
    );
    assert_eq!(key_material(None), Err(PayloadDecodeError::Json));
}

#[test]
fn other_members_of_a_key_document_are_left_unread() {
    let key = Key::from_json("{\"alg\":\"dir\",\"key\":\"k\",\"key_type\":\"oct\"}").unwrap();
    assert_eq!(key, Key { key_type: "oct".to_string(), key: "k".to_string() });
}

#[test]
fn payload_error_messages() {
    assert_eq!(PayloadDecodeError::Base64.message(), "Error decoding key in base64");
    assert_eq!(PayloadDecodeError::Utf8.message(), "Error decoding the key in JSON");
    assert_eq!(PayloadDecodeError::Json.message(), "Error in parsing the fetched key");
}
