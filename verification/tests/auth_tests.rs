use base64::Engine;
use wusul::auth::{
    create_auth_headers, create_get_auth_headers, create_signature, encode_payload,
    encode_serialized, encode_text, verify_signature,
};
use wusul::error::WusulError;
use wusul::json::{serialize, JsonValue};

fn text_value(text: &str) -> JsonValue {
    JsonValue::String(text.to_string())
}

fn object(members: Vec<(&str, JsonValue)>) -> JsonValue {
    JsonValue::Object(members.into_iter().map(|(key, value)| (key.to_string(), value)).collect())
}

#[test]
fn test_encode_payload() {
    let payload = object(vec![("test", text_value("value"))]);
    let encoded = encode_payload(&payload).unwrap();
    assert!(!encoded.is_empty());

    // Verify it's valid base64
    let decoded = base64::engine::general_purpose::STANDARD.decode(&encoded).unwrap();
    let decoded_str = String::from_utf8(decoded).unwrap();
    assert!(decoded_str.contains("test"));
    assert!(decoded_str.contains("value"));
}

#[test]
fn test_create_signature() {
    let secret = "test_secret";
    let payload = "test_payload";

    let signature1 = create_signature(secret, payload);
    let signature2 = create_signature(secret, payload);

    // Same inputs should produce same signature
    assert_eq!(signature1, signature2);

    // Signature should be hex string (64 chars for SHA256)
    assert_eq!(signature1.len(), 64);
}

#[test]
fn test_verify_signature() {
    let secret = "test_secret";
    let payload = "test_payload";
    let signature = create_signature(secret, payload);

    // Valid signature should verify
    assert!(verify_signature(secret, payload, &signature));

    // Invalid signature should not verify
    assert!(!verify_signature(secret, payload, "invalid"));

    // Different payload should not verify
    assert!(!verify_signature(secret, "different", &signature));
}

#[test]
fn test_create_auth_headers() {
    let account_id = "test_account";
    let secret = "test_secret";
    let payload = object(vec![("key", text_value("value"))]);

    let (acct_id, signature) = create_auth_headers(account_id, secret, Some(&payload)).unwrap();

    assert_eq!(acct_id, account_id);
    assert_eq!(signature.len(), 64); // SHA256 hex string
}

#[test]
fn test_create_auth_headers_no_payload() {
    let account_id = "test_account";
    let secret = "test_secret";

    let (acct_id, signature) = create_auth_headers(account_id, secret, None).unwrap();

    assert_eq!(acct_id, account_id);
    assert_eq!(signature.len(), 64);
}

#[test]
fn test_signature_deterministic() {
    let secret = "my_secret";
    let payload = object(vec![
        ("fullName", text_value("John Doe")),
        ("email", text_value("john@example.com")),
    ]);

    let encoded = encode_payload(&payload).unwrap();
    let sig1 = create_signature(secret, &encoded);
    let sig2 = create_signature(secret, &encoded);

    assert_eq!(sig1, sig2);
}

#[test]
fn encode_payload_gives_the_base64_of_the_compact_json() {
    let payload = object(vec![("test", text_value("value"))]);
    assert_eq!(serialize(&payload).unwrap(), "{\"test\":\"value\"}");
    assert_eq!(encode_payload(&payload).unwrap(), "eyJ0ZXN0IjoidmFsdWUifQ==");
}

#[test]
fn encode_payload_writes_members_by_key() {
    let payload = object(vec![
        ("fullName", text_value("John Doe")),
        ("email", text_value("john@example.com")),
    ]);
    assert_eq!(
        encode_payload(&payload).unwrap(),
        "eyJlbWFpbCI6ImpvaG5AZXhhbXBsZS5jb20iLCJmdWxsTmFtZSI6IkpvaG4gRG9lIn0="
    );
}

#[test]
fn encode_payload_of_nested_values() {
    let payload = object(vec![
        (
            "b",
            JsonValue::Array(vec![
                JsonValue::UInt(1),
                JsonValue::Int(-2),
                JsonValue::Null,
                JsonValue::Bool(true),
            ]),
        ),
        ("a", object(vec![("x", text_value("é\"\\"))])),
    ]);
    assert_eq!(
        serialize(&payload).unwrap(),
        "{\"a\":{\"x\":\"é\\\"\\\\\"},\"b\":[1,-2,null,true]}"
    );
    assert_eq!(
        encode_payload(&payload).unwrap(),
        "eyJhIjp7IngiOiLDqVwiXFwifSwiYiI6WzEsLTIsbnVsbCx0cnVlXX0="
    );
}

#[test]
fn signed_and_unsigned_integers_write_the_same_number() {
    let signed = object(vec![("n", JsonValue::Int(7))]);
    let unsigned = object(vec![("n", JsonValue::UInt(7))]);
    assert_eq!(serialize(&signed).unwrap(), "{\"n\":7}");
    assert_eq!(serialize(&signed).unwrap(), serialize(&unsigned).unwrap());
    assert_eq!(
        serialize(&JsonValue::Int(i64::MIN)).unwrap(),
        "-9223372036854775808"
    );
    assert_eq!(
        serialize(&JsonValue::UInt(u64::MAX)).unwrap(),
        "18446744073709551615"
    );
}

#[test]
fn encode_text_follows_the_standard_alphabet_with_padding() {
    assert_eq!(encode_text("").unwrap(), "");
    assert_eq!(encode_text("f").unwrap(), "Zg==");
    assert_eq!(encode_text("fo").unwrap(), "Zm8=");
    assert_eq!(encode_text("foo").unwrap(), "Zm9v");
    assert_eq!(encode_text("foob").unwrap(), "Zm9vYg==");
    assert_eq!(encode_text("{}").unwrap(), "e30=");
    // two bytes of UTF-8 for one character
    assert_eq!(encode_text("é").unwrap(), "w6k=");
}

#[test]
fn encode_serialized_passes_a_failure_on() {
    let cause = serde_json::from_str::<serde_json::Value>("{").unwrap_err();
    let shown = format!("{:?}", cause);
    match encode_serialized(Err(cause)) {
        Err(WusulError::SerializationError(kept)) => assert_eq!(format!("{:?}", kept), shown),
        _ => panic!("Expected SerializationError"),
    }
    assert_eq!(encode_serialized(Ok("{}".to_string())).unwrap(), "e30=");
}

#[test]
fn create_signature_is_the_hex_of_the_sha256_of_secret_then_payload() {
    assert_eq!(
        create_signature("test_secret", "test_payload"),
        "7ad6e4dad2935d720f77ffa94a7463ef759cf6a40757dab5aa8ad906283c7c06"
    );
    assert_eq!(
        create_signature("test_secret", "eyJrZXkiOiJ2YWx1ZSJ9"),
        "75c80dc69134ca9473b66ad578072ae687758c484c19d10a4c9978bc9f54422b"
    );
}

#[test]
fn create_signature_is_64_lowercase_hex_characters() {
    for (secret, payload) in [("", ""), ("s", "p"), ("test_secret", "e30="), ("é", "ü")] {
        let signature = create_signature(secret, payload);
        assert_eq!(signature.len(), 64);
        assert!(signature.chars().all(|c| matches!(c, '0'..='9' | 'a'..='f')));
        assert_eq!(signature, create_signature(secret, payload));
    }
}

#[test]
fn create_signature_joins_without_a_separator() {
    assert_eq!(create_signature("ab", "c"), create_signature("a", "bc"));
    assert_eq!(
        create_signature("ab", "c"),
        "ba7816bf8f01cfea414140de5dae2223b00361a396177a9cb410ff61f20015ad"
    );
    assert!(verify_signature("a", "bc", &create_signature("ab", "c")));
}

#[test]
fn verify_signature_accepts_its_own_and_rejects_altered_inputs() {
    let payload = object(vec![("key", text_value("value"))]);
    let encoded = encode_payload(&payload).unwrap();
    let signature = create_signature("test_secret", &encoded);
    assert!(verify_signature("test_secret", &encoded, &signature));
    // altered secret
    assert!(!verify_signature("other_secret", &encoded, &signature));
    // altered payload
    let other = encode_payload(&object(vec![("key", text_value("other"))])).unwrap();
    assert!(!verify_signature("test_secret", &other, &signature));
    // altered signature: upper case is not accepted
    assert!(!verify_signature("test_secret", &encoded, &signature.to_uppercase()));
    assert!(!verify_signature("test_secret", &encoded, ""));
}

#[test]
fn auth_headers_keep_the_account_and_sign_the_payload() {
    let payload = object(vec![("key", text_value("value"))]);
    let (account, signature) =
        create_auth_headers("test_account", "test_secret", Some(&payload)).unwrap();
    assert_eq!(account, "test_account");
    assert_eq!(signature.len(), 64);
    assert_eq!(
        signature,
        "75c80dc69134ca9473b66ad578072ae687758c484c19d10a4c9978bc9f54422b"
    );
    // stable across repeated calls
    let again = create_auth_headers("test_account", "test_secret", Some(&payload)).unwrap();
    assert_eq!(again.1, signature);
}

#[test]
fn auth_headers_without_payload_sign_the_empty_object() {
    let none = create_auth_headers("test_account", "test_secret", None).unwrap();
    let empty = JsonValue::empty_object();
    let some = create_auth_headers("test_account", "test_secret", Some(&empty)).unwrap();
    assert_eq!(none, some);
    assert_eq!(
        none.1,
        "1a639c51a6760704e973d38e459427bf8c0c42d2bf0da27aaf69dd7474f1ab1d"
    );
    assert_eq!(encode_payload(&empty).unwrap(), "e30=");
}

#[test]
fn get_auth_headers_sign_the_query_parameters() {
    let params = object(vec![
        ("limit", JsonValue::UInt(10)),
        ("state", text_value("active")),
    ]);
    let get = create_get_auth_headers("acct", "test_secret", Some(&params)).unwrap();
    let post = create_auth_headers("acct", "test_secret", Some(&params)).unwrap();
    assert_eq!(get, post);
    assert_eq!(get.0, "acct");
    assert_eq!(
        get.1,
        "892af0a46d5b6b7feea8ab070be9d3d1172f52db4bc6d675abcdfd1ac038092c"
    );
}

#[test]
fn members_with_equal_keys_are_written_once() {
    let payload = object(vec![("a", JsonValue::UInt(1)), ("a", JsonValue::UInt(2))]);
    assert_eq!(serialize(&payload).unwrap(), "{\"a\":2}");
}

#[test]
fn clone_of_a_value_holds_the_same_data() {
    let payload = object(vec![
        ("list", JsonValue::Array(vec![JsonValue::Int(-1), JsonValue::Bool(false)])),
        ("inner", object(vec![("text", text_value("x")), ("none", JsonValue::Null)])),
        ("count", JsonValue::UInt(9)),
    ]);
    let copy = payload.clone();
    assert_eq!(copy, payload);
    assert_eq!(serialize(&copy).unwrap(), serialize(&payload).unwrap());
}
