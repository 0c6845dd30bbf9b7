//! The signing scheme: a payload is written as JSON, encoded as base64, and
//! signed with the SHA-256 digest of the shared secret followed by the
//! encoded payload.

use crate::encoding::{
    base64_encode, base64_len, base64_text, hex_encode, hex_lower, is_lower_hex,
    lemma_base64_text_is_injective, lemma_hex_lower_chars, lemma_hex_lower_is_injective, sha256,
    sha256_digest,
};
use crate::error::WusulError;
use crate::json::{payload_text, serialize, JsonModel, JsonValue};
use vstd::prelude::*;
use vstd::string::StringExecFns;
use vstd::utf8::{encode_utf8, encode_utf8_decode_utf8};

verus! {

/// The model of the payload that a request is given, if it is given one.
pub open spec fn given_model(payload: Option<&JsonValue>) -> Option<JsonModel> {
    match payload {
        Some(value) => Some(value@),
        None => None,
    }
}

/// The payload that is signed where a request carries none: the empty
/// object.
pub open spec fn payload_or_empty(payload: Option<JsonModel>) -> JsonModel {
    match payload {
        Some(model) => model,
        None => JsonModel::Object(Seq::empty()),
    }
}

/// Whether the base64 text of a JSON text has a length that fits in
/// `usize`.
pub open spec fn can_encode(text: Seq<char>) -> bool {
    base64_len(encode_utf8(text).len()) <= usize::MAX
}

/// The encoded payload for a JSON text: standard base64, with padding, of
/// its UTF-8 bytes.
pub open spec fn encoded_text(text: Seq<char>) -> Seq<char> {
    base64_text(encode_utf8(text))
}

/// The bytes that are hashed for a secret and an encoded payload: the UTF-8
/// bytes of the secret followed by those of the payload.
pub open spec fn signed_bytes(secret: Seq<char>, encoded: Seq<char>) -> Seq<u8> {
    encode_utf8(secret + encoded)
}

/// The signature for a secret and an encoded payload: the SHA-256 digest of
/// the secret's bytes followed, with no separator, by the payload's, in
/// lowercase hexadecimal.
pub open spec fn signature_text(secret: Seq<char>, encoded: Seq<char>) -> Seq<char> {
    hex_lower(sha256(signed_bytes(secret, encoded)))
}

/// What [`verify_signature`] decides.
pub open spec fn signature_verifies(
    secret: Seq<char>,
    encoded: Seq<char>,
    signature: Seq<char>,
) -> bool {
    signature == signature_text(secret, encoded)
}

/// The message of the error for a payload that is too large to encode.
pub open spec fn too_large_message() -> Seq<char> {
    "payload is too large to encode"@
}

/// Whether `error` is the error owed for a payload whose JSON text is
/// `text`: a serialization error where no text could be written, an
/// invalid-parameter error where the text is too large to encode, and no
/// error otherwise.
pub open spec fn is_encode_failure(text: Option<Seq<char>>, error: WusulError) -> bool {
    match text {
        None => error is SerializationError,
        Some(t) => {
            &&& !can_encode(t)
            &&& error matches WusulError::InvalidParameter(message)
            &&& message@ == too_large_message()
        },
    }
}

/// The signature owed for a payload under a secret, where the payload
/// encodes.
pub open spec fn payload_signature(secret: Seq<char>, model: JsonModel) -> Option<Seq<char>> {
    match payload_text(model) {
        Some(text) => if can_encode(text) {
            Some(signature_text(secret, encoded_text(text)))
        } else {
            None
        },
        None => None,
    }
}

/// Equal secrets and equal encoded payloads have equal signatures: the
/// signature depends on nothing else.
pub proof fn lemma_signature_is_deterministic(
    secret: Seq<char>,
    encoded: Seq<char>,
    other_secret: Seq<char>,
    other_encoded: Seq<char>,
)
    requires
        secret == other_secret,
        encoded == other_encoded,
    ensures
        signature_text(secret, encoded) == signature_text(other_secret, other_encoded),
{
}

/// A request without payload is encoded and signed as a request whose
/// payload is the empty object.
pub proof fn lemma_absent_payload_is_empty_object(secret: Seq<char>)
    ensures
        payload_text(payload_or_empty(None)) == payload_text(
            payload_or_empty(Some(JsonModel::Object(Seq::empty()))),
        ),
        payload_signature(secret, payload_or_empty(None)) == payload_signature(
            secret,
            payload_or_empty(Some(JsonModel::Object(Seq::empty()))),
        ),
{
}

/// The signature of an encoded payload under a secret verifies against
/// that payload and that secret.
pub proof fn lemma_own_signature_verifies(secret: Seq<char>, encoded: Seq<char>)
    ensures
        signature_verifies(secret, encoded, signature_text(secret, encoded)),
{
}

/// Any other text than the signature fails to verify: an altered signature
/// is rejected.
pub proof fn lemma_altered_signature_fails(
    secret: Seq<char>,
    encoded: Seq<char>,
    signature: Seq<char>,
)
    requires
        signature != signature_text(secret, encoded),
    ensures
        !signature_verifies(secret, encoded, signature),
{
}

/// Whether two byte strings differ and SHA-256 still gives them the same
/// digest.
pub open spec fn digests_collide(a: Seq<u8>, b: Seq<u8>) -> bool {
    a != b && sha256(a) == sha256(b)
}

/// Different texts have different UTF-8 bytes.
pub proof fn lemma_utf8_is_injective(a: Seq<char>, b: Seq<char>)
    requires
        encode_utf8(a) == encode_utf8(b),
    ensures
        a == b,
{
    encode_utf8_decode_utf8(a);
    encode_utf8_decode_utf8(b);
}

/// A signature fails to verify against a secret and an encoded payload
/// that join to another text, unless SHA-256 gives both the same digest.
pub proof fn lemma_altered_input_fails(
    secret: Seq<char>,
    encoded: Seq<char>,
    other_secret: Seq<char>,
    other_encoded: Seq<char>,
)
    requires
        other_secret + other_encoded != secret + encoded,
        !digests_collide(
            signed_bytes(other_secret, other_encoded),
            signed_bytes(secret, encoded),
        ),
    ensures
        !signature_verifies(other_secret, other_encoded, signature_text(secret, encoded)),
{
    if encode_utf8(other_secret + other_encoded) == encode_utf8(secret + encoded) {
        lemma_utf8_is_injective(other_secret + other_encoded, secret + encoded);
    }
    if signature_text(secret, encoded) == signature_text(other_secret, other_encoded) {
        lemma_hex_lower_is_injective(
            sha256(signed_bytes(secret, encoded)),
            sha256(signed_bytes(other_secret, other_encoded)),
        );
    }
}

/// A signature fails to verify under another secret, unless SHA-256 gives
/// both the same digest.
pub proof fn lemma_altered_secret_fails(
    secret: Seq<char>,
    other_secret: Seq<char>,
    encoded: Seq<char>,
)
    requires
        other_secret != secret,
        !digests_collide(signed_bytes(other_secret, encoded), signed_bytes(secret, encoded)),
    ensures
        !signature_verifies(other_secret, encoded, signature_text(secret, encoded)),
{
    if other_secret + encoded == secret + encoded {
        assert(other_secret.len() == secret.len()) by {
            assert((other_secret + encoded).len() == (secret + encoded).len());
        }
        assert forall|i: int| 0 <= i < secret.len() implies other_secret[i] == secret[i] by {
            assert((other_secret + encoded)[i] == (secret + encoded)[i]);
        }
        assert(other_secret =~= secret);
    }
    lemma_altered_input_fails(secret, encoded, other_secret, encoded);
}

/// The signature of a JSON text fails to verify against the encoding of
/// another JSON text, unless SHA-256 gives both the same digest: an altered
/// payload is rejected.
pub proof fn lemma_altered_payload_fails(
    secret: Seq<char>,
    text: Seq<char>,
    other_text: Seq<char>,
)
    requires
        other_text != text,
        !digests_collide(
            signed_bytes(secret, encoded_text(other_text)),
            signed_bytes(secret, encoded_text(text)),
        ),
    ensures
        !signature_verifies(
            secret,
            encoded_text(other_text),
            signature_text(secret, encoded_text(text)),
        ),
{
    let encoded = encoded_text(text);
    let other_encoded = encoded_text(other_text);
    if other_encoded == encoded {
        lemma_base64_text_is_injective(encode_utf8(other_text), encode_utf8(text));
        lemma_utf8_is_injective(other_text, text);
    }
    if secret + other_encoded == secret + encoded {
        assert(other_encoded.len() == encoded.len()) by {
            assert((secret + other_encoded).len() == (secret + encoded).len());
        }
        assert forall|i: int| 0 <= i < encoded.len() implies other_encoded[i] == encoded[i] by {
            assert((secret + other_encoded)[secret.len() + i] == (secret + encoded)[secret.len()
                + i]);
        }
        assert(other_encoded =~= encoded);
    }
    lemma_altered_input_fails(secret, encoded, secret, other_encoded);
}

/// The signature does not tell where the secret ends and the encoded
/// payload begins: characters at the end of the secret can stand at the
/// start of the payload instead.
pub proof fn lemma_signature_ignores_the_boundary(
    secret: Seq<char>,
    moved: Seq<char>,
    encoded: Seq<char>,
)
    ensures
        signature_text(secret + moved, encoded) == signature_text(secret, moved + encoded),
{
    assert((secret + moved) + encoded =~= secret + (moved + encoded));
}

/// Encodes a JSON text as base64.
pub fn encode_text(text: &str) -> (out: Result<String, WusulError>)
    ensures
        match out {
            Ok(encoded) => can_encode(text@) && encoded@ == encoded_text(text@),
            Err(error) => is_encode_failure(Some(text@), error),
        },
{
    let bytes = text.as_bytes();
    let length = bytes.len();
    let partial: usize = if length % 3 == 0 {
        0
    } else {
        1
    };
    let groups = length / 3 + partial;
    if groups <= usize::MAX / 4 {
        Ok(base64_encode(bytes))
    } else {
        Err(WusulError::InvalidParameter(String::from_str("payload is too large to encode")))
    }
}

/// Finishes the encoding of a payload from the outcome of writing it as
/// JSON: the text is encoded, and a failure to write it is passed on as a
/// serialization error.
pub fn encode_serialized(serialized: Result<String, serde_json::Error>) -> (out: Result<
    String,
    WusulError,
>)
    ensures
        match serialized {
            Ok(text) => match out {
                Ok(encoded) => can_encode(text@) && encoded@ == encoded_text(text@),
                Err(error) => is_encode_failure(Some(text@), error),
            },
            Err(cause) => out == Err::<String, WusulError>(WusulError::SerializationError(cause)),
        },
{
    match serialized {
        Ok(text) => encode_text(text.as_str()),
        Err(cause) => Err(WusulError::SerializationError(cause)),
    }
}

/// Encodes a payload: its JSON text, in base64.
pub fn encode_payload(payload: &JsonValue) -> (out: Result<String, WusulError>)
    ensures
        match out {
            Ok(encoded) => {
                &&& payload_text(payload@) matches Some(text)
                &&& can_encode(text)
                &&& encoded@ == encoded_text(text)
            },
            Err(error) => is_encode_failure(payload_text(payload@), error),
        },
{
    encode_serialized(serialize(payload))
}

/// Creates the signature for an encoded payload.
pub fn create_signature(shared_secret: &str, encoded_payload: &str) -> (out: String)
    ensures
        out@ == signature_text(shared_secret@, encoded_payload@),
        out@.len() == 64,
        forall|i: int| 0 <= i < 64 ==> is_lower_hex(#[trigger] out@[i]),
{
    let mut message = String::from_str(shared_secret);
    message.append(encoded_payload);
    let digest = sha256_digest(message.as_str().as_bytes());
    proof {
        lemma_hex_lower_chars(digest@);
    }
    hex_encode(digest.as_slice())
}

/// Verifies a signature: it is recomputed and compared, character by
/// character.
pub fn verify_signature(shared_secret: &str, encoded_payload: &str, signature: &str) -> (out: bool)
    ensures
        out == signature_verifies(shared_secret@, encoded_payload@, signature@),
{
    let expected = create_signature(shared_secret, encoded_payload);
    let given = String::from_str(signature);
    expected == given
}

/// Creates the authentication headers for a request: the account id,
/// unchanged, and the signature of the payload. A request without payload is
/// signed as one with the empty object.
pub fn create_auth_headers(
    account_id: &str,
    shared_secret: &str,
    payload: Option<&JsonValue>,
) -> (out: Result<(String, String), WusulError>)
    ensures
        match out {
            Ok(headers) => headers.0@ == account_id@ && Some(headers.1@) == payload_signature(
                shared_secret@,
                payload_or_empty(given_model(payload)),
            ),
            Err(error) => is_encode_failure(
                payload_text(payload_or_empty(given_model(payload))),
                error,
            ),
        },
{
    let encoded = match payload {
        Some(value) => encode_payload(value),
        None => encode_payload(&JsonValue::empty_object()),
    };
    match encoded {
        Ok(encoded_payload) => {
            let signature = create_signature(shared_secret, encoded_payload.as_str());
            Ok((String::from_str(account_id), signature))
        },
        Err(error) => Err(error),
    }
}

/// Creates the authentication headers for a GET request, whose payload is
/// the object of its query parameters.
pub fn create_get_auth_headers(
    account_id: &str,
    shared_secret: &str,
    query_params: Option<&JsonValue>,
) -> (out: Result<(String, String), WusulError>)
    ensures
        match out {
            Ok(headers) => headers.0@ == account_id@ && Some(headers.1@) == payload_signature(
                shared_secret@,
                payload_or_empty(given_model(query_params)),
            ),
            Err(error) => is_encode_failure(
                payload_text(payload_or_empty(given_model(query_params))),
                error,
            ),
        },
{
    create_auth_headers(account_id, shared_secret, query_params)
}

} // verus!
