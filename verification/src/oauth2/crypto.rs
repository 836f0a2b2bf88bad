//! The base64 and ES256K (ECDSA over secp256k1 with SHA-256) primitives that tokens are
//! built from. They are computed by the `base64` and `k256` crates; what those compute is
//! named here, and the few facts their documentation gives are stated.

use vstd::prelude::*;

verus! {

/// The unpadded URL-safe base64 encoding of `bytes` (RFC 4648 §5, no `=` padding).
pub uninterp spec fn base64_url_encoding(bytes: Seq<u8>) -> Seq<char>;

/// The bytes that the unpadded URL-safe base64 decoder reads from `text`, or the message
/// of the error it reports.
pub uninterp spec fn base64_url_decoding(text: Seq<char>) -> Result<Seq<u8>, Seq<char>>;

/// The bytes that the unpadded standard base64 decoder reads from `text`, or the message
/// of the error it reports.
pub uninterp spec fn base64_standard_decoding(text: Seq<char>) -> Result<Seq<u8>, Seq<char>>;

/// Whether `SigningKey::from_slice` accepts `bytes` as a secp256k1 secret key: a big-endian
/// scalar of 24 to 32 bytes (a shorter one is padded on the left with zeros) that is not
/// zero and is below the group order.
pub uninterp spec fn is_secp256k1_secret_key(bytes: Seq<u8>) -> bool;

/// Whether `bytes` is a SEC1-encoded secp256k1 public key.
pub uninterp spec fn is_sec1_public_key(bytes: Seq<u8>) -> bool;

/// Whether `bytes` is a fixed-size (r ‖ s) ECDSA signature with both scalars in range.
pub uninterp spec fn is_secp256k1_signature(bytes: Seq<u8>) -> bool;

/// The deterministic (RFC 6979) ES256K signature of `message` under `secret_key`.
pub uninterp spec fn es256k_signature(secret_key: Seq<u8>, message: Seq<u8>) -> Seq<u8>;

/// Whether ES256K signing of `message` with `secret_key` succeeds. The nonce is derived
/// from the key and the message (RFC 6979), so this depends on them alone.
pub uninterp spec fn es256k_signs(secret_key: Seq<u8>, message: Seq<u8>) -> bool;

/// The uncompressed SEC1 encoding (`0x04`, then the x and y coordinates) of the verifying
/// key that belongs to `secret_key`: `SigningKey::verifying_key`, then
/// `VerifyingKey::to_encoded_point(false)`, as `es256k_public_key` computes it.
pub uninterp spec fn es256k_verifying_key(secret_key: Seq<u8>) -> Seq<u8>;

/// The standard base64 encoding of `bytes` without `=` padding (RFC 4648 §4).
pub uninterp spec fn base64_standard_encoding(bytes: Seq<u8>) -> Seq<char>;

/// Whether `signature` is a valid ES256K signature of `message` under `public_key`.
pub uninterp spec fn es256k_verifies(public_key: Seq<u8>, message: Seq<u8>, signature: Seq<u8>) -> bool;

/// A character of the URL-safe base64 alphabet: `A`–`Z`, `a`–`z`, `0`–`9`, `-`, `_`.
pub open spec fn is_url_safe_char(c: char) -> bool {
    ('A' <= c <= 'Z') || ('a' <= c <= 'z') || ('0' <= c <= '9') || c == '-' || c == '_'
}

/// The message every `k256` ECDSA error displays.
pub open spec fn ecdsa_error_text() -> Seq<char> {
    "signature error"@
}

/// `base64::engine::general_purpose::URL_SAFE_NO_PAD.encode`: the encoding of `bytes`,
/// which is made of URL-safe alphabet characters only (no padding), and which the same
/// engine decodes back to `bytes`.
#[verifier::external_body]
pub(crate) fn base64_url_encode(bytes: &[u8]) -> (r: String)
    ensures
        r@ == base64_url_encoding(bytes@),
        forall|k: int| 0 <= k < r@.len() ==> is_url_safe_char(#[trigger] r@[k]),
        base64_url_decoding(r@) is Ok && base64_url_decoding(r@)->Ok_0 == bytes@,
{
    base64::Engine::encode(&base64::engine::general_purpose::URL_SAFE_NO_PAD, bytes)
}

/// `base64::engine::general_purpose::URL_SAFE_NO_PAD.decode`: the decoded bytes, or the
/// decoder's error message. Decoding what the same engine encoded gives the bytes back.
#[verifier::external_body]
pub(crate) fn base64_url_decode(text: &str) -> (r: Result<Vec<u8>, String>)
    ensures
        r matches Ok(v) ==> base64_url_decoding(text@) is Ok && base64_url_decoding(text@)->Ok_0 == v@,
        r matches Err(e) ==> base64_url_decoding(text@) is Err && base64_url_decoding(text@)->Err_0 == e@,
        forall|b: Seq<u8>| #[trigger] base64_url_encoding(b) == text@ ==> r is Ok && r->Ok_0@ == b,
{
    match base64::Engine::decode(&base64::engine::general_purpose::URL_SAFE_NO_PAD, text) {
        Ok(v) => Ok(v),
        Err(e) => Err(format!("{}", e)),
    }
}

/// `base64::engine::general_purpose::STANDARD_NO_PAD.decode`: the decoded bytes, or the
/// decoder's error message.
#[verifier::external_body]
pub(crate) fn base64_standard_decode(text: &str) -> (r: Result<Vec<u8>, String>)
    ensures
        r matches Ok(v) ==> base64_standard_decoding(text@) is Ok && base64_standard_decoding(text@)->Ok_0 == v@,
        r matches Err(e) ==> base64_standard_decoding(text@) is Err && base64_standard_decoding(text@)->Err_0 == e@,
{
    match base64::Engine::decode(&base64::engine::general_purpose::STANDARD_NO_PAD, text) {
        Ok(v) => Ok(v),
        Err(e) => Err(format!("{}", e)),
    }
}

/// `base64::engine::general_purpose::STANDARD_NO_PAD.encode`: the encoding of `bytes`,
/// which the same engine decodes back to `bytes`.
#[verifier::external_body]
pub(crate) fn base64_standard_encode(bytes: &[u8]) -> (r: String)
    ensures
        r@ == base64_standard_encoding(bytes@),
        base64_standard_decoding(r@) is Ok && base64_standard_decoding(r@)->Ok_0 == bytes@,
{
    base64::Engine::encode(&base64::engine::general_purpose::STANDARD_NO_PAD, bytes)
}

/// `k256::ecdsa::SigningKey::from_slice`, then `SigningKey::verifying_key` and
/// `VerifyingKey::to_encoded_point(false)`: the 65 bytes of the uncompressed SEC1 encoding
/// of the key's verifying key (the `0x04` tag, then the x and y coordinates), which
/// `VerifyingKey::from_sec1_bytes` accepts.
#[verifier::external_body]
pub(crate) fn es256k_public_key(secret_key: &[u8]) -> (r: Vec<u8>)
    requires
        is_secp256k1_secret_key(secret_key@),
    ensures
        r@ == es256k_verifying_key(secret_key@),
        r@.len() == 65,
        r@[0] == 4u8,
        is_sec1_public_key(r@),
{
    let key = k256::ecdsa::SigningKey::from_slice(secret_key).unwrap();
    key.verifying_key().to_encoded_point(false).as_bytes().to_vec()
}

/// `k256::ecdsa::SigningKey::from_slice`, keeping only whether it accepts the bytes.
#[verifier::external_body]
pub(crate) fn check_secret_key(bytes: &[u8]) -> (r: Result<(), String>)
    ensures
        r is Ok <==> is_secp256k1_secret_key(bytes@),
        r matches Err(e) ==> e@ == ecdsa_error_text(),
{
    match k256::ecdsa::SigningKey::from_slice(bytes) {
        Ok(_) => Ok(()),
        Err(e) => Err(format!("{}", e)),
    }
}

/// `k256::ecdsa::VerifyingKey::from_sec1_bytes`, keeping only whether it accepts the bytes.
#[verifier::external_body]
pub(crate) fn check_public_key(bytes: &[u8]) -> (r: Result<(), String>)
    ensures
        r is Ok <==> is_sec1_public_key(bytes@),
        r matches Err(e) ==> e@ == ecdsa_error_text(),
{
    match k256::ecdsa::VerifyingKey::from_sec1_bytes(bytes) {
        Ok(_) => Ok(()),
        Err(e) => Err(format!("{}", e)),
    }
}

/// `k256::ecdsa::Signature::from_slice`, keeping only whether it accepts the bytes.
#[verifier::external_body]
pub(crate) fn check_signature(bytes: &[u8]) -> (r: Result<(), String>)
    ensures
        r is Ok <==> is_secp256k1_signature(bytes@),
        r matches Err(e) ==> e@ == ecdsa_error_text(),
{
    match k256::ecdsa::Signature::from_slice(bytes) {
        Ok(_) => Ok(()),
        Err(e) => Err(format!("{}", e)),
    }
}

/// `signature::Signer::try_sign` of a `k256::ecdsa::SigningKey` (the key read from
/// `secret_key`), giving the 64 bytes of `Signature::to_bytes`. It succeeds exactly when
/// `es256k_signs` holds (the source fails only for an unusable nonce, which RFC 6979
/// derives from the key and the message). A signature it makes is well formed (both
/// scalars in range, `s` normalised low) and verifies under the key's own verifying key,
/// as ECDSA signing and verification are made to agree.
#[verifier::external_body]
pub(crate) fn es256k_sign(secret_key: &[u8], message: &[u8]) -> (r: Result<Vec<u8>, String>)
    requires
        is_secp256k1_secret_key(secret_key@),
    ensures
        r is Ok <==> es256k_signs(secret_key@, message@),
        r matches Ok(s) ==> s@ == es256k_signature(secret_key@, message@) && s@.len() == 64,
        r matches Ok(s) ==> is_secp256k1_signature(s@),
        r matches Ok(s) ==> es256k_verifies(es256k_verifying_key(secret_key@), message@, s@),
        r matches Err(e) ==> e@ == ecdsa_error_text(),
{
    let key = k256::ecdsa::SigningKey::from_slice(secret_key).unwrap();
    let signed: Result<k256::ecdsa::Signature, k256::ecdsa::Error> =
        k256::ecdsa::signature::Signer::try_sign(&key, message);
    match signed {
        Ok(s) => Ok(s.to_bytes().to_vec()),
        Err(e) => Err(format!("{}", e)),
    }
}

/// `signature::Verifier::verify` of a `k256::ecdsa::VerifyingKey` (read from `public_key`)
/// on a `k256::ecdsa::Signature` (read from `signature`).
#[verifier::external_body]
pub(crate) fn es256k_verify(public_key: &[u8], message: &[u8], signature: &[u8]) -> (r: Result<(), String>)
    requires
        is_sec1_public_key(public_key@),
        is_secp256k1_signature(signature@),
    ensures
        r is Ok <==> es256k_verifies(public_key@, message@, signature@),
        r matches Err(e) ==> e@ == ecdsa_error_text(),
{
    let key = k256::ecdsa::VerifyingKey::from_sec1_bytes(public_key).unwrap();
    let sig = k256::ecdsa::Signature::from_slice(signature).unwrap();
    match k256::ecdsa::signature::Verifier::verify(&key, message, &sig) {
        Ok(()) => Ok(()),
        Err(e) => Err(format!("{}", e)),
    }
}

} // verus!
