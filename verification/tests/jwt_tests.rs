use base64::engine::general_purpose::{STANDARD_NO_PAD, URL_SAFE_NO_PAD};
use base64::Engine;
use k256::ecdsa::signature::Signer;
use k256::ecdsa::{Signature, SigningKey};
use lidp_unified::model::{JwkPrivate, JwkPrivateParameters, JwkPublic, JwkPublicParameters};
use lidp_unified::oauth2::error::ErrorCode;
use lidp_unified::oauth2::jwt::{decode_jwt, encode_jwt, public_jwk_of, split_jwt, verify_jwt_signature, JwtHeader};

const HEADER: &[u8] = br#"{"alg":"ES256K","typ":"JWT","kid":7}"#;
const CLAIMS: &[u8] = br#"{"sub":"user-1","scope":"openid profile"}"#;

fn secret_bytes() -> Vec<u8> {
    (1u8..=32).collect()
}

fn private_jwk() -> JwkPrivate {
    JwkPrivate {
        kid: 7,
        params: JwkPrivateParameters::Ec {
            crv: "secp256k1".to_string(),
            x: String::new(),
            y: String::new(),
            d: STANDARD_NO_PAD.encode(secret_bytes()),
        },
    }
}

/// The public JWK of the signing key, as the library derives it.
fn public_jwk() -> JwkPublic {
    public_jwk_of(&private_jwk()).unwrap()
}

#[test]
fn header_for_key_names_algorithm_and_type() {
    let header = JwtHeader::for_key(42);
    assert_eq!(header.alg, "ES256K");
    assert_eq!(header.typ, "JWT");
    assert_eq!(header.kid, 42);
}

#[test]
fn encoded_token_has_three_base64url_parts() {
    let token = encode_jwt(&private_jwk(), HEADER, CLAIMS).unwrap();
    let parts: Vec<&str> = token.split('.').collect();
    assert_eq!(parts.len(), 3);
    assert_eq!(parts[0], URL_SAFE_NO_PAD.encode(HEADER));
    assert_eq!(parts[1], URL_SAFE_NO_PAD.encode(CLAIMS));
    let signing_input = format!("{}.{}", parts[0], parts[1]);
    let key = SigningKey::from_slice(&secret_bytes()).unwrap();
    let expected: Signature = key.sign(signing_input.as_bytes());
    assert_eq!(parts[2], URL_SAFE_NO_PAD.encode(expected.to_bytes()));
}

#[test]
fn decode_reads_back_what_encode_wrote() {
    let token = encode_jwt(&private_jwk(), HEADER, CLAIMS).unwrap();
    let (header, claims) = decode_jwt(&token).unwrap();
    assert_eq!(header, HEADER);
    assert_eq!(claims, CLAIMS);
}

#[test]
fn signed_token_verifies_under_its_public_key() {
    let token = encode_jwt(&private_jwk(), HEADER, CLAIMS).unwrap();
    let segments = split_jwt(&token).unwrap();
    assert_eq!(segments.header, HEADER);
    assert_eq!(segments.claims, CLAIMS);
    assert!(verify_jwt_signature(&public_jwk(), &segments).is_ok());
}

#[test]
fn tampered_claims_fail_verification() {
    let token = encode_jwt(&private_jwk(), HEADER, CLAIMS).unwrap();
    let parts: Vec<&str> = token.split('.').collect();
    let forged = format!("{}.{}.{}", parts[0], URL_SAFE_NO_PAD.encode(br#"{"sub":"admin"}"#), parts[2]);
    let segments = split_jwt(&forged).unwrap();
    let error = verify_jwt_signature(&public_jwk(), &segments).unwrap_err();
    assert_eq!(error.error, ErrorCode::InvalidRequest);
    assert_eq!(error.error_description.as_deref(), Some("invalid JWT signature: signature error"));
}

#[test]
fn malformed_tokens_are_refused() {
    let error = decode_jwt("no-dots-here").unwrap_err();
    assert_eq!(error.error, ErrorCode::InvalidRequest);
    assert_eq!(error.error_description.as_deref(), Some("invalid JWT format"));
    let error = split_jwt("a.b").unwrap_err();
    assert_eq!(error.error_description.as_deref(), Some("invalid JWT format"));
    let error = decode_jwt("!!!.e30").unwrap_err();
    assert_eq!(error.error, ErrorCode::InvalidRequest);
    assert!(error.error_description.unwrap().starts_with("invalid JWT header encoding: "));
    let error = decode_jwt("e30.!!!").unwrap_err();
    assert!(error.error_description.unwrap().starts_with("invalid JWT claims encoding: "));
    let error = split_jwt("e30.e30.!!!").unwrap_err();
    assert!(error.error_description.unwrap().starts_with("invalid JWT signature encoding: "));
}

#[test]
fn decode_ignores_the_signature() {
    let token = format!("{}.{}", URL_SAFE_NO_PAD.encode(HEADER), URL_SAFE_NO_PAD.encode(CLAIMS));
    let (header, claims) = decode_jwt(&token).unwrap();
    assert_eq!(header, HEADER);
    assert_eq!(claims, CLAIMS);
}

#[test]
fn signing_needs_an_ec_key() {
    let jwk = JwkPrivate { kid: 1, params: JwkPrivateParameters::Oct { k: "c2VjcmV0".to_string() } };
    let error = encode_jwt(&jwk, HEADER, CLAIMS).unwrap_err();
    assert_eq!(error.error, ErrorCode::InvalidClient);
    assert_eq!(error.error_description.as_deref(), Some("client signing key must be an EC key"));
}

#[test]
fn signing_refuses_bad_private_keys() {
    let mut jwk = private_jwk();
    jwk.params = JwkPrivateParameters::Ec {
        crv: "secp256k1".to_string(),
        x: String::new(),
        y: String::new(),
        d: "***".to_string(),
    };
    let error = encode_jwt(&jwk, HEADER, CLAIMS).unwrap_err();
    assert_eq!(error.error, ErrorCode::InvalidClient);
    assert!(error.error_description.unwrap().starts_with("invalid client private key encoding: "));
    jwk.params = JwkPrivateParameters::Ec {
        crv: "secp256k1".to_string(),
        x: String::new(),
        y: String::new(),
        d: STANDARD_NO_PAD.encode([0u8; 32]),
    };
    let error = encode_jwt(&jwk, HEADER, CLAIMS).unwrap_err();
    assert_eq!(error.error_description.as_deref(), Some("invalid client private key: signature error"));
}

#[test]
fn verifying_needs_a_usable_public_key() {
    let token = encode_jwt(&private_jwk(), HEADER, CLAIMS).unwrap();
    let segments = split_jwt(&token).unwrap();
    let jwk = JwkPublic { kid: 1, params: JwkPublicParameters::Oct { k: "c2VjcmV0".to_string() } };
    let error = verify_jwt_signature(&jwk, &segments).unwrap_err();
    assert_eq!(error.error, ErrorCode::InvalidClient);
    assert_eq!(error.error_description.as_deref(), Some("client verifying key must be an EC key"));
    let jwk = JwkPublic {
        kid: 1,
        params: JwkPublicParameters::Ec { crv: "secp256k1".to_string(), x: "AAAA".to_string(), y: "AAAA".to_string() },
    };
    let error = verify_jwt_signature(&jwk, &segments).unwrap_err();
    assert_eq!(error.error_description.as_deref(), Some("invalid client public key: signature error"));
}

#[test]
fn public_jwk_holds_the_bare_coordinates() {
    let key = SigningKey::from_slice(&secret_bytes()).unwrap();
    let point = key.verifying_key().to_encoded_point(false);
    let bytes = point.as_bytes();
    let jwk = public_jwk();
    assert_eq!(jwk.kid, 7);
    match jwk.params {
        JwkPublicParameters::Ec { crv, x, y } => {
            assert_eq!(crv, "secp256k1");
            assert_eq!(x, STANDARD_NO_PAD.encode(&bytes[1..33]));
            assert_eq!(y, STANDARD_NO_PAD.encode(&bytes[33..]));
        }
        _ => panic!("expected an EC key"),
    }
}

#[test]
fn tagged_x_still_verifies() {
    let token = encode_jwt(&private_jwk(), HEADER, CLAIMS).unwrap();
    let segments = split_jwt(&token).unwrap();
    let key = SigningKey::from_slice(&secret_bytes()).unwrap();
    let point = key.verifying_key().to_encoded_point(false);
    let bytes = point.as_bytes();
    let jwk = JwkPublic {
        kid: 7,
        params: JwkPublicParameters::Ec {
            crv: "secp256k1".to_string(),
            x: STANDARD_NO_PAD.encode(&bytes[..33]),
            y: STANDARD_NO_PAD.encode(&bytes[33..]),
        },
    };
    assert!(verify_jwt_signature(&jwk, &segments).is_ok());
}

#[test]
fn token_fails_under_another_key() {
    let token = encode_jwt(&private_jwk(), HEADER, CLAIMS).unwrap();
    let segments = split_jwt(&token).unwrap();
    let other = JwkPrivate {
        kid: 8,
        params: JwkPrivateParameters::Ec {
            crv: "secp256k1".to_string(),
            x: String::new(),
            y: String::new(),
            d: STANDARD_NO_PAD.encode([9u8; 32]),
        },
    };
    let error = verify_jwt_signature(&public_jwk_of(&other).unwrap(), &segments).unwrap_err();
    assert_eq!(error.error, ErrorCode::InvalidRequest);
}

#[test]
fn public_jwk_needs_a_usable_private_key() {
    let jwk = JwkPrivate { kid: 1, params: JwkPrivateParameters::Oct { k: "c2VjcmV0".to_string() } };
    let error = public_jwk_of(&jwk).unwrap_err();
    assert_eq!(error.error, ErrorCode::InvalidClient);
    assert_eq!(error.error_description.as_deref(), Some("client signing key must be an EC key"));
}
