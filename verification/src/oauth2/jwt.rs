//! JSON Web Tokens signed with ES256K: framing, base64 coding and signatures.
//! The JSON of the header and claims is produced and read by the caller; this module
//! works on its bytes.

use vstd::prelude::*;
use vstd::string::*;
use vstd::utf8::encode_utf8;

use crate::model::{JwkPrivate, JwkPrivateParameters, JwkPublic, JwkPublicParameters};
use crate::oauth2::crypto::{
    base64_standard_decode, base64_standard_decoding, base64_url_decode, base64_url_decoding,
    base64_url_encode, base64_url_encoding, check_public_key, check_secret_key, check_signature,
    ecdsa_error_text, es256k_public_key, es256k_sign, es256k_signature, es256k_signs,
    es256k_verifies, es256k_verify, es256k_verifying_key, base64_standard_encode,
    base64_standard_encoding,
    is_sec1_public_key, is_secp256k1_secret_key, is_secp256k1_signature, is_url_safe_char,
};
use crate::oauth2::error::{
    error_with, unit_result_view, ErrorCode, ErrorResponse, ErrorResponseResult,
    ErrorResponseView,
};
use crate::text::{free_of, lemma_pieces_push, lemma_pieces_single, pieces, split_pieces};

verus! {

/// The JOSE header of the tokens this server issues.
#[derive(Clone, Debug)]
pub struct JwtHeader {
    pub alg: String,
    pub typ: String,
    pub kid: i64,
}

impl JwtHeader {
    /// The header of a token signed with the key `kid`: algorithm `ES256K`, type `JWT`.
    pub fn for_key(kid: i64) -> (r: Self)
        ensures
            r.alg@ == "ES256K"@,
            r.typ@ == "JWT"@,
            r.kid == kid,
    {
        JwtHeader { alg: String::from_str("ES256K"), typ: String::from_str("JWT"), kid }
    }
}

/// The decoded parts of a three-part token, and the text its signature covers.
#[derive(Clone, Debug)]
pub struct JwtSegments {
    pub header: Vec<u8>,
    pub claims: Vec<u8>,
    pub signature: Vec<u8>,
    pub signing_input: String,
}

pub open spec fn invalid_format() -> ErrorResponseView {
    error_with(ErrorCode::InvalidRequest, "invalid JWT format"@)
}

/// The secret key bytes a private JWK holds, or why it cannot sign.
pub open spec fn signing_key_outcome(jwk: JwkPrivate) -> Result<Seq<u8>, ErrorResponseView> {
    match jwk.params {
        JwkPrivateParameters::Ec { d, .. } => match base64_standard_decoding(d@) {
            Err(e) => Err(error_with(ErrorCode::InvalidClient, "invalid client private key encoding: "@ + e)),
            Ok(b) => if is_secp256k1_secret_key(b) {
                Ok(b)
            } else {
                Err(error_with(ErrorCode::InvalidClient, "invalid client private key: "@ + ecdsa_error_text()))
            },
        },
        _ => Err(error_with(ErrorCode::InvalidClient, "client signing key must be an EC key"@)),
    }
}

/// The SEC1 bytes of a public key given by the decoded `x` and `y` of a JWK: bare 32-byte
/// coordinates (as RFC 7518 writes them) are the uncompressed point `0x04 ‖ x ‖ y`;
/// anything else is read as `x` followed by `y`.
pub open spec fn sec1_of(xb: Seq<u8>, yb: Seq<u8>) -> Seq<u8> {
    if xb.len() == 32 && yb.len() == 32 {
        seq![4u8] + xb + yb
    } else {
        xb + yb
    }
}

/// The SEC1 public key bytes a public JWK holds (see `sec1_of`), or why it cannot verify.
pub open spec fn verifying_key_outcome(jwk: JwkPublic) -> Result<Seq<u8>, ErrorResponseView> {
    match jwk.params {
        JwkPublicParameters::Ec { x, y, .. } => match base64_standard_decoding(x@) {
            Err(e) => Err(error_with(ErrorCode::InvalidClient, "invalid client public key encoding: "@ + e)),
            Ok(xb) => match base64_standard_decoding(y@) {
                Err(e) => Err(error_with(ErrorCode::InvalidClient, "invalid client public key encoding: "@ + e)),
                Ok(yb) => if is_sec1_public_key(sec1_of(xb, yb)) {
                    Ok(sec1_of(xb, yb))
                } else {
                    Err(error_with(ErrorCode::InvalidClient, "invalid client public key: "@ + ecdsa_error_text()))
                },
            },
        },
        _ => Err(error_with(ErrorCode::InvalidClient, "client verifying key must be an EC key"@)),
    }
}

/// Whether `pk` is a public JWK of the secret key `sk`: it reads as `sk`'s verifying key.
pub open spec fn is_public_jwk_of(pk: JwkPublic, sk: Seq<u8>) -> bool {
    verifying_key_outcome(pk) == Ok::<Seq<u8>, ErrorResponseView>(es256k_verifying_key(sk))
}

/// Whether the token splits into its parts and its signature is accepted under `pk`.
pub open spec fn verifies_under(pk: JwkPublic, t: Seq<char>) -> bool {
    split_outcome(t) matches Ok((h, c, s, input)) && signature_check(pk, s, input) is None
}

/// The text a token's signature covers: the encoded header, a dot, the encoded claims.
pub open spec fn signing_input_of(header: Seq<u8>, claims: Seq<u8>) -> Seq<char> {
    base64_url_encoding(header) + seq!['.'] + base64_url_encoding(claims)
}

/// The token that signs `header` and `claims` with `secret_key`.
pub open spec fn jwt_token(secret_key: Seq<u8>, header: Seq<u8>, claims: Seq<u8>) -> Seq<char> {
    let input = signing_input_of(header, claims);
    input + seq!['.'] + base64_url_encoding(es256k_signature(secret_key, encode_utf8(input)))
}

/// What `decode_jwt` reads from a token: the header and claims bytes, or the error.
pub open spec fn decode_outcome(token: Seq<char>) -> Result<(Seq<u8>, Seq<u8>), ErrorResponseView> {
    let p = pieces(token, '.');
    if p.len() < 2 {
        Err(invalid_format())
    } else {
        match base64_url_decoding(p[0]) {
            Err(e) => Err(error_with(ErrorCode::InvalidRequest, "invalid JWT header encoding: "@ + e)),
            Ok(h) => match base64_url_decoding(p[1]) {
                Err(e) => Err(error_with(ErrorCode::InvalidRequest, "invalid JWT claims encoding: "@ + e)),
                Ok(c) => Ok((h, c)),
            },
        }
    }
}

/// What `split_jwt` reads from a token: header, claims, signature and signing input,
/// or the error.
pub open spec fn split_outcome(token: Seq<char>) -> Result<(Seq<u8>, Seq<u8>, Seq<u8>, Seq<char>), ErrorResponseView> {
    let p = pieces(token, '.');
    if p.len() < 3 {
        Err(invalid_format())
    } else {
        match base64_url_decoding(p[0]) {
            Err(e) => Err(error_with(ErrorCode::InvalidRequest, "invalid JWT header encoding: "@ + e)),
            Ok(h) => match base64_url_decoding(p[1]) {
                Err(e) => Err(error_with(ErrorCode::InvalidRequest, "invalid JWT claims encoding: "@ + e)),
                Ok(c) => match base64_url_decoding(p[2]) {
                    Err(e) => Err(error_with(ErrorCode::InvalidRequest, "invalid JWT signature encoding: "@ + e)),
                    Ok(s) => Ok((h, c, s, p[0] + seq!['.'] + p[1])),
                },
            },
        }
    }
}

/// What `verify_jwt_signature` answers for a signature over `signing_input`.
pub open spec fn signature_check(jwk: JwkPublic, signature: Seq<u8>, signing_input: Seq<char>) -> Option<ErrorResponseView> {
    if !is_secp256k1_signature(signature) {
        Some(error_with(ErrorCode::InvalidRequest, "invalid JWT signature: "@ + ecdsa_error_text()))
    } else {
        match verifying_key_outcome(jwk) {
            Err(e) => Some(e),
            Ok(pk) => if es256k_verifies(pk, encode_utf8(signing_input), signature) {
                None
            } else {
                Some(error_with(ErrorCode::InvalidRequest, "invalid JWT signature: "@ + ecdsa_error_text()))
            },
        }
    }
}

proof fn lemma_url_safe_free_of_dot(s: Seq<char>)
    requires
        forall|k: int| 0 <= k < s.len() ==> is_url_safe_char(#[trigger] s[k]),
    ensures
        free_of(s, '.'),
{
    assert forall|k: int| 0 <= k < s.len() implies #[trigger] s[k] != '.' by {
        assert(is_url_safe_char(s[k]));
    }
}

fn prefixed(prefix: &str, text: &str) -> (r: String)
    ensures
        r@ == prefix@ + text@,
{
    let mut s = String::from_str(prefix);
    s.append(text);
    s
}

/// The secret key of a private JWK, checked to be a secp256k1 key.
fn signing_key_from_jwk(jwk: &JwkPrivate) -> (r: ErrorResponseResult<Vec<u8>>)
    ensures
        r matches Ok(k) ==> signing_key_outcome(*jwk) == Ok::<Seq<u8>, ErrorResponseView>(k@),
        r matches Err(e) ==> signing_key_outcome(*jwk) == Err::<Seq<u8>, ErrorResponseView>(e@),
{
    match &jwk.params {
        JwkPrivateParameters::Ec { d, .. } => {
            let bytes = match base64_standard_decode(d.as_str()) {
                Ok(b) => b,
                Err(e) => {
                    return Err(ErrorResponse::new(ErrorCode::InvalidClient).with_description(
                        prefixed("invalid client private key encoding: ", e.as_str()),
                    ));
                },
            };
            match check_secret_key(bytes.as_slice()) {
                Ok(()) => Ok(bytes),
                Err(e) => Err(ErrorResponse::new(ErrorCode::InvalidClient).with_description(
                    prefixed("invalid client private key: ", e.as_str()),
                )),
            }
        },
        _ => Err(ErrorResponse::new(ErrorCode::InvalidClient).with_description(
            String::from_str("client signing key must be an EC key"),
        )),
    }
}

/// The SEC1 public key of a public JWK (see `sec1_of`), checked to be a secp256k1 key.
fn verifing_key_from_jwt(jwk: &JwkPublic) -> (r: ErrorResponseResult<Vec<u8>>)
    ensures
        r matches Ok(k) ==> verifying_key_outcome(*jwk) == Ok::<Seq<u8>, ErrorResponseView>(k@),
        r matches Err(e) ==> verifying_key_outcome(*jwk) == Err::<Seq<u8>, ErrorResponseView>(e@),
{
    match &jwk.params {
        JwkPublicParameters::Ec { x, y, .. } => {
            let mut x_bytes = match base64_standard_decode(x.as_str()) {
                Ok(b) => b,
                Err(e) => {
                    return Err(ErrorResponse::new(ErrorCode::InvalidClient).with_description(
                        prefixed("invalid client public key encoding: ", e.as_str()),
                    ));
                },
            };
            let mut y_bytes = match base64_standard_decode(y.as_str()) {
                Ok(b) => b,
                Err(e) => {
                    return Err(ErrorResponse::new(ErrorCode::InvalidClient).with_description(
                        prefixed("invalid client public key encoding: ", e.as_str()),
                    ));
                },
            };
            let ghost xs = x_bytes@;
            let ghost ys = y_bytes@;
            let key = if x_bytes.len() == 32 && y_bytes.len() == 32 {
                let mut k: Vec<u8> = vec![4u8];
                k.append(&mut x_bytes);
                k.append(&mut y_bytes);
                assert(k@ =~= seq![4u8] + xs + ys);
                k
            } else {
                x_bytes.append(&mut y_bytes);
                assert(x_bytes@ == xs + ys);
                x_bytes
            };
            assert(key@ == sec1_of(xs, ys));
            match check_public_key(key.as_slice()) {
                Ok(()) => Ok(key),
                Err(e) => Err(ErrorResponse::new(ErrorCode::InvalidClient).with_description(
                    prefixed("invalid client public key: ", e.as_str()),
                )),
            }
        },
        _ => Err(ErrorResponse::new(ErrorCode::InvalidClient).with_description(
            String::from_str("client verifying key must be an EC key"),
        )),
    }
}

/// The public JWK of a private one: the same key id and curve, and as `x` and `y` the
/// coordinates of the secret key's verifying key, in standard base64 without padding.
/// A token that `encode_jwt` issues with the private JWK verifies under it.
pub fn public_jwk_of(jwk: &JwkPrivate) -> (r: ErrorResponseResult<JwkPublic>)
    ensures
        match signing_key_outcome(*jwk) {
            Err(e) => r matches Err(x) && x@ == e,
            Ok(sk) => r matches Ok(pk) && pk.kid == jwk.kid && is_public_jwk_of(pk, sk) && (
            pk.params matches JwkPublicParameters::Ec { crv, x, y } && (
            jwk.params matches JwkPrivateParameters::Ec { crv: c, .. } && crv@ == c@)
                && x@ == base64_standard_encoding(es256k_verifying_key(sk).subrange(1, 33))
                && y@ == base64_standard_encoding(es256k_verifying_key(sk).subrange(33, 65))),
        },
{
    let secret = signing_key_from_jwk(jwk)?;
    let crv = match &jwk.params {
        JwkPrivateParameters::Ec { crv, .. } => crv.clone(),
        _ => String::new(),
    };
    let point = es256k_public_key(secret.as_slice());
    let xs = vstd::slice::slice_subrange(point.as_slice(), 1, 33);
    let ys = vstd::slice::slice_subrange(point.as_slice(), 33, 65);
    let x = base64_standard_encode(xs);
    let y = base64_standard_encode(ys);
    let ghost vk = point@;
    proof {
        assert(xs@.len() == 32 && ys@.len() == 32);
        assert(seq![4u8] + xs@ + ys@ =~= vk);
    }
    Ok(JwkPublic { kid: jwk.kid, params: JwkPublicParameters::Ec { crv, x, y } })
}

/// Builds a signed token from the JSON bytes of its header and claims: both are base64url
/// encoded, joined by a dot, signed with the JWK's secret key, and the encoded signature is
/// appended after another dot. A signing failure is reported as a server error. The token
/// verifies under the verifying key of the JWK's secret key.
pub fn encode_jwt(jwk: &JwkPrivate, header_json: &[u8], claims_json: &[u8]) -> (r: ErrorResponseResult<String>)
    ensures
        match signing_key_outcome(*jwk) {
            Err(e) => r matches Err(x) && x@ == e,
            Ok(sk) => if es256k_signs(sk, encode_utf8(signing_input_of(header_json@, claims_json@))) {
                r matches Ok(t) && t@ == jwt_token(sk, header_json@, claims_json@)
            } else {
                r matches Err(x) && x@ == error_with(ErrorCode::ServerError, ecdsa_error_text())
            },
        },
        signing_key_outcome(*jwk) matches Ok(sk) ==> (r matches Ok(t) ==> forall|pk: JwkPublic|
            #[trigger] is_public_jwk_of(pk, sk) ==> verifies_under(pk, t@)),
        r matches Ok(t) ==> exists|sk: Seq<u8>| pieces(t@, '.') == seq![
            base64_url_encoding(header_json@),
            base64_url_encoding(claims_json@),
            base64_url_encoding(#[trigger] es256k_signature(sk, encode_utf8(signing_input_of(header_json@, claims_json@)))),
        ],
        r matches Ok(t) ==> decode_outcome(t@) == Ok::<(Seq<u8>, Seq<u8>), ErrorResponseView>(
            (header_json@, claims_json@),
        ),
        r matches Ok(t) ==> split_outcome(t@) matches Ok((h, c, _, input)) && h == header_json@ && c
            == claims_json@ && input == signing_input_of(header_json@, claims_json@),
{
    let header_encoded = base64_url_encode(header_json);
    let claims_encoded = base64_url_encode(claims_json);
    let mut signing_input = header_encoded.clone();
    signing_input.append(".");
    signing_input.append(claims_encoded.as_str());
    proof {
        reveal_strlit(".");
        assert("."@ =~= seq!['.']);
    }
    let secret = signing_key_from_jwk(jwk)?;
    let signature = match es256k_sign(secret.as_slice(), signing_input.as_str().as_bytes()) {
        Ok(s) => s,
        Err(e) => {
            return Err(ErrorResponse::new(ErrorCode::ServerError).with_description(e));
        },
    };
    let signature_encoded = base64_url_encode(signature.as_slice());
    let ghost input = signing_input@;
    let mut token = signing_input;
    token.append(".");
    token.append(signature_encoded.as_str());
    proof {
        lemma_url_safe_free_of_dot(header_encoded@);
        lemma_url_safe_free_of_dot(claims_encoded@);
        lemma_url_safe_free_of_dot(signature_encoded@);
        lemma_pieces_single(header_encoded@, '.');
        lemma_pieces_push(header_encoded@, claims_encoded@, '.');
        lemma_pieces_push(input, signature_encoded@, '.');
        assert(input == header_encoded@ + seq!['.'] + claims_encoded@);
        assert(token@ == input + seq!['.'] + signature_encoded@);
        assert(seq![header_encoded@].push(claims_encoded@).push(signature_encoded@) =~= seq![
            base64_url_encoding(header_json@),
            base64_url_encoding(claims_json@),
            base64_url_encoding(es256k_signature(secret@, encode_utf8(signing_input_of(header_json@, claims_json@)))),
        ]);
    }
    Ok(token)
}

/// Reads the header and claims of a token without checking its signature: the token must
/// have at least two dot-separated parts, and both must be valid base64url. Returns the
/// JSON bytes of the header and of the claims.
pub fn decode_jwt(token: &str) -> (r: ErrorResponseResult<(Vec<u8>, Vec<u8>)>)
    ensures
        match decode_outcome(token@) {
            Ok((h, c)) => r matches Ok((hb, cb)) && hb@ == h && cb@ == c,
            Err(e) => r matches Err(x) && x@ == e,
        },
        forall|h: Seq<u8>, c: Seq<u8>|
            #![trigger base64_url_encoding(h), base64_url_encoding(c)]
            pieces(token@, '.').len() >= 2 && pieces(token@, '.')[0] == base64_url_encoding(h)
                && pieces(token@, '.')[1] == base64_url_encoding(c) ==> (r matches Ok((hb, cb))
                && hb@ == h && cb@ == c),
{
    let parts = split_pieces(token, '.');
    let ghost p = pieces(token@, '.');
    if parts.len() < 2 {
        return Err(ErrorResponse::new(ErrorCode::InvalidRequest).with_description(
            String::from_str("invalid JWT format"),
        ));
    }
    assert(parts@[0]@ == p[0] && parts@[1]@ == p[1]);
    let header = match base64_url_decode(parts[0].as_str()) {
        Ok(b) => b,
        Err(e) => {
            return Err(ErrorResponse::new(ErrorCode::InvalidRequest).with_description(
                prefixed("invalid JWT header encoding: ", e.as_str()),
            ));
        },
    };
    let claims = match base64_url_decode(parts[1].as_str()) {
        Ok(b) => b,
        Err(e) => {
            return Err(ErrorResponse::new(ErrorCode::InvalidRequest).with_description(
                prefixed("invalid JWT claims encoding: ", e.as_str()),
            ));
        },
    };
    Ok((header, claims))
}

/// Reads the three parts of a token that is to be verified: each must be valid base64url.
pub fn split_jwt(token: &str) -> (r: ErrorResponseResult<JwtSegments>)
    ensures
        match split_outcome(token@) {
            Ok((h, c, s, input)) => r matches Ok(seg) && seg.header@ == h && seg.claims@ == c
                && seg.signature@ == s && seg.signing_input@ == input,
            Err(e) => r matches Err(x) && x@ == e,
        },
        forall|h: Seq<u8>, c: Seq<u8>, s: Seq<u8>|
            #![trigger base64_url_encoding(h), base64_url_encoding(c), base64_url_encoding(s)]
            pieces(token@, '.').len() >= 3 && pieces(token@, '.')[0] == base64_url_encoding(h)
                && pieces(token@, '.')[1] == base64_url_encoding(c) && pieces(token@, '.')[2]
                == base64_url_encoding(s) ==> (r matches Ok(seg) && seg.header@ == h && seg.claims@
                == c && seg.signature@ == s && seg.signing_input@ == signing_input_of(h, c)),
{
    let parts = split_pieces(token, '.');
    let ghost p = pieces(token@, '.');
    if parts.len() < 3 {
        return Err(ErrorResponse::new(ErrorCode::InvalidRequest).with_description(
            String::from_str("invalid JWT format"),
        ));
    }
    assert(parts@[0]@ == p[0] && parts@[1]@ == p[1] && parts@[2]@ == p[2]);
    let header = match base64_url_decode(parts[0].as_str()) {
        Ok(b) => b,
        Err(e) => {
            return Err(ErrorResponse::new(ErrorCode::InvalidRequest).with_description(
                prefixed("invalid JWT header encoding: ", e.as_str()),
            ));
        },
    };
    let claims = match base64_url_decode(parts[1].as_str()) {
        Ok(b) => b,
        Err(e) => {
            return Err(ErrorResponse::new(ErrorCode::InvalidRequest).with_description(
                prefixed("invalid JWT claims encoding: ", e.as_str()),
            ));
        },
    };
    let signature = match base64_url_decode(parts[2].as_str()) {
        Ok(b) => b,
        Err(e) => {
            return Err(ErrorResponse::new(ErrorCode::InvalidRequest).with_description(
                prefixed("invalid JWT signature encoding: ", e.as_str()),
            ));
        },
    };
    let mut signing_input = parts[0].clone();
    signing_input.append(".");
    signing_input.append(parts[1].as_str());
    proof {
        reveal_strlit(".");
        assert("."@ =~= seq!['.']);
    }
    Ok(JwtSegments { header, claims, signature, signing_input })
}

/// Checks the signature of a split token against a public JWK. The JWK's `x` and `y` are
/// read as `sec1_of` says: bare coordinates, or `x` followed by `y` as SEC1 bytes.
pub fn verify_jwt_signature(jwk: &JwkPublic, segments: &JwtSegments) -> (r: ErrorResponseResult<()>)
    ensures
        unit_result_view(r) == signature_check(*jwk, segments.signature@, segments.signing_input@),
{
    if let Err(e) = check_signature(segments.signature.as_slice()) {
        return Err(ErrorResponse::new(ErrorCode::InvalidRequest).with_description(
            prefixed("invalid JWT signature: ", e.as_str()),
        ));
    }
    let public_key = verifing_key_from_jwt(jwk)?;
    match es256k_verify(public_key.as_slice(), segments.signing_input.as_str().as_bytes(), segments.signature.as_slice()) {
        Ok(()) => Ok(()),
        Err(e) => Err(ErrorResponse::new(ErrorCode::InvalidRequest).with_description(
            prefixed("invalid JWT signature: ", e.as_str()),
        )),
    }
}

} // verus!
