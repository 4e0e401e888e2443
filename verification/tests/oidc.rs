//! Which identity tokens are accepted.

use base64::Engine;
use jsonwebtoken::{encode, EncodingKey, Header};
use oidcx::jwt::{
    Algorithm, ClaimValue, Jwk, JwkSet, KeyAlgorithm, KeyParameters, RawClaim,
};
use oidcx::oidc::{
    accept, keep_claims, key_algo_to_algo, token_rules, Claims, IssuerClaim, OidcConfig, OidcError,
    OidcProvider, ResolvedOidcConfig, TokenFault,
};
use oidcx::settings::Settings;
use serde_json::Value;
use std::time::{SystemTime, UNIX_EPOCH};

const TEST_KID: &str = "test-key";
const TEST_ISSUER: &str = "https://token.actions.githubusercontent.com";
const TEST_AUDIENCE: &str = "https://oidcx.example.com";
const JWK_E: &str = "AQAB";

/// An RSA key pair for these tests. Its primes are the Mersenne primes of the exponents `a` and `b`,
/// which everybody knows, so that it protects nothing.
struct TestKey {
    pem: String,
    /// The modulus in base64url.
    n: String,
}

/// The number with these bits, lowest byte first.
fn number(bits: impl Iterator<Item = usize>) -> Vec<u8> {
    let mut bytes = vec![0; 288];
    for bit in bits {
        bytes[bit / 8] |= 1 << (bit % 8);
    }
    bytes
}

fn product(x: &[u8], y: &[u8]) -> Vec<u8> {
    let mut bytes = vec![0; x.len() + y.len()];
    for (i, a) in x.iter().enumerate() {
        let mut carry = 0;
        for (j, b) in y.iter().enumerate() {
            carry += u32::from(bytes[i + j]) + u32::from(*a) * u32::from(*b);
            bytes[i + j] = (carry % 256) as u8;
            carry /= 256;
        }
        bytes[i + y.len()] = carry as u8;
    }
    bytes
}

/// The quotient and the remainder of a number and a small one.
fn divide(x: &[u8], divisor: u64) -> (Vec<u8>, u64) {
    let mut quotient = x.to_vec();
    let mut rest = 0;
    for byte in quotient.iter_mut().rev() {
        rest = rest * 256 + u64::from(*byte);
        *byte = (rest / divisor) as u8;
        rest %= divisor;
    }
    (quotient, rest)
}

/// The inverse of a small `e` modulo `m`: the smallest `k * m + 1` that `e` divides, divided by it.
fn inverse(e: u64, m: &[u8]) -> Vec<u8> {
    let rest = divide(m, e).1;
    let k = (1..e).find(|k| (k * rest + 1) % e == 0).expect("there is no inverse");
    let mut multiple = product(m, &k.to_le_bytes());
    // `m` is even and so is its multiple: adding one carries nothing.
    multiple[0] += 1;
    divide(&multiple, e).0
}

fn der(tag: u8, content: &[u8]) -> Vec<u8> {
    let mut bytes = vec![tag, 0x82, (content.len() / 256) as u8, (content.len() % 256) as u8];
    if content.len() < 128 {
        bytes = vec![tag, content.len() as u8];
    } else if content.len() < 256 {
        bytes = vec![tag, 0x81, content.len() as u8];
    }
    bytes.extend_from_slice(content);
    bytes
}

/// The bytes of a number, highest first and without leading zeros.
fn big_endian(x: &[u8]) -> Vec<u8> {
    x.iter().rev().copied().skip_while(|byte| *byte == 0).collect()
}

fn der_integer(x: &[u8]) -> Vec<u8> {
    let mut bytes = big_endian(x);
    if bytes.first().is_none_or(|byte| *byte >= 128) {
        bytes.insert(0, 0);
    }
    der(2, &bytes)
}

fn test_key(a: usize, b: usize) -> TestKey {
    let e: u64 = 65537;
    let (p, q) = (number(0..a), number(0..b));
    let (p_1, q_1) = (number(1..a), number(1..b));
    let n = product(&p, &q);
    // Modulo `p` the powers of two repeat after `a`, and with `b * t = 1` modulo `a` the inverse of
    // `q` is the sum of the first `t` powers of `2^b`.
    let t = (1..a).find(|t| b * t % a == 1).expect("the exponents are prime");
    let coefficient = number((0..t).map(|i| b * i % a));
    let integers = [
        vec![],
        n.clone(),
        e.to_le_bytes().to_vec(),
        inverse(e, &product(&p_1, &q_1)),
        p,
        q,
        inverse(e, &p_1),
        inverse(e, &q_1),
        coefficient,
    ];
    let content: Vec<u8> = integers.iter().flat_map(|integer| der_integer(integer)).collect();
    let body = base64::engine::general_purpose::STANDARD.encode(der(0x30, &content));
    let label = "RSA PRIVATE KEY";
    let pem = format!("-----BEGIN {label}-----\n{body}\n-----END {label}-----\n");
    let n = base64::engine::general_purpose::URL_SAFE_NO_PAD.encode(big_endian(&n));
    TestKey { pem, n }
}

fn signing_key() -> TestKey {
    test_key(2281, 2203)
}

fn claims(entries: Vec<(&str, ClaimValue)>) -> Claims {
    Claims::from_entries(entries.into_iter().map(|(name, value)| (name.to_string(), value)).collect())
}

fn text(value: &str) -> ClaimValue {
    ClaimValue::String(value.to_string())
}

fn now() -> u64 {
    SystemTime::now().duration_since(UNIX_EPOCH).unwrap().as_secs()
}

fn rsa_key(kid: &str, key_algorithm: Option<KeyAlgorithm>) -> Jwk {
    Jwk {
        kid: Some(kid.to_string()),
        key_algorithm,
        parameters: KeyParameters::Rsa { n: signing_key().n, e: JWK_E.to_string() },
    }
}

fn config_with(keys: Vec<Jwk>) -> ResolvedOidcConfig {
    ResolvedOidcConfig {
        issuer: TEST_ISSUER.to_string(),
        jwks: JwkSet { keys },
        subject_types_supported: vec![],
        response_types_supported: vec![],
        claims_supported: vec![],
        id_token_signing_alg_values_supported: vec![Algorithm::RS256],
        scopes_supported: vec![],
    }
}

fn test_config() -> ResolvedOidcConfig {
    config_with(vec![rsa_key(TEST_KID, Some(KeyAlgorithm::RS256))])
}

fn test_settings(audience: &str) -> Settings {
    Settings {
        audience: audience.to_string(),
        policy_path: String::new(),
        log_directory: None,
        port: None,
        providers: vec![],
        oxide: None,
        github: None,
        params_base_path: None,
    }
}

fn valid_claims() -> serde_json::Map<String, Value> {
    let mut claims = serde_json::Map::new();
    claims.insert("iss".to_string(), Value::from(TEST_ISSUER));
    claims.insert("aud".to_string(), Value::from(TEST_AUDIENCE));
    claims.insert("exp".to_string(), Value::from(now() + 300));
    claims.insert("iat".to_string(), Value::from(now() - 10));
    claims.insert("jti".to_string(), Value::from("test-jti"));
    claims.insert("repository".to_string(), Value::from("oxidecomputer/hubris"));
    claims
}

fn sign_with_kid(claims: &serde_json::Map<String, Value>, kid: Option<&str>) -> String {
    let mut header = Header::new(jsonwebtoken::Algorithm::RS256);
    header.kid = kid.map(|kid| kid.to_string());
    let key = EncodingKey::from_rsa_pem(signing_key().pem.as_bytes()).expect("failed to load the key");
    encode(&header, claims, &key).expect("failed to sign the token")
}

fn sign_rs256(claims: &serde_json::Map<String, Value>) -> String {
    sign_with_kid(claims, Some(TEST_KID))
}

#[test]
fn get_str_returns_string_value() {
    let claims = claims(vec![("iss", text("https://example.com")), ("sub", text("user123"))]);
    assert_eq!(claims.get_str("iss"), Some("https://example.com"));
    assert_eq!(claims.get_str("sub"), Some("user123"));
}

#[test]
fn get_str_returns_none_for_number() {
    let claims = claims(vec![("iat", ClaimValue::Number(1234567890))]);
    assert_eq!(claims.get_str("iat"), None);
}

#[test]
fn get_str_returns_none_for_missing_key() {
    let claims = claims(vec![("iss", text("https://example.com"))]);
    assert_eq!(claims.get_str("nonexistent"), None);
}

#[test]
fn accepts_valid_token() {
    let config = test_config();
    let settings = test_settings(TEST_AUDIENCE);
    let token = sign_rs256(&valid_claims());
    let claims = config
        .validate(&settings, &token)
        .expect("a correctly signed token with the right aud/iss/exp should be accepted");
    assert_eq!(claims.get_str("repository"), Some("oxidecomputer/hubris"));
}

#[test]
fn rejects_wrong_audience() {
    // Token minted for this service but the service expects a different audience: it must be
    // rejected (cross-service replay protection).
    let config = test_config();
    let settings = test_settings("https://some-other-service.example.com");
    let token = sign_rs256(&valid_claims());
    assert!(
        config.validate(&settings, &token).is_err(),
        "token with mismatched audience must be rejected"
    );
}

#[test]
fn rejects_missing_audience() {
    // A token with no `aud` claim must not be accepted, otherwise a token not scoped to any
    // service could be replayed here.
    let config = test_config();
    let settings = test_settings(TEST_AUDIENCE);
    let mut claims = valid_claims();
    claims.remove("aud");
    let token = sign_rs256(&claims);
    assert!(
        config.validate(&settings, &token).is_err(),
        "token without an aud claim must be rejected"
    );
}

#[test]
fn rejects_wrong_issuer() {
    let config = test_config();
    let settings = test_settings(TEST_AUDIENCE);
    let mut claims = valid_claims();
    claims.insert("iss".to_string(), Value::from("https://evil.example.com"));
    let token = sign_rs256(&claims);
    assert!(
        config.validate(&settings, &token).is_err(),
        "token with mismatched issuer must be rejected"
    );
}

#[test]
fn rejects_missing_issuer() {
    let config = test_config();
    let settings = test_settings(TEST_AUDIENCE);
    let mut claims = valid_claims();
    claims.remove("iss");
    let token = sign_rs256(&claims);
    assert!(
        config.validate(&settings, &token).is_err(),
        "token without an iss claim must be rejected"
    );
}

#[test]
fn rejects_expired_token() {
    let config = test_config();
    let settings = test_settings(TEST_AUDIENCE);
    let mut claims = valid_claims();
    claims.insert("exp".to_string(), Value::from(now() - 3600));
    let token = sign_rs256(&claims);
    assert!(config.validate(&settings, &token).is_err(), "expired token must be rejected");
}

#[test]
fn rejects_missing_exp() {
    let config = test_config();
    let settings = test_settings(TEST_AUDIENCE);
    let mut claims = valid_claims();
    claims.remove("exp");
    let token = sign_rs256(&claims);
    assert!(
        config.validate(&settings, &token).is_err(),
        "token without an exp claim must be rejected"
    );
}

#[test]
fn rejects_unknown_kid() {
    // The token references a key that isn't in the JWKS.
    let config = test_config();
    let settings = test_settings(TEST_AUDIENCE);
    let token = sign_with_kid(&valid_claims(), Some("some-other-key"));
    let err = config.validate(&settings, &token).unwrap_err();
    assert!(matches!(err, OidcError::UnknownKid(_)), "expected UnknownKid, got: {err:?}");
    assert_eq!(err.message(), "some-other-key did not match any known keys");
}

#[test]
fn rejects_tampered_signature() {
    // Sign a valid token, then corrupt the signature segment. Verifies the RS256 signature is
    // actually checked.
    let config = test_config();
    let settings = test_settings(TEST_AUDIENCE);
    let token = sign_rs256(&valid_claims());
    let mut parts: Vec<&str> = token.split('.').collect();
    let tampered_sig = if parts[2].starts_with('A') {
        format!("B{}", &parts[2][1..])
    } else {
        format!("A{}", &parts[2][1..])
    };
    parts[2] = &tampered_sig;
    let tampered = parts.join(".");
    assert!(
        config.validate(&settings, &tampered).is_err(),
        "token with a tampered signature must be rejected"
    );
}

#[test]
fn rejects_hs256_key_confusion() {
    // The classic RS256 to HS256 key confusion: a token signed with HS256, using the (public) RSA
    // key material as the HMAC secret. The JWKS declares RS256, so validation must only accept
    // RS256 and reject the HS256 token on algorithm grounds, before any signature check.
    let config = test_config();
    let settings = test_settings(TEST_AUDIENCE);

    let mut header = Header::new(jsonwebtoken::Algorithm::HS256);
    header.kid = Some(TEST_KID.to_string());
    let secret = EncodingKey::from_secret(signing_key().n.as_bytes());
    let token = encode(&header, &valid_claims(), &secret).unwrap();

    let err = config.validate(&settings, &token).unwrap_err();
    assert!(
        matches!(err, OidcError::InvalidToken(_)),
        "HS256 token must be rejected, got: {err:?}"
    );
}

#[test]
fn rejects_none_algorithm() {
    // An `alg: none` (unsigned) token must never be accepted. It is put together by hand:
    // base64url(header).base64url(claims). with an empty signature.
    let config = test_config();
    let settings = test_settings(TEST_AUDIENCE);
    let engine = base64::engine::general_purpose::URL_SAFE_NO_PAD;
    let mut header = serde_json::Map::new();
    header.insert("alg".to_string(), Value::from("none"));
    header.insert("typ".to_string(), Value::from("JWT"));
    header.insert("kid".to_string(), Value::from(TEST_KID));
    let header = engine.encode(Value::Object(header).to_string());
    let payload = engine.encode(Value::Object(valid_claims()).to_string());
    let token = format!("{header}.{payload}.");
    assert!(
        config.validate(&settings, &token).is_err(),
        "unsigned (alg: none) token must be rejected"
    );
}

#[test]
fn each_key_fault_has_its_error() {
    let settings = test_settings(TEST_AUDIENCE);
    let token = sign_rs256(&valid_claims());

    let err = test_config().validate(&settings, "no token").unwrap_err();
    assert!(matches!(err, OidcError::InvalidHeader(_)), "got: {err:?}");
    assert_eq!(err.message(), "Failed to parse token header");

    let anonymous = sign_with_kid(&valid_claims(), None);
    let err = test_config().validate(&settings, &anonymous).unwrap_err();
    assert!(matches!(err, OidcError::MissingKid), "got: {err:?}");
    assert_eq!(err.message(), "Missing kid in token header");

    let mut unreadable = rsa_key(TEST_KID, Some(KeyAlgorithm::RS256));
    unreadable.parameters = KeyParameters::Rsa { n: "???".to_string(), e: JWK_E.to_string() };
    let err = config_with(vec![unreadable]).validate(&settings, &token).unwrap_err();
    assert!(matches!(err, OidcError::InvalidKey(_)), "got: {err:?}");
    assert_eq!(err.message(), "Failed to create decoding key");

    let err = config_with(vec![rsa_key(TEST_KID, None)]).validate(&settings, &token).unwrap_err();
    assert!(matches!(err, OidcError::MissingKeyAlgorithm), "got: {err:?}");
    assert_eq!(err.message(), "JWK must define a key algorithm");

    let encrypts = rsa_key(TEST_KID, Some(KeyAlgorithm::RSA_OAEP));
    let err = config_with(vec![encrypts]).validate(&settings, &token).unwrap_err();
    assert!(
        matches!(err, OidcError::UnsupportedAlgorithm(KeyAlgorithm::RSA_OAEP)),
        "got: {err:?}"
    );
    assert_eq!(err.message(), "Key algorithm RSA_OAEP is not supported");
}

#[test]
fn the_first_key_of_an_id_counts() {
    let settings = test_settings(TEST_AUDIENCE);
    let token = sign_rs256(&valid_claims());
    let good = rsa_key(TEST_KID, Some(KeyAlgorithm::RS256));
    let bad = rsa_key(TEST_KID, None);
    let nameless = Jwk {
        kid: None,
        key_algorithm: None,
        parameters: KeyParameters::OctetKey { value: String::new() },
    };
    assert!(config_with(vec![nameless, good, bad]).validate(&settings, &token).is_ok());

    let good = rsa_key(TEST_KID, Some(KeyAlgorithm::RS256));
    let bad = rsa_key(TEST_KID, None);
    assert!(config_with(vec![bad, good]).validate(&settings, &token).is_err());
}

#[test]
fn a_key_of_another_algorithm_is_refused() {
    // The signature is right, but the key says it is for RS512.
    let settings = test_settings(TEST_AUDIENCE);
    let token = sign_rs256(&valid_claims());
    let key = rsa_key(TEST_KID, Some(KeyAlgorithm::RS512));
    let err = config_with(vec![key]).validate(&settings, &token).unwrap_err();
    assert!(matches!(err, OidcError::InvalidToken(TokenFault::Rejected(_))), "got: {err:?}");
}

#[test]
fn a_claim_that_is_no_integer_or_string_is_refused() {
    let config = test_config();
    let settings = test_settings(TEST_AUDIENCE);
    let mut claims = valid_claims();
    claims.insert("nested".to_string(), Value::Array(vec![]));
    let err = config.validate(&settings, &sign_rs256(&claims)).unwrap_err();
    assert!(
        matches!(err, OidcError::InvalidToken(TokenFault::UnsupportedClaim(ref c)) if c == "nested"),
        "got: {err:?}"
    );
    assert_eq!(err.message(), "Failed to decode token");

    // An audience that is a list may name this service and is refused all the same.
    let mut claims = valid_claims();
    claims.insert("aud".to_string(), Value::Array(vec![Value::from(TEST_AUDIENCE)]));
    let err = config.validate(&settings, &sign_rs256(&claims)).unwrap_err();
    assert!(
        matches!(err, OidcError::InvalidToken(TokenFault::UnsupportedClaim(ref c)) if c == "aud"),
        "got: {err:?}"
    );
}

#[test]
fn nothing_verifies_on_a_short_ed25519_key() {
    let settings = test_settings(TEST_AUDIENCE);
    let engine = base64::engine::general_purpose::URL_SAFE_NO_PAD;
    let header = engine.encode("{\"alg\":\"EdDSA\",\"kid\":\"ed\"}");
    let payload = engine.encode(Value::Object(valid_claims()).to_string());
    let token = format!("{header}.{payload}.c2ln");
    let key = |x: &str| Jwk {
        kid: Some("ed".to_string()),
        key_algorithm: Some(KeyAlgorithm::EdDSA),
        parameters: KeyParameters::OctetKeyPair { x: x.to_string() },
    };

    for x in [String::new(), "AAAA".to_string(), "A".repeat(43), "A".repeat(44)] {
        let err = config_with(vec![key(&x)]).validate(&settings, &token).unwrap_err();
        assert!(matches!(err, OidcError::InvalidToken(TokenFault::Rejected(_))), "got: {err:?}");
    }
}

#[test]
fn key_fields_are_unpadded_base64url() {
    let settings = test_settings(TEST_AUDIENCE);
    let engine = base64::engine::general_purpose::URL_SAFE_NO_PAD;
    let header = engine.encode("{\"alg\":\"HS256\",\"kid\":\"octets\"}");
    let payload = engine.encode(Value::Object(valid_claims()).to_string());
    let token = format!("{header}.{payload}.c2ln");
    let outcome = |value: &str| {
        let key = Jwk {
            kid: Some("octets".to_string()),
            key_algorithm: Some(KeyAlgorithm::HS256),
            parameters: KeyParameters::OctetKey { value: value.to_string() },
        };
        config_with(vec![key]).validate(&settings, &token).unwrap_err()
    };
    for readable in ["", "AA", "Aw", "AAE", "AAAA", "-_09azAZ"] {
        let err = outcome(readable);
        assert!(matches!(err, OidcError::InvalidToken(_)), "{readable}: {err:?}");
    }
    // No whole byte, bits left over, and characters that are no digits.
    for unreadable in ["A", "AB", "AAB", "AAAAA", "AA==", "+/AA", "AA A", "\u{e9}A"] {
        let err = outcome(unreadable);
        assert!(matches!(err, OidcError::InvalidKey(_)), "{unreadable}: {err:?}");
    }
}

#[test]
fn issuer_is_read_without_verification() {
    let token = sign_rs256(&valid_claims());
    let unsigned = format!("{}.", token.rsplit_once('.').unwrap().0);
    assert_eq!(IssuerClaim::of_token(&token).unwrap().iss, TEST_ISSUER);
    assert_eq!(IssuerClaim::of_token(&unsigned).unwrap().iss, TEST_ISSUER);

    let mut claims = valid_claims();
    claims.insert("iss".to_string(), Value::from(7));
    assert!(IssuerClaim::of_token(&sign_rs256(&claims)).is_none());
    claims.remove("iss");
    assert!(IssuerClaim::of_token(&sign_rs256(&claims)).is_none());
    assert!(IssuerClaim::of_token("no token").is_none());
}

#[test]
fn keep_claims_keeps_integers_and_strings() {
    let kept = keep_claims(vec![
        ("a".to_string(), RawClaim::Text("x".to_string())),
        ("b".to_string(), RawClaim::Number(Some(-3))),
    ])
    .unwrap();
    assert_eq!(kept.get_str("a"), Some("x"));
    assert_eq!(kept.get_str("b"), None);

    for unkept in [
        RawClaim::Null,
        RawClaim::Bool(true),
        RawClaim::Number(None),
        RawClaim::Array,
        RawClaim::Object,
    ] {
        let raw = vec![("a".to_string(), RawClaim::Text("x".to_string())), ("u".to_string(), unkept)];
        assert_eq!(keep_claims(raw).unwrap_err(), "u");
    }
}

#[test]
fn accept_takes_the_outcome_of_decoding() {
    let claims = accept(Ok(vec![("jti".to_string(), RawClaim::Text("7".to_string()))])).unwrap();
    assert_eq!(claims.get_str("jti"), Some("7"));
    let err = accept(Ok(vec![("jti".to_string(), RawClaim::Null)])).unwrap_err();
    assert!(matches!(err, OidcError::InvalidToken(TokenFault::UnsupportedClaim(_))));
    let fault = jsonwebtoken::decode_header("").unwrap_err();
    let err = accept(Err(fault)).unwrap_err();
    assert!(matches!(err, OidcError::InvalidToken(TokenFault::Rejected(_))));
}

#[test]
fn token_rules_require_what_is_checked() {
    let rules = token_rules(Algorithm::ES384, "me", "them");
    assert_eq!(rules.algorithm, "ES384");
    assert_eq!(rules.audience, vec!["me".to_string()]);
    assert_eq!(rules.issuer, vec!["them".to_string()]);
    assert_eq!(
        rules.required_claims,
        vec!["exp".to_string(), "aud".to_string(), "iss".to_string()]
    );
}

#[test]
fn signing_keys_have_an_algorithm() {
    assert!(matches!(key_algo_to_algo(KeyAlgorithm::HS256), Ok(Algorithm::HS256)));
    assert!(matches!(key_algo_to_algo(KeyAlgorithm::ES384), Ok(Algorithm::ES384)));
    assert!(matches!(key_algo_to_algo(KeyAlgorithm::PS512), Ok(Algorithm::PS512)));
    assert!(matches!(key_algo_to_algo(KeyAlgorithm::EdDSA), Ok(Algorithm::EdDSA)));
    for key_algorithm in [
        KeyAlgorithm::RSA1_5,
        KeyAlgorithm::RSA_OAEP,
        KeyAlgorithm::RSA_OAEP_256,
        KeyAlgorithm::UNKNOWN_ALGORITHM,
    ] {
        let err = key_algo_to_algo(key_algorithm).unwrap_err();
        assert!(matches!(err, OidcError::UnsupportedAlgorithm(a) if a == key_algorithm));
    }
}

#[test]
fn algorithm_names_lead_back() {
    for algorithm in [
        Algorithm::HS256,
        Algorithm::HS384,
        Algorithm::HS512,
        Algorithm::ES256,
        Algorithm::ES384,
        Algorithm::RS256,
        Algorithm::RS384,
        Algorithm::RS512,
        Algorithm::PS256,
        Algorithm::PS384,
        Algorithm::PS512,
        Algorithm::EdDSA,
    ] {
        assert_eq!(Algorithm::from_name(algorithm.name()), Some(algorithm));
        let outside: jsonwebtoken::Algorithm = algorithm.name().parse().unwrap();
        assert_eq!(format!("{outside:?}"), algorithm.name());
    }
    assert_eq!(Algorithm::from_name("none"), None);
    assert_eq!(Algorithm::from_name("rs256"), None);
}

fn published(algorithms: Vec<&str>) -> OidcConfig {
    OidcConfig {
        issuer: TEST_ISSUER.to_string(),
        jwks_uri: "https://example.com/jwks".to_string(),
        subject_types_supported: vec!["public".to_string()],
        response_types_supported: vec!["id_token".to_string()],
        claims_supported: vec!["sub".to_string()],
        id_token_signing_alg_values_supported: algorithms
            .into_iter()
            .map(|name| name.to_string())
            .collect(),
        scopes_supported: vec!["openid".to_string()],
    }
}

#[test]
fn resolve_keeps_what_is_published() {
    let keys = JwkSet { keys: vec![rsa_key(TEST_KID, None)] };
    let resolved = published(vec!["RS256", "ES256"]).resolve(keys).unwrap();
    assert_eq!(resolved.issuer, TEST_ISSUER);
    assert_eq!(resolved.jwks.keys.len(), 1);
    assert_eq!(resolved.subject_types_supported, vec!["public".to_string()]);
    assert_eq!(resolved.response_types_supported, vec!["id_token".to_string()]);
    assert_eq!(resolved.claims_supported, vec!["sub".to_string()]);
    assert_eq!(resolved.scopes_supported, vec!["openid".to_string()]);
    assert_eq!(
        resolved.id_token_signing_alg_values_supported,
        vec![Algorithm::RS256, Algorithm::ES256]
    );
}

#[test]
fn resolve_refuses_unknown_algorithms() {
    let err = published(vec!["RS256", "XS256"]).resolve(JwkSet { keys: vec![] }).unwrap_err();
    assert!(matches!(err, OidcError::InvalidOidcConfig));
    assert_eq!(err.message(), "Invalid OIDC configuration");
}

#[test]
fn provider_keeps_its_url() {
    assert_eq!(OidcProvider::new("https://example.com".to_string()).url(), "https://example.com");
}
