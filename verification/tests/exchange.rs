//! The exchange as a whole.

use base64::Engine;
use jsonwebtoken::{encode, EncodingKey, Header};
use oidcx::cedar::PolicyEntity;
use oidcx::context::{
    read_policy, Context, ContextBuildError, PolicyFile, PrincipalBuilder, Providers,
    ResolvedOidcProvider,
};
use oidcx::endpoints::{
    authenticate, exchange, identify, ExchangeBody, ExchangeStep, Failure,
    PendingExchange, Refusal, TokenRequest,
};
use oidcx::jwt::{Algorithm, ClaimValue, Jwk, JwkSet, KeyAlgorithm, KeyParameters};
use oidcx::oidc::{Claims, OidcError, ResolvedOidcConfig};
use oidcx::policy::PolicyError;
use oidcx::providers::ProviderConfig;
use oidcx::settings::{Settings, SettingsGitHubApp, SettingsOxide};
use oidcx::token::github::{GitHubStep, GitHubTokenError, GitHubTokenRequest};
use oidcx::token::oxide::{OxideError, OxideTokenRequest};
use oidcx::util::Url;
use serde_json::Value;
use std::time::{SystemTime, UNIX_EPOCH};

const ISSUER: &str = "https://token.actions.githubusercontent.com";
const AUDIENCE: &str = "https://oidcx.example.com";
const NOW: u64 = 1_700_000_000;

const SCHEMA: &str = "namespace Oidcx {
  entity WorkflowRun = {
    repository: String,
    repository_owner: String,
    repository_visibility: String,
    event_name: String,
    iss: String,
    environment?: String,
  };
  entity Repository = { name: String, visibility: String };
  entity Silo = { url: String };
  action \"contents:read\", \"contents:write\", \"pull_requests:write\" appliesTo {
    principal: [WorkflowRun],
    resource: [Repository],
  };
  action \"deploy\" appliesTo { principal: [WorkflowRun], resource: [Silo] };
}
";

const ALLOW_ALL: &str = "permit(principal, action, resource);";

const ALLOW_PUBLIC: &str =
    "permit(principal, action, resource) when { resource.visibility == \"public\" };";

/// An RSA key pair for these tests. Its primes are the Mersenne primes of the exponents `a` and `b`,
/// which everybody knows, so that it protects nothing.
struct TestKey {
    pem: String,
    /// The modulus in base64url.
    n: String,
}

/// The number with these bits, lowest byte first.
fn number(bits: impl Iterator<Item = usize>) -> Vec<u8> {
    let mut bytes = vec![0; 288];
    for bit in bits {
        bytes[bit / 8] |= 1 << (bit % 8);
    }
    bytes
}

fn product(x: &[u8], y: &[u8]) -> Vec<u8> {
    let mut bytes = vec![0; x.len() + y.len()];
    for (i, a) in x.iter().enumerate() {
        let mut carry = 0;
        for (j, b) in y.iter().enumerate() {
            carry += u32::from(bytes[i + j]) + u32::from(*a) * u32::from(*b);
            bytes[i + j] = (carry % 256) as u8;
            carry /= 256;
        }
        bytes[i + y.len()] = carry as u8;
    }
    bytes
}

/// The quotient and the remainder of a number and a small one.
fn divide(x: &[u8], divisor: u64) -> (Vec<u8>, u64) {
    let mut quotient = x.to_vec();
    let mut rest = 0;
    for byte in quotient.iter_mut().rev() {
        rest = rest * 256 + u64::from(*byte);
        *byte = (rest / divisor) as u8;
        rest %= divisor;
    }
    (quotient, rest)
}

/// The inverse of a small `e` modulo `m`: the smallest `k * m + 1` that `e` divides, divided by it.
fn inverse(e: u64, m: &[u8]) -> Vec<u8> {
    let rest = divide(m, e).1;
    let k = (1..e).find(|k| (k * rest + 1) % e == 0).expect("there is no inverse");
    let mut multiple = product(m, &k.to_le_bytes());
    // `m` is even and so is its multiple: adding one carries nothing.
    multiple[0] += 1;
    divide(&multiple, e).0
}

fn der(tag: u8, content: &[u8]) -> Vec<u8> {
    let mut bytes = vec![tag, 0x82, (content.len() / 256) as u8, (content.len() % 256) as u8];
    if content.len() < 128 {
        bytes = vec![tag, content.len() as u8];
    } else if content.len() < 256 {
        bytes = vec![tag, 0x81, content.len() as u8];
    }
    bytes.extend_from_slice(content);
    bytes
}

/// The bytes of a number, highest first and without leading zeros.
fn big_endian(x: &[u8]) -> Vec<u8> {
    x.iter().rev().copied().skip_while(|byte| *byte == 0).collect()
}

fn der_integer(x: &[u8]) -> Vec<u8> {
    let mut bytes = big_endian(x);
    if bytes.first().is_none_or(|byte| *byte >= 128) {
        bytes.insert(0, 0);
    }
    der(2, &bytes)
}

fn test_key(a: usize, b: usize) -> TestKey {
    let e: u64 = 65537;
    let (p, q) = (number(0..a), number(0..b));
    let (p_1, q_1) = (number(1..a), number(1..b));
    let n = product(&p, &q);
    // Modulo `p` the powers of two repeat after `a`, and with `b * t = 1` modulo `a` the inverse of
    // `q` is the sum of the first `t` powers of `2^b`.
    let t = (1..a).find(|t| b * t % a == 1).expect("the exponents are prime");
    let coefficient = number((0..t).map(|i| b * i % a));
    let integers = [
        vec![],
        n.clone(),
        e.to_le_bytes().to_vec(),
        inverse(e, &product(&p_1, &q_1)),
        p,
        q,
        inverse(e, &p_1),
        inverse(e, &q_1),
        coefficient,
    ];
    let content: Vec<u8> = integers.iter().flat_map(|integer| der_integer(integer)).collect();
    let body = base64::engine::general_purpose::STANDARD.encode(der(0x30, &content));
    let label = "RSA PRIVATE KEY";
    let pem = format!("-----BEGIN {label}-----\n{body}\n-----END {label}-----\n");
    let n = base64::engine::general_purpose::URL_SAFE_NO_PAD.encode(big_endian(&n));
    TestKey { pem, n }
}

fn signing_key() -> TestKey {
    test_key(2281, 2203)
}

/// No signature is made with so small a key.
fn small_key() -> TestKey {
    test_key(127, 107)
}

fn provider() -> ProviderConfig {
    ProviderConfig::GitHubActions { url: "https://example.com/config".to_string() }
}

fn config(issuer: &str) -> ResolvedOidcConfig {
    ResolvedOidcConfig {
        issuer: issuer.to_string(),
        jwks: JwkSet {
            keys: vec![
                Jwk {
                    kid: Some("key".to_string()),
                    key_algorithm: Some(KeyAlgorithm::RS256),
                    parameters: KeyParameters::Rsa { n: signing_key().n, e: "AQAB".to_string() },
                },
                Jwk {
                    kid: Some("short".to_string()),
                    key_algorithm: Some(KeyAlgorithm::EdDSA),
                    parameters: KeyParameters::OctetKeyPair { x: "AAAA".to_string() },
                },
            ],
        },
        subject_types_supported: vec![],
        response_types_supported: vec![],
        claims_supported: vec![],
        id_token_signing_alg_values_supported: vec![Algorithm::RS256],
        scopes_supported: vec![],
    }
}

fn settings(private_key: &str) -> Settings {
    Settings {
        audience: AUDIENCE.to_string(),
        policy_path: "policy.cedar".to_string(),
        log_directory: None,
        port: None,
        providers: vec![],
        oxide: Some(SettingsOxide {
            max_duration: 3600,
            allow_tokens_without_expiry: false,
            silos: Ok(vec![]),
        }),
        github: Some(SettingsGitHubApp {
            client_id: "Iv2AAAA".to_string(),
            private_key: Ok(private_key.to_string()),
        }),
        params_base_path: None,
    }
}

fn file(path: &str, content: &str) -> PolicyFile {
    PolicyFile { path: path.to_string(), content: Ok(content.to_string()) }
}

fn build(private_key: &str, policies: &str) -> Result<Context<&'static str>, ContextBuildError> {
    let mut providers = Providers::new();
    providers.register(&provider(), config(ISSUER));
    Context::new(
        settings(private_key),
        providers,
        file("policy.cedarschema", SCHEMA),
        file("policy.cedar", policies),
        Ok(vec![(Url::parse("https://silo.example").unwrap(), Ok("client"))]),
    )
}

fn context(policies: &str) -> Context<&'static str> {
    build(&signing_key().pem, policies).ok().unwrap()
}

fn claims(issuer: &str) -> serde_json::Map<String, Value> {
    let now = SystemTime::now().duration_since(UNIX_EPOCH).unwrap().as_secs();
    let mut claims = serde_json::Map::new();
    claims.insert("iss".to_string(), Value::from(issuer));
    claims.insert("aud".to_string(), Value::from(AUDIENCE));
    claims.insert("exp".to_string(), Value::from(now + 300));
    claims.insert("jti".to_string(), Value::from("run"));
    claims.insert("repository".to_string(), Value::from("acme/a"));
    claims
}

fn sign(claims: &serde_json::Map<String, Value>) -> String {
    let mut header = Header::new(jsonwebtoken::Algorithm::RS256);
    header.kid = Some("key".to_string());
    let key = EncodingKey::from_rsa_pem(signing_key().pem.as_bytes()).unwrap();
    encode(&header, claims, &key).unwrap()
}

fn principal(context: &Context<&'static str>) -> PolicyEntity {
    match authenticate(context, &sign(&claims(ISSUER))) {
        Ok(principal) => principal,
        Err(failure) => panic!("refused: {failure:?}"),
    }
}

fn refusal(context: &Context<&'static str>, token: &str) -> Failure {
    match authenticate(context, token) {
        Err(refusal) => refusal.failure(),
        Ok(principal) => panic!("accepted: {}", principal.id()),
    }
}

fn assert_bad_request(failure: Failure, message: &str) {
    assert_eq!(failure.status, 400);
    assert_eq!(failure.error_code, None);
    assert_eq!(failure.external_message, message);
    assert_eq!(failure.internal_message, message);
}

fn assert_internal(failure: Failure) {
    assert_eq!(failure.status, 500);
    assert_eq!(failure.error_code, Some("Internal".to_string()));
    assert_eq!(failure.external_message, "Internal Server Error");
    assert_eq!(failure.internal_message, "Failed to generate token");
}

fn github(repositories: &[&str], permissions: &[&str]) -> TokenRequest {
    TokenRequest::GitHub(GitHubTokenRequest {
        repositories: repositories.iter().map(|s| s.to_string()).collect(),
        permissions: permissions.iter().map(|s| s.to_string()).collect(),
    })
}

fn oxide(silo: &str, duration: u32) -> TokenRequest {
    TokenRequest::Oxide(OxideTokenRequest { silo: Url::parse(silo).unwrap(), duration })
}

fn refused(step: ExchangeStep<'_, &'static str>) -> Failure {
    match step {
        ExchangeStep::Refused(refusal) => refusal.failure(),
        _ => panic!("not refused"),
    }
}

fn pending<'a>(step: ExchangeStep<'a, &'static str>) -> PendingExchange<'a, &'static str> {
    match step {
        ExchangeStep::Visibility(pending) => pending,
        _ => panic!("needs no visibility"),
    }
}

#[test]
fn tokens_of_a_known_issuer_have_a_principal() {
    let context = context(ALLOW_ALL);
    let principal = principal(&context);
    assert_eq!(principal.kind(), "Oidcx::WorkflowRun");
    assert_eq!(principal.id(), "run");
    assert_eq!(principal.attr("iss"), Some(ISSUER));
    assert_eq!(principal.attr("repository"), Some("acme/a"));
}

#[test]
fn other_tokens_are_refused() {
    let context = context(ALLOW_ALL);
    assert_bad_request(refusal(&context, "no token"), "Invalid token");
    assert_bad_request(
        refusal(&context, &sign(&claims("https://evil.example"))),
        "Unsupported issuer",
    );
    let mut foreign = claims(ISSUER);
    foreign.insert("aud".to_string(), Value::from("https://other.example"));
    assert_bad_request(refusal(&context, &sign(&foreign)), "Token validation failed");
    let mut nameless = claims(ISSUER);
    nameless.remove("jti");
    assert_bad_request(
        refusal(&context, &sign(&nameless)),
        "Failed to construct principal: Claims do not contain an id to construct a principal from",
    );
}

#[test]
fn tokens_on_short_keys_are_refused() {
    let context = context(ALLOW_ALL);
    let signed = sign(&claims(ISSUER));
    let payload = signed.split('.').nth(1).unwrap();
    let engine = base64::engine::general_purpose::URL_SAFE_NO_PAD;
    let header = engine.encode("{\"alg\":\"EdDSA\",\"kid\":\"short\"}");
    let token = format!("{header}.{payload}.c2ln");
    assert_bad_request(refusal(&context, &token), "Token validation failed");
}

#[test]
fn identify_takes_the_outcome_of_validation() {
    let provider = ResolvedOidcProvider {
        config: config(ISSUER),
        build_principal: PrincipalBuilder::WorkflowRun,
    };
    let refusal = identify(&provider, Err(OidcError::MissingKid)).err().unwrap();
    assert!(matches!(refusal, Refusal::Validation(OidcError::MissingKid)));
    assert_bad_request(refusal.failure(), "Token validation failed");
    let named = Claims::from_entries(vec![(
        "jti".to_string(),
        ClaimValue::String("run".to_string()),
    )]);
    assert_eq!(identify(&provider, Ok(named)).ok().unwrap().id(), "run");
    let nameless = Claims::from_entries(vec![]);
    assert!(matches!(
        identify(&provider, Ok(nameless)),
        Err(Refusal::Principal(PolicyError::NoPrincipal))
    ));
}

#[test]
fn granted_oxide_tokens_are_asked_for() {
    let context = context(ALLOW_ALL);
    let principal = principal(&context);
    match exchange(&context, &principal, &oxide("https://silo.example/", 60)) {
        ExchangeStep::Oxide(grant, started) => {
            assert!(grant.skipped.is_empty());
            assert_eq!(*started.client(), "client");
            assert_eq!(started.ttl_seconds(), Some(60));
        }
        _ => panic!("the silo is not asked"),
    }
}

#[test]
fn oxide_tokens_can_be_refused() {
    let denying = context("");
    let principal = principal(&denying);
    let request = oxide("https://silo.example/", 60);
    assert_bad_request(
        refused(exchange(&denying, &principal, &request)),
        "A policy failure occurred",
    );

    let context = context(ALLOW_ALL);
    let request = oxide("https://silo.example/", 0);
    assert_bad_request(
        refused(exchange(&context, &principal, &request)),
        "Failed to generate token: Tokens with no expiration are not allowed",
    );
    let request = oxide("https://other.example/", 60);
    assert_bad_request(
        refused(exchange(&context, &principal, &request)),
        "Failed to generate token: The silo https://other.example/ is not configured in this \
         instance of oidcx",
    );
}

#[test]
fn granted_github_tokens_are_asked_for() {
    let context = context(ALLOW_PUBLIC);
    let principal = principal(&context);
    let request = github(&["acme/a", "acme/b"], &["contents:read"]);
    let step = pending(exchange(&context, &principal, &request));
    assert_eq!(step.repository(), "acme/a");
    let step = pending(step.answer(Ok("public".to_string()), NOW));
    assert_eq!(step.repository(), "acme/b");
    match step.answer(Ok("public".to_string()), NOW) {
        ExchangeStep::GitHub(grant, lookup) => {
            assert!(grant.skipped.is_empty());
            assert_eq!(lookup.url(), "https://api.github.com/orgs/acme/installation");
            // What is asked for is what was granted.
            let second = match lookup.answer(Ok(1)) {
                Ok(GitHubStep::Lookup(second)) => second,
                other => panic!("expected another lookup, got: {other:?}"),
            };
            let token = match second.answer(Ok(2)) {
                Ok(GitHubStep::AccessToken(token)) => token,
                other => panic!("expected the token request, got: {other:?}"),
            };
            assert_eq!(token.scope().namespace(), "acme");
            assert_eq!(token.scope().repository_names(), &["a".to_string(), "b".to_string()]);
            assert_eq!(token.scope().permissions().len(), 1);
            assert_eq!(token.scope().permissions().get("contents"), Some(&"read".to_string()));
        }
        _ => panic!("GitHub is not asked"),
    }
}

#[test]
fn policy_failures_all_look_alike() {
    let context = context(ALLOW_PUBLIC);
    let principal = principal(&context);

    // Nothing is asked for.
    let empty = github(&[], &["contents:read"]);
    let failures = vec![
        refused(exchange(&context, &principal, &empty)),
        // The repository cannot be seen.
        refused(
            pending(exchange(&context, &principal, &github(&["acme/a"], &["contents:read"])))
                .answer(Err(GitHubTokenError::Http("gone".to_string())), NOW),
        ),
        // The policy does not allow it.
        refused(
            pending(exchange(&context, &principal, &github(&["acme/a"], &["contents:read"])))
                .answer(Ok("private".to_string()), NOW),
        ),
        // The schema does not know it.
        refused(
            pending(exchange(&context, &principal, &github(&["acme/a"], &["admin:write"])))
                .answer(Ok("public".to_string()), NOW),
        ),
    ];
    for failure in failures {
        assert_bad_request(failure, "A policy failure occurred");
    }
}

#[test]
fn github_tokens_can_be_refused_after_the_policy() {
    let context = context(ALLOW_ALL);
    let principal = principal(&context);
    let request = github(&["nowhere"], &["contents:read"]);
    let step = pending(exchange(&context, &principal, &request));
    assert_bad_request(
        refused(step.answer(Ok("public".to_string()), NOW)),
        "Failed to generate token: Repository name nowhere is not in the `org/name` format",
    );
}

#[test]
fn small_app_keys_end_the_exchange() {
    let context = build(&small_key().pem, ALLOW_ALL).ok().unwrap();
    let principal = principal(&context);
    let request = github(&["acme/a"], &["contents:read"]);
    let step = pending(exchange(&context, &principal, &request));
    assert_internal(refused(step.answer(Ok("public".to_string()), NOW)));
}

#[test]
fn unsafe_errors_are_not_told() {
    assert_internal(Refusal::Oxide(OxideError::ResolveParam("secret".to_string())).failure());
    assert_internal(Refusal::Oxide(OxideError::AuthFailed("a".to_string(), "b".to_string())).failure());
    assert_bad_request(
        Refusal::Oxide(OxideError::NotConfigured).failure(),
        "Failed to generate token: The Oxide token provider is not configured",
    );
    assert_internal(Refusal::GitHub(GitHubTokenError::Http("secret".to_string())).failure());
    assert_internal(Refusal::GitHub(GitHubTokenError::ResolveParam("secret".to_string())).failure());
    assert_bad_request(
        Refusal::GitHub(GitHubTokenError::AppNotInstalled("acme".to_string())).failure(),
        "Failed to generate token: oidcx's GitHub App is not installed on acme",
    );
}

#[test]
fn providers_stand_under_their_issuer() {
    let mut providers = Providers::new();
    assert!(providers.get(ISSUER).is_none());
    providers.register(&provider(), config(ISSUER));
    providers.register(&provider(), config("https://other.example"));
    assert_eq!(providers.get(ISSUER).unwrap().config.issuer, ISSUER);
    let other = providers.get("https://other.example").unwrap();
    assert_eq!(other.config.issuer, "https://other.example");
    assert_eq!(other.build_principal, PrincipalBuilder::WorkflowRun);
    assert!(providers.get("https://example.com/config").is_none());
}

#[test]
fn the_policy_is_read_from_its_files() {
    let gone = |path: &str| PolicyFile { path: path.to_string(), content: Err("gone".to_string()) };
    let read = |schema: PolicyFile, policies: PolicyFile| read_policy(schema, policies).err();
    assert!(read(file("s", SCHEMA), file("p", ALLOW_ALL)).is_none());
    assert!(matches!(
        read(gone("s"), gone("p")),
        Some(PolicyError::ReadFile(ref path, ref fault)) if path == "s" && fault == "gone"
    ));
    assert!(matches!(read(file("s", "entity"), gone("p")), Some(PolicyError::InitSchema(_))));
    assert!(matches!(
        read(file("s", SCHEMA), gone("p")),
        Some(PolicyError::ReadFile(ref path, _)) if path == "p"
    ));
    assert!(matches!(
        read(file("s", SCHEMA), file("p", "permit")),
        Some(PolicyError::InitPolicy(_))
    ));
}

#[test]
fn a_context_needs_all_its_parts() {
    let made = |settings: Settings, schema: &str, clients: Result<Vec<(Url, Result<(), String>)>, OxideError>| {
        Context::new(settings, Providers::new(), file("s", schema), file("p", ""), clients).err()
    };
    let mut keyless = settings(&signing_key().pem);
    keyless.github.as_mut().unwrap().private_key = Err("gone".to_string());
    // The app comes first, the policy second, the silos last.
    let err = made(keyless, "entity", Err(OxideError::NotConfigured)).unwrap();
    assert!(matches!(err, ContextBuildError::GitHubTokens(GitHubTokenError::ResolveParam(_))));
    assert_eq!(err.message(), "Failed to initialize the GitHub token store");
    let err = made(settings(&signing_key().pem), "entity", Err(OxideError::NotConfigured)).unwrap();
    assert!(matches!(err, ContextBuildError::Policy(PolicyError::InitSchema(_))));
    assert_eq!(err.message(), "Failed to initialize the Cedar policy engine");
    let fault = OxideError::ResolveParam("gone".to_string());
    let err = made(settings(&signing_key().pem), SCHEMA, Err(fault)).unwrap();
    assert!(matches!(err, ContextBuildError::OxideTokens(OxideError::ResolveParam(_))));
    assert_eq!(err.message(), "Failed to initialize the Oxide token store");
    let clients = vec![(Url::parse("https://a.example").unwrap(), Err("denied".to_string()))];
    let err = made(settings(&signing_key().pem), SCHEMA, Ok(clients)).unwrap();
    assert!(matches!(err, ContextBuildError::OxideTokens(OxideError::AuthFailed(_, _))));
    assert!(made(settings(&signing_key().pem), SCHEMA, Ok(vec![])).is_none());

    assert_eq!(
        ContextBuildError::ClientConstruction("x".to_string()).message(),
        "Failed to construct client"
    );
    assert_eq!(
        ContextBuildError::Oidc(OidcError::ValidationFailed).message(),
        "Encountered an error configuring OIDC providers"
    );
}

#[test]
fn a_body_carries_the_request() {
    let body = ExchangeBody {
        caller_identity: sign(&claims(ISSUER)),
        request: oxide("https://silo.example", 60),
    };
    let context = context(ALLOW_ALL);
    let principal = match authenticate(&context, &body.caller_identity) {
        Ok(principal) => principal,
        _ => panic!("not accepted"),
    };
    assert!(matches!(exchange(&context, &principal, &body.request), ExchangeStep::Oxide(_, _)));
}

#[test]
fn principal_builder_produces_correct_entity_type() {
    let config = ProviderConfig::GitHubActions { url: "https://example.com".to_string() };
    let builder = config.principal_builder();
    let claims = Claims::from_entries(
        [
            ("jti", "test-id"),
            ("iss", "https://token.actions.githubusercontent.com"),
            ("repository", "oxidecomputer/test"),
            ("repository_owner", "oxidecomputer"),
            ("repository_visibility", "public"),
            ("event_name", "push"),
        ]
        .iter()
        .map(|(name, value)| (name.to_string(), ClaimValue::String(value.to_string())))
        .collect(),
    );
    let entity = builder.build(&claims).unwrap();
    assert_eq!(entity.kind(), "Oidcx::WorkflowRun");
    assert_eq!(config.url(), "https://example.com");
}
