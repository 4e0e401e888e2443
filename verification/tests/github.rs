//! GitHub tokens.

use base64::Engine;
use oidcx::endpoints::Token;
use oidcx::http::{ErrorBody, Reply, StatusCode};
use oidcx::settings::{Settings, SettingsGitHubApp};
use oidcx::token::github::{
    github_request, Account, GitHubStep, GitHubTokenError, GitHubTokenRequest, GitHubTokens,
    InstallationLookup, ParsedGitHubRequest, RepositoryRequest, USER_AGENT,
};
use oidcx::visibility::{Timestamp, VisibilityCache, VisibilityStep};

const NOW: u64 = 1_700_000_000;

/// An RSA key pair for these tests. Its primes are the Mersenne primes of the exponents `a` and `b`,
/// which everybody knows, so that it protects nothing.
struct TestKey {
    pem: String,
    /// The modulus in base64url.
    n: String,
}

/// The number with these bits, lowest byte first.
fn number(bits: impl Iterator<Item = usize>) -> Vec<u8> {
    let mut bytes = vec![0; 288];
    for bit in bits {
        bytes[bit / 8] |= 1 << (bit % 8);
    }
    bytes
}

fn product(x: &[u8], y: &[u8]) -> Vec<u8> {
    let mut bytes = vec![0; x.len() + y.len()];
    for (i, a) in x.iter().enumerate() {
        let mut carry = 0;
        for (j, b) in y.iter().enumerate() {
            carry += u32::from(bytes[i + j]) + u32::from(*a) * u32::from(*b);
            bytes[i + j] = (carry % 256) as u8;
            carry /= 256;
        }
        bytes[i + y.len()] = carry as u8;
    }
    bytes
}

/// The quotient and the remainder of a number and a small one.
fn divide(x: &[u8], divisor: u64) -> (Vec<u8>, u64) {
    let mut quotient = x.to_vec();
    let mut rest = 0;
    for byte in quotient.iter_mut().rev() {
        rest = rest * 256 + u64::from(*byte);
        *byte = (rest / divisor) as u8;
        rest %= divisor;
    }
    (quotient, rest)
}

/// The inverse of a small `e` modulo `m`: the smallest `k * m + 1` that `e` divides, divided by it.
fn inverse(e: u64, m: &[u8]) -> Vec<u8> {
    let rest = divide(m, e).1;
    let k = (1..e).find(|k| (k * rest + 1) % e == 0).expect("there is no inverse");
    let mut multiple = product(m, &k.to_le_bytes());
    // `m` is even and so is its multiple: adding one carries nothing.
    multiple[0] += 1;
    divide(&multiple, e).0
}

fn der(tag: u8, content: &[u8]) -> Vec<u8> {
    let mut bytes = vec![tag, 0x82, (content.len() / 256) as u8, (content.len() % 256) as u8];
    if content.len() < 128 {
        bytes = vec![tag, content.len() as u8];
    } else if content.len() < 256 {
        bytes = vec![tag, 0x81, content.len() as u8];
    }
    bytes.extend_from_slice(content);
    bytes
}

/// The bytes of a number, highest first and without leading zeros.
fn big_endian(x: &[u8]) -> Vec<u8> {
    x.iter().rev().copied().skip_while(|byte| *byte == 0).collect()
}

fn der_integer(x: &[u8]) -> Vec<u8> {
    let mut bytes = big_endian(x);
    if bytes.first().is_none_or(|byte| *byte >= 128) {
        bytes.insert(0, 0);
    }
    der(2, &bytes)
}

fn test_key(a: usize, b: usize) -> TestKey {
    let e: u64 = 65537;
    let (p, q) = (number(0..a), number(0..b));
    let (p_1, q_1) = (number(1..a), number(1..b));
    let n = product(&p, &q);
    // Modulo `p` the powers of two repeat after `a`, and with `b * t = 1` modulo `a` the inverse of
    // `q` is the sum of the first `t` powers of `2^b`.
    let t = (1..a).find(|t| b * t % a == 1).expect("the exponents are prime");
    let coefficient = number((0..t).map(|i| b * i % a));
    let integers = [
        vec![],
        n.clone(),
        e.to_le_bytes().to_vec(),
        inverse(e, &product(&p_1, &q_1)),
        p,
        q,
        inverse(e, &p_1),
        inverse(e, &q_1),
        coefficient,
    ];
    let content: Vec<u8> = integers.iter().flat_map(|integer| der_integer(integer)).collect();
    let body = base64::engine::general_purpose::STANDARD.encode(der(0x30, &content));
    let label = "RSA PRIVATE KEY";
    let pem = format!("-----BEGIN {label}-----\n{body}\n-----END {label}-----\n");
    TestKey { pem, n: base64::engine::general_purpose::URL_SAFE_NO_PAD.encode(big_endian(&n)) }
}

fn app_key() -> String {
    test_key(2281, 2203).pem
}

/// No signature is made with so small a key.
fn small_key() -> String {
    test_key(127, 107).pem
}

fn request(repositories: &[&str], permissions: &[&str]) -> GitHubTokenRequest {
    GitHubTokenRequest {
        repositories: repositories.iter().map(|s| s.to_string()).collect(),
        permissions: permissions.iter().map(|s| s.to_string()).collect(),
    }
}

fn settings(private_key: Option<Result<String, String>>) -> Settings {
    Settings {
        audience: String::new(),
        policy_path: String::new(),
        log_directory: None,
        port: None,
        providers: vec![],
        oxide: None,
        github: private_key.map(|private_key| SettingsGitHubApp {
            client_id: "Iv2AAAA".to_string(),
            private_key,
        }),
        params_base_path: None,
    }
}

fn app() -> GitHubTokens {
    GitHubTokens::new(&settings(Some(Ok(app_key())))).unwrap()
}

fn lookup() -> InstallationLookup {
    let request = request(&["oxidecomputer/hubris"], &["contents:read"]);
    app().get(&request, NOW).unwrap()
}

fn failure(status: u16) -> GitHubTokenError {
    GitHubTokenError::GitHubError(
        "https://api.github.com/x".to_string(),
        StatusCode::from_u16(status).unwrap(),
        "no".to_string(),
    )
}

#[test]
fn parses_single_repository() {
    let parsed =
        ParsedGitHubRequest::parse(&request(&["oxidecomputer/hubris"], &["contents:read"]))
            .unwrap();
    assert_eq!(parsed.namespace(), "oxidecomputer");
    assert_eq!(parsed.repository_names(), &["hubris".to_string()]);
}

#[test]
fn parses_multiple_repositories_in_same_namespace() {
    let parsed = ParsedGitHubRequest::parse(&request(
        &["oxidecomputer/hubris", "oxidecomputer/bootleby"],
        &["contents:read"],
    ))
    .unwrap();
    assert_eq!(parsed.namespace(), "oxidecomputer");
    assert_eq!(parsed.repository_names(), &["hubris".to_string(), "bootleby".to_string()]);
}

#[test]
fn rejects_repositories_from_different_namespaces() {
    let err = ParsedGitHubRequest::parse(&request(
        &["oxidecomputer/hubris", "someoneelse/repo"],
        &["contents:read"],
    ))
    .unwrap_err();
    assert!(matches!(err, GitHubTokenError::DifferentOrgs), "got: {err:?}");
}

#[test]
fn rejects_repository_without_namespace() {
    let err = ParsedGitHubRequest::parse(&request(&["justaname"], &["contents:read"])).unwrap_err();
    assert!(
        matches!(err, GitHubTokenError::NotAGitHubRepository(ref r) if r == "justaname"),
        "got: {err:?}"
    );
}

#[test]
fn rejects_repository_with_extra_slashes() {
    // A repo with more than one slash must be rejected, not silently reinterpreted, so the
    // namespace can't be confused.
    let err =
        ParsedGitHubRequest::parse(&request(&["oxidecomputer/hubris/extra"], &["contents:read"]))
            .unwrap_err();
    assert!(
        matches!(err, GitHubTokenError::NotAGitHubRepository(ref r) if r == "oxidecomputer/hubris/extra"),
        "got: {err:?}"
    );
}

#[test]
fn rejects_empty_repositories() {
    let err = ParsedGitHubRequest::parse(&request(&[], &["contents:read"])).unwrap_err();
    assert!(matches!(err, GitHubTokenError::NoRepositories), "got: {err:?}");
}

#[test]
fn parses_permissions() {
    let parsed = ParsedGitHubRequest::parse(&request(
        &["oxidecomputer/hubris"],
        &["contents:read", "pull_requests:write"],
    ))
    .unwrap();
    assert_eq!(parsed.permissions().get("contents"), Some(&"read".to_string()));
    assert_eq!(parsed.permissions().get("pull_requests"), Some(&"write".to_string()));
    assert_eq!(parsed.permissions().len(), 2);
}

#[test]
fn rejects_permission_without_level() {
    let err = ParsedGitHubRequest::parse(&request(&["oxidecomputer/hubris"], &["contents"]))
        .unwrap_err();
    assert!(
        matches!(err, GitHubTokenError::NotAPermission(ref p) if p == "contents"),
        "got: {err:?}"
    );
}

#[test]
fn rejects_permission_with_slash_in_name() {
    // A slash in the permission name could let a crafted permission masquerade as a repository
    // path; it must be rejected.
    let err =
        ParsedGitHubRequest::parse(&request(&["oxidecomputer/hubris"], &["org/contents:read"]))
            .unwrap_err();
    assert!(
        matches!(err, GitHubTokenError::NotAPermission(ref p) if p == "org/contents:read"),
        "got: {err:?}"
    );
}

#[test]
fn rejects_duplicate_permission() {
    let err = ParsedGitHubRequest::parse(&request(
        &["oxidecomputer/hubris"],
        &["contents:read", "contents:write"],
    ))
    .unwrap_err();
    assert!(
        matches!(err, GitHubTokenError::DuplicatePermission(ref p) if p == "contents"),
        "got: {err:?}"
    );
}

#[test]
fn permission_level_keeps_extra_colons() {
    // Only the first colon splits, so a level may itself contain colons. This is benign (GitHub
    // would reject an invalid level, and the policy layer rejects unknown action strings), but the
    // behavior is pinned so it can't change unnoticed.
    let parsed =
        ParsedGitHubRequest::parse(&request(&["oxidecomputer/hubris"], &["contents:read:extra"]))
            .unwrap();
    assert_eq!(parsed.permissions().get("contents"), Some(&"read:extra".to_string()));
}

#[test]
fn empty_permissions_parse_to_empty_map() {
    // Parsing itself permits empty permissions (the policy layer guards against empty requests);
    // the map is simply empty.
    let parsed = ParsedGitHubRequest::parse(&request(&["oxidecomputer/hubris"], &[])).unwrap();
    assert!(parsed.permissions().is_empty());
}

#[test]
fn private_key_errors_are_not_exposed() {
    let err = GitHubTokenError::ResolveParam("/secret/key.pem: boom".to_string());
    assert!(
        !err.safe_to_expose(),
        "private key path/IO errors must not be exposed to clients"
    );
    assert_eq!(err.message(), "Failed to resolve the GitHub App private key");
}

#[test]
fn request_validation_errors_are_safe_to_expose() {
    assert!(GitHubTokenError::DifferentOrgs.safe_to_expose());
    assert!(GitHubTokenError::NoRepositories.safe_to_expose());
    assert!(GitHubTokenError::NotAGitHubRepository("x".into()).safe_to_expose());
    assert!(GitHubTokenError::NotAPermission("x".into()).safe_to_expose());
}

#[test]
fn the_first_fault_of_a_request_counts() {
    let parse = |repositories: &[&str], permissions: &[&str]| {
        ParsedGitHubRequest::parse(&request(repositories, permissions)).unwrap_err()
    };
    // Repositories come before permissions.
    assert!(matches!(parse(&["a"], &["b"]), GitHubTokenError::NotAGitHubRepository(_)));
    assert!(matches!(parse(&["a/b", "c/d"], &["e"]), GitHubTokenError::DifferentOrgs));
    assert!(matches!(parse(&[], &["e"]), GitHubTokenError::NoRepositories));
    // The earlier of two comes first.
    assert!(matches!(parse(&["a/b", "c/d", "e"], &[]), GitHubTokenError::DifferentOrgs));
    assert!(matches!(parse(&["a/b", "e", "c/d"], &[]), GitHubTokenError::NotAGitHubRepository(_)));
    assert!(matches!(
        parse(&["a/b"], &["x:1", "x:2", "y"]),
        GitHubTokenError::DuplicatePermission(_)
    ));
    assert!(matches!(parse(&["a/b"], &["x:1", "y", "x:2"]), GitHubTokenError::NotAPermission(_)));
}

#[test]
fn empty_parts_are_parts() {
    let parsed = ParsedGitHubRequest::parse(&request(&["/", "/x"], &[":", "a:"])).unwrap();
    assert_eq!(parsed.namespace(), "");
    assert_eq!(parsed.repository_names(), &["".to_string(), "x".to_string()]);
    assert_eq!(parsed.permissions().get(""), Some(&"".to_string()));
    assert_eq!(parsed.permissions().get("a"), Some(&"".to_string()));
}

#[test]
fn parts_put_together_are_the_request() {
    let repositories = ["örg/ré po", "örg/b"];
    let permissions = ["contents:read", "actions:a:b/c"];
    let parsed = ParsedGitHubRequest::parse(&request(&repositories, &permissions)).unwrap();
    for (repository, name) in repositories.iter().zip(parsed.repository_names()) {
        assert_eq!(*repository, format!("{}/{name}", parsed.namespace()));
    }
    let mut together: Vec<String> = parsed
        .permissions()
        .entries()
        .iter()
        .map(|(name, level)| format!("{name}:{level}"))
        .collect();
    together.sort();
    assert_eq!(together, vec!["actions:a:b/c".to_string(), "contents:read".to_string()]);
}

#[test]
fn every_error_has_its_words() {
    assert_eq!(
        GitHubTokenError::NoCredentials.message(),
        "GitHub credentials are not configured for this instance of oidcx"
    );
    assert_eq!(
        GitHubTokenError::NotAGitHubRepository("x".into()).message(),
        "Repository name x is not in the `org/name` format"
    );
    assert_eq!(
        GitHubTokenError::DifferentOrgs.message(),
        "The repositories requested for this token belong to different organizations"
    );
    assert_eq!(
        GitHubTokenError::NoRepositories.message(),
        "The requested token asked for access to no repositories"
    );
    assert_eq!(GitHubTokenError::Http("down".into()).message(), "HTTP error");
    assert_eq!(
        failure(404).message(),
        "Request to https://api.github.com/x failed with status 404 Not Found: no"
    );
    assert_eq!(
        GitHubTokenError::DuplicatePermission("contents".into()).message(),
        "The permission contents is requested multiple times"
    );
    assert_eq!(
        GitHubTokenError::NotAPermission("x".into()).message(),
        "The permission string x is not a valid permission"
    );
    assert_eq!(
        GitHubTokenError::AppNotInstalled("acme".into()).message(),
        "oidcx's GitHub App is not installed on acme"
    );
    assert!(!GitHubTokenError::Http("down".into()).safe_to_expose());
    assert!(failure(500).safe_to_expose());
    assert!(GitHubTokenError::NoCredentials.safe_to_expose());
    assert!(GitHubTokenError::AppNotInstalled("acme".into()).safe_to_expose());
    assert!(GitHubTokenError::DuplicatePermission("x".into()).safe_to_expose());
}

#[test]
fn tokens_need_a_usable_key() {
    let err = GitHubTokens::new(&settings(Some(Err("gone".to_string())))).err().unwrap();
    assert!(matches!(err, GitHubTokenError::ResolveParam(ref f) if f == "gone"));
    let err = GitHubTokens::new(&settings(Some(Ok("no key".to_string())))).err().unwrap();
    assert!(matches!(err, GitHubTokenError::LoadPrivateKey(_)));
    assert_eq!(err.message(), "Failed to load the GitHub App private key");
    assert!(!err.safe_to_expose());
}

#[test]
fn without_an_app_there_are_no_tokens() {
    let tokens = GitHubTokens::new(&settings(None)).unwrap();
    // The request is not even looked at.
    let err = tokens.get(&request(&[], &[]), NOW).unwrap_err();
    assert!(matches!(err, GitHubTokenError::NoCredentials));
    assert!(matches!(
        tokens.repository_visibility("a/b", NOW),
        Err(GitHubTokenError::NoCredentials)
    ));
}

#[test]
fn a_faulty_request_is_not_asked_for() {
    let err = app().get(&request(&["a"], &["b:c"]), NOW).unwrap_err();
    assert!(matches!(err, GitHubTokenError::NotAGitHubRepository(_)));
}

#[test]
fn the_app_shows_who_it_is() {
    let lookup = lookup();
    let data = jsonwebtoken::dangerous::insecure_decode::<serde_json::Value>(lookup.bearer()).unwrap();
    assert_eq!(format!("{:?}", data.header.alg), "RS256");
    assert_eq!(data.claims["iss"], serde_json::Value::from("Iv2AAAA"));
    assert_eq!(data.claims["iat"], serde_json::Value::from(NOW - 10));
    assert_eq!(data.claims["exp"], serde_json::Value::from(NOW + 300));
    assert_eq!(data.claims.as_object().unwrap().len(), 3);
}

#[test]
fn the_app_signs_with_its_key() {
    let key = test_key(2281, 2203);
    let mut checks = jsonwebtoken::Validation::new(jsonwebtoken::Algorithm::RS256);
    checks.validate_exp = false;
    let verifies = |n: &str| {
        let key = jsonwebtoken::DecodingKey::from_rsa_components(n, "AQAB").unwrap();
        jsonwebtoken::decode::<serde_json::Value>(lookup().bearer(), &key, &checks).is_ok()
    };
    assert!(verifies(&key.n));
    assert!(!verifies(&test_key(2281, 1279).n));
}

#[test]
fn unsound_keys_do_not_panic() {
    // The factors of this key are not prime.
    let unsound = GitHubTokens::new(&settings(Some(Ok(test_key(1152, 1151).pem)))).unwrap();
    match unsound.get(&request(&["a/b"], &["c:d"]), NOW) {
        Ok(lookup) => assert_eq!(lookup.url(), "https://api.github.com/orgs/a/installation"),
        Err(err) => assert!(matches!(err, GitHubTokenError::EncodeJwt(_)), "got: {err:?}"),
    }
}

#[test]
fn a_search_starts_with_a_signed_token() {
    let parsed = || ParsedGitHubRequest::parse(&request(&["a/b"], &["c:d"])).unwrap();
    let lookup = InstallationLookup::start(parsed(), Ok("signed".to_string())).unwrap();
    assert_eq!(lookup.bearer(), "signed");
    assert_eq!(lookup.url(), "https://api.github.com/orgs/a/installation");
    let fault = jsonwebtoken::errors::ErrorKind::InvalidKeyFormat.into();
    let err = InstallationLookup::start(parsed(), Err(fault)).unwrap_err();
    assert!(matches!(err, GitHubTokenError::EncodeJwt(_)), "got: {err:?}");
}

#[test]
fn small_keys_do_not_sign() {
    let small = GitHubTokens::new(&settings(Some(Ok(small_key())))).unwrap();
    let err = small.get(&request(&["a/b"], &["c:d"]), NOW).unwrap_err();
    assert!(matches!(err, GitHubTokenError::EncodeJwt(_)), "got: {err:?}");
    assert!(!err.safe_to_expose());
    let err = small.get(&request(&["a"], &["c:d"]), NOW).unwrap_err();
    assert!(matches!(err, GitHubTokenError::NotAGitHubRepository(_)));
}

#[test]
fn installations_are_looked_up_on_organizations_and_users() {
    let first = lookup();
    assert_eq!(first.url(), "https://api.github.com/orgs/oxidecomputer/installation");
    let bearer = first.bearer().to_string();
    let second = match first.answer(Ok(17)) {
        Ok(GitHubStep::Lookup(second)) => second,
        other => panic!("expected another lookup, got: {other:?}"),
    };
    assert_eq!(second.url(), "https://api.github.com/users/oxidecomputer/installation");
    assert_eq!(second.bearer(), bearer);

    // What the organization has stands where the user has nothing.
    let token = match second.answer(Err(failure(404))) {
        Ok(GitHubStep::AccessToken(token)) => token,
        other => panic!("expected the token request, got: {other:?}"),
    };
    assert_eq!(token.url(), "https://api.github.com/app/installations/17/access_tokens");
    assert_eq!(token.bearer(), bearer);
    assert_eq!(token.scope().repository_names(), &["hubris".to_string()]);
    assert_eq!(token.scope().permissions().get("contents"), Some(&"read".to_string()));
    assert_eq!(token.answer(Ok("secret".to_string())).unwrap().access_token, "secret");
}

fn second_lookup(organization: Result<u64, GitHubTokenError>) -> InstallationLookup {
    match lookup().answer(organization) {
        Ok(GitHubStep::Lookup(second)) => second,
        other => panic!("expected another lookup, got: {other:?}"),
    }
}

#[test]
fn an_installation_on_a_user_counts_first() {
    match second_lookup(Ok(17)).answer(Ok(10_000_000_000_000_000_000)) {
        Ok(GitHubStep::AccessToken(token)) => assert_eq!(
            token.url(),
            "https://api.github.com/app/installations/10000000000000000000/access_tokens"
        ),
        other => panic!("expected the token request, got: {other:?}"),
    }
    match second_lookup(Err(failure(404))).answer(Ok(0)) {
        Ok(GitHubStep::AccessToken(token)) => {
            assert_eq!(token.url(), "https://api.github.com/app/installations/0/access_tokens")
        }
        other => panic!("expected the token request, got: {other:?}"),
    }
}

#[test]
fn without_an_installation_there_is_no_token() {
    let err = second_lookup(Err(failure(404))).answer(Err(failure(404))).unwrap_err();
    assert!(matches!(err, GitHubTokenError::AppNotInstalled(ref n) if n == "oxidecomputer"));
}

#[test]
fn other_failures_end_the_lookup() {
    let err = lookup().answer(Err(failure(403))).unwrap_err();
    assert!(matches!(err, GitHubTokenError::GitHubError(_, ref s, _) if s.as_u16() == 403));
    let err = lookup().answer(Err(GitHubTokenError::Http("down".into()))).unwrap_err();
    assert!(matches!(err, GitHubTokenError::Http(_)));
    let err = second_lookup(Ok(17)).answer(Err(failure(500))).unwrap_err();
    assert!(matches!(err, GitHubTokenError::GitHubError(_, ref s, _) if s.as_u16() == 500));
}

#[test]
fn a_refused_token_request_is_told() {
    let token = match second_lookup(Ok(17)).answer(Ok(18)) {
        Ok(GitHubStep::AccessToken(token)) => token,
        other => panic!("expected the token request, got: {other:?}"),
    };
    let err = token.answer(Err(failure(422))).unwrap_err();
    assert!(matches!(err, GitHubTokenError::GitHubError(_, ref s, _) if s.as_u16() == 422));
}

#[test]
fn visibility_is_read_with_a_token_of_its_own() {
    let first = app().repository_visibility("oxidecomputer/hubris", NOW).unwrap();
    let second = match first.answer(Err(failure(404))) {
        Ok(GitHubStep::Lookup(second)) => second,
        other => panic!("expected another lookup, got: {other:?}"),
    };
    let token = match second.answer(Ok(3)) {
        Ok(GitHubStep::AccessToken(token)) => token,
        other => panic!("expected the token request, got: {other:?}"),
    };
    assert_eq!(token.scope().repository_names(), &["hubris".to_string()]);
    assert_eq!(token.scope().permissions().get("metadata"), Some(&"read".to_string()));
    assert_eq!(token.scope().permissions().len(), 1);

    let request = RepositoryRequest::new(
        "oxidecomputer/hubris",
        Token { access_token: "secret".to_string() },
    );
    assert_eq!(request.url, "https://api.github.com/repos/oxidecomputer/hubris");
    assert_eq!(request.bearer, "secret");
}

#[test]
fn github_is_asked_only_for_what_is_not_remembered() {
    let at = |seconds| Timestamp { seconds, nanos: 0 };
    let mut cache = VisibilityCache::new();
    match cache.find(&app(), "acme/a", at(0), NOW) {
        VisibilityStep::Ask(lookup) => {
            assert_eq!(lookup.url(), "https://api.github.com/orgs/acme/installation")
        }
        other => panic!("expected a lookup, got: {other:?}"),
    }
    // What GitHub does not tell is not remembered.
    let answer = cache.learn("acme/a", Err(failure(404)), at(0));
    assert!(matches!(answer, Err(GitHubTokenError::GitHubError(_, _, _))));
    assert!(matches!(cache.find(&app(), "acme/a", at(0), NOW), VisibilityStep::Ask(_)));

    assert_eq!(cache.learn("acme/a", Ok("public".to_string()), at(0)).unwrap(), "public");
    assert!(matches!(
        cache.find(&app(), "acme/a", at(3600), NOW),
        VisibilityStep::Known(ref v) if v == "public"
    ));
    assert!(matches!(cache.find(&app(), "acme/a", at(3601), NOW), VisibilityStep::Ask(_)));
    assert!(matches!(cache.find(&app(), "acme/b", at(0), NOW), VisibilityStep::Ask(_)));
}

#[test]
fn github_may_not_be_askable() {
    let at = Timestamp { seconds: 0, nanos: 0 };
    let mut cache = VisibilityCache::new();
    let none = GitHubTokens::new(&settings(None)).unwrap();
    assert!(matches!(
        cache.find(&none, "acme/a", at, NOW),
        VisibilityStep::Failed(GitHubTokenError::NoCredentials)
    ));
    assert!(matches!(
        cache.find(&app(), "acme", at, NOW),
        VisibilityStep::Failed(GitHubTokenError::NotAGitHubRepository(_))
    ));
    let small = GitHubTokens::new(&settings(Some(Ok(small_key())))).unwrap();
    assert!(matches!(
        cache.find(&small, "acme/a", at, NOW),
        VisibilityStep::Failed(GitHubTokenError::EncodeJwt(_))
    ));
    // What is remembered needs no app.
    cache.insert("acme/a", "public", at);
    assert!(matches!(cache.find(&none, "acme/a", at, NOW), VisibilityStep::Known(_)));
}

#[test]
fn replies_are_told_apart() {
    let not_found = || StatusCode::from_u16(404).unwrap();
    assert_eq!(github_request(Reply::Success(Ok(5))).unwrap(), 5);
    for reply in [
        Reply::<u64>::Unanswered("down".to_string()),
        Reply::Success(Err("down".to_string())),
        Reply::Failure {
            url: "u".to_string(),
            status: not_found(),
            body: Err("down".to_string()),
        },
    ] {
        let err = github_request(reply).unwrap_err();
        assert!(matches!(err, GitHubTokenError::Http(ref f) if f == "down"));
    }
    for (message, told) in [(Some("gone".to_string()), "gone"), (None, "<html>")] {
        let err = github_request(Reply::<u64>::Failure {
            url: "u".to_string(),
            status: not_found(),
            body: Ok(ErrorBody { text: "<html>".to_string(), message }),
        })
        .unwrap_err();
        assert_eq!(err.message(), format!("Request to u failed with status 404 Not Found: {told}"));
    }
}

#[test]
fn statuses_are_numbers_of_three_digits() {
    assert!(StatusCode::from_u16(99).is_none());
    assert!(StatusCode::from_u16(1000).is_none());
    assert!(!StatusCode::from_u16(199).unwrap().is_success());
    assert!(StatusCode::from_u16(200).unwrap().is_success());
    assert!(StatusCode::from_u16(299).unwrap().is_success());
    assert!(!StatusCode::from_u16(300).unwrap().is_success());
    assert!(StatusCode::from_u16(404).unwrap().is_not_found());
    assert!(!StatusCode::from_u16(410).unwrap().is_not_found());
    assert_eq!(StatusCode::from_u16(200).unwrap().text(), "200 OK");
    assert_eq!(StatusCode::from_u16(999).unwrap().text(), "999 <unknown status code>");
}

#[test]
fn accounts_and_the_service_have_names() {
    assert_eq!(Account::Organization.path(), "orgs");
    assert_eq!(Account::User.path(), "users");
    assert_eq!(USER_AGENT, "https://github.com/oxidecomputer/oidcx");
}
