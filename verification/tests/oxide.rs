//! Oxide tokens.

use oidcx::settings::{
    default_allow_tokens_without_expiry, default_max_duration, Settings, SettingsOxide,
};
use oidcx::token::oxide::{
    configured_silos, validate_duration, DeviceAccessTokenError, DeviceAccessTokenGrant,
    DeviceAuthReply, DeviceAuthorizationResponse, OxideError, OxideTokenRequest, OxideTokens,
    CLIENT_ID, GRANT_TYPE,
};
use oidcx::util::{ByteStreamError, Url};

const MAX: u32 = 3600;

type Manifest = Result<Vec<(String, Result<String, String>)>, String>;

fn settings(silos: Option<Manifest>, without_expiry: bool) -> Settings {
    Settings {
        audience: String::new(),
        policy_path: String::new(),
        log_directory: None,
        port: None,
        providers: vec![],
        oxide: silos.map(|silos| SettingsOxide {
            max_duration: MAX,
            allow_tokens_without_expiry: without_expiry,
            silos,
        }),
        github: None,
        params_base_path: None,
    }
}

fn url(text: &str) -> Url {
    Url::parse(text).unwrap()
}

fn request(silo: &str, duration: u32) -> OxideTokenRequest {
    OxideTokenRequest { silo: url(silo), duration }
}

fn tokens(without_expiry: bool) -> OxideTokens<&'static str> {
    let settings = settings(Some(Ok(vec![])), without_expiry);
    let clients = vec![(url("https://a.example"), Ok("a")), (url("https://b.example"), Ok("b"))];
    OxideTokens::new(&settings, clients).unwrap()
}

#[test]
fn rejects_zero_duration_when_expiry_required() {
    let err = validate_duration(0, false, MAX).unwrap_err();
    assert!(matches!(err, OxideError::NoExpirationDisallowed), "got: {err:?}");
}

#[test]
fn allows_zero_duration_when_configured() {
    validate_duration(0, true, MAX)
        .expect("a zero duration must be allowed when the instance permits it");
}

#[test]
fn allows_normal_duration() {
    validate_duration(300, false, MAX).expect("an in-bounds duration must be allowed");
}

#[test]
fn allows_duration_at_max_boundary() {
    validate_duration(MAX, false, MAX).expect("a duration equal to the max must be allowed");
}

#[test]
fn rejects_duration_exceeding_max() {
    let err = validate_duration(MAX + 1, false, MAX).unwrap_err();
    assert!(matches!(err, OxideError::TooLongExpiration(m) if m == MAX), "got: {err:?}");
}

#[test]
fn rejects_overlong_duration_even_when_no_expiry_allowed() {
    // allow_tokens_without_expiry only relaxes the zero case; it must not permit a duration above
    // the maximum.
    let err = validate_duration(MAX + 1, true, MAX).unwrap_err();
    assert!(matches!(err, OxideError::TooLongExpiration(m) if m == MAX), "got: {err:?}");
}

#[test]
fn duration_errors_are_safe_to_expose() {
    assert!(OxideError::NoExpirationDisallowed.safe_to_expose());
    assert!(OxideError::TooLongExpiration(MAX).safe_to_expose());
}

#[test]
fn defaults_are_an_hour_and_no_endless_tokens() {
    assert_eq!(default_max_duration(), 3600);
    assert!(!default_allow_tokens_without_expiry());
}

#[test]
fn every_error_has_its_words_and_its_exposure() {
    let told = |error: OxideError| (error.message(), error.safe_to_expose());
    let safe = |text: &str| (text.to_string(), true);
    let kept = |text: &str| (text.to_string(), false);
    assert_eq!(
        told(OxideError::ByteStream(ByteStreamError::FailedToRead)),
        kept("Error reading response")
    );
    assert_eq!(
        told(OxideError::DeviceAuthRequest(DeviceAccessTokenError {
            description: "no".to_string()
        })),
        kept("Failed to issue device access token request")
    );
    assert_eq!(
        told(OxideError::ResolveParam("x".into())),
        kept("Failed to resolve the silo manifest or a silo credential")
    );
    assert_eq!(
        told(OxideError::SiloNotConfigured("https://a/".into())),
        safe("The silo https://a/ is not configured in this instance of oidcx")
    );
    assert_eq!(
        told(OxideError::InvalidSiloUrl("a".into(), "bad".into())),
        kept("The configured silo url a is not a valid url: bad")
    );
    assert_eq!(
        told(OxideError::AuthFailed("https://a/".into(), "bad".into())),
        kept("Failed to authenticate with silo https://a/")
    );
    assert_eq!(told(OxideError::Oxide("x".into())), kept("Remote service error"));
    assert_eq!(told(OxideError::OxideByteError("x".into())), kept("Remote service error"));
    assert_eq!(
        told(OxideError::NotConfigured),
        safe("The Oxide token provider is not configured")
    );
    assert_eq!(
        told(OxideError::NoExpirationDisallowed),
        safe("Tokens with no expiration are not allowed")
    );
    assert_eq!(
        told(OxideError::TooLongExpiration(86400)),
        safe("The duration of this token is more than the maximum of 86400 seconds")
    );
}

#[test]
fn silos_stand_under_their_canonical_url() {
    let manifest = vec![
        ("HTTPS://Silo.Example:443".to_string(), Ok("secret".to_string())),
        ("https://other.example/path".to_string(), Ok("other".to_string())),
    ];
    let silos = configured_silos(&settings(Some(Ok(manifest)), false)).unwrap();
    assert_eq!(silos.len(), 2);
    assert_eq!(silos[0].url.as_str(), "https://silo.example/");
    assert_eq!(silos[0].credential, "secret");
    assert_eq!(silos[1].url.as_str(), "https://other.example/path");
    assert_eq!(silos[1].credential, "other");
    assert!(configured_silos(&settings(None, false)).unwrap().is_empty());
}

#[test]
fn the_first_unusable_silo_is_told() {
    let read = |manifest: Manifest| configured_silos(&settings(Some(manifest), false)).unwrap_err();
    let err = read(Err("gone".to_string()));
    assert!(matches!(err, OxideError::ResolveParam(ref f) if f == "gone"));

    let good = || ("https://a.example".to_string(), Ok("x".to_string()));
    let unreadable = || ("not a url".to_string(), Err("locked".to_string()));
    let misnamed = || ("not a url".to_string(), Ok("x".to_string()));
    let err = read(Ok(vec![good(), unreadable(), misnamed()]));
    assert!(matches!(err, OxideError::ResolveParam(ref f) if f == "locked"));
    let err = read(Ok(vec![good(), misnamed(), unreadable()]));
    assert!(
        matches!(err, OxideError::InvalidSiloUrl(ref u, ref f)
            if u == "not a url" && f == "relative URL without a base"),
        "got: {err:?}"
    );
}

#[test]
fn a_client_that_cannot_be_made_is_told() {
    let settings = settings(Some(Ok(vec![])), false);
    let clients: Vec<(Url, Result<(), String>)> = vec![
        (url("https://a.example"), Ok(())),
        (url("https://B.example"), Err("denied".to_string())),
    ];
    let err = OxideTokens::new(&settings, clients).err().unwrap();
    assert!(
        matches!(err, OxideError::AuthFailed(ref s, ref f)
            if s == "https://b.example/" && f == "denied"),
        "got: {err:?}"
    );
}

#[test]
fn unconfigured_tokens_are_not_issued() {
    let tokens: OxideTokens<()> = OxideTokens::new(&settings(None, true), vec![]).unwrap();
    let err = tokens.get(&request("https://a.example", 0)).err().unwrap();
    assert!(matches!(err, OxideError::NotConfigured));
}

#[test]
fn lifetimes_come_before_silos() {
    let tokens = tokens(false);
    let err = tokens.get(&request("https://unknown.example", 0)).err().unwrap();
    assert!(matches!(err, OxideError::NoExpirationDisallowed));
    let err = tokens.get(&request("https://unknown.example", MAX + 1)).err().unwrap();
    assert!(matches!(err, OxideError::TooLongExpiration(MAX)));
    let err = tokens.get(&request("https://unknown.example", MAX)).err().unwrap();
    assert!(matches!(err, OxideError::SiloNotConfigured(ref s) if s == "https://unknown.example/"));
}

#[test]
fn requests_find_their_silo_by_its_canonical_url() {
    let tokens = tokens(true);
    for silo in ["https://b.example", "https://b.example/", "HTTPS://B.EXAMPLE", "https://b.example:443"] {
        let started = tokens.get(&request(silo, 60)).ok().unwrap();
        assert_eq!(*started.client(), "b");
        assert_eq!(started.ttl_seconds(), Some(60));
    }
    assert_eq!(tokens.get(&request("https://a.example", 0)).ok().unwrap().ttl_seconds(), None);
}

#[test]
fn the_later_of_two_clients_counts() {
    let settings = settings(Some(Ok(vec![])), false);
    let clients = vec![(url("https://a.example"), Ok(1)), (url("https://a.example/"), Ok(2))];
    let tokens = OxideTokens::new(&settings, clients).unwrap();
    assert_eq!(*tokens.get(&request("https://a.example", 1)).ok().unwrap().client(), 2);
}

fn response() -> DeviceAuthorizationResponse {
    DeviceAuthorizationResponse { device_code: "device".to_string(), user_code: "user".to_string() }
}

#[test]
fn the_device_flow_ends_in_a_token() {
    let tokens = tokens(false);
    let started = tokens.get(&request("https://a.example", 60)).ok().unwrap();
    let confirmation = started.answer(DeviceAuthReply::Accepted(Ok(response()))).ok().unwrap();
    assert_eq!(*confirmation.client(), "a");
    assert_eq!(confirmation.user_code(), "user");
    let query = confirmation.answer(Ok(())).ok().unwrap();
    assert_eq!(*query.client(), "a");
    assert_eq!(query.device_code(), "device");
    let grant = DeviceAccessTokenGrant { access_token: "secret".to_string() };
    assert_eq!(query.answer(Ok(Ok(grant))).unwrap().access_token, "secret");
    assert_eq!(CLIENT_ID, "730ae5f1-a728-4a5d-9a06-cf09b653cca6");
    assert_eq!(GRANT_TYPE, "urn:ietf:params:oauth:grant-type:device_code");
}

#[test]
fn the_device_flow_can_fail_at_its_start() {
    let tokens = tokens(false);
    let fail = |reply: DeviceAuthReply| {
        let started = tokens.get(&request("https://a.example", 60)).ok().unwrap();
        started.answer(reply).err().unwrap()
    };
    assert!(matches!(
        fail(DeviceAuthReply::Accepted(Err(ByteStreamError::FailedToParse))),
        OxideError::ByteStream(ByteStreamError::FailedToParse)
    ));
    let refusal = DeviceAccessTokenError { description: "no".to_string() };
    assert!(matches!(
        fail(DeviceAuthReply::Refused(Ok(refusal))),
        OxideError::DeviceAuthRequest(ref e) if e.description == "no"
    ));
    assert!(matches!(
        fail(DeviceAuthReply::Refused(Err(ByteStreamError::FailedToRead))),
        OxideError::ByteStream(ByteStreamError::FailedToRead)
    ));
    assert!(matches!(
        fail(DeviceAuthReply::Failed("down".to_string())),
        OxideError::OxideByteError(ref f) if f == "down"
    ));
}

#[test]
fn the_device_flow_can_fail_later() {
    let tokens = tokens(false);
    let confirm = || {
        let started = tokens.get(&request("https://a.example", 60)).ok().unwrap();
        started.answer(DeviceAuthReply::Accepted(Ok(response()))).ok().unwrap()
    };
    let err = confirm().answer(Err("down".to_string())).err().unwrap();
    assert!(matches!(err, OxideError::Oxide(ref f) if f == "down"));
    let query = || confirm().answer(Ok(())).ok().unwrap();
    let err = query().answer(Err("down".to_string())).unwrap_err();
    assert!(matches!(err, OxideError::OxideByteError(ref f) if f == "down"));
    let err = query().answer(Ok(Err(ByteStreamError::FailedToParse))).unwrap_err();
    assert!(matches!(err, OxideError::ByteStream(ByteStreamError::FailedToParse)));
}
