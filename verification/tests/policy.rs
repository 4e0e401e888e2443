//! What the policy grants.

use oidcx::cedar::{Policies, PolicyEntity, PolicyFault, PolicySchema, Verdict};
use oidcx::endpoints::TokenRequest;
use oidcx::jwt::ClaimValue;
use oidcx::oidc::Claims;
use oidcx::policy::{
    check_entities, conclude, workflow_run_attributes, workflow_run_entity, Denial, Grant, Policy,
    PolicyError, Progress, RepositoryCheck,
};
use oidcx::token::github::{GitHubTokenError, GitHubTokenRequest};
use oidcx::token::oxide::OxideTokenRequest;
use oidcx::util::Url;

const SCHEMA: &str = "namespace Oidcx {
  entity WorkflowRun = {
    repository: String,
    repository_owner: String,
    repository_visibility: String,
    event_name: String,
    iss: String,
    environment?: String,
  };
  entity Repository = { name: String, visibility: String };
  entity Silo = { url: String };
  action \"contents:read\", \"contents:write\", \"pull_requests:write\" appliesTo {
    principal: [WorkflowRun],
    resource: [Repository],
  };
  action \"deploy\" appliesTo { principal: [WorkflowRun], resource: [Silo] };
}
";

const SILO: &str = "https://corp-staging.sys.r3.oxide-preview.com";

const ALLOW_ALL: &str = "permit(principal, action, resource);";

fn load_schema() -> PolicySchema {
    PolicySchema::parse(SCHEMA.to_string()).expect("failed to parse the schema")
}

fn claims(entries: &[(&str, &str)]) -> Claims {
    Claims::from_entries(
        entries
            .iter()
            .map(|(name, value)| (name.to_string(), ClaimValue::String(value.to_string())))
            .collect(),
    )
}

/// The typical claims of a GitHub Actions token.
fn github_actions_claims() -> Claims {
    claims(&[
        ("jti", "test-run-id"),
        ("iss", "https://token.actions.githubusercontent.com"),
        ("repository", "oxidecomputer/hubris"),
        ("repository_owner", "oxidecomputer"),
        ("repository_visibility", "public"),
        ("event_name", "push"),
    ])
}

fn environment_claims(environment: &str) -> Claims {
    claims(&[
        ("jti", "test-run-id"),
        ("iss", "https://token.actions.githubusercontent.com"),
        ("repository", "oxidecomputer/corp-services"),
        ("repository_owner", "oxidecomputer"),
        ("repository_visibility", "private"),
        ("event_name", "push"),
        ("environment", environment),
    ])
}

fn principal() -> PolicyEntity {
    workflow_run_entity(&github_actions_claims()).unwrap()
}

fn silo() -> PolicyEntity {
    Policy::silo_entity(&Url::parse(SILO).unwrap()).unwrap()
}

fn policy_with(cedar_src: &str) -> Policy {
    let policies = Policies::parse(cedar_src.to_string()).expect("failed to parse the policies");
    Policy::new(load_schema(), policies)
}

fn github(repositories: &[&str], permissions: &[&str]) -> TokenRequest {
    TokenRequest::GitHub(GitHubTokenRequest {
        repositories: repositories.iter().map(|s| s.to_string()).collect(),
        permissions: permissions.iter().map(|s| s.to_string()).collect(),
    })
}

fn oxide() -> TokenRequest {
    TokenRequest::Oxide(OxideTokenRequest { silo: Url::parse(SILO).unwrap(), duration: 3600 })
}

fn done(progress: Progress<'_>) -> Result<Grant, PolicyError> {
    match progress {
        Progress::Done(outcome) => outcome,
        Progress::Ask(check) => panic!("still needs the visibility of {}", check.repository()),
    }
}

fn ask(progress: Progress<'_>) -> RepositoryCheck<'_> {
    match progress {
        Progress::Ask(check) => check,
        Progress::Done(outcome) => panic!("already done: {outcome:?}"),
    }
}

#[test]
fn workflow_run_entity_has_correct_type() {
    assert_eq!(principal().kind(), "Oidcx::WorkflowRun");
}

#[test]
fn workflow_run_entity_uses_jti_as_id() {
    let entity = principal();
    assert!(
        entity.id().contains("test-run-id"),
        "entity uid should contain the jti value, got: {}",
        entity.id()
    );
    assert_eq!(entity.id(), "test-run-id");
}

#[test]
fn workflow_run_entity_maps_required_attributes() {
    let entity = principal();
    assert_eq!(entity.attr("repository"), Some("oxidecomputer/hubris"));
    assert_eq!(entity.attr("repository_owner"), Some("oxidecomputer"));
    assert_eq!(entity.attr("repository_visibility"), Some("public"));
    assert_eq!(entity.attr("event_name"), Some("push"));
    assert_eq!(entity.attr("iss"), Some("https://token.actions.githubusercontent.com"));
}

#[test]
fn workflow_run_entity_includes_environment_when_present() {
    let entity = workflow_run_entity(&environment_claims("staging")).unwrap();
    assert_eq!(entity.attr("environment"), Some("staging"));
}

#[test]
fn workflow_run_entity_omits_environment_when_absent() {
    assert!(
        principal().attr("environment").is_none(),
        "environment attribute should not be present when claim is missing"
    );
}

#[test]
fn workflow_run_entity_requires_jti() {
    let claims = claims(&[
        ("iss", "https://token.actions.githubusercontent.com"),
        ("repository", "oxidecomputer/hubris"),
    ]);
    let err = workflow_run_entity(&claims).err().unwrap();
    assert!(matches!(err, PolicyError::NoPrincipal), "expected NoPrincipal, got: {err:?}");
}

#[test]
fn workflow_run_entity_defaults_missing_strings_to_empty() {
    // Only jti is present, all other string claims are missing.
    let entity = workflow_run_entity(&claims(&[("jti", "minimal")])).unwrap();
    assert_eq!(entity.attr("repository"), Some(""));
    assert_eq!(entity.attr("iss"), Some(""));
}

#[test]
fn workflow_run_entity_conforms_to_schema() {
    let schema = load_schema();
    let entity = principal();
    assert!(
        check_entities(&schema, vec![&entity]).is_ok(),
        "WorkflowRun entity should conform to the schema"
    );
}

#[test]
fn workflow_run_entity_with_environment_conforms_to_schema() {
    let schema = load_schema();
    let entity = workflow_run_entity(&environment_claims("production")).unwrap();
    assert!(
        check_entities(&schema, vec![&entity]).is_ok(),
        "WorkflowRun entity with environment should conform to the schema"
    );
}

#[test]
fn repository_entity_has_correct_type() {
    let entity = Policy::repository_entity("oxidecomputer/hubris", "public").unwrap();
    assert_eq!(entity.kind(), "Oidcx::Repository");
}

#[test]
fn repository_entity_has_correct_attributes() {
    let entity = Policy::repository_entity("oxidecomputer/hubris", "public").unwrap();
    assert_eq!(entity.attr("name"), Some("oxidecomputer/hubris"));
    assert_eq!(entity.attr("visibility"), Some("public"));
}

#[test]
fn repository_entity_conforms_to_schema() {
    let schema = load_schema();
    let entity = Policy::repository_entity("oxidecomputer/hubris", "public").unwrap();
    assert!(
        check_entities(&schema, vec![&entity]).is_ok(),
        "Repository entity should conform to the schema"
    );
}

#[test]
fn silo_entity_has_correct_attributes() {
    assert_eq!(silo().attr("url"), Some("https://corp-staging.sys.r3.oxide-preview.com/"));
    assert_eq!(silo().kind(), "Oidcx::Silo");
    assert_eq!(silo().id(), "https://corp-staging.sys.r3.oxide-preview.com/");
}

#[test]
fn silo_entity_conforms_to_schema() {
    let schema = load_schema();
    let entity = silo();
    assert!(
        check_entities(&schema, vec![&entity]).is_ok(),
        "Silo entity should conform to the schema"
    );
}

#[test]
fn all_entity_types_conform_to_schema_together() {
    let schema = load_schema();
    let principal = principal();
    let repository = Policy::repository_entity("oxidecomputer/hubris", "public").unwrap();
    let silo = silo();
    assert!(
        check_entities(&schema, vec![&principal, &repository, &silo]).is_ok(),
        "all entity types should conform to the schema together"
    );
}

#[test]
fn authorize_allows_when_policy_permits() {
    let policy = policy_with(ALLOW_ALL);
    let resource = Policy::repository_entity("oxidecomputer/hubris", "public").unwrap();
    let grant = policy.authorize(&principal(), "contents:read", &resource).unwrap();
    assert!(grant.skipped.is_empty());
}

#[test]
fn authorize_denies_when_no_policy_matches() {
    // Empty policy set: default deny.
    let policy = policy_with("");
    let resource = Policy::repository_entity("oxidecomputer/hubris", "public").unwrap();
    let err = policy.authorize(&principal(), "contents:read", &resource).unwrap_err();
    assert!(matches!(err, PolicyError::NotMatching(_)), "expected NotMatching, got: {err:?}");
}

#[test]
fn authorize_denies_when_forbid_overrides_permit() {
    let policy = policy_with(
        "permit(principal, action, resource);
         forbid(principal, action, resource);",
    );
    let resource = Policy::repository_entity("oxidecomputer/hubris", "public").unwrap();
    let err = policy.authorize(&principal(), "contents:read", &resource).unwrap_err();
    assert!(matches!(err, PolicyError::NotMatching(_)), "expected NotMatching, got: {err:?}");
}

#[test]
fn authorize_works_with_silo_entity() {
    policy_with(ALLOW_ALL).authorize(&principal(), "deploy", &silo()).unwrap();
}

#[test]
fn ensure_allowed_oxide_permit() {
    let policy = policy_with(ALLOW_ALL);
    let principal = principal();
    done(policy.ensure_allowed(&principal, &oxide())).unwrap();
}

#[test]
fn ensure_allowed_oxide_deny() {
    let policy = policy_with("");
    let principal = principal();
    let err = done(policy.ensure_allowed(&principal, &oxide())).unwrap_err();
    assert!(matches!(err, PolicyError::NotMatching(_)), "expected NotMatching, got: {err:?}");
}

// These tests use a deliberately permissive allow-all policy. The point is that the schema (static
// application config) must reject type-confused or undefined actions BEFORE policy evaluation, so a
// catch-all permit can't be tricked into granting an action the resource doesn't support.

#[test]
fn authorize_rejects_deploy_action_on_repository() {
    // A GitHub request controls the permission string. Smuggling in the Oxide "deploy" action
    // against a Repository resource must be rejected, since the schema says `deploy` applies only
    // to Silo.
    let policy = policy_with(ALLOW_ALL);
    let resource = Policy::repository_entity("oxidecomputer/hubris", "public").unwrap();
    let err = policy.authorize(&principal(), "deploy", &resource).unwrap_err();
    assert!(
        matches!(err, PolicyError::Request(_)),
        "expected Request validation error, got: {err:?}"
    );
}

#[test]
fn authorize_rejects_github_permission_on_silo() {
    let policy = policy_with(ALLOW_ALL);
    let err = policy.authorize(&principal(), "contents:read", &silo()).unwrap_err();
    assert!(
        matches!(err, PolicyError::Request(_)),
        "expected Request validation error, got: {err:?}"
    );
}

#[test]
fn authorize_rejects_undefined_action() {
    // An action not declared in the schema must be rejected even under an allow-all policy, so a
    // request can't smuggle in an arbitrary permission string that a catch-all permit might
    // otherwise match.
    let policy = policy_with(ALLOW_ALL);
    let resource = Policy::repository_entity("oxidecomputer/hubris", "public").unwrap();
    let err = policy.authorize(&principal(), "admin:write", &resource).unwrap_err();
    assert!(
        matches!(err, PolicyError::Request(_)),
        "expected Request validation error, got: {err:?}"
    );
}

#[test]
fn ensure_allowed_rejects_empty_repositories() {
    // Allow-all policy: the request must still be rejected because no repository means no
    // authorization check was performed.
    let policy = policy_with(ALLOW_ALL);
    let principal = principal();
    let request = github(&[], &["contents:read"]);
    let err = done(policy.ensure_allowed(&principal, &request)).unwrap_err();
    assert!(matches!(err, PolicyError::EmptyRequest), "expected EmptyRequest, got: {err:?}");
}

#[test]
fn ensure_allowed_rejects_empty_permissions() {
    // Allow-all policy and a real repository, but no permissions. This must fail closed BEFORE any
    // visibility is asked for, preventing an empty-permissions token request.
    let policy = policy_with(ALLOW_ALL);
    let principal = principal();
    let request = github(&["oxidecomputer/hubris"], &[]);
    let err = done(policy.ensure_allowed(&principal, &request)).unwrap_err();
    assert!(matches!(err, PolicyError::EmptyRequest), "expected EmptyRequest, got: {err:?}");
}

#[test]
fn policies_see_the_attributes() {
    // What Cedar was handed holds what the entity says of itself.
    let policy = policy_with(
        "permit(
           principal == Oidcx::WorkflowRun::\"test-run-id\",
           action == Oidcx::Action::\"contents:write\",
           resource == Oidcx::Repository::\"oxidecomputer/hubris\"
         ) when {
           principal.repository == resource.name &&
           principal.repository_owner == \"oxidecomputer\" &&
           principal.repository_visibility == resource.visibility &&
           principal.event_name == \"push\" &&
           principal.iss == \"https://token.actions.githubusercontent.com\" &&
           !(principal has environment)
         };
         permit(principal, action == Oidcx::Action::\"deploy\", resource) when {
           resource.url == \"https://corp-staging.sys.r3.oxide-preview.com/\" &&
           principal has environment && principal.environment == \"staging\"
         };",
    );
    let hubris = Policy::repository_entity("oxidecomputer/hubris", "public").unwrap();
    let private = Policy::repository_entity("oxidecomputer/hubris", "private").unwrap();
    let bootleby = Policy::repository_entity("oxidecomputer/bootleby", "public").unwrap();
    let staging = workflow_run_entity(&environment_claims("staging")).unwrap();
    let production = workflow_run_entity(&environment_claims("production")).unwrap();

    assert!(policy.authorize(&principal(), "contents:write", &hubris).is_ok());
    assert!(policy.authorize(&principal(), "contents:read", &hubris).is_err());
    assert!(policy.authorize(&principal(), "contents:write", &private).is_err());
    assert!(policy.authorize(&principal(), "contents:write", &bootleby).is_err());
    assert!(policy.authorize(&staging, "contents:write", &hubris).is_err());

    assert!(policy.authorize(&staging, "deploy", &silo()).is_ok());
    assert!(policy.authorize(&production, "deploy", &silo()).is_err());
    assert!(policy.authorize(&principal(), "deploy", &silo()).is_err());
}

#[test]
fn denials_say_what_was_refused() {
    let policy = policy_with(
        "permit(principal, action, resource) when { principal.environment == \"x\" };",
    );
    let resource = Policy::repository_entity("oxidecomputer/hubris", "public").unwrap();
    match policy.authorize(&principal(), "contents:read", &resource) {
        Err(PolicyError::NotMatching(denial)) => {
            assert_eq!(denial.action, "contents:read");
            assert_eq!(denial.errors.len(), 1);
            assert_eq!(denial.errors[0].policy, "policy0");
            assert!(!denial.errors[0].exhausted);
            assert!(denial.errors[0].message.contains("environment"));
        }
        other => panic!("expected a denial, got: {other:?}"),
    }
}

#[test]
fn entities_that_do_not_fit_are_refused() {
    let narrow = "namespace Oidcx {
        entity WorkflowRun = { repository: String };
        entity Silo = { url: String };
        action \"deploy\" appliesTo { principal: [WorkflowRun], resource: [Silo] };
    }";
    let schema = PolicySchema::parse(narrow.to_string()).unwrap();
    let policy = Policy::new(schema, Policies::parse(ALLOW_ALL.to_string()).unwrap());
    let err = policy.authorize(&principal(), "deploy", &silo()).unwrap_err();
    assert!(matches!(err, PolicyError::Entities(_)), "got: {err:?}");

    let schema = PolicySchema::parse(narrow.to_string()).unwrap();
    let silo = silo();
    assert!(check_entities(&schema, vec![&silo]).is_ok());

    // One id stands for one entity.
    let schema = load_schema();
    let public = Policy::repository_entity("acme/a", "public").unwrap();
    let private = Policy::repository_entity("acme/a", "private").unwrap();
    assert!(check_entities(&schema, vec![&public, &public]).is_ok());
    assert!(check_entities(&schema, vec![&public, &private]).is_err());
}

#[test]
fn texts_that_are_no_policy_are_refused() {
    assert!(PolicySchema::parse("entity".to_string()).is_err());
    assert!(Policies::parse("permit(everything);".to_string()).is_err());
    assert!(Policies::parse(String::new()).is_ok());
}

#[test]
fn every_pair_must_be_allowed() {
    let policy = policy_with(
        "permit(principal, action, resource) when { resource.visibility == \"public\" };
         permit(principal, action == Oidcx::Action::\"contents:read\", resource);",
    );
    let principal = principal();
    let request = github(&["acme/a", "acme/b"], &["contents:read", "contents:write"]);

    let check = ask(policy.ensure_allowed(&principal, &request));
    assert_eq!(check.repository(), "acme/a");
    let check = ask(check.answer(Ok("public".to_string())));
    assert_eq!(check.repository(), "acme/b");
    let grant = done(check.answer(Ok("public".to_string()))).unwrap();
    assert!(grant.skipped.is_empty());

    // One repository is private, so that writing to it is refused.
    let check = ask(policy.ensure_allowed(&principal, &request));
    let check = ask(check.answer(Ok("public".to_string())));
    let err = done(check.answer(Ok("private".to_string()))).unwrap_err();
    assert!(
        matches!(err, PolicyError::NotMatching(ref d) if d.action == "contents:write"),
        "got: {err:?}"
    );
    let check = ask(policy.ensure_allowed(&principal, &request));
    let err = done(check.answer(Ok("private".to_string()))).unwrap_err();
    assert!(matches!(err, PolicyError::NotMatching(ref d) if d.action == "contents:write"));
}

#[test]
fn an_unknown_permission_is_refused() {
    let policy = policy_with(ALLOW_ALL);
    let principal = principal();
    let request = github(&["acme/a"], &["contents:read", "deploy"]);
    let check = ask(policy.ensure_allowed(&principal, &request));
    let err = done(check.answer(Ok("public".to_string()))).unwrap_err();
    assert!(matches!(err, PolicyError::Request(_)), "got: {err:?}");
}

#[test]
fn an_unknown_visibility_is_told() {
    let policy = policy_with(ALLOW_ALL);
    let principal = principal();
    let request = github(&["acme/a"], &["contents:read"]);
    let check = ask(policy.ensure_allowed(&principal, &request));
    let err = done(check.answer(Err(GitHubTokenError::NoCredentials))).unwrap_err();
    assert!(
        matches!(err, PolicyError::GetVisibility(ref r, GitHubTokenError::NoCredentials)
            if r == "acme/a"),
        "got: {err:?}"
    );
    assert_eq!(err.message(), "failed to retrieve the repository visibility for acme/a");
}

#[test]
fn conclude_follows_the_verdict() {
    let fault = |policy: &str, exhausted| PolicyFault {
        policy: policy.to_string(),
        exhausted,
        message: format!("{policy} fails"),
    };
    let verdict = |allowed| Verdict {
        allowed,
        errors: vec![fault("a", true), fault("b", false), fault("c", true)],
    };
    assert_eq!(conclude(verdict(true), "x").unwrap().skipped, vec!["a", "c"]);
    let sound = Verdict { allowed: true, errors: vec![fault("b", false)] };
    assert!(conclude(sound, "x").unwrap().skipped.is_empty());
    match conclude(verdict(false), "x") {
        Err(PolicyError::NotMatching(Denial { action, errors })) => {
            assert_eq!(action, "x");
            let messages: Vec<&str> = errors.iter().map(|e| e.message.as_str()).collect();
            assert_eq!(messages, vec!["a fails", "b fails", "c fails"]);
        }
        other => panic!("expected a denial, got: {other:?}"),
    }
}

#[test]
fn number_claims_make_no_attributes() {
    let claims = Claims::from_entries(vec![
        ("jti".to_string(), ClaimValue::String("id".to_string())),
        ("repository".to_string(), ClaimValue::Number(7)),
        ("environment".to_string(), ClaimValue::Number(7)),
    ]);
    let attributes = workflow_run_attributes(&claims);
    let names: Vec<&str> = attributes.iter().map(|(name, _)| name.as_str()).collect();
    assert_eq!(
        names,
        vec!["repository", "repository_owner", "repository_visibility", "event_name", "iss"]
    );
    assert!(attributes.iter().all(|(_, value)| value.is_empty()));

    let numbered = Claims::from_entries(vec![("jti".to_string(), ClaimValue::Number(7))]);
    assert!(matches!(workflow_run_entity(&numbered), Err(PolicyError::NoPrincipal)));
}

#[test]
fn policy_errors_have_their_words() {
    assert_eq!(
        PolicyError::ReadFile("/p.cedar".into(), "gone".into()).message(),
        "Failed to read policy file /p.cedar"
    );
    assert_eq!(
        PolicyError::EmptyRequest.message(),
        "Token request must specify at least one repository and one permission"
    );
    assert_eq!(
        PolicyError::NoPrincipal.message(),
        "Claims do not contain an id to construct a principal from"
    );
    let fault = PolicySchema::parse("entity".to_string()).err().unwrap();
    assert_eq!(PolicyError::InitSchema(fault).message(), "Failed to parse Cedar schema");
    let fault = Policies::parse("permit".to_string()).err().unwrap();
    assert_eq!(PolicyError::InitPolicy(fault).message(), "Failed to parse Cedar policy");
    let resource = Policy::repository_entity("a/b", "public").unwrap();
    let denied = policy_with("").authorize(&principal(), "contents:read", &resource).unwrap_err();
    assert_eq!(denied.message(), "Does not match the authorization policy");
    let unfit = policy_with("").authorize(&principal(), "deploy", &resource).unwrap_err();
    assert_eq!(unfit.message(), "Failed to construct Cedar authorization request");
}
