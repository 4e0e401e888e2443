//! The exchange of an identity token for an access token.

use crate::cedar::PolicyEntity;
use crate::cedar::{
    policies_allow_without, skipped_policies, EntityModel, EntityStoreModel, RequestModel, UidModel,
};
use crate::context::{Context, PrincipalBuilder, ResolvedOidcProvider};
use crate::jwt::{
    is_first_with_kid, lemma_find_key, signature_verifies, token_header, token_payload, ClaimModel,
    RawClaimModel,
};
use crate::oidc::{claim_text, claimed_issuer, is_accepted, kept_claim, key_choice, KeyChoice};
use crate::oidc::{Claims, IssuerClaim, OidcError, ResolvedOidcConfig};
use crate::policy::{
    granted_tokens_are_allowed_in_full, id_set, is_allowed_on_repository, lemma_attribute_names,
    listed_ids_are_in_the_set, nothing_skipped, repository_model, silo_model, CheckModel,
    PolicyModel,
};
use crate::policy::{Grant, Policy, PolicyError, Progress, RepositoryCheck};
use crate::settings::Settings;
use crate::text::texts;
use crate::token::github::{
    has_level, is_in_namespace, is_usable_time, lemma_parts_are_complete,
    parsed_permissions_are_requested, parsed_repositories_are_the_requested,
};
use crate::token::github::{
    GitHubTokenError, GitHubTokenRequest, GitHubTokens, InstallationLookup,
};
use crate::token::oxide::{DeviceAuthRequest, OxideError, OxideTokenRequest, OxideTokens};
use vstd::prelude::*;

verus! {

/// An issued access token.
#[derive(Debug)]
pub struct Token {
    pub access_token: String,
}

/// What an access token is asked for.
#[derive(Debug)]
pub enum TokenRequest {
    Oxide(OxideTokenRequest),
    GitHub(GitHubTokenRequest),
}

/// The identity token of whoever asks for an access token, and what that is to be good for.
#[derive(Debug)]
pub struct ExchangeBody {
    pub caller_identity: String,
    pub request: TokenRequest,
}

/// A response that tells of a failure. Only the external message and the code are sent.
#[derive(Debug)]
pub struct Failure {
    pub status: u16,
    pub error_code: Option<String>,
    pub external_message: String,
    pub internal_message: String,
}

impl Failure {
    /// The response blames the request and says why.
    pub open spec fn is_bad_request(self, message: Seq<char>) -> bool {
        &&& self.status == 400
        &&& self.error_code is None
        &&& self.external_message@ == message
        &&& self.internal_message@ == message
    }

    /// The response blames the service and does not say why.
    pub open spec fn is_internal(self, message: Seq<char>) -> bool {
        &&& self.status == 500
        &&& self.error_code matches Some(code)
        &&& code@ == "Internal"@
        &&& self.external_message@ == "Internal Server Error"@
        &&& self.internal_message@ == message
    }

    /// The response that blames the request and says why.
    fn bad_request(message: String) -> (failure: Failure)
        ensures
            failure.is_bad_request(message@),
    {
        Failure {
            status: 400,
            error_code: None,
            external_message: message.as_str().to_owned(),
            internal_message: message,
        }
    }

    /// The response that blames the service and does not say why.
    fn internal(message: String) -> (failure: Failure)
        ensures
            failure.is_internal(message@),
    {
        Failure {
            status: 500,
            error_code: Some("Internal".to_owned()),
            external_message: "Internal Server Error".to_owned(),
            internal_message: message,
        }
    }
}

/// Why there is no access token.
#[derive(Debug)]
pub enum Refusal {
    /// The identity token does not even name an issuer.
    InvalidToken,
    /// The identity token names an issuer that is not trusted.
    UnsupportedIssuer(String),
    /// The identity token is not accepted.
    Validation(OidcError),
    /// The identity token stands for no principal.
    Principal(PolicyError),
    /// The policy does not grant the access token.
    Policy(PolicyError),
    /// The Oxide token is not issued.
    Oxide(OxideError),
    /// The GitHub token is not issued.
    GitHub(GitHubTokenError),
}

impl Refusal {
    /// What is told of the refusal. Why the policy refuses is never told: whether a repository
    /// exists, for one, is nobody's business who may not read it.
    pub open spec fn is_told_by(self, failure: Failure) -> bool {
        match self {
            Refusal::InvalidToken => failure.is_bad_request("Invalid token"@),
            Refusal::UnsupportedIssuer(_) => failure.is_bad_request("Unsupported issuer"@),
            Refusal::Validation(_) => failure.is_bad_request("Token validation failed"@),
            Refusal::Principal(error) => failure.is_bad_request(
                "Failed to construct principal: "@ + error.spec_message(),
            ),
            Refusal::Policy(_) => failure.is_bad_request("A policy failure occurred"@),
            Refusal::Oxide(error) => if error.is_safe() {
                failure.is_bad_request("Failed to generate token: "@ + error.spec_message())
            } else {
                failure.is_internal("Failed to generate token"@)
            },
            Refusal::GitHub(error) => if error.is_safe() {
                failure.is_bad_request("Failed to generate token: "@ + error.spec_message())
            } else {
                failure.is_internal("Failed to generate token"@)
            },
        }
    }

    /// The response that tells of the refusal.
    pub fn failure(&self) -> (failure: Failure)
        ensures
            self.is_told_by(failure),
    {
        match self {
            Refusal::InvalidToken => Failure::bad_request("Invalid token".to_owned()),
            Refusal::UnsupportedIssuer(_) => Failure::bad_request("Unsupported issuer".to_owned()),
            Refusal::Validation(_) => Failure::bad_request("Token validation failed".to_owned()),
            Refusal::Principal(error) => {
                let mut message = "Failed to construct principal: ".to_owned();
                message.append(error.message().as_str());
                Failure::bad_request(message)
            },
            Refusal::Policy(_) => Failure::bad_request("A policy failure occurred".to_owned()),
            Refusal::Oxide(error) => if error.safe_to_expose() {
                let mut message = "Failed to generate token: ".to_owned();
                message.append(error.message().as_str());
                Failure::bad_request(message)
            } else {
                Failure::internal("Failed to generate token".to_owned())
            },
            Refusal::GitHub(error) => if error.safe_to_expose() {
                let mut message = "Failed to generate token: ".to_owned();
                message.append(error.message().as_str());
                Failure::bad_request(message)
            } else {
                Failure::internal("Failed to generate token".to_owned())
            },
        }
    }

    /// Nothing of the refusal's reason may be told.
    pub open spec fn is_confidential(self) -> bool {
        match self {
            Refusal::Policy(_) => true,
            Refusal::Oxide(error) => !error.is_safe(),
            Refusal::GitHub(error) => !error.is_safe(),
            _ => false,
        }
    }
}

/// The same is sent to two requesters.
pub open spec fn look_alike(a: Failure, b: Failure) -> bool {
    &&& a.status == b.status
    &&& a.external_message@ == b.external_message@
    &&& a.error_code is Some <==> b.error_code is Some
    &&& a.error_code is Some ==> a.error_code->Some_0@ == b.error_code->Some_0@
}

/// A response never tells why the policy refused: all its refusals look alike.
pub proof fn policy_refusals_look_alike(
    error: PolicyError,
    other: PolicyError,
    a: Failure,
    b: Failure,
)
    requires
        Refusal::Policy(error).is_told_by(a),
        Refusal::Policy(other).is_told_by(b),
    ensures
        look_alike(a, b),
{
}

/// A response never tells what went wrong inside: all failures to issue a token that are
/// confidential look alike.
pub proof fn confidential_failures_look_alike(
    refusal: Refusal,
    other: Refusal,
    a: Failure,
    b: Failure,
)
    requires
        refusal.is_told_by(a),
        other.is_told_by(b),
        refusal.is_confidential() && !(refusal is Policy),
        other.is_confidential() && !(other is Policy),
    ensures
        look_alike(a, b),
{
}

/// The principal is the one of the token: the provider that the token names as its issuer signed
/// it for this service, and the principal is made of the token's own claims.
pub open spec fn is_principal_of(
    provider: ResolvedOidcProvider,
    audience: Seq<char>,
    token: Seq<char>,
    claims: Map<Seq<char>, ClaimModel>,
    principal: PolicyEntity,
) -> bool {
    &&& key_choice(provider.config.jwks.keys@, token) matches KeyChoice::Chosen(key, algorithm)
    &&& is_accepted(token, key, algorithm, provider.config.issuer@, audience, claims)
    &&& provider.build_principal.builds(claims, Ok::<PolicyEntity, PolicyError>(principal))
}

/// The principal of a token carries the issuer that signed the token, and the id of the token.
pub proof fn principal_carries_its_issuer(
    provider: ResolvedOidcProvider,
    audience: Seq<char>,
    token: Seq<char>,
    claims: Map<Seq<char>, ClaimModel>,
    principal: PolicyEntity,
)
    requires
        is_principal_of(provider, audience, token, claims, principal),
    ensures
        principal@.attributes.contains_key("iss"@),
        principal@.attributes["iss"@] == provider.config.issuer@,
        claim_text(claims, "jti"@) == Some(principal@.uid.id),
{
    reveal_strlit("iss");
    reveal_strlit("environment");
    assert("iss"@.len() != "environment"@.len());
}

/// No principal can be made of the claims of a token that the provider vouches for.
pub open spec fn lacks_principal(
    provider: ResolvedOidcProvider,
    audience: Seq<char>,
    token: Seq<char>,
    claims: Map<Seq<char>, ClaimModel>,
    error: PolicyError,
) -> bool {
    &&& key_choice(provider.config.jwks.keys@, token) matches KeyChoice::Chosen(key, algorithm)
    &&& is_accepted(token, key, algorithm, provider.config.issuer@, audience, claims)
    &&& provider.build_principal.builds(claims, Err::<PolicyEntity, PolicyError>(error))
}

/// What is known of who presents a token to a provider. A token for which no key can be chosen is
/// refused; of one with a key it depends on the signature, the claims and the time.
pub open spec fn identifies(
    provider: ResolvedOidcProvider,
    audience: Seq<char>,
    token: Seq<char>,
    identity: Result<PolicyEntity, Refusal>,
) -> bool {
    match identity {
        Ok(principal) => exists|claims: Map<Seq<char>, ClaimModel>| #[trigger]
            is_principal_of(provider, audience, token, claims, principal),
        Err(Refusal::Validation(error)) => provider.config.outcome(
            audience,
            token,
            Err::<Claims, OidcError>(error),
        ),
        Err(Refusal::Principal(error)) => exists|claims: Map<Seq<char>, ClaimModel>|
            #[trigger]
            lacks_principal(provider, audience, token, claims, error),
        Err(_) => false,
    }
}

/// The provider validates the token, and makes the principal of the claims that it validated.
pub open spec fn is_decided_by(
    provider: ResolvedOidcProvider,
    settings: Settings,
    token: &str,
    identity: Result<PolicyEntity, Refusal>,
) -> bool {
    exists|validated: Result<Claims, OidcError>|
        {
            &&& #[trigger] call_ensures(
                ResolvedOidcConfig::validate,
                (&provider.config, &settings, token),
                validated,
            )
            &&& call_ensures(identify, (&provider, validated), identity)
        }
}

/// The outcome for a token of which `validated` came back.
pub fn identify(
    provider: &ResolvedOidcProvider,
    validated: Result<Claims, OidcError>,
) -> (identity: Result<PolicyEntity, Refusal>)
    ensures
        match validated {
            Err(error) => identity == Err::<PolicyEntity, Refusal>(Refusal::Validation(error)),
            Ok(claims) => match identity {
                Ok(principal) => {
                    &&& provider.build_principal.builds(
                        claims@,
                        Ok::<PolicyEntity, PolicyError>(principal),
                    )
                    &&& call_ensures(
                        PrincipalBuilder::build,
                        (&provider.build_principal, &claims),
                        Ok::<PolicyEntity, PolicyError>(principal),
                    )
                },
                Err(refusal) => refusal matches Refusal::Principal(error) && {
                    &&& provider.build_principal.builds(
                        claims@,
                        Err::<PolicyEntity, PolicyError>(error),
                    )
                    &&& call_ensures(
                        PrincipalBuilder::build,
                        (&provider.build_principal, &claims),
                        Err::<PolicyEntity, PolicyError>(error),
                    )
                },
            },
        },
{
    match validated {
        Ok(claims) => match provider.build_principal.build(&claims) {
            Ok(principal) => Ok(principal),
            Err(error) => Err(Refusal::Principal(error)),
        },
        Err(error) => Err(Refusal::Validation(error)),
    }
}

/// Finds out who presents an identity token. The provider that the token names as its issuer is
/// the one that decides on it.
pub fn authenticate<C>(context: &Context<C>, caller_identity: &str) -> (identity: Result<
    PolicyEntity,
    Refusal,
>)
    ensures
        match claimed_issuer(token_payload(caller_identity@)) {
            None => identity matches Err(Refusal::InvalidToken),
            Some(issuer) => if !context.providers@.contains_key(issuer) {
                identity matches Err(Refusal::UnsupportedIssuer(i)) && i@ == issuer
            } else {
                &&& context.providers@[issuer].config.issuer@ == issuer
                &&& identifies(
                    context.providers@[issuer],
                    context.settings.audience@,
                    caller_identity@,
                    identity,
                )
                &&& is_decided_by(
                    context.providers@[issuer],
                    context.settings,
                    caller_identity,
                    identity,
                )
            },
        },
{
    let claim = match IssuerClaim::of_token(caller_identity) {
        Some(claim) => claim,
        None => {
            return Err(Refusal::InvalidToken);
        },
    };
    let provider = match context.providers.get(claim.iss.as_str()) {
        Some(provider) => provider,
        None => {
            return Err(Refusal::UnsupportedIssuer(claim.iss));
        },
    };
    let validated = provider.config.validate(&context.settings, caller_identity);
    let ghost outcome = validated;
    let identity = identify(provider, validated);
    assert(call_ensures(
        ResolvedOidcConfig::validate,
        (&provider.config, &context.settings, caller_identity),
        outcome,
    ));
    assert(call_ensures(identify, (provider, outcome), identity));
    assert(identity is Ok ==> is_principal_of(
        *provider,
        context.settings.audience@,
        caller_identity@,
        outcome->Ok_0@,
        identity->Ok_0,
    ));
    assert(identity is Err && identity->Err_0 is Principal ==> lacks_principal(
        *provider,
        context.settings.audience@,
        caller_identity@,
        outcome->Ok_0@,
        identity->Err_0->Principal_0,
    ));
    identity
}

/// How far an exchange has come.
pub enum ExchangeStep<'a, C> {
    /// The policy needs the visibility of a repository.
    Visibility(PendingExchange<'a, C>),
    /// The policy grants an Oxide token, and its silo is asked for it.
    Oxide(Grant, DeviceAuthRequest<'a, C>),
    /// The policy grants a GitHub token, and GitHub is asked for it.
    GitHub(Grant, InstallationLookup),
    /// There is no token.
    Refused(Refusal),
}

/// An exchange whose policy needs the visibility of a repository.
pub struct PendingExchange<'a, C> {
    context: &'a Context<C>,
    request: &'a GitHubTokenRequest,
    check: RepositoryCheck<'a>,
}

/// An exchange whose policy needs the visibility of a repository.
pub struct PendingModel<C> {
    pub context: Context<C>,
    pub request: GitHubTokenRequest,
    pub check: CheckModel,
}

impl<'a, C> View for PendingExchange<'a, C> {
    type V = PendingModel<C>;

    closed spec fn view(&self) -> PendingModel<C> {
        PendingModel { context: *self.context, request: *self.request, check: self.check@ }
    }
}

/// The step that asks GitHub for a token which the policy grants.
pub open spec fn asks_github<'a, C>(
    tokens: GitHubTokens,
    request: GitHubTokenRequest,
    now: u64,
    step: ExchangeStep<'a, C>,
) -> bool {
    let repositories = texts(request.repositories@);
    let permissions = texts(request.permissions@);
    match step {
        ExchangeStep::GitHub(_, lookup) => tokens.asks(
            repositories,
            permissions,
            now,
            Ok::<InstallationLookup, GitHubTokenError>(lookup),
        ),
        ExchangeStep::Refused(Refusal::GitHub(error)) => tokens.asks(
            repositories,
            permissions,
            now,
            Err::<InstallationLookup, GitHubTokenError>(error),
        ),
        _ => false,
    }
}

/// Asks GitHub for a token which the policy grants.
fn ask_github<'a, C>(
    context: &'a Context<C>,
    request: &GitHubTokenRequest,
    now: u64,
    grant: Grant,
) -> (step: ExchangeStep<'a, C>)
    requires
        is_usable_time(now),
    ensures
        asks_github(context.github_tokens, *request, now, step),
        match step {
            ExchangeStep::GitHub(own, lookup) => own == grant && call_ensures(
                GitHubTokens::get,
                (&context.github_tokens, request, now),
                Ok::<InstallationLookup, GitHubTokenError>(lookup),
            ),
            ExchangeStep::Refused(Refusal::GitHub(error)) => call_ensures(
                GitHubTokens::get,
                (&context.github_tokens, request, now),
                Err::<InstallationLookup, GitHubTokenError>(error),
            ),
            _ => false,
        },
{
    match context.github_tokens.get(request, now) {
        Ok(lookup) => ExchangeStep::GitHub(grant, lookup),
        Err(error) => ExchangeStep::Refused(Refusal::GitHub(error)),
    }
}

/// What is known of the first step of an exchange for an Oxide token. The silo is asked for nothing
/// that the policy does not grant.
pub open spec fn begins_oxide<'a, C>(
    context: Context<C>,
    principal: EntityModel,
    request: OxideTokenRequest,
    step: ExchangeStep<'a, C>,
) -> bool {
    let silo = silo_model(request.silo@);
    match step {
        ExchangeStep::Oxide(grant, started) => {
            &&& context.policy@.outcome(
                principal,
                "deploy"@,
                silo,
                Ok::<Grant, PolicyError>(grant),
            )
            &&& context.oxide_tokens.starts(
                request,
                Ok::<DeviceAuthRequest<'a, C>, OxideError>(started),
            )
        },
        ExchangeStep::Refused(Refusal::Policy(error)) => {
            ||| error is EntityEvaluation
            ||| context.policy@.outcome(
                principal,
                "deploy"@,
                silo,
                Err::<Grant, PolicyError>(error),
            )
        },
        ExchangeStep::Refused(Refusal::Oxide(error)) => {
            &&& context.policy@.grants(principal, "deploy"@, silo, Set::full())
            &&& context.oxide_tokens.starts(
                request,
                Err::<DeviceAuthRequest<'a, C>, OxideError>(error),
            )
        },
        _ => false,
    }
}

/// A silo is asked for a token only where the policy grants a deployment to that silo. Where the
/// grant names no policy as skipped, the policies as they stand allow it.
pub proof fn silos_are_asked_for_what_is_granted<'a, C>(
    context: Context<C>,
    principal: EntityModel,
    request: OxideTokenRequest,
    grant: Grant,
    started: DeviceAuthRequest<'a, C>,
)
    requires
        begins_oxide(context, principal, request, ExchangeStep::Oxide(grant, started)),
    ensures
        ({
            let silo = silo_model(request.silo@);
            &&& context.policy@.grants(principal, "deploy"@, silo, id_set(grant.skipped@))
            &&& grant.skipped@.len() == 0 ==> context.policy@.allows(principal, "deploy"@, silo)
        }),
{
    if grant.skipped@.len() == 0 {
        nothing_skipped(
            context.policy@,
            principal,
            "deploy"@,
            silo_model(request.silo@),
            id_set(grant.skipped@),
        );
    }
}

/// What is known of the first step of an exchange for a GitHub token. One for nothing is refused;
/// otherwise the visibility of the first repository is needed.
pub open spec fn begins_github<'a, C>(
    context: Context<C>,
    principal: EntityModel,
    request: GitHubTokenRequest,
    step: ExchangeStep<'a, C>,
) -> bool {
    if request.repositories@.len() == 0 || request.permissions@.len() == 0 {
        step matches ExchangeStep::Refused(Refusal::Policy(PolicyError::EmptyRequest))
    } else {
        &&& step matches ExchangeStep::Visibility(pending)
        &&& pending@.context == context
        &&& pending@.request == request
        &&& pending@.check == (CheckModel {
            policy: context.policy@,
            principal,
            repositories: texts(request.repositories@),
            permissions: texts(request.permissions@),
            visibilities: Seq::empty(),
            skipped: Set::empty(),
        })
    }
}

/// The policy decides on the request first, and only what it grants is asked for.
pub open spec fn follows_the_policy<'a, C>(
    context: &'a Context<C>,
    principal: &'a PolicyEntity,
    request: &'a TokenRequest,
    step: ExchangeStep<'a, C>,
) -> bool {
    exists|progress: Progress<'a>|
        {
            &&& #[trigger] call_ensures(
                Policy::ensure_allowed,
                (&context.policy, principal, request),
                progress,
            )
            &&& match progress {
                Progress::Ask(check) => step matches ExchangeStep::Visibility(pending)
                    && pending.spec_check() == check,
                Progress::Done(Err(error)) => step == ExchangeStep::<'a, C>::Refused(
                    Refusal::Policy(error),
                ),
                Progress::Done(Ok(grant)) => {
                    &&& *request matches TokenRequest::Oxide(oxide)
                    &&& match step {
                        ExchangeStep::Oxide(own, started) => own == grant && call_ensures(
                            OxideTokens::<C>::get,
                            (&context.oxide_tokens, &oxide),
                            Ok::<DeviceAuthRequest<'a, C>, OxideError>(started),
                        ),
                        ExchangeStep::Refused(Refusal::Oxide(error)) => call_ensures(
                            OxideTokens::<C>::get,
                            (&context.oxide_tokens, &oxide),
                            Err::<DeviceAuthRequest<'a, C>, OxideError>(error),
                        ),
                        _ => false,
                    }
                },
            }
        }
}

/// Starts an exchange for a principal: the policy decides first, and only what it grants is asked
/// for.
pub fn exchange<'a, C>(
    context: &'a Context<C>,
    principal: &'a PolicyEntity,
    request: &'a TokenRequest,
) -> (step: ExchangeStep<'a, C>)
    ensures
        match *request {
            TokenRequest::Oxide(oxide) => begins_oxide(*context, principal@, oxide, step),
            TokenRequest::GitHub(github) => begins_github(*context, principal@, github, step),
        },
        follows_the_policy(context, principal, request, step),
{
    match context.policy.ensure_allowed(principal, request) {
        Progress::Ask(check) => match request {
            TokenRequest::GitHub(github) => ExchangeStep::Visibility(
                PendingExchange { context, request: github, check },
            ),
            TokenRequest::Oxide(_) => {
                // An Oxide token needs no visibility.
                assert(false);
                ExchangeStep::Refused(Refusal::InvalidToken)
            },
        },
        Progress::Done(Err(error)) => ExchangeStep::Refused(Refusal::Policy(error)),
        Progress::Done(Ok(grant)) => match request {
            TokenRequest::Oxide(oxide) => match context.oxide_tokens.get(oxide) {
                Ok(started) => ExchangeStep::Oxide(grant, started),
                Err(error) => ExchangeStep::Refused(Refusal::Oxide(error)),
            },
            TokenRequest::GitHub(_) => {
                // A GitHub token is not granted before a visibility is known.
                assert(false);
                ExchangeStep::Refused(Refusal::InvalidToken)
            },
        },
    }
}

impl<'a, C> PendingExchange<'a, C> {
    #[verifier::type_invariant]
    spec fn is_consistent(self) -> bool {
        self@.is_consistent()
    }

    /// The decision that needs the visibility.
    pub closed spec fn spec_check(self) -> RepositoryCheck<'a> {
        self.check
    }

    /// What issues the tokens of the exchange.
    pub closed spec fn spec_tokens(self) -> &'a GitHubTokens {
        &self.context.github_tokens
    }

    /// What is asked for.
    pub closed spec fn spec_request(self) -> &'a GitHubTokenRequest {
        self.request
    }

    /// The decision goes on first, and GitHub is asked for the very request once it is granted.
    pub open spec fn follows_the_check(
        self,
        visibility: Result<String, GitHubTokenError>,
        now: u64,
        step: ExchangeStep<'a, C>,
    ) -> bool {
        exists|progress: Progress<'a>|
            {
                &&& #[trigger] call_ensures(
                    RepositoryCheck::<'a>::answer,
                    (self.spec_check(), visibility),
                    progress,
                )
                &&& match progress {
                    Progress::Ask(check) => step matches ExchangeStep::Visibility(pending) && {
                        &&& pending.spec_check() == check
                        &&& pending.spec_tokens() == self.spec_tokens()
                        &&& pending.spec_request() == self.spec_request()
                    },
                    Progress::Done(Err(error)) => step == ExchangeStep::<'a, C>::Refused(
                        Refusal::Policy(error),
                    ),
                    Progress::Done(Ok(grant)) => match step {
                        ExchangeStep::GitHub(own, lookup) => own == grant && call_ensures(
                            GitHubTokens::get,
                            (self.spec_tokens(), self.spec_request(), now),
                            Ok::<InstallationLookup, GitHubTokenError>(lookup),
                        ),
                        ExchangeStep::Refused(Refusal::GitHub(error)) => call_ensures(
                            GitHubTokens::get,
                            (self.spec_tokens(), self.spec_request(), now),
                            Err::<InstallationLookup, GitHubTokenError>(error),
                        ),
                        _ => false,
                    },
                }
            }
    }

    /// The repository whose visibility is needed.
    pub fn repository(&self) -> (repository: &'a str)
        ensures
            repository@ == self@.check.repository(),
    {
        self.check.repository()
    }

    /// Goes on with the visibility of the repository, or why it could not be had.
    pub fn answer(self, visibility: Result<String, GitHubTokenError>, now: u64) -> (step:
        ExchangeStep<'a, C>)
        requires
            is_usable_time(now),
        ensures
            self@.is_consistent(),
            self.follows_the_check(visibility, now, step),
            match visibility {
                Ok(v) => self@.continues(v@, now, step),
                Err(fault) => step matches ExchangeStep::Refused(
                    Refusal::Policy(PolicyError::GetVisibility(repository, f)),
                ) && repository@ == self@.check.repository() && f == fault,
            },
    {
        proof {
            use_type_invariant(&self);
        }
        let ghost model = self@;
        let ghost known = visibility;
        match self.check.answer(visibility) {
            Progress::Done(Ok(grant)) => {
                assert(model.check.ends(known->Ok_0@, Ok::<Grant, PolicyError>(grant)));
                ask_github(self.context, self.request, now, grant)
            },
            Progress::Done(Err(error)) => ExchangeStep::Refused(Refusal::Policy(error)),
            Progress::Ask(check) => {
                let next = PendingExchange { context: self.context, request: self.request, check };
                assert(next.spec_check() == check);
                ExchangeStep::Visibility(next)
            },
        }
    }
}

impl<C> PendingModel<C> {
    /// The policy decides on the request itself.
    pub open spec fn is_consistent(self) -> bool {
        &&& self.check.policy == self.context.policy@
        &&& self.check.repositories == texts(self.request.repositories@)
        &&& self.check.permissions == texts(self.request.permissions@)
    }

    /// What is known of how an exchange goes on once the visibility of a repository is known: the
    /// policy refuses, or it needs the visibility of the next repository, or it grants all
    /// permissions on all repositories, and GitHub is asked.
    pub open spec fn continues<'a>(
        self,
        visibility: Seq<char>,
        now: u64,
        step: ExchangeStep<'a, C>,
    ) -> bool {
        match step {
            ExchangeStep::Visibility(next) => {
                &&& next@.context == self.context
                &&& next@.request == self.request
                &&& next@.check == next.spec_check()@
                &&& self.check.goes_on(visibility, Progress::Ask(next.spec_check()))
            },
            ExchangeStep::Oxide(_, _) => false,
            ExchangeStep::GitHub(grant, _) => {
                &&& self.check.ends(visibility, Ok::<Grant, PolicyError>(grant))
                &&& asks_github(self.context.github_tokens, self.request, now, step)
            },
            ExchangeStep::Refused(Refusal::Policy(error)) => self.check.ends(
                visibility,
                Err::<Grant, PolicyError>(error),
            ),
            ExchangeStep::Refused(_) => {
                &&& exists|grant: Grant| #[trigger]
                    self.check.ends(visibility, Ok::<Grant, PolicyError>(grant))
                &&& asks_github(self.context.github_tokens, self.request, now, step)
            },
        }
    }
}

/// What GitHub is asked for is what the policy grants: of each repository and each permission that
/// it is asked for, put together again as they stood in the request, the policy grants the
/// permission on the repository. Where the grant names no policy as skipped, the policies as they
/// stand allow it.
pub proof fn github_is_asked_for_what_is_granted<'a, C>(
    pending: PendingModel<C>,
    visibility: Seq<char>,
    now: u64,
    grant: Grant,
    lookup: InstallationLookup,
    i: int,
    name: Seq<char>,
)
    requires
        pending.is_consistent(),
        pending.continues(visibility, now, ExchangeStep::<'a, C>::GitHub(grant, lookup)),
        0 <= i < lookup@.request.repository_names.len(),
        lookup@.request.permissions.contains_key(name),
    ensures
        ({
            let scope = lookup@.request;
            let repository = scope.namespace + seq!['/'] + scope.repository_names[i];
            let permission = name + seq![':'] + scope.permissions[name];
            let visibilities = pending.check.visibilities.push(visibility);
            let resource = repository_model(repository, visibilities[i]);
            &&& pending.context.policy@.grants(
                pending.check.principal,
                permission,
                resource,
                id_set(grant.skipped@),
            )
            &&& grant.skipped@.len() == 0 ==> pending.context.policy@.allows(
                pending.check.principal,
                permission,
                resource,
            )
        }),
{
    let repositories = texts(pending.request.repositories@);
    let permissions = texts(pending.request.permissions@);
    parsed_permissions_are_requested(repositories, permissions, name);
    let permission = name + seq![':'] + lookup@.request.permissions[name];
    let j = choose|j: int| 0 <= j < permissions.len() && permissions[j] == permission;
    parsed_repositories_are_the_requested(repositories, permissions, i);
    granted_tokens_are_allowed_in_full(pending.check, visibility, grant, i, j);
}

/// What is told of a refusal blames the request and says why, but for two cases. Why the policy
/// refuses is not told, and of an error that is not to be exposed nothing is told at all.
pub proof fn refusals_are_told_as_far_as_they_may_be(
    refusal: &Refusal,
    failure: Failure,
    safe: bool,
    text: String,
)
    requires
        call_ensures(Refusal::failure, (refusal,), failure),
        *refusal matches Refusal::Principal(error) ==> call_ensures(
            PolicyError::message,
            (&error,),
            text,
        ),
        *refusal matches Refusal::Oxide(error) ==> {
            &&& call_ensures(OxideError::safe_to_expose, (&error,), safe)
            &&& call_ensures(OxideError::message, (&error,), text)
        },
        *refusal matches Refusal::GitHub(error) ==> {
            &&& call_ensures(GitHubTokenError::safe_to_expose, (&error,), safe)
            &&& call_ensures(GitHubTokenError::message, (&error,), text)
        },
    ensures
        ({
            let inner = (*refusal is Oxide || *refusal is GitHub) && !safe;
            &&& inner ==> failure.status == 500
            &&& !inner ==> failure.status == 400
            &&& failure.error_code is Some <==> inner
            &&& failure.error_code matches Some(code) ==> code@ == "Internal"@
            &&& failure.external_message@ == match *refusal {
                Refusal::InvalidToken => "Invalid token"@,
                Refusal::UnsupportedIssuer(_) => "Unsupported issuer"@,
                Refusal::Validation(_) => "Token validation failed"@,
                Refusal::Principal(_) => "Failed to construct principal: "@ + text@,
                Refusal::Policy(_) => "A policy failure occurred"@,
                _ => if safe {
                    "Failed to generate token: "@ + text@
                } else {
                    "Internal Server Error"@
                },
            }
            &&& !inner ==> failure.internal_message@ == failure.external_message@
            &&& inner ==> failure.internal_message@ == "Failed to generate token"@
        }),
{
}

/// A principal is made of the claims that its provider validated, and one that cannot be made or
/// validated is refused for that reason.
pub proof fn validated_tokens_become_principals(
    provider: &ResolvedOidcProvider,
    validated: Result<Claims, OidcError>,
    identity: Result<PolicyEntity, Refusal>,
)
    requires
        call_ensures(identify, (provider, validated), identity),
    ensures
        validated matches Err(error) ==> identity == Err::<PolicyEntity, Refusal>(
            Refusal::Validation(error),
        ),
        validated is Ok && identity is Ok ==> call_ensures(
            PrincipalBuilder::build,
            (&provider.build_principal, &validated->Ok_0),
            Ok::<PolicyEntity, PolicyError>(identity->Ok_0),
        ),
        validated is Ok && identity is Err ==> {
            &&& identity->Err_0 matches Refusal::Principal(error)
            &&& call_ensures(
                PrincipalBuilder::build,
                (&provider.build_principal, &validated->Ok_0),
                Err::<PolicyEntity, PolicyError>(error),
            )
        },
{
}

/// Whoever presents a token is refused where it names no issuer, or one that is not trusted.
/// Otherwise the provider of the very issuer that it names decides on it, and finds it validated or
/// not.
pub proof fn tokens_are_decided_on_by_the_issuer_they_name<C>(
    context: &Context<C>,
    token: &str,
    identity: Result<PolicyEntity, Refusal>,
)
    requires
        call_ensures(authenticate::<C>, (context, token), identity),
    ensures
        ({
            let payload = token_payload(token@);
            let named = payload is Some && payload->Some_0.contains_key("iss"@)
                && payload->Some_0["iss"@] is Text;
            let issuer = payload->Some_0["iss"@]->Text_0;
            &&& (identity matches Err(Refusal::InvalidToken)) <==> !named
            &&& (identity matches Err(Refusal::UnsupportedIssuer(_))) <==> named
                && !context.providers@.contains_key(issuer)
            &&& identity matches Err(Refusal::UnsupportedIssuer(own)) ==> own@ == issuer
            &&& identity matches Err(refusal) ==> {
                ||| refusal is InvalidToken
                ||| refusal is UnsupportedIssuer
                ||| refusal is Validation
                ||| refusal is Principal
            }
            &&& identity matches Err(Refusal::Validation(error)) ==> call_ensures(
                ResolvedOidcConfig::validate,
                (&context.providers@[issuer].config, &context.settings, token),
                Err::<Claims, OidcError>(error),
            )
            &&& identity matches Err(Refusal::Principal(error)) ==> {
                ||| error is EntityEvaluation
                ||| {
                    &&& error is NoPrincipal
                    &&& !(payload->Some_0.contains_key("jti"@) && payload->Some_0["jti"@] is Text)
                }
            }
        }),
{
    if let Err(Refusal::Principal(error)) = identity {
        let payload = token_payload(token@);
        let issuer = payload->Some_0["iss"@]->Text_0;
        let provider = context.providers@[issuer];
        let claims = choose|claims: Map<Seq<char>, ClaimModel>| #[trigger]
            lacks_principal(provider, context.settings.audience@, token@, claims, error);
        assert(lacks_principal(provider, context.settings.audience@, token@, claims, error));
        let raw = payload->Some_0;
        assert(raw.contains_key("jti"@) ==> kept_claim(raw["jti"@]) is Some);
        assert(raw.contains_key("jti"@) <==> claims.contains_key("jti"@));
    }
}

/// A principal is who the token says it is: the provider that the token names as its issuer signed
/// it for this service, with the key that the token names, and the principal's id and attributes
/// are what the token says under their names.
pub proof fn principals_are_who_their_token_says<C>(
    context: &Context<C>,
    token: &str,
    principal: PolicyEntity,
    id: &str,
    name: &str,
    value: Option<&str>,
)
    requires
        call_ensures(
            authenticate::<C>,
            (context, token),
            Ok::<PolicyEntity, Refusal>(principal),
        ),
        call_ensures(PolicyEntity::id, (&principal,), id),
        call_ensures(PolicyEntity::attr, (&principal, name), value),
    ensures
        token_payload(token@) matches Some(raw) && {
            let issuer = raw["iss"@]->Text_0;
            let provider = context.providers@[issuer];
            let keys = provider.config.jwks.keys@;
            &&& raw.contains_key("iss"@) && raw["iss"@] is Text
            &&& context.providers@.contains_key(issuer)
            &&& raw.contains_key("aud"@)
            &&& raw["aud"@] == RawClaimModel::Text(context.settings.audience@)
            &&& raw.contains_key("exp"@) && raw["exp"@] is Number
            &&& token_header(token@) matches Some(header)
            &&& header.kid matches Some(kid)
            &&& exists|i: int|
                {
                    &&& #[trigger] is_first_with_kid(keys, kid, i)
                    &&& keys[i].key_algorithm matches Some(key_algorithm)
                    &&& header.algorithm == key_algorithm.spec_name()
                    &&& signature_verifies(token@, keys[i].parameters@, header.algorithm)
                }
            &&& raw.contains_key("jti"@) && raw["jti"@] == RawClaimModel::Text(id@)
            &&& ({
                ||| name@ == "repository"@
                ||| name@ == "repository_owner"@
                ||| name@ == "repository_visibility"@
                ||| name@ == "event_name"@
                ||| name@ == "iss"@
                ||| name@ == "environment"@
            }) && raw.contains_key(name@) && raw[name@] is Text ==> value is Some
                && value->Some_0@ == raw[name@]->Text_0
            &&& value is Some && value->Some_0@.len() > 0 ==> raw.contains_key(name@) && raw[name@]
                == RawClaimModel::Text(value->Some_0@)
        },
{
    let raw = token_payload(token@)->Some_0;
    let issuer = raw["iss"@]->Text_0;
    let provider = context.providers@[issuer];
    let claims = choose|claims: Map<Seq<char>, ClaimModel>| #[trigger]
        is_principal_of(provider, context.settings.audience@, token@, claims, principal);
    assert(is_principal_of(
        provider,
        context.settings.audience@,
        token@,
        claims,
        principal,
    ));
    let kid = token_header(token@)->Some_0.kid->Some_0;
    lemma_find_key(provider.config.jwks.keys@, kid);
    lemma_attribute_names();
    reveal_strlit("");
    assert(raw.contains_key("aud"@) && kept_claim(raw["aud"@]) is Some);
    assert(raw.contains_key("exp"@) && kept_claim(raw["exp"@]) is Some);
    assert(raw.contains_key("jti"@) && kept_claim(raw["jti"@]) is Some);
    assert(raw.contains_key(name@) <==> claims.contains_key(name@));
    assert(raw.contains_key(name@) ==> kept_claim(raw[name@]) is Some);
    assert(raw.contains_key(name@) ==> claims[name@] == kept_claim(raw[name@])->Some_0);
}

/// What Cedar is asked of a silo: whether the principal may deploy to it, given its URL.
pub open spec fn may_deploy(
    policy: PolicyModel,
    principal: EntityModel,
    url: Seq<char>,
    skipped: Set<Seq<char>>,
) -> bool {
    let uid = UidModel { kind: "Oidcx::Silo"@, id: url };
    policies_allow_without(
        policy.policies,
        RequestModel {
            principal: principal.uid,
            action: UidModel { kind: "Oidcx::Action"@, id: "deploy"@ },
            resource: uid,
        },
        EntityStoreModel {
            schema: policy.schema,
            members: seq![
                principal,
                EntityModel { uid, attributes: Map::empty().insert("url"@, url) },
            ],
        },
        skipped,
    )
}

/// An exchange for an Oxide token asks the silo of the request for a token of the requested
/// lifetime, and only where Cedar allows the principal to deploy to that silo. It is refused by the
/// policy only where Cedar does not allow that, or the request does not fit the schema.
pub proof fn exchanges_for_oxide_tokens_are_deployments<'a, C>(
    context: &'a Context<C>,
    principal: &'a PolicyEntity,
    request: &'a TokenRequest,
    oxide: OxideTokenRequest,
    step: ExchangeStep<'a, C>,
    ttl: Option<u32>,
)
    requires
        *request == TokenRequest::Oxide(oxide),
        call_ensures(exchange::<C>, (context, principal, request), step),
        step matches ExchangeStep::Oxide(_, started) ==> call_ensures(
            DeviceAuthRequest::<'a, C>::ttl_seconds,
            (&started,),
            ttl,
        ),
    ensures
        match step {
            ExchangeStep::Oxide(grant, _) => {
                &&& call_ensures(
                    Policy::ensure_allowed,
                    (&context.policy, principal, request),
                    Progress::Done(Ok(grant)),
                )
                &&& may_deploy(
                    context.policy@,
                    principal@,
                    oxide.silo@,
                    id_set(grant.skipped@),
                )
                &&& ttl == if oxide.duration == 0 {
                    None
                } else {
                    Some(oxide.duration)
                }
            },
            ExchangeStep::Refused(Refusal::Policy(PolicyError::NotMatching(denial))) => {
                !may_deploy(
                    context.policy@,
                    principal@,
                    oxide.silo@,
                    skipped_policies(denial.errors@),
                )
            },
            ExchangeStep::Refused(Refusal::Policy(error)) => call_ensures(
                Policy::ensure_allowed,
                (&context.policy, principal, request),
                Progress::Done(Err(error)),
            ),
            ExchangeStep::Refused(Refusal::Oxide(error)) => {
                &&& call_ensures(
                    OxideTokens::<C>::get,
                    (&context.oxide_tokens, &oxide),
                    Err::<DeviceAuthRequest<'a, C>, OxideError>(error),
                )
                &&& exists|skipped: Set<Seq<char>>| #[trigger]
                    may_deploy(context.policy@, principal@, oxide.silo@, skipped)
            },
            _ => false,
        },
{
    assert(begins_oxide(*context, principal@, oxide, step));
    let silo = silo_model(oxide.silo@);
    if let ExchangeStep::Refused(Refusal::Oxide(_)) = step {
        let silent = choose|silent: Set<Seq<char>>|
            silent.subset_of(Set::full()) && #[trigger] context.policy@.allows_without(
                principal@,
                "deploy"@,
                silo,
                silent,
            );
        assert(may_deploy(context.policy@, principal@, oxide.silo@, silent));
    }
}

/// An exchange for a GitHub token starts with the visibility of its first repository, and one for
/// nothing is refused.
pub proof fn exchanges_for_github_tokens_start_with_the_first_repository<'a, C>(
    context: &'a Context<C>,
    principal: &'a PolicyEntity,
    request: &'a TokenRequest,
    github: GitHubTokenRequest,
    step: ExchangeStep<'a, C>,
    repository: &'a str,
)
    requires
        *request == TokenRequest::GitHub(github),
        call_ensures(exchange::<C>, (context, principal, request), step),
        step matches ExchangeStep::Visibility(pending) ==> call_ensures(
            PendingExchange::<'a, C>::repository,
            (&pending,),
            repository,
        ),
    ensures
        github.repositories@.len() == 0 || github.permissions@.len() == 0 ==> step matches
            ExchangeStep::Refused(Refusal::Policy(PolicyError::EmptyRequest)),
        github.repositories@.len() > 0 && github.permissions@.len() > 0 ==> {
            &&& step matches ExchangeStep::Visibility(pending)
            &&& repository@ == github.repositories@[0]@
            &&& pending@.context == *context
            &&& *pending.spec_tokens() == context.github_tokens
            &&& pending@.request == github
            &&& *pending.spec_request() == github
            &&& pending@.check.principal == principal@
            &&& pending@.check.visibilities.len() == 0
            &&& call_ensures(
                Policy::ensure_allowed,
                (&context.policy, principal, request),
                Progress::Ask(pending.spec_check()),
            )
        },
{
}

/// GitHub is asked only where Cedar allowed what it is asked for: each permission on each
/// repository, put together again from what GitHub is asked, with the visibility that was found.
/// Until then the visibilities of all repositories are asked for, one after the other.
pub proof fn github_is_asked_for_what_cedar_allowed<'a, C>(
    pending: PendingExchange<'a, C>,
    visibility: String,
    now: u64,
    grant: Grant,
    lookup: InstallationLookup,
    i: int,
    name: Seq<char>,
)
    requires
        call_ensures(
            PendingExchange::<'a, C>::answer,
            (pending, Ok::<String, GitHubTokenError>(visibility), now),
            ExchangeStep::GitHub(grant, lookup),
        ),
        0 <= i < lookup@.request.repository_names.len(),
        lookup@.request.permissions.contains_key(name),
    ensures
        pending@.check.visibilities.len() + 1 == pending@.request.repositories@.len(),
        exists|skipped: Set<Seq<char>>|
            {
                &&& #[trigger] is_allowed_on_repository(
                    pending@.context.policy@,
                    pending@.check.principal,
                    name + seq![':'] + lookup@.request.permissions[name],
                    lookup@.request.namespace + seq!['/'] + lookup@.request.repository_names[i],
                    pending@.check.visibilities.push(visibility@)[i],
                    skipped,
                )
                &&& forall|id: Seq<char>| #[trigger]
                    skipped.contains(id) ==> exists|k: int|
                        0 <= k < grant.skipped@.len() && #[trigger] grant.skipped@[k]@ == id
            },
{
    let model = pending@;
    let scope = lookup@.request;
    let step = ExchangeStep::<'a, C>::GitHub(grant, lookup);
    assert(model.continues(visibility@, now, step));
    github_is_asked_for_what_is_granted::<C>(model, visibility@, now, grant, lookup, i, name);
    let repositories = texts(model.request.repositories@);
    parsed_repositories_are_the_requested(repositories, texts(model.request.permissions@), i);
    let repository = scope.namespace + seq!['/'] + scope.repository_names[i];
    let permission = name + seq![':'] + scope.permissions[name];
    let known = model.check.visibilities.push(visibility@)[i];
    let resource = repository_model(repository, known);
    let silent = choose|silent: Set<Seq<char>>|
        silent.subset_of(id_set(grant.skipped@))
            && #[trigger] model.context.policy@.allows_without(
            model.check.principal,
            permission,
            resource,
            silent,
        );
    assert(is_allowed_on_repository(
        model.context.policy@,
        model.check.principal,
        permission,
        repository,
        known,
        silent,
    ));
    assert forall|id: Seq<char>| #[trigger] silent.contains(id) implies exists|k: int|
        0 <= k < grant.skipped@.len() && #[trigger] grant.skipped@[k]@ == id by {
        listed_ids_are_in_the_set(grant.skipped@, id);
    }
}

/// An exchange goes on as the decision does: it asks for the visibility of the next repository, is
/// refused for what the decision is, and asks GitHub for the request itself once it is granted.
pub proof fn exchanges_go_on_as_the_decision_does<'a, C>(
    pending: PendingExchange<'a, C>,
    visibility: Result<String, GitHubTokenError>,
    now: u64,
    step: ExchangeStep<'a, C>,
)
    requires
        call_ensures(PendingExchange::<'a, C>::answer, (pending, visibility, now), step),
    ensures
        match step {
            ExchangeStep::Visibility(next) => {
                &&& call_ensures(
                    RepositoryCheck::<'a>::answer,
                    (pending.spec_check(), visibility),
                    Progress::Ask(next.spec_check()),
                )
                &&& next.spec_tokens() == pending.spec_tokens()
                &&& next.spec_request() == pending.spec_request()
            },
            ExchangeStep::Refused(Refusal::Policy(error)) => call_ensures(
                RepositoryCheck::<'a>::answer,
                (pending.spec_check(), visibility),
                Progress::Done(Err(error)),
            ),
            ExchangeStep::GitHub(grant, lookup) => {
                &&& call_ensures(
                    RepositoryCheck::<'a>::answer,
                    (pending.spec_check(), visibility),
                    Progress::Done(Ok(grant)),
                )
                &&& call_ensures(
                    GitHubTokens::get,
                    (pending.spec_tokens(), pending.spec_request(), now),
                    Ok::<InstallationLookup, GitHubTokenError>(lookup),
                )
            },
            ExchangeStep::Refused(Refusal::GitHub(error)) => {
                &&& call_ensures(
                    GitHubTokens::get,
                    (pending.spec_tokens(), pending.spec_request(), now),
                    Err::<InstallationLookup, GitHubTokenError>(error),
                )
                &&& exists|grant: Grant| #[trigger]
                    call_ensures(
                        RepositoryCheck::<'a>::answer,
                        (pending.spec_check(), visibility),
                        Progress::Done(Ok(grant)),
                    )
            },
            _ => false,
        },
{
}

/// GitHub is asked for all that was requested: each of the repositories and each of the
/// permissions, under the same names.
pub proof fn github_is_asked_for_all_that_was_requested<'a, C>(
    pending: PendingExchange<'a, C>,
    visibility: String,
    now: u64,
    grant: Grant,
    lookup: InstallationLookup,
    i: int,
    j: int,
)
    requires
        call_ensures(
            PendingExchange::<'a, C>::answer,
            (pending, Ok::<String, GitHubTokenError>(visibility), now),
            ExchangeStep::GitHub(grant, lookup),
        ),
        0 <= i < pending@.request.repositories@.len(),
        0 <= j < pending@.request.permissions@.len(),
    ensures
        lookup@.request.repository_names.len() == pending@.request.repositories@.len(),
        is_in_namespace(
            pending@.request.repositories@[i]@,
            lookup@.request.namespace,
            lookup@.request.repository_names[i],
        ),
        has_level(lookup@.request.permissions, pending@.request.permissions@[j]@),
{
    let step = ExchangeStep::<'a, C>::GitHub(grant, lookup);
    assert(pending@.continues(visibility@, now, step));
    lemma_parts_are_complete(pending@.request);
}

/// The repository that an exchange asks of is the first whose visibility is not known yet.
pub proof fn exchanges_ask_of_one_repository_after_the_other<'a, C>(
    pending: PendingExchange<'a, C>,
    repository: &'a str,
)
    requires
        call_ensures(PendingExchange::<'a, C>::repository, (&pending,), repository),
    ensures
        repository@ == pending@.check.repositories[pending@.check.visibilities.len() as int],
{
}

/// Any token can be presented and any access token asked for: nothing is demanded of a request
/// before it is answered. To go on with a visibility demands no more than a clock that leaves room
/// for the times in the app's own token.
pub proof fn any_request_is_answered<'a, C>(
    context: &'a Context<C>,
    token: &str,
    principal: &'a PolicyEntity,
    request: &'a TokenRequest,
    pending: PendingExchange<'a, C>,
    visibility: Result<String, GitHubTokenError>,
    now: u64,
)
    requires
        10 <= now <= i64::MAX - 300,
    ensures
        call_requires(authenticate::<C>, (context, token)),
        call_requires(exchange::<C>, (context, principal, request)),
        call_requires(PendingExchange::<'a, C>::answer, (pending, visibility, now)),
{
}

} // verus!
