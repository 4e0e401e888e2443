//! What the service works with: its settings, the identity providers it trusts, its policy, and
//! what issues its tokens.

use crate::cedar::{is_policy_set, is_schema, Policies, PolicyEntity, PolicySchema};
use crate::jwt::{is_rsa_pem, ClaimModel};
use crate::oidc::{Claims, OidcError, ResolvedOidcConfig};
use crate::policy::{
    lemma_attribute_names, workflow_run_entity, workflow_run_model, Policy, PolicyError,
    PolicyModel,
};
use crate::providers::ProviderConfig;
use crate::settings::Settings;
use crate::string_map::StringMap;
use crate::token::github::{app_is_usable, GitHubTokenError, GitHubTokens};
use crate::token::oxide::{OxideError, OxideTokens};
use crate::util::Url;
use vstd::prelude::*;

verus! {

/// Why the service cannot start.
#[derive(Debug)]
pub enum ContextBuildError {
    ClientConstruction(String),
    OxideTokens(OxideError),
    GitHubTokens(GitHubTokenError),
    Oidc(OidcError),
    Policy(PolicyError),
}

impl ContextBuildError {
    /// What went wrong, in words.
    pub open spec fn spec_message(self) -> Seq<char> {
        match self {
            ContextBuildError::ClientConstruction(_) => "Failed to construct client"@,
            ContextBuildError::OxideTokens(_) => "Failed to initialize the Oxide token store"@,
            ContextBuildError::GitHubTokens(_) => "Failed to initialize the GitHub token store"@,
            ContextBuildError::Oidc(_) => "Encountered an error configuring OIDC providers"@,
            ContextBuildError::Policy(_) => "Failed to initialize the Cedar policy engine"@,
        }
    }

    /// What went wrong, in words.
    pub fn message(&self) -> (text: String)
        ensures
            text@ == self.spec_message(),
    {
        match self {
            ContextBuildError::ClientConstruction(_) => "Failed to construct client".to_owned(),
            ContextBuildError::OxideTokens(_) =>
                "Failed to initialize the Oxide token store".to_owned(),
            ContextBuildError::GitHubTokens(_) =>
                "Failed to initialize the GitHub token store".to_owned(),
            ContextBuildError::Oidc(_) =>
                "Encountered an error configuring OIDC providers".to_owned(),
            ContextBuildError::Policy(_) =>
                "Failed to initialize the Cedar policy engine".to_owned(),
        }
    }
}

/// What makes a principal out of the claims of a token. Each kind of identity provider has its own,
/// since their claims differ.
#[derive(Clone, Copy, Debug, PartialEq, Eq, Structural)]
pub enum PrincipalBuilder {
    /// Makes the workflow run of a GitHub Actions token.
    WorkflowRun,
}

impl PrincipalBuilder {
    /// What is known of the principal that is made.
    pub open spec fn builds(
        self,
        claims: Map<Seq<char>, ClaimModel>,
        principal: Result<PolicyEntity, PolicyError>,
    ) -> bool {
        match self {
            PrincipalBuilder::WorkflowRun => match workflow_run_model(claims) {
                None => principal matches Err(PolicyError::NoPrincipal),
                Some(model) => match principal {
                    Ok(p) => p@ == model,
                    Err(error) => error is EntityEvaluation,
                },
            },
        }
    }

    /// Makes the principal.
    pub fn build(&self, claims: &Claims) -> (principal: Result<PolicyEntity, PolicyError>)
        ensures
            self.builds(claims@, principal),
    {
        match self {
            PrincipalBuilder::WorkflowRun => workflow_run_entity(claims),
        }
    }
}

/// An identity provider whose tokens are accepted.
#[derive(Debug)]
pub struct ResolvedOidcProvider {
    pub config: ResolvedOidcConfig,
    pub build_principal: PrincipalBuilder,
}

/// The identity providers whose tokens are accepted, by their issuer.
#[derive(Debug)]
pub struct Providers {
    by_issuer: StringMap<ResolvedOidcProvider>,
}

impl View for Providers {
    type V = Map<Seq<char>, ResolvedOidcProvider>;

    closed spec fn view(&self) -> Map<Seq<char>, ResolvedOidcProvider> {
        self.by_issuer@
    }
}

/// Each provider stands under its own issuer.
pub open spec fn stand_under_issuer(providers: Map<Seq<char>, ResolvedOidcProvider>) -> bool {
    forall|issuer: Seq<char>| #[trigger]
        providers.contains_key(issuer) ==> providers[issuer].config.issuer@ == issuer
}

impl Providers {
    #[verifier::type_invariant]
    spec fn are_in_place(self) -> bool {
        stand_under_issuer(self.by_issuer@)
    }

    /// No provider.
    pub fn new() -> (providers: Providers)
        ensures
            providers@ == Map::<Seq<char>, ResolvedOidcProvider>::empty(),
    {
        Providers { by_issuer: StringMap::new() }
    }

    /// Accepts the tokens of a provider, in place of one with the same issuer.
    pub fn register(&mut self, provider: &ProviderConfig, config: ResolvedOidcConfig)
        ensures
            final(self)@ == old(self)@.insert(
                config.issuer@,
                ResolvedOidcProvider {
                    config,
                    build_principal: provider.spec_principal_builder(),
                },
            ),
    {
        proof {
            use_type_invariant(&*self);
        }
        let mut by_issuer: StringMap<ResolvedOidcProvider> = StringMap::new();
        std::mem::swap(&mut self.by_issuer, &mut by_issuer);
        let issuer = config.issuer.as_str().to_owned();
        by_issuer.insert(
            issuer,
            ResolvedOidcProvider { config, build_principal: provider.principal_builder() },
        );
        self.by_issuer = by_issuer;
    }

    /// The provider that is the issuer.
    pub fn get(&self, issuer: &str) -> (provider: Option<&ResolvedOidcProvider>)
        ensures
            match provider {
                Some(p) => {
                    &&& self@.contains_key(issuer@)
                    &&& *p == self@[issuer@]
                    &&& p.config.issuer@ == issuer@
                },
                None => !self@.contains_key(issuer@),
            },
    {
        proof {
            use_type_invariant(self);
        }
        self.by_issuer.get(issuer)
    }
}

/// A file of the policy: where it lies, and what it holds or why it could not be read.
#[derive(Debug)]
pub struct PolicyFile {
    pub path: String,
    pub content: Result<String, String>,
}

/// The policy is the one in the files, or the error tells of the first of them that cannot be read
/// or understood.
pub open spec fn is_read_from(
    schema: PolicyFile,
    policies: PolicyFile,
    policy: Result<Policy, PolicyError>,
) -> bool {
    match schema.content {
        Err(fault) => policy == Err::<Policy, PolicyError>(
            PolicyError::ReadFile(schema.path, fault),
        ),
        Ok(schema_source) => if !is_schema(schema_source@) {
            policy matches Err(PolicyError::InitSchema(_))
        } else {
            match policies.content {
                Err(fault) => policy == Err::<Policy, PolicyError>(
                    PolicyError::ReadFile(policies.path, fault),
                ),
                Ok(policy_source) => if !is_policy_set(policy_source@) {
                    policy matches Err(PolicyError::InitPolicy(_))
                } else {
                    policy matches Ok(p) && p@ == (PolicyModel {
                        schema: schema_source@,
                        policies: policy_source@,
                    })
                },
            }
        },
    }
}

/// Both files can be read and understood.
pub open spec fn policy_is_usable(schema: PolicyFile, policies: PolicyFile) -> bool {
    &&& schema.content matches Ok(source) && is_schema(source@)
    &&& policies.content matches Ok(source) && is_policy_set(source@)
}

/// The policy in two files.
pub fn read_policy(schema: PolicyFile, policies: PolicyFile) -> (policy: Result<
    Policy,
    PolicyError,
>)
    ensures
        is_read_from(schema, policies, policy),
{
    let schema = match schema.content {
        Ok(source) => match PolicySchema::parse(source) {
            Ok(schema) => schema,
            Err(error) => {
                return Err(PolicyError::InitSchema(error));
            },
        },
        Err(fault) => {
            return Err(PolicyError::ReadFile(schema.path, fault));
        },
    };
    let policies = match policies.content {
        Ok(source) => match Policies::parse(source) {
            Ok(policies) => policies,
            Err(error) => {
                return Err(PolicyError::InitPolicy(error));
            },
        },
        Err(fault) => {
            return Err(PolicyError::ReadFile(policies.path, fault));
        },
    };
    Ok(Policy::new(schema, policies))
}

/// What the service works with. `C` is the client of a silo.
pub struct Context<C> {
    pub settings: Settings,
    pub providers: Providers,
    pub oxide_tokens: OxideTokens<C>,
    pub github_tokens: GitHubTokens,
    pub policy: Policy,
}

impl<C> Context<C> {
    /// Puts together what the service works with: the providers that were found, the files of the
    /// policy, and the clients that were made for the silos.
    pub fn new(
        settings: Settings,
        providers: Providers,
        schema: PolicyFile,
        policies: PolicyFile,
        clients: Result<Vec<(Url, Result<C, String>)>, OxideError>,
    ) -> (context: Result<Self, ContextBuildError>)
        ensures
            match context {
                Ok(c) => {
                    &&& c.settings == settings
                    &&& c.providers == providers
                    &&& call_ensures(
                        GitHubTokens::new,
                        (&settings,),
                        Ok::<GitHubTokens, GitHubTokenError>(c.github_tokens),
                    )
                    &&& call_ensures(
                        read_policy,
                        (schema, policies),
                        Ok::<Policy, PolicyError>(c.policy),
                    )
                    &&& clients is Ok && call_ensures(
                        OxideTokens::<C>::new,
                        (&settings, clients->Ok_0),
                        Ok::<OxideTokens<C>, OxideError>(c.oxide_tokens),
                    )
                    &&& GitHubTokens::is_made_of(
                        settings,
                        Ok::<GitHubTokens, GitHubTokenError>(c.github_tokens),
                    )
                    &&& is_read_from(
                        schema,
                        policies,
                        Ok::<Policy, PolicyError>(c.policy),
                    )
                    &&& clients matches Ok(made)
                    &&& OxideTokens::is_made_of(
                        settings,
                        made@,
                        Ok::<OxideTokens<C>, OxideError>(c.oxide_tokens),
                    )
                },
                Err(ContextBuildError::GitHubTokens(error)) => {
                    &&& GitHubTokens::is_made_of(
                        settings,
                        Err::<GitHubTokens, GitHubTokenError>(error),
                    )
                    &&& call_ensures(
                        GitHubTokens::new,
                        (&settings,),
                        Err::<GitHubTokens, GitHubTokenError>(error),
                    )
                },
                Err(ContextBuildError::Policy(error)) => {
                    &&& call_ensures(
                        read_policy,
                        (schema, policies),
                        Err::<Policy, PolicyError>(error),
                    )
                    &&& app_is_usable(settings)
                    &&& is_read_from(
                        schema,
                        policies,
                        Err::<Policy, PolicyError>(error),
                    )
                },
                Err(ContextBuildError::OxideTokens(error)) => {
                    &&& app_is_usable(settings)
                    &&& policy_is_usable(schema, policies)
                    &&& match clients {
                        Ok(made) => {
                            &&& OxideTokens::is_made_of(
                                settings,
                                made@,
                                Err::<OxideTokens<C>, OxideError>(error),
                            )
                            &&& call_ensures(
                                OxideTokens::<C>::new,
                                (&settings, made),
                                Err::<OxideTokens<C>, OxideError>(error),
                            )
                        },
                        Err(fault) => error == fault,
                    }
                },
                Err(_) => false,
            },
    {
        let github_tokens = match GitHubTokens::new(&settings) {
            Ok(tokens) => tokens,
            Err(error) => {
                return Err(ContextBuildError::GitHubTokens(error));
            },
        };
        let policy = match read_policy(schema, policies) {
            Ok(policy) => policy,
            Err(error) => {
                return Err(ContextBuildError::Policy(error));
            },
        };
        let made = match clients {
            Ok(made) => made,
            Err(error) => {
                return Err(ContextBuildError::OxideTokens(error));
            },
        };
        let oxide_tokens = match OxideTokens::new(&settings, made) {
            Ok(tokens) => tokens,
            Err(error) => {
                return Err(ContextBuildError::OxideTokens(error));
            },
        };
        Ok(Context { settings, providers, oxide_tokens, github_tokens, policy })
    }
}

/// A provider is found by its own issuer.
pub proof fn providers_are_found_by_their_issuer(
    providers: &Providers,
    issuer: &str,
    found: Option<&ResolvedOidcProvider>,
)
    requires
        call_ensures(Providers::get, (providers, issuer), found),
    ensures
        found is Some <==> providers@.contains_key(issuer@),
        found matches Some(provider) ==> *provider == providers@[issuer@] && provider.config.issuer@
            == issuer@,
{
}

/// The principal of a token is made of its claims: it is known by the token's id, and its
/// attributes are the texts of the claims of their names.
pub proof fn principals_are_made_of_the_claims(
    builder: &PrincipalBuilder,
    claims: &Claims,
    principal: Result<PolicyEntity, PolicyError>,
    jti: &str,
    token_id: Option<&str>,
    id: &str,
    kind: &str,
    name: &str,
    text: Option<&str>,
    value: Option<&str>,
)
    requires
        *builder == PrincipalBuilder::WorkflowRun,
        call_ensures(PrincipalBuilder::build, (builder, claims), principal),
        jti@ == "jti"@,
        call_ensures(Claims::get_str, (claims, jti), token_id),
        call_ensures(Claims::get_str, (claims, name), text),
        principal matches Ok(p) ==> {
            &&& call_ensures(PolicyEntity::id, (&p,), id)
            &&& call_ensures(PolicyEntity::kind, (&p,), kind)
            &&& call_ensures(PolicyEntity::attr, (&p, name), value)
        },
    ensures
        (principal matches Err(PolicyError::NoPrincipal)) <==> token_id is None,
        principal matches Err(error) ==> error is NoPrincipal || error is EntityEvaluation,
        principal is Ok ==> {
            &&& kind@ == "Oidcx::WorkflowRun"@
            &&& token_id is Some
            &&& id@ == token_id->Some_0@
            &&& ({
                ||| name@ == "repository"@
                ||| name@ == "repository_owner"@
                ||| name@ == "repository_visibility"@
                ||| name@ == "event_name"@
                ||| name@ == "iss"@
            }) ==> {
                &&& value is Some
                &&& text is Some ==> value->Some_0@ == text->Some_0@
                &&& text is None ==> value->Some_0@.len() == 0
            }
            &&& name@ == "environment"@ ==> {
                &&& value is Some <==> text is Some
                &&& text is Some ==> value->Some_0@ == text->Some_0@
            }
            &&& value is Some ==> {
                ||| name@ == "repository"@
                ||| name@ == "repository_owner"@
                ||| name@ == "repository_visibility"@
                ||| name@ == "event_name"@
                ||| name@ == "iss"@
                ||| name@ == "environment"@
            }
        },
{
    lemma_attribute_names();
    reveal_strlit("");
}

/// The policy is the one that the two files hold. What is refused is refused for the first of the
/// two that cannot be read or understood.
pub proof fn policies_are_read_from_their_files(
    schema: PolicyFile,
    policies: PolicyFile,
    policy: Result<Policy, PolicyError>,
)
    requires
        call_ensures(read_policy, (schema, policies), policy),
    ensures
        policy is Ok <==> {
            &&& schema.content is Ok
            &&& is_schema(schema.content->Ok_0@)
            &&& policies.content is Ok
            &&& is_policy_set(policies.content->Ok_0@)
        },
        policy matches Ok(p) ==> {
            &&& p@.schema == schema.content->Ok_0@
            &&& p@.policies == policies.content->Ok_0@
        },
        policy matches Err(error) ==> match error {
            PolicyError::ReadFile(path, fault) => {
                ||| path == schema.path && schema.content == Err::<String, String>(fault)
                ||| {
                    &&& schema.content is Ok
                    &&& is_schema(schema.content->Ok_0@)
                    &&& path == policies.path
                    &&& policies.content == Err::<String, String>(fault)
                }
            },
            PolicyError::InitSchema(_) => schema.content is Ok && !is_schema(
                schema.content->Ok_0@,
            ),
            PolicyError::InitPolicy(_) => {
                &&& schema.content is Ok
                &&& is_schema(schema.content->Ok_0@)
                &&& policies.content is Ok
                &&& !is_policy_set(policies.content->Ok_0@)
            },
            _ => false,
        },
{
}

/// The service starts where its GitHub App, its policy and its silos can be used, and works with
/// just these. The first of them, in this order, that cannot be used is told of.
pub proof fn the_service_starts_with_what_is_configured<C>(
    settings: Settings,
    providers: Providers,
    schema: PolicyFile,
    policies: PolicyFile,
    clients: Result<Vec<(Url, Result<C, String>)>, OxideError>,
    context: Result<Context<C>, ContextBuildError>,
)
    requires
        call_ensures(
            Context::<C>::new,
            (settings, providers, schema, policies, clients),
            context,
        ),
    ensures
        context is Ok <==> {
            &&& settings.github matches Some(github) ==> (github.private_key is Ok && is_rsa_pem(
                github.private_key->Ok_0@,
            ))
            &&& schema.content is Ok && is_schema(schema.content->Ok_0@)
            &&& policies.content is Ok && is_policy_set(policies.content->Ok_0@)
            &&& clients is Ok
            &&& settings.oxide is None || forall|i: int|
                0 <= i < clients->Ok_0@.len() ==> (#[trigger] clients->Ok_0@[i]).1 is Ok
        },
        context matches Ok(c) ==> {
            &&& c.settings == settings
            &&& c.providers == providers
            &&& call_ensures(
                GitHubTokens::new,
                (&settings,),
                Ok::<GitHubTokens, GitHubTokenError>(c.github_tokens),
            )
            &&& call_ensures(
                OxideTokens::<C>::new,
                (&settings, clients->Ok_0),
                Ok::<OxideTokens<C>, OxideError>(c.oxide_tokens),
            )
            &&& c.policy@.schema == schema.content->Ok_0@
            &&& c.policy@.policies == policies.content->Ok_0@
            &&& c.github_tokens@ is Some <==> settings.github is Some
            &&& settings.github matches Some(github) ==> {
                &&& c.github_tokens@->Some_0.client_id == github.client_id@
                &&& c.github_tokens@->Some_0.private_key == github.private_key->Ok_0@
            }
            &&& c.oxide_tokens@ is Some <==> settings.oxide is Some
            &&& settings.oxide matches Some(oxide) ==> {
                &&& c.oxide_tokens@->Some_0.max_duration == oxide.max_duration
                &&& c.oxide_tokens@->Some_0.allow_tokens_without_expiry
                    == oxide.allow_tokens_without_expiry
            }
        },
        context matches Err(error) ==> match error {
            ContextBuildError::GitHubTokens(fault) => call_ensures(
                GitHubTokens::new,
                (&settings,),
                Err::<GitHubTokens, GitHubTokenError>(fault),
            ),
            ContextBuildError::Policy(fault) => {
                &&& call_ensures(
                    read_policy,
                    (schema, policies),
                    Err::<Policy, PolicyError>(fault),
                )
                &&& settings.github matches Some(github) ==> (github.private_key is Ok
                    && is_rsa_pem(github.private_key->Ok_0@))
            },
            ContextBuildError::OxideTokens(fault) => {
                &&& match clients {
                    Err(own) => fault == own,
                    Ok(made) => call_ensures(
                        OxideTokens::<C>::new,
                        (&settings, made),
                        Err::<OxideTokens<C>, OxideError>(fault),
                    ),
                }
                &&& settings.github matches Some(github) ==> (github.private_key is Ok
                    && is_rsa_pem(github.private_key->Ok_0@))
                &&& schema.content is Ok && is_schema(schema.content->Ok_0@)
                &&& policies.content is Ok && is_policy_set(policies.content->Ok_0@)
            },
            _ => false,
        },
{
}

/// A provider is registered under the issuer that it publishes, as it publishes itself, and the
/// others stay.
pub proof fn providers_are_registered_under_their_issuer(
    providers: &mut Providers,
    provider: &ProviderConfig,
    config: ResolvedOidcConfig,
    builder: PrincipalBuilder,
    other: Seq<char>,
)
    requires
        call_ensures(ProviderConfig::principal_builder, (provider,), builder),
        call_ensures(Providers::register, (providers, provider, config), ()),
    ensures
        final(providers)@.contains_key(config.issuer@),
        final(providers)@[config.issuer@].config == config,
        final(providers)@[config.issuer@].build_principal == builder,
        other != config.issuer@ ==> {
            &&& final(providers)@.contains_key(other) <==> old(providers)@.contains_key(other)
            &&& final(providers)@[other] == old(providers)@[other]
        },
{
}

/// A message says which part of the service could not be started.
pub proof fn messages_name_the_part_that_failed(error: &ContextBuildError, text: String)
    requires
        call_ensures(ContextBuildError::message, (error,), text),
    ensures
        match *error {
            ContextBuildError::ClientConstruction(_) => text@ == "Failed to construct client"@,
            ContextBuildError::OxideTokens(_) => text@
                == "Failed to initialize the Oxide token store"@,
            ContextBuildError::GitHubTokens(_) => text@
                == "Failed to initialize the GitHub token store"@,
            ContextBuildError::Oidc(_) => text@
                == "Encountered an error configuring OIDC providers"@,
            ContextBuildError::Policy(_) => text@
                == "Failed to initialize the Cedar policy engine"@,
        },
{
}

/// Any configuration can be tried.
pub proof fn any_configuration_can_be_tried<C>(
    settings: Settings,
    providers: Providers,
    schema: PolicyFile,
    policies: PolicyFile,
    clients: Result<Vec<(Url, Result<C, String>)>, OxideError>,
)
    ensures
        call_requires(Context::<C>::new, (settings, providers, schema, policies, clients)),
        call_requires(read_policy, (schema, policies)),
{
}

} // verus!
