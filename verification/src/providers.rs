//! The identity providers that are known.

use crate::context::PrincipalBuilder;
use vstd::prelude::*;

verus! {

/// An identity provider. Each kind has its own claims, and its tokens stand for its own kind of
/// principal.
#[derive(Debug)]
pub enum ProviderConfig {
    GitHubActions { url: String },
}

impl ProviderConfig {
    /// Where the provider describes itself.
    pub open spec fn spec_url(self) -> Seq<char> {
        match self {
            ProviderConfig::GitHubActions { url } => url@,
        }
    }

    /// Where the provider describes itself.
    pub fn url(&self) -> (url: &str)
        ensures
            url@ == self.spec_url(),
    {
        match self {
            ProviderConfig::GitHubActions { url } => url.as_str(),
        }
    }

    /// What makes a principal out of the provider's tokens.
    pub open spec fn spec_principal_builder(self) -> PrincipalBuilder {
        match self {
            ProviderConfig::GitHubActions { url } => PrincipalBuilder::WorkflowRun,
        }
    }

    /// What makes a principal out of the provider's tokens.
    pub fn principal_builder(&self) -> (builder: PrincipalBuilder)
        ensures
            builder == self.spec_principal_builder(),
    {
        match self {
            ProviderConfig::GitHubActions { url: _ } => PrincipalBuilder::WorkflowRun,
        }
    }
}

/// A provider describes itself at the URL that it is configured with.
pub proof fn providers_are_found_at_their_url(provider: &ProviderConfig, url: &str)
    requires
        call_ensures(ProviderConfig::url, (provider,), url),
    ensures
        *provider matches ProviderConfig::GitHubActions { url: own } ==> url@ == own@,
{
}

/// A token of GitHub Actions stands for a workflow run.
pub proof fn github_actions_runs_workflows(provider: &ProviderConfig, builder: PrincipalBuilder)
    requires
        call_ensures(ProviderConfig::principal_builder, (provider,), builder),
    ensures
        *provider is GitHubActions ==> builder == PrincipalBuilder::WorkflowRun,
{
}

} // verus!
