//! The configuration of the service.

use crate::providers::ProviderConfig;
use vstd::prelude::*;

verus! {

/// The configuration of the service. Paths are kept as text.
#[derive(Debug)]
pub struct Settings {
    /// The `aud` claim that tokens must carry.
    pub audience: String,
    /// Where the authorization policy lies.
    pub policy_path: String,
    pub log_directory: Option<String>,
    pub port: Option<u16>,
    /// The identity providers whose tokens are accepted.
    pub providers: Vec<ProviderConfig>,
    /// Present when Oxide silo tokens are issued.
    pub oxide: Option<SettingsOxide>,
    /// Present when GitHub tokens are issued.
    pub github: Option<SettingsGitHubApp>,
    /// The directory that the paths of file-backed parameters start from.
    pub params_base_path: Option<String>,
}

/// How Oxide silo tokens are issued.
#[derive(Debug)]
pub struct SettingsOxide {
    /// The longest lifetime of a token, in seconds.
    pub max_duration: u32,
    /// Whether a token may be issued that never expires.
    pub allow_tokens_without_expiry: bool,
    /// The credential of each silo by the silo's URL, or why the manifest of silos could not be
    /// read. Each credential may itself be unreadable.
    pub silos: Result<Vec<(String, Result<String, String>)>, String>,
}

/// The GitHub App that issues GitHub tokens.
#[derive(Debug)]
pub struct SettingsGitHubApp {
    pub client_id: String,
    /// The private key of the app, in PEM, or why the configured one could not be read.
    pub private_key: Result<String, String>,
}

/// The longest lifetime of a silo token where the configuration gives none: one hour.
pub fn default_max_duration() -> (seconds: u32)
    ensures
        seconds == 3600,
{
    3600
}

/// Without configuration no token is issued that never expires.
pub fn default_allow_tokens_without_expiry() -> (allowed: bool)
    ensures
        !allowed,
{
    false
}

} // verus!
