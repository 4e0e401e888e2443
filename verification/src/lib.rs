//! Exchange of OIDC identity tokens for short-lived GitHub and Oxide tokens.

pub mod cedar;
pub mod context;
pub mod endpoints;
pub mod http;
pub mod jwt;
pub mod oidc;
pub mod policy;
pub mod providers;
pub mod settings;
pub mod string_map;
pub mod text;
pub mod token;
pub mod util;
pub mod visibility;
