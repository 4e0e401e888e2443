//! The tokens that are issued.

pub mod github;
pub mod oxide;
