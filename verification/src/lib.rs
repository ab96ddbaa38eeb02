//! Verified core of an OAuth2 authorization-code flow with PKCE for a
//! desktop application that receives the provider's redirect on a local
//! loopback listener.

pub mod authorize;
pub mod base64;
pub mod callback;
pub mod config;
pub mod entropy;
pub mod error;
pub mod flow;
pub mod listener;
pub mod pkce;
pub mod query;
pub mod sha256;
pub mod text;
pub mod token;
pub mod urlencode;
