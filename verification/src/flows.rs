//! Decision logic of the broker's flows: cached-request freshness, form
//! construction, refresh preflight and compare-and-swap resolution, and the
//! Authorization Code + PKCE session.
//!
//! The asynchronous shell that performs store and transport calls lives
//! outside the verified library; these functions decide, from plain values,
//! what that shell does next.

pub mod auth_code_pkce;
pub mod client_credentials;
pub mod common;
pub mod refresh;
