//! Authorization Code + PKCE flow pieces.

pub mod session;
