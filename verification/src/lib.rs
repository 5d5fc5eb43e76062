//! An embeddable OAuth 2.0 token broker: validated identifiers and scope sets,
//! token records with a verified lifecycle, a compare-and-swap token store,
//! provider descriptors and error classification, and the decision logic of the
//! cached client-credentials and refresh flows.

pub mod auth;
pub mod crypto;
pub mod error;
pub mod ext;
pub mod flows;
pub mod http;
pub mod oauth;
pub mod obs;
pub mod provider;
pub mod store;
pub mod text;
