//! Broker-level error types shared across flows, providers, and stores.

use vstd::prelude::*;

use crate::auth::scope::ScopeValidationError;
use crate::auth::token::record::TokenRecordBuilderError;
use crate::provider::descriptor::grant::GrantType;
use crate::store::StoreError;

verus! {

/// Configuration and validation failures raised by the broker.
#[derive(Clone, Debug, PartialEq, Eq)]
pub enum ConfigError {
    /// HTTP client could not be constructed.
    HttpClientBuild {
        /// Description of the underlying transport builder failure.
        message: String,
    },
    /// HTTP request construction failed.
    HttpRequest {
        /// Description of the underlying request construction failure.
        message: String,
    },
    /// Provider descriptor contains an invalid URL.
    InvalidDescriptor {
        /// Description of the underlying parsing failure.
        message: String,
    },
    /// Redirect URI cannot be parsed.
    InvalidRedirect {
        /// Description of the underlying parsing failure.
        message: String,
    },
    /// Descriptor does not enable the requested grant.
    UnsupportedGrant {
        /// Provider identifier string.
        descriptor: String,
        /// Disabled grant.
        grant: GrantType,
    },
    /// Cached record is missing a refresh secret.
    MissingRefreshToken,
    /// Request scopes cannot be normalized.
    InvalidScope(ScopeValidationError),
    /// Token record builder validation failed.
    TokenBuild(TokenRecordBuilderError),
    /// Token endpoint response omitted `expires_in`.
    MissingExpiresIn,
    /// Token endpoint returned an excessively large `expires_in`.
    ExpiresInOutOfRange,
    /// Token endpoint returned a non-positive duration.
    NonPositiveExpiresIn,
    /// Provider changed scopes during the exchange.
    ScopesChanged {
        /// Grant during which the change was observed.
        grant: GrantType,
    },
}

impl ConfigError {
    /// Wraps a transport builder failure description.
    pub fn http_client_build(message: String) -> (r: Self)
        ensures
            r matches ConfigError::HttpClientBuild { message: m } && m@ == message@,
    {
        ConfigError::HttpClientBuild { message }
    }
}

/// Temporary failure variants (safe to retry). Durations are whole seconds.
#[derive(Clone, Debug, PartialEq, Eq)]
pub enum TransientError {
    /// Provider returned an unexpected but non-fatal response.
    TokenEndpoint {
        /// Provider- or broker-supplied message summarizing the failure.
        message: String,
        /// HTTP status code, when available.
        status: Option<u16>,
        /// Retry-After hint from upstream, in seconds, if supplied.
        retry_after: Option<i64>,
    },
    /// Token endpoint responded with malformed JSON that could not be parsed.
    TokenResponseParse {
        /// Description of the parsing failure.
        message: String,
        /// HTTP status code, when available.
        status: Option<u16>,
    },
}

/// Transport-level failures (network, IO).
#[derive(Clone, Debug, PartialEq, Eq)]
pub enum TransportError {
    /// Underlying HTTP client reported a network failure.
    Network {
        /// Description of the transport-specific network error.
        message: String,
    },
    /// Underlying IO failure surfaced during transport.
    Io {
        /// Description of the IO failure.
        message: String,
    },
}

impl TransportError {
    /// Wraps a transport-specific network error description.
    pub fn network(message: String) -> (r: Self)
        ensures
            r matches TransportError::Network { message: m } && m@ == message@,
    {
        TransportError::Network { message }
    }
}

/// Canonical broker error exposed by public APIs.
#[derive(Clone, Debug, PartialEq, Eq)]
pub enum Error {
    /// Storage-layer failure.
    Storage(StoreError),
    /// Local configuration problem.
    Config(ConfigError),
    /// Temporary upstream failure; retry with backoff.
    Transient(TransientError),
    /// Transport failure (DNS, TCP, TLS).
    Transport(TransportError),
    /// Requested scopes exceed what was granted.
    InsufficientScope {
        /// Provider- or broker-supplied reason string.
        reason: String,
    },
    /// Provider rejected the grant (e.g., bad code or refresh token).
    InvalidGrant {
        /// Provider- or broker-supplied reason string.
        reason: String,
    },
    /// Client authentication failed or credentials are malformed.
    InvalidClient {
        /// Provider- or broker-supplied reason string.
        reason: String,
    },
    /// Token has been revoked and must not be reused.
    Revoked,
}

impl Error {
    /// Whether a refresh failure with this error triggers the broker's
    /// best-effort local revocation: only the OAuth outcomes that say the
    /// refresh secret is dead.
    pub open spec fn spec_triggers_revocation(&self) -> bool {
        self is InvalidGrant || self is Revoked
    }

    /// Returns true when a refresh failure with this error should revoke the
    /// cached record.
    pub fn triggers_revocation(&self) -> (r: bool)
        ensures
            r == self.spec_triggers_revocation(),
    {
        matches!(self, Error::InvalidGrant { .. } | Error::Revoked)
    }
}

} // verus!
