//! Observability hooks for broker flows: flow/outcome labels, a counter
//! hook, and a span handle. Without an attached metrics or tracing backend
//! these record nothing; the labels are the stable part.

pub mod metrics;
pub mod tracing;

use vstd::prelude::*;

verus! {

/// OAuth flow kinds observed by the broker.
#[derive(Clone, Copy, Debug, PartialEq, Eq, Hash, Structural)]
pub enum FlowKind {
    /// Authorization Code + PKCE grant helpers.
    AuthorizationCode,
    /// Refresh token flow.
    Refresh,
    /// Client Credentials flow.
    ClientCredentials,
}

impl FlowKind {
    /// The stable label for the flow kind.
    pub open spec fn spec_as_str(self) -> Seq<char> {
        match self {
            FlowKind::AuthorizationCode => "authorization_code"@,
            FlowKind::Refresh => "refresh"@,
            FlowKind::ClientCredentials => "client_credentials"@,
        }
    }

    /// Returns a stable label suitable for span or metric fields.
    pub fn as_str(self) -> (r: &'static str)
        ensures
            r@ == self.spec_as_str(),
    {
        match self {
            FlowKind::AuthorizationCode => "authorization_code",
            FlowKind::Refresh => "refresh",
            FlowKind::ClientCredentials => "client_credentials",
        }
    }
}

/// Outcome labels recorded for each attempt.
#[derive(Clone, Copy, Debug, PartialEq, Eq, Hash, Structural)]
pub enum FlowOutcome {
    /// Entry to a broker helper.
    Attempt,
    /// Successful completion.
    Success,
    /// Failure propagated back to the caller.
    Failure,
}

impl FlowOutcome {
    /// The stable label for the outcome.
    pub open spec fn spec_as_str(self) -> Seq<char> {
        match self {
            FlowOutcome::Attempt => "attempt"@,
            FlowOutcome::Success => "success"@,
            FlowOutcome::Failure => "failure"@,
        }
    }

    /// Returns a stable label suitable for span or metric fields.
    pub fn as_str(self) -> (r: &'static str)
        ensures
            r@ == self.spec_as_str(),
    {
        match self {
            FlowOutcome::Attempt => "attempt",
            FlowOutcome::Success => "success",
            FlowOutcome::Failure => "failure",
        }
    }
}

} // verus!
