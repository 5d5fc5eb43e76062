//! Immutable token record structs, lifecycle helpers, and builders.

use vstd::prelude::*;

use crate::auth::scope::ScopeSet;
use crate::auth::token::family::{FamilyView, TokenFamily};
use crate::auth::token::secret::TokenSecret;

verus! {

/// Current lifecycle status for a token record.
#[derive(Clone, Copy, Debug, PartialEq, Eq, Structural)]
pub enum TokenStatus {
    /// Token is not yet valid because the issued-at instant is in the future.
    Pending,
    /// Token is currently valid.
    Active,
    /// Token exceeded its expiry instant.
    Expired,
    /// Token has been revoked locally or by the provider.
    Revoked,
}

/// Errors produced by [`TokenRecordBuilder`].
#[derive(Clone, Copy, Debug, PartialEq, Eq, Structural)]
pub enum TokenRecordBuilderError {
    /// Issued when no access token value was provided.
    MissingAccessToken,
    /// Issued when no expiry (absolute or relative) was configured.
    MissingExpiry,
}

/// Mathematical value of a [`TokenRecord`].
pub struct TokenRecordView {
    /// Family view.
    pub family: FamilyView,
    /// Normalized scope views.
    pub scope: Seq<Seq<char>>,
    /// Access secret text.
    pub access_token: Seq<char>,
    /// Refresh secret text, when present.
    pub refresh_token: Option<Seq<char>>,
    /// Issued-at instant, in Unix seconds.
    pub issued_at: i64,
    /// Expiry instant, in Unix seconds.
    pub expires_at: i64,
    /// Revocation instant, when revoked.
    pub revoked_at: Option<i64>,
}

impl TokenRecordView {
    /// Lifecycle status at `instant`: revocation wins, then a future
    /// issued-at means pending, then a passed expiry means expired.
    pub open spec fn spec_status_at(self, instant: i64) -> TokenStatus {
        if self.revoked_at is Some {
            TokenStatus::Revoked
        } else if instant < self.issued_at {
            TokenStatus::Pending
        } else if instant >= self.expires_at {
            TokenStatus::Expired
        } else {
            TokenStatus::Active
        }
    }
}

/// Immutable record describing issued OAuth tokens. All instants are UTC
/// Unix-epoch seconds.
pub struct TokenRecord {
    /// Logical token grouping (tenant/principal/provider).
    pub family: TokenFamily,
    /// Normalized scopes granted to this record.
    pub scope: ScopeSet,
    /// Access token secret; callers must avoid logging it.
    pub access_token: TokenSecret,
    /// Refresh token secret, if the provider issued one.
    pub refresh_token: Option<TokenSecret>,
    /// Issued-at instant recorded from the provider response.
    pub issued_at: i64,
    /// Expiry instant derived from issued_at plus expires_in or absolute expiry.
    pub expires_at: i64,
    /// Revocation instant if the record has been revoked.
    pub revoked_at: Option<i64>,
}

impl View for TokenRecord {
    type V = TokenRecordView;

    open spec fn view(&self) -> TokenRecordView {
        TokenRecordView {
            family: self.family@,
            scope: self.scope@,
            access_token: self.access_token@,
            refresh_token: match self.refresh_token {
                Some(ref s) => Some(s@),
                None => None,
            },
            issued_at: self.issued_at,
            expires_at: self.expires_at,
            revoked_at: self.revoked_at,
        }
    }
}

/// Reads the current UTC wall clock.
///
/// Relies on the time crate's `OffsetDateTime::now_utc`, reduced to whole
/// Unix-epoch seconds. The result depends on the environment, so nothing is
/// promised of it.
#[verifier::external_body]
pub(crate) fn now_unix() -> i64 {
    time::OffsetDateTime::now_utc().unix_timestamp()
}

impl TokenRecord {
    /// Returns a builder for constructing rotation-friendly records.
    pub fn builder(family: TokenFamily, scope: ScopeSet) -> (r: TokenRecordBuilder)
        ensures
            r == TokenRecordBuilder::spec_new(family, scope),
    {
        TokenRecordBuilder::new(family, scope)
    }

    /// Computes the lifecycle status at a given instant.
    pub fn status_at(&self, instant: i64) -> (r: TokenStatus)
        ensures
            r == self@.spec_status_at(instant),
    {
        if self.revoked_at.is_some() {
            return TokenStatus::Revoked;
        }
        if instant < self.issued_at {
            return TokenStatus::Pending;
        }
        if instant >= self.expires_at {
            return TokenStatus::Expired;
        }
        TokenStatus::Active
    }

    /// Convenience helper that checks the status using the current UTC instant.
    pub fn status(&self) -> (r: TokenStatus)
        ensures
            exists|now: i64| r == self@.spec_status_at(now),
            self@.revoked_at is Some ==> r is Revoked,
    {
        let now = now_unix();
        let r = self.status_at(now);
        proof {
            assert(r == self@.spec_status_at(now));
        }
        r
    }

    /// Returns `true` if the record is considered pending at the provided instant.
    pub fn is_pending_at(&self, instant: i64) -> (r: bool)
        ensures
            r == (self@.spec_status_at(instant) is Pending),
    {
        matches!(self.status_at(instant), TokenStatus::Pending)
    }

    /// Returns `true` if the record is currently pending (issued_at in the future).
    pub fn is_pending(&self) -> (r: bool)
        ensures
            exists|now: i64| r == (self@.spec_status_at(now) is Pending),
    {
        let now = now_unix();
        let r = matches!(self.status_at(now), TokenStatus::Pending);
        proof {
            assert(r == (self@.spec_status_at(now) is Pending));
        }
        r
    }

    /// Returns `true` if the record is currently active (not pending/expired/revoked).
    pub fn is_active(&self) -> (r: bool)
        ensures
            exists|now: i64| r == (self@.spec_status_at(now) is Active),
            self@.revoked_at is Some ==> !r,
    {
        let now = now_unix();
        let r = matches!(self.status_at(now), TokenStatus::Active);
        proof {
            assert(r == (self@.spec_status_at(now) is Active));
        }
        r
    }

    /// Returns `true` if the record has expired at the provided instant.
    pub fn is_expired_at(&self, instant: i64) -> (r: bool)
        ensures
            r == (self@.spec_status_at(instant) is Expired),
    {
        matches!(self.status_at(instant), TokenStatus::Expired)
    }

    /// Returns `true` if the record is expired relative to the current clock.
    pub fn is_expired(&self) -> (r: bool)
        ensures
            exists|now: i64| r == (self@.spec_status_at(now) is Expired),
            self@.revoked_at is Some ==> !r,
    {
        let now = now_unix();
        let r = matches!(self.status_at(now), TokenStatus::Expired);
        proof {
            assert(r == (self@.spec_status_at(now) is Expired));
        }
        r
    }

    /// Returns `true` if the record has been revoked.
    pub fn is_revoked(&self) -> (r: bool)
        ensures
            r == (self@.revoked_at is Some),
    {
        self.revoked_at.is_some()
    }

    /// Marks the record as revoked. The status is Revoked at every instant
    /// afterwards, whatever instant is recorded.
    pub fn revoke(&mut self, instant: i64)
        ensures
            final(self)@ == (TokenRecordView { revoked_at: Some(instant), ..old(self)@ }),
            forall|t: i64| final(self)@.spec_status_at(t) is Revoked,
    {
        self.revoked_at = Some(instant);
    }
}

impl Clone for TokenRecord {
    fn clone(&self) -> (r: Self)
        ensures
            r@ == self@,
    {
        TokenRecord {
            family: self.family.clone(),
            scope: self.scope.clone(),
            access_token: self.access_token.clone(),
            refresh_token: match &self.refresh_token {
                Some(s) => Some(s.clone()),
                None => None,
            },
            issued_at: self.issued_at,
            expires_at: self.expires_at,
            revoked_at: self.revoked_at,
        }
    }
}

/// Status is monotone in time: an unrevoked record whose issue precedes its
/// expiry is pending before issue, active from issue up to expiry, and
/// expired from expiry on. (Once revoked, [`TokenRecord::revoke`] guarantees
/// the status is revoked at every instant.)
pub proof fn lemma_status_monotone(r: TokenRecordView, t: i64)
    requires
        r.issued_at < r.expires_at,
        r.revoked_at is None,
    ensures
        t < r.issued_at ==> r.spec_status_at(t) is Pending,
        r.issued_at <= t < r.expires_at ==> r.spec_status_at(t) is Active,
        t >= r.expires_at ==> r.spec_status_at(t) is Expired,
{
}

/// Addition on instants that clamps at the representable range instead of
/// wrapping.
pub open spec fn sat_add_i64(a: i64, b: i64) -> i64 {
    if a + b > i64::MAX {
        i64::MAX
    } else if a + b < i64::MIN {
        i64::MIN
    } else {
        (a + b) as i64
    }
}

/// Builder for [`TokenRecord`].
pub struct TokenRecordBuilder {
    /// Family the record will belong to.
    pub family: TokenFamily,
    /// Scope set the record will carry.
    pub scope: ScopeSet,
    /// Access secret, once provided.
    pub access_token: Option<TokenSecret>,
    /// Refresh secret, once provided.
    pub refresh_token: Option<TokenSecret>,
    /// Explicit issued-at instant, Unix seconds.
    pub issued_at: Option<i64>,
    /// Absolute expiry instant, Unix seconds.
    pub expires_at: Option<i64>,
    /// Relative expiry, in seconds from the issued instant.
    pub expires_in: Option<i64>,
}

impl TokenRecordBuilder {
    /// The freshly initialized builder for a family and scope.
    pub open spec fn spec_new(family: TokenFamily, scope: ScopeSet) -> TokenRecordBuilder {
        TokenRecordBuilder {
            family,
            scope,
            access_token: None,
            refresh_token: None,
            issued_at: None,
            expires_at: None,
            expires_in: None,
        }
    }

    /// Creates an empty builder for the family and scope.
    pub fn new(family: TokenFamily, scope: ScopeSet) -> (r: Self)
        ensures
            r == Self::spec_new(family, scope),
    {
        TokenRecordBuilder {
            family,
            scope,
            access_token: None,
            refresh_token: None,
            issued_at: None,
            expires_at: None,
            expires_in: None,
        }
    }

    /// Sets the issued-at instant.
    pub fn issued_at(self, instant: i64) -> (r: Self)
        ensures
            r == (TokenRecordBuilder { issued_at: Some(instant), ..self }),
    {
        TokenRecordBuilder { issued_at: Some(instant), ..self }
    }

    /// Convenience helper that stamps `issued_at` with the current clock.
    pub fn issued_now(self) -> (r: Self)
        ensures
            r.issued_at is Some,
            r == (TokenRecordBuilder { issued_at: r.issued_at, ..self }),
    {
        let now = now_unix();
        TokenRecordBuilder { issued_at: Some(now), ..self }
    }

    /// Sets an absolute expiry instant.
    pub fn expires_at(self, instant: i64) -> (r: Self)
        ensures
            r == (TokenRecordBuilder { expires_at: Some(instant), ..self }),
    {
        TokenRecordBuilder { expires_at: Some(instant), ..self }
    }

    /// Sets a relative expiry duration, in seconds from the issued instant.
    pub fn expires_in(self, seconds: i64) -> (r: Self)
        ensures
            r == (TokenRecordBuilder { expires_in: Some(seconds), ..self }),
    {
        TokenRecordBuilder { expires_in: Some(seconds), ..self }
    }

    /// Provides the access token value.
    pub fn access_token(self, token: &str) -> (r: Self)
        ensures
            r.access_token matches Some(s) && s@ == token@,
            r == (TokenRecordBuilder { access_token: r.access_token, ..self }),
    {
        TokenRecordBuilder { access_token: Some(TokenSecret::new(token)), ..self }
    }

    /// Provides the refresh token value.
    pub fn refresh_token(self, token: &str) -> (r: Self)
        ensures
            r.refresh_token matches Some(s) && s@ == token@,
            r == (TokenRecordBuilder { refresh_token: r.refresh_token, ..self }),
    {
        TokenRecordBuilder { refresh_token: Some(TokenSecret::new(token)), ..self }
    }

    /// Consumes the builder and produces a [`TokenRecord`].
    ///
    /// A missing access token fails, then a missing expiry; an absolute
    /// expiry wins over a relative one; a relative expiry counts from the
    /// issued instant (the current clock when none was set), clamped at the
    /// representable range.
    pub fn build(self) -> (r: Result<TokenRecord, TokenRecordBuilderError>)
        ensures
            r is Ok <==> (self.access_token is Some && (self.expires_at is Some
                || self.expires_in is Some)),
            self.access_token is None ==> r == Err::<TokenRecord, _>(
                TokenRecordBuilderError::MissingAccessToken,
            ),
            self.access_token is Some && self.expires_at is None && self.expires_in is None
                ==> r == Err::<TokenRecord, _>(TokenRecordBuilderError::MissingExpiry),
            r matches Ok(rec) ==> {
                &&& rec@.family == self.family@
                &&& rec@.scope == self.scope@
                &&& self.access_token matches Some(a) && rec@.access_token == a@
                &&& rec@.refresh_token == (match self.refresh_token {
                    Some(s) => Some(s@),
                    None => None,
                })
                &&& (self.issued_at matches Some(t) ==> rec@.issued_at == t)
                &&& (self.expires_at matches Some(e) ==> rec@.expires_at == e)
                &&& (match (self.expires_at, self.issued_at, self.expires_in) {
                    (None, Some(t), Some(d)) => rec@.expires_at == sat_add_i64(t, d),
                    _ => true,
                })
                &&& rec@.revoked_at is None
            },
    {
        let access_token = match self.access_token {
            Some(t) => t,
            None => {
                return Err(TokenRecordBuilderError::MissingAccessToken);
            },
        };
        let issued_at = match self.issued_at {
            Some(t) => t,
            None => now_unix(),
        };
        let expires_at = match (self.expires_at, self.expires_in) {
            (Some(instant), _) => instant,
            (None, Some(delta)) => saturating_add_i64(issued_at, delta),
            (None, None) => {
                return Err(TokenRecordBuilderError::MissingExpiry);
            },
        };
        Ok(TokenRecord {
            family: self.family,
            scope: self.scope,
            access_token,
            refresh_token: self.refresh_token,
            issued_at,
            expires_at,
            revoked_at: None,
        })
    }
}

/// Clamped addition on Unix-second instants.
pub fn saturating_add_i64(a: i64, b: i64) -> (r: i64)
    ensures
        r == sat_add_i64(a, b),
{
    let wide: i128 = (a as i128) + (b as i128);
    if wide > i64::MAX as i128 {
        i64::MAX
    } else if wide < i64::MIN as i128 {
        i64::MIN
    } else {
        wide as i64
    }
}

} // verus!
