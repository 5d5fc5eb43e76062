//! Refresh flow decision logic: preflight over the cached record, refresh
//! secret carry-over, the auto-revocation test, and compare-and-swap outcome
//! resolution.

pub mod metrics;

use vstd::prelude::*;

use crate::auth::token::record::{TokenRecord, TokenRecordView};
use crate::auth::token::secret::TokenSecret;
use crate::flows::common::CachedTokenRequest;
use crate::store::CompareAndSwapOutcome;

verus! {

/// What the refresh flow does after fetching the cached record.
pub enum RefreshPreflight {
    /// No cached record: the refresh fails with an invalid-grant error.
    MissingRecord,
    /// The record is still fresh: it is returned without a provider call.
    CacheHit(TokenRecord),
    /// The record must be refreshed but carries no refresh secret.
    MissingRefresh,
    /// The record must be refreshed with this expected refresh secret.
    Refresh {
        /// The refresh secret the provider call and the later
        /// compare-and-swap both use.
        expected_refresh: String,
    },
}

/// Decides the refresh flow's next step from the fetched record: no record
/// fails, a fresh record is a cache hit, a stale record without a refresh
/// secret fails, and a stale record with one goes to the provider.
pub fn refresh_preflight(request: &CachedTokenRequest, fetched: Option<TokenRecord>, now: i64) -> (
    r: RefreshPreflight)
    ensures
        fetched is None <==> r is MissingRecord,
        (match fetched {
            Some(f) => !request.spec_should_refresh(f@, now) ==> (r matches
            RefreshPreflight::CacheHit(rec) && rec@ == f@),
            None => true,
        }),
        (match fetched {
            Some(f) => (request.spec_should_refresh(f@, now) && f@.refresh_token is None) ==> r
                is MissingRefresh,
            None => true,
        }),
        (match fetched {
            Some(f) => (request.spec_should_refresh(f@, now) && f@.refresh_token is Some) ==> (
            r matches RefreshPreflight::Refresh { expected_refresh } && Some(expected_refresh@)
                == f@.refresh_token),
            None => true,
        }),
{
    let record = match fetched {
        Some(record) => record,
        None => {
            return RefreshPreflight::MissingRecord;
        },
    };
    if !request.should_refresh(&record, now) {
        return RefreshPreflight::CacheHit(record);
    }
    match &record.refresh_token {
        Some(secret) => RefreshPreflight::Refresh {
            expected_refresh: secret.expose().to_owned(),
        },
        None => RefreshPreflight::MissingRefresh,
    }
}

/// Carries the expected refresh secret into a rebuilt record when the
/// provider rotated nothing, so rotation never drops the family's secret.
pub fn carry_refresh_secret(
    facade_record: TokenRecord,
    new_refresh: &Option<String>,
    expected_refresh: &str,
) -> (r: TokenRecord)
    ensures
        new_refresh is Some ==> r@ == facade_record@,
        new_refresh is None ==> r@ == (TokenRecordView {
            refresh_token: Some(expected_refresh@),
            ..facade_record@
        }),
{
    match new_refresh {
        Some(_) => facade_record,
        None => TokenRecord {
            refresh_token: Some(TokenSecret::new(expected_refresh)),
            ..facade_record
        },
    }
}

/// How the refresh flow concludes after the compare-and-swap.
pub enum CasResolution {
    /// Return the updated record; save it first when the swap did not
    /// install it.
    UseUpdated {
        /// Whether a plain save must run before returning.
        save_required: bool,
    },
    /// A concurrent winner already rotated: return its record as fetched.
    UseExisting(TokenRecord),
}

/// Resolves a compare-and-swap outcome: `Updated` returns the updated
/// record, `Missing` saves it first, and `RefreshMismatch` returns the
/// record a re-read found (saving the update only when even the re-read
/// found nothing).
pub fn resolve_cas_outcome(outcome: CompareAndSwapOutcome, refetched: Option<TokenRecord>) -> (r:
    CasResolution)
    ensures
        outcome is Updated ==> (r matches CasResolution::UseUpdated { save_required }
            && !save_required),
        outcome is Missing ==> (r matches CasResolution::UseUpdated { save_required }
            && save_required),
        (outcome is RefreshMismatch && refetched is None) ==> (r matches
        CasResolution::UseUpdated { save_required } && save_required),
        (match refetched {
            Some(e) => outcome is RefreshMismatch ==> (r matches CasResolution::UseExisting(rec)
                && rec@ == e@),
            None => true,
        }),
{
    match outcome {
        CompareAndSwapOutcome::Updated => CasResolution::UseUpdated { save_required: false },
        CompareAndSwapOutcome::Missing => CasResolution::UseUpdated { save_required: true },
        CompareAndSwapOutcome::RefreshMismatch => match refetched {
            Some(existing) => CasResolution::UseExisting(existing),
            None => CasResolution::UseUpdated { save_required: true },
        },
    }
}

} // verus!
