//! Storage contracts and the built-in in-memory store for broker token
//! records.
//!
//! A store is modelled as a map from [`StoreKeyView`] (family plus scope
//! fingerprint) to token record values; every operation's contract says what
//! it does to that map.

pub mod memory;

pub use memory::MemoryStore;

use vstd::prelude::*;

use crate::auth::scope::{fingerprint_of, ScopeSet};
use crate::auth::token::family::{FamilyView, TokenFamily};
use crate::auth::token::record::{TokenRecord, TokenRecordView};
use crate::auth::token::secret::TokenSecret;
use crate::text::str_eq_chars;

verus! {

/// Result of a refresh-token compare-and-swap attempt.
#[derive(Clone, Copy, Debug, PartialEq, Eq, Structural)]
pub enum CompareAndSwapOutcome {
    /// The refresh secret matched the expected value and the record was updated.
    Updated,
    /// The record exists but the expected refresh secret did not match.
    RefreshMismatch,
    /// No record matched the provided family + scope.
    Missing,
}

/// Error type produced by [`BrokerStore`] implementations.
#[derive(Clone, Debug, PartialEq, Eq)]
pub enum StoreError {
    /// Serialization failures surfaced by the backend.
    Serialization {
        /// Human-readable error payload.
        message: String,
    },
    /// Backend-level failure for the storage engine.
    Backend {
        /// Human-readable error payload.
        message: String,
    },
}

/// Mathematical value of a [`StoreKey`].
pub struct StoreKeyView {
    /// Family component.
    pub family: FamilyView,
    /// Scope fingerprint component.
    pub fingerprint: Seq<char>,
}

/// Unique key identifying a stored token record.
#[derive(Eq, Debug)]
pub struct StoreKey {
    /// Token family component.
    pub family: TokenFamily,
    /// Scope fingerprint used for partitioning.
    pub scope_fingerprint: String,
}

impl View for StoreKey {
    type V = StoreKeyView;

    open spec fn view(&self) -> StoreKeyView {
        StoreKeyView { family: self.family@, fingerprint: self.scope_fingerprint@ }
    }
}

/// The store key under which a record is filed: its family plus the
/// fingerprint of its scope sequence.
pub open spec fn record_key(r: TokenRecordView) -> StoreKeyView {
    StoreKeyView { family: r.family, fingerprint: fingerprint_of(r.scope) }
}

/// The key for a family and scope pair.
pub open spec fn key_view_of(family: FamilyView, scope: Seq<Seq<char>>) -> StoreKeyView {
    StoreKeyView { family, fingerprint: fingerprint_of(scope) }
}

impl StoreKey {
    /// Builds a key using the provided family and scope fingerprint.
    pub fn new(family: &TokenFamily, scope: &ScopeSet) -> (r: Self)
        ensures
            r@ == key_view_of(family@, scope@),
    {
        let r = StoreKey { family: family.clone(), scope_fingerprint: scope.fingerprint() };
        r
    }
}

impl Clone for StoreKey {
    fn clone(&self) -> (r: Self)
        ensures
            r@ == self@,
    {
        StoreKey {
            family: self.family.clone(),
            scope_fingerprint: self.scope_fingerprint.clone(),
        }
    }
}

impl PartialEq for StoreKey {
    fn eq(&self, other: &Self) -> (r: bool) {
        let fp_eq = str_eq_chars(self.scope_fingerprint.as_str(), other.scope_fingerprint.as_str());
        let r = self.family == other.family && fp_eq;
        proof {
            if r {
                assert(self@ == other@);
            }
        }
        r
    }
}

impl vstd::std_specs::cmp::PartialEqSpecImpl for StoreKey {
    open spec fn obeys_eq_spec() -> bool {
        true
    }

    open spec fn eq_spec(&self, other: &Self) -> bool {
        self@ == other@
    }
}

/// Whether a record's refresh secret matches an expected value: two absent
/// secrets match, two present ones match when their bytes are equal.
pub open spec fn refresh_match(current: Option<Seq<char>>, expected: Option<Seq<char>>) -> bool {
    match (current, expected) {
        (None, None) => true,
        (Some(c), Some(e)) => c == e,
        _ => false,
    }
}

/// View of an optional borrowed string.
pub open spec fn opt_str_view(o: Option<&str>) -> Option<Seq<char>> {
    match o {
        Some(s) => Some(s@),
        None => None,
    }
}

/// What a compare-and-swap on `m` at `k` with `expected` reports: missing
/// records stay missing, a matching refresh secret updates, anything else is
/// a mismatch.
pub open spec fn cas_decision(
    m: Map<StoreKeyView, TokenRecordView>,
    k: StoreKeyView,
    expected: Option<Seq<char>>,
) -> CompareAndSwapOutcome {
    if !m.dom().contains(k) {
        CompareAndSwapOutcome::Missing
    } else if refresh_match(m[k].refresh_token, expected) {
        CompareAndSwapOutcome::Updated
    } else {
        CompareAndSwapOutcome::RefreshMismatch
    }
}

/// The state after a compare-and-swap: the replacement is installed only on
/// an `Updated` outcome.
pub open spec fn cas_result(
    m: Map<StoreKeyView, TokenRecordView>,
    k: StoreKeyView,
    expected: Option<Seq<char>>,
    replacement: TokenRecordView,
) -> Map<StoreKeyView, TokenRecordView> {
    if cas_decision(m, k, expected) is Updated {
        m.insert(k, replacement)
    } else {
        m
    }
}

/// Storage backend contract implemented by broker token stores.
///
/// `contents` is the abstract mapping the backend maintains; `wf` is whatever
/// internal well-formedness it needs. All mutation goes through `save`,
/// `compare_and_swap_refresh`, and `revoke`.
pub trait BrokerStore: Sized {
    /// Internal well-formedness of the backend.
    spec fn wf(&self) -> bool;

    /// The abstract mapping from store keys to records.
    spec fn contents(&self) -> Map<StoreKeyView, TokenRecordView>;

    /// Persists or replaces a token record for the provided family + scope.
    fn save(&mut self, record: TokenRecord) -> (r: Result<(), StoreError>)
        requires
            old(self).wf(),
        ensures
            final(self).wf(),
            r is Ok ==> final(self).contents() == old(self).contents().insert(
                record_key(record@),
                record@,
            ),
            r is Err ==> final(self).contents() == old(self).contents(),
    ;

    /// Fetches the record associated with the family + scope, if present.
    fn fetch(&self, family: &TokenFamily, scope: &ScopeSet) -> (r: Result<
        Option<TokenRecord>,
        StoreError,
    >)
        requires
            self.wf(),
        ensures
            r matches Ok(Some(rec)) ==> self.contents().dom().contains(
                key_view_of(family@, scope@),
            ) && rec@ == self.contents()[key_view_of(family@, scope@)],
            r matches Ok(None) ==> !self.contents().dom().contains(key_view_of(family@, scope@)),
    ;

    /// Atomically rotates a refresh token if the expected secret matches.
    fn compare_and_swap_refresh(
        &mut self,
        family: &TokenFamily,
        scope: &ScopeSet,
        expected_refresh: Option<&str>,
        replacement: TokenRecord,
    ) -> (r: Result<CompareAndSwapOutcome, StoreError>)
        requires
            old(self).wf(),
        ensures
            final(self).wf(),
            r matches Ok(outcome) ==> outcome == cas_decision(
                old(self).contents(),
                key_view_of(family@, scope@),
                opt_str_view(expected_refresh),
            ) && final(self).contents() == cas_result(
                old(self).contents(),
                key_view_of(family@, scope@),
                opt_str_view(expected_refresh),
                replacement@,
            ),
            r is Err ==> final(self).contents() == old(self).contents(),
    ;

    /// Marks a record as revoked at the provided instant, returning the
    /// updated record when one was present.
    fn revoke(&mut self, family: &TokenFamily, scope: &ScopeSet, instant: i64) -> (r: Result<
        Option<TokenRecord>,
        StoreError,
    >)
        requires
            old(self).wf(),
        ensures
            final(self).wf(),
            r matches Ok(Some(rec)) ==> {
                &&& old(self).contents().dom().contains(key_view_of(family@, scope@))
                &&& rec@ == (TokenRecordView {
                    revoked_at: Some(instant),
                    ..old(self).contents()[key_view_of(family@, scope@)]
                })
                &&& final(self).contents() == old(self).contents().insert(
                    key_view_of(family@, scope@),
                    rec@,
                )
            },
            r matches Ok(None) ==> !old(self).contents().dom().contains(
                key_view_of(family@, scope@),
            ) && final(self).contents() == old(self).contents(),
            r is Err ==> final(self).contents() == old(self).contents(),
    ;
}

/// Store key stability: two scope sets with the same members file records
/// under the same key for any family.
pub proof fn lemma_store_key_stability(f: FamilyView, a: ScopeSet, b: ScopeSet)
    requires
        a.wf(),
        b.wf(),
        forall|x: Seq<char>| a@.contains(x) <==> b@.contains(x),
    ensures
        key_view_of(f, a@) == key_view_of(f, b@),
{
    crate::auth::scope::lemma_fingerprint_stability(a, b);
}

/// Fetching a key right after saving a record under it returns that record:
/// the store round-trips what it is given.
pub proof fn lemma_save_fetch_round_trip(
    m: Map<StoreKeyView, TokenRecordView>,
    r: TokenRecordView,
)
    ensures
        m.insert(record_key(r), r).dom().contains(record_key(r)),
        m.insert(record_key(r), r)[record_key(r)] == r,
{
}

/// Compare-and-swap admits a single winner: once a swap with `expected`
/// succeeds and installs a replacement whose refresh secret no longer matches
/// `expected`, every later swap against the same key and the same `expected`
/// reports a mismatch and leaves the store unchanged.
pub proof fn lemma_cas_single_winner(
    m: Map<StoreKeyView, TokenRecordView>,
    k: StoreKeyView,
    expected: Option<Seq<char>>,
    first: TokenRecordView,
    second: TokenRecordView,
)
    requires
        m.dom().contains(k),
        refresh_match(m[k].refresh_token, expected),
        !refresh_match(first.refresh_token, expected),
    ensures
        cas_decision(m, k, expected) is Updated,
        cas_decision(cas_result(m, k, expected, first), k, expected) is RefreshMismatch,
        cas_result(cas_result(m, k, expected, first), k, expected, second) == cas_result(
            m,
            k,
            expected,
            first,
        ),
{
}

/// Singleflight hand-off: the record a successful swap installs is exactly
/// what a follower's later fetch of the same key returns, so a caller
/// serialized behind the winner reuses the winner's record instead of
/// calling the provider again.
pub proof fn lemma_follower_reads_winner(
    m: Map<StoreKeyView, TokenRecordView>,
    k: StoreKeyView,
    expected: Option<Seq<char>>,
    replacement: TokenRecordView,
)
    requires
        cas_decision(m, k, expected) is Updated,
    ensures
        cas_result(m, k, expected, replacement).dom().contains(k),
        cas_result(m, k, expected, replacement)[k] == replacement,
{
}

/// Compares an optional stored secret against an optional expected value,
/// byte for byte; absent on both sides also matches.
pub fn refresh_matches(current: Option<&TokenSecret>, expected: Option<&str>) -> (r: bool)
    ensures
        r == refresh_match(
            match current {
                Some(s) => Some(s@),
                None => None,
            },
            opt_str_view(expected),
        ),
{
    match (current, expected) {
        (None, None) => true,
        (Some(cur), Some(exp)) => str_eq_chars(cur.expose(), exp),
        _ => false,
    }
}

} // verus!
