//! In-memory [`BrokerStore`] implementation backed by an association list
//! with distinct keys.

use vstd::prelude::*;

use crate::auth::scope::ScopeSet;
use crate::auth::token::family::TokenFamily;
use crate::auth::token::record::{TokenRecord, TokenRecordView};
use crate::store::{
    cas_decision, cas_result, key_view_of, record_key, refresh_matches, BrokerStore,
    CompareAndSwapOutcome, StoreError, StoreKey, StoreKeyView,
};

verus! {

/// The keys of the entries are pairwise distinct.
pub open spec fn keys_distinct(s: Seq<(StoreKey, TokenRecord)>) -> bool {
    forall|p: int, q: int| 0 <= p < q < s.len() ==> s[p].0@ != s[q].0@
}

/// The index of the entry filed under `k`.
pub open spec fn index_of(s: Seq<(StoreKey, TokenRecord)>, k: StoreKeyView) -> int {
    choose|i: int| 0 <= i < s.len() && s[i].0@ == k
}

/// The mapping an entry sequence represents.
pub open spec fn map_of(s: Seq<(StoreKey, TokenRecord)>) -> Map<StoreKeyView, TokenRecordView> {
    Map::new(
        |k: StoreKeyView| exists|i: int| 0 <= i < s.len() && s[i].0@ == k,
        |k: StoreKeyView| s[index_of(s, k)].1@,
    )
}

/// With distinct keys, entry `i` is the one the mapping returns for its key.
proof fn lemma_map_of_index(s: Seq<(StoreKey, TokenRecord)>, i: int)
    requires
        keys_distinct(s),
        0 <= i < s.len(),
    ensures
        map_of(s).dom().contains(s[i].0@),
        map_of(s)[s[i].0@] == s[i].1@,
{
    let w = s[i].0@;
    assert(exists|j: int| 0 <= j < s.len() && #[trigger] (s[j].0@) == w) by {
        assert(0 <= i < s.len() && s[i].0@ == w);
    }
    let j = index_of(s, s[i].0@);
    assert(0 <= j < s.len() && s[j].0@ == s[i].0@);
    if j != i {
        if j < i {
            assert(s[j].0@ != s[i].0@);
        } else {
            assert(s[i].0@ != s[j].0@);
        }
    }
}

/// A key no entry carries is outside the mapping's domain.
proof fn lemma_map_of_absent(s: Seq<(StoreKey, TokenRecord)>, k: StoreKeyView)
    requires
        forall|i: int| 0 <= i < s.len() ==> s[i].0@ != k,
    ensures
        !map_of(s).dom().contains(k),
{
}

/// Replacing the entry at `i` under the same key updates the mapping at that
/// key alone.
proof fn lemma_map_of_update(s: Seq<(StoreKey, TokenRecord)>, i: int, e: (StoreKey, TokenRecord))
    requires
        keys_distinct(s),
        0 <= i < s.len(),
        e.0@ == s[i].0@,
    ensures
        keys_distinct(s.update(i, e)),
        map_of(s.update(i, e)) == map_of(s).insert(e.0@, e.1@),
{
    let t = s.update(i, e);
    assert(keys_distinct(t)) by {
        assert(forall|p: int| 0 <= p < t.len() ==> t[p].0@ == s[p].0@);
    }
    assert forall|k: StoreKeyView| #[trigger] map_of(t).dom().contains(k) == map_of(
        s,
    ).insert(e.0@, e.1@).dom().contains(k) by {
        assert(forall|p: int| 0 <= p < t.len() ==> t[p].0@ == s[p].0@);
        if exists|p: int| 0 <= p < t.len() && t[p].0@ == k {
            let p = choose|p: int| 0 <= p < t.len() && t[p].0@ == k;
            assert(s[p].0@ == k);
        }
        if exists|p: int| 0 <= p < s.len() && s[p].0@ == k {
            let p = choose|p: int| 0 <= p < s.len() && s[p].0@ == k;
            assert(t[p].0@ == k);
        }
    }
    assert forall|k: StoreKeyView| map_of(t).dom().contains(k) implies #[trigger] map_of(t)[k]
        == map_of(s).insert(e.0@, e.1@)[k] by {
        let p = index_of(t, k);
        assert(0 <= p < t.len() && t[p].0@ == k);
        lemma_map_of_index(t, p);
        if k == e.0@ {
            if p != i {
                assert(t[p].0@ == s[p].0@);
                assert(s[p].0@ != s[i].0@ || p == i);
                if p < i {
                    assert(s[p].0@ != s[i].0@);
                } else {
                    assert(s[i].0@ != s[p].0@);
                }
                assert(false);
            }
            assert(map_of(t)[k] == e.1@);
        } else {
            assert(p != i);
            assert(t[p] == s[p]);
            lemma_map_of_index(s, p);
        }
    }
    assert(map_of(t) =~= map_of(s).insert(e.0@, e.1@));
}

/// Appending an entry under a fresh key updates the mapping at that key
/// alone.
proof fn lemma_map_of_push(s: Seq<(StoreKey, TokenRecord)>, e: (StoreKey, TokenRecord))
    requires
        keys_distinct(s),
        forall|i: int| 0 <= i < s.len() ==> s[i].0@ != e.0@,
    ensures
        keys_distinct(s.push(e)),
        map_of(s.push(e)) == map_of(s).insert(e.0@, e.1@),
{
    let t = s.push(e);
    assert(keys_distinct(t)) by {
        assert(forall|p: int| 0 <= p < s.len() ==> t[p] == s[p]);
        assert(t[s.len() as int] == e);
    }
    assert forall|k: StoreKeyView| #[trigger] map_of(t).dom().contains(k) == map_of(
        s,
    ).insert(e.0@, e.1@).dom().contains(k) by {
        if exists|p: int| 0 <= p < t.len() && t[p].0@ == k {
            let p = choose|p: int| 0 <= p < t.len() && t[p].0@ == k;
            if p < s.len() {
                assert(s[p].0@ == k);
            } else {
                assert(k == e.0@);
            }
        }
        if exists|p: int| 0 <= p < s.len() && s[p].0@ == k {
            let p = choose|p: int| 0 <= p < s.len() && s[p].0@ == k;
            assert(t[p].0@ == k);
        }
        if k == e.0@ {
            assert(t[s.len() as int].0@ == k);
        }
    }
    assert forall|k: StoreKeyView| map_of(t).dom().contains(k) implies #[trigger] map_of(t)[k]
        == map_of(s).insert(e.0@, e.1@)[k] by {
        let p = index_of(t, k);
        assert(0 <= p < t.len() && t[p].0@ == k);
        lemma_map_of_index(t, p);
        if k == e.0@ {
            if p < s.len() {
                assert(s[p].0@ != e.0@);
                assert(false);
            }
            assert(map_of(t)[k] == e.1@);
        } else {
            assert(p < s.len());
            lemma_map_of_index(s, p);
        }
    }
    assert(map_of(t) =~= map_of(s).insert(e.0@, e.1@));
}

/// Thread-compatible storage backend that keeps records in-process for local
/// use and tests.
pub struct MemoryStore {
    entries: Vec<(StoreKey, TokenRecord)>,
}

impl MemoryStore {
    /// The invariant the entry list maintains: one entry per key.
    pub closed spec fn spec_wf(&self) -> bool {
        keys_distinct(self.entries@)
    }

    /// The mapping held in memory.
    pub closed spec fn spec_contents(&self) -> Map<StoreKeyView, TokenRecordView> {
        map_of(self.entries@)
    }

    /// Creates an empty store.
    pub fn new() -> (r: Self)
        ensures
            r.spec_wf(),
            r.spec_contents() == Map::<StoreKeyView, TokenRecordView>::empty(),
    {
        let r = MemoryStore { entries: Vec::new() };
        proof {
            assert(r.spec_contents() =~= Map::<StoreKeyView, TokenRecordView>::empty());
        }
        r
    }

    /// Finds the index of the entry filed under `key`.
    fn find(&self, key: &StoreKey) -> (r: Option<usize>)
        ensures
            r matches Some(i) ==> i < self.entries@.len() && self.entries@[i as int].0@ == key@,
            r is None ==> forall|i: int|
                0 <= i < self.entries@.len() ==> self.entries@[i].0@ != key@,
    {
        let n = self.entries.len();
        let mut i: usize = 0;
        while i < n
            invariant
                i <= n,
                n == self.entries@.len(),
                forall|j: int| 0 <= j < i ==> self.entries@[j].0@ != key@,
            decreases n - i,
        {
            if &self.entries[i].0 == key {
                return Some(i);
            }
            i += 1;
        }
        None
    }

    /// Saves a record, replacing any record under the same key.
    pub fn save_now(&mut self, record: TokenRecord) -> (r: Result<(), StoreError>)
        requires
            old(self).spec_wf(),
        ensures
            final(self).spec_wf(),
            r is Ok,
            final(self).spec_contents() == old(self).spec_contents().insert(
                record_key(record@),
                record@,
            ),
    {
        let key = StoreKey::new(&record.family, &record.scope);
        proof {
            assert(key@ == record_key(record@));
        }
        match self.find(&key) {
            Some(i) => {
                proof {
                    lemma_map_of_update(self.entries@, i as int, (key, record));
                }
                self.entries.set(i, (key, record));
            },
            None => {
                proof {
                    lemma_map_of_push(self.entries@, (key, record));
                }
                self.entries.push((key, record));
            },
        }
        Ok(())
    }

    /// Fetches the record under the family + scope, if present.
    pub fn fetch_now(&self, family: &TokenFamily, scope: &ScopeSet) -> (r: Option<TokenRecord>)
        requires
            self.spec_wf(),
        ensures
            r matches Some(rec) ==> self.spec_contents().dom().contains(
                key_view_of(family@, scope@),
            ) && rec@ == self.spec_contents()[key_view_of(family@, scope@)],
            r is None ==> !self.spec_contents().dom().contains(key_view_of(family@, scope@)),
    {
        let key = StoreKey::new(family, scope);
        match self.find(&key) {
            Some(i) => {
                proof {
                    lemma_map_of_index(self.entries@, i as int);
                }
                Some(self.entries[i].1.clone())
            },
            None => {
                proof {
                    lemma_map_of_absent(self.entries@, key@);
                }
                None
            },
        }
    }

    /// Atomically replaces the record under the key when its refresh secret
    /// equals the expected one.
    pub fn cas_now(
        &mut self,
        family: &TokenFamily,
        scope: &ScopeSet,
        expected_refresh: Option<&str>,
        replacement: TokenRecord,
    ) -> (r: CompareAndSwapOutcome)
        requires
            old(self).spec_wf(),
        ensures
            final(self).spec_wf(),
            r == cas_decision(
                old(self).spec_contents(),
                key_view_of(family@, scope@),
                crate::store::opt_str_view(expected_refresh),
            ),
            final(self).spec_contents() == cas_result(
                old(self).spec_contents(),
                key_view_of(family@, scope@),
                crate::store::opt_str_view(expected_refresh),
                replacement@,
            ),
    {
        let key = StoreKey::new(family, scope);
        match self.find(&key) {
            None => {
                proof {
                    lemma_map_of_absent(self.entries@, key@);
                }
                CompareAndSwapOutcome::Missing
            },
            Some(i) => {
                proof {
                    lemma_map_of_index(self.entries@, i as int);
                }
                let current = &self.entries[i].1;
                if refresh_matches(current.refresh_token.as_ref(), expected_refresh) {
                    proof {
                        lemma_map_of_update(self.entries@, i as int, (key, replacement));
                    }
                    self.entries.set(i, (key, replacement));
                    CompareAndSwapOutcome::Updated
                } else {
                    CompareAndSwapOutcome::RefreshMismatch
                }
            },
        }
    }

    /// Marks the record under the key as revoked, returning the updated
    /// record when one was present.
    pub fn revoke_now(&mut self, family: &TokenFamily, scope: &ScopeSet, instant: i64) -> (r:
        Option<TokenRecord>)
        requires
            old(self).spec_wf(),
        ensures
            final(self).spec_wf(),
            r matches Some(rec) ==> {
                &&& old(self).spec_contents().dom().contains(key_view_of(family@, scope@))
                &&& rec@ == (TokenRecordView {
                    revoked_at: Some(instant),
                    ..old(self).spec_contents()[key_view_of(family@, scope@)]
                })
                &&& final(self).spec_contents() == old(self).spec_contents().insert(
                    key_view_of(family@, scope@),
                    rec@,
                )
            },
            r is None ==> !old(self).spec_contents().dom().contains(key_view_of(family@, scope@))
                && final(self).spec_contents() == old(self).spec_contents(),
    {
        let key = StoreKey::new(family, scope);
        match self.find(&key) {
            None => {
                proof {
                    lemma_map_of_absent(self.entries@, key@);
                }
                None
            },
            Some(i) => {
                proof {
                    lemma_map_of_index(self.entries@, i as int);
                }
                let mut rec = self.entries[i].1.clone();
                rec.revoke(instant);
                let returned = rec.clone();
                proof {
                    lemma_map_of_update(self.entries@, i as int, (key, rec));
                }
                self.entries.set(i, (key, rec));
                Some(returned)
            },
        }
    }
}

impl MemoryStore {
    /// Clones the held entries, one per key, for snapshot serialization;
    /// they represent exactly the store's contents.
    pub fn export_entries(&self) -> (r: Vec<(StoreKey, TokenRecord)>)
        requires
            self.spec_wf(),
        ensures
            keys_distinct(r@),
            map_of(r@) == self.spec_contents(),
    {
        let mut out: Vec<(StoreKey, TokenRecord)> = Vec::new();
        let n = self.entries.len();
        let mut i: usize = 0;
        while i < n
            invariant
                i <= n,
                n == self.entries@.len(),
                out@.len() == i,
                forall|j: int|
                    0 <= j < i ==> (#[trigger] out@[j]).0@ == self.entries@[j].0@ && out@[j].1@
                        == self.entries@[j].1@,
                keys_distinct(self.entries@),
            decreases n - i,
        {
            let pair = (self.entries[i].0.clone(), self.entries[i].1.clone());
            out.push(pair);
            i += 1;
        }
        proof {
            assert(keys_distinct(out@));
            assert forall|k: StoreKeyView| #[trigger] map_of(out@).dom().contains(k) == map_of(
                self.entries@,
            ).dom().contains(k) by {
                if exists|p: int| 0 <= p < out@.len() && out@[p].0@ == k {
                    let p = choose|p: int| 0 <= p < out@.len() && out@[p].0@ == k;
                    assert(self.entries@[p].0@ == k);
                }
                if exists|p: int| 0 <= p < self.entries@.len() && self.entries@[p].0@ == k {
                    let p = choose|p: int|
                        0 <= p < self.entries@.len() && self.entries@[p].0@ == k;
                    assert(out@[p].0@ == k);
                }
            }
            assert forall|k: StoreKeyView| map_of(out@).dom().contains(k) implies #[trigger] map_of(
                out@,
            )[k] == map_of(self.entries@)[k] by {
                let p = index_of(out@, k);
                assert(0 <= p < out@.len() && out@[p].0@ == k);
                lemma_map_of_index(out@, p);
                assert(self.entries@[p].0@ == k);
                lemma_map_of_index(self.entries@, p);
            }
            assert(map_of(out@) =~= map_of(self.entries@));
        }
        out
    }
}

/// The mapping obtained by filing each entry in turn, later entries
/// overriding earlier ones under the same key.
pub open spec fn inserted_all(s: Seq<(StoreKey, TokenRecord)>) -> Map<StoreKeyView, TokenRecordView>
    decreases s.len(),
{
    if s.len() == 0 {
        Map::empty()
    } else {
        inserted_all(s.drop_last()).insert(s.last().0@, s.last().1@)
    }
}

/// Snapshot round trip: filing a store's exported entries back in, in
/// order, reproduces exactly the mapping they came from.
pub proof fn lemma_snapshot_round_trip(s: Seq<(StoreKey, TokenRecord)>)
    requires
        keys_distinct(s),
    ensures
        inserted_all(s) == map_of(s),
    decreases s.len(),
{
    if s.len() == 0 {
        assert(map_of(s) =~= Map::<StoreKeyView, TokenRecordView>::empty());
    } else {
        let t = s.drop_last();
        let e = s.last();
        assert(keys_distinct(t)) by {
            assert(forall|p: int| 0 <= p < t.len() ==> t[p] == s[p]);
        }
        lemma_snapshot_round_trip(t);
        assert(forall|i: int| 0 <= i < t.len() ==> t[i] == s[i] && s[i].0@ != e.0@);
        lemma_map_of_push(t, e);
        assert(t.push(e) =~= s);
    }
}

impl MemoryStore {
    /// Rebuilds a store from snapshot entries, filing each under its stored
    /// key; later entries override earlier ones.
    pub fn from_entries(entries: Vec<(StoreKey, TokenRecord)>) -> (r: Self)
        ensures
            r.spec_wf(),
            r.spec_contents() == inserted_all(entries@),
    {
        let mut store = MemoryStore { entries: Vec::new() };
        proof {
            assert(map_of(store.entries@) =~= Map::<StoreKeyView, TokenRecordView>::empty());
        }
        let n = entries.len();
        let mut i: usize = 0;
        while i < n
            invariant
                i <= n,
                n == entries@.len(),
                keys_distinct(store.entries@),
                map_of(store.entries@) == inserted_all(entries@.subrange(0, i as int)),
            decreases n - i,
        {
            let key = entries[i].0.clone();
            let record = entries[i].1.clone();
            let ghost pre = entries@.subrange(0, i as int);
            let ghost cur = entries@.subrange(0, i + 1);
            proof {
                assert(cur.drop_last() =~= pre);
                assert(cur.last() == entries@[i as int]);
            }
            match store.find(&key) {
                Some(j) => {
                    proof {
                        lemma_map_of_update(store.entries@, j as int, (key, record));
                    }
                    store.entries.set(j, (key, record));
                },
                None => {
                    proof {
                        lemma_map_of_push(store.entries@, (key, record));
                    }
                    store.entries.push((key, record));
                },
            }
            i += 1;
        }
        proof {
            assert(entries@.subrange(0, n as int) =~= entries@);
        }
        store
    }
}

impl Default for MemoryStore {
    fn default() -> (r: Self)
        ensures
            r.spec_wf(),
            r.spec_contents() == Map::<StoreKeyView, TokenRecordView>::empty(),
    {
        MemoryStore::new()
    }
}

impl BrokerStore for MemoryStore {
    open spec fn wf(&self) -> bool {
        self.spec_wf()
    }

    open spec fn contents(&self) -> Map<StoreKeyView, TokenRecordView> {
        self.spec_contents()
    }

    fn save(&mut self, record: TokenRecord) -> (r: Result<(), StoreError>) {
        self.save_now(record)
    }

    fn fetch(&self, family: &TokenFamily, scope: &ScopeSet) -> (r: Result<
        Option<TokenRecord>,
        StoreError,
    >) {
        Ok(self.fetch_now(family, scope))
    }

    fn compare_and_swap_refresh(
        &mut self,
        family: &TokenFamily,
        scope: &ScopeSet,
        expected_refresh: Option<&str>,
        replacement: TokenRecord,
    ) -> (r: Result<CompareAndSwapOutcome, StoreError>) {
        Ok(self.cas_now(family, scope, expected_refresh, replacement))
    }

    fn revoke(&mut self, family: &TokenFamily, scope: &ScopeSet, instant: i64) -> (r: Result<
        Option<TokenRecord>,
        StoreError,
    >) {
        Ok(self.revoke_now(family, scope, instant))
    }
}

} // verus!
