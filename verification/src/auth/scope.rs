//! Normalized OAuth scope sets with a stable content fingerprint.
//!
//! Scopes are validated, deduplicated, and sorted so that any two inputs with
//! the same members produce the same sequence, and therefore the same
//! fingerprint and store key.

use vstd::prelude::*;

use crate::crypto::{base64_nopad, base64_nopad_of, sha256, sha256_of};
use crate::text::{
    has_space, lemma_lex_transitive, lemma_lex_trichotomy, lex_lt, push_char, str_all_space,
    str_eq_chars, str_has_space, str_lt,
};
use vstd::string::StrSliceExecFns;
use vstd::string::StringExecFns;

verus! {

/// Errors emitted when validating scopes.
#[derive(Clone, Debug, PartialEq, Eq)]
pub enum ScopeValidationError {
    /// Empty scope entries are not allowed.
    Empty,
    /// Scopes cannot contain embedded whitespace characters.
    ContainsWhitespace {
        /// The offending scope string.
        scope: String,
    },
}

/// The character views of a sequence of strings.
pub open spec fn views_of(v: Seq<String>) -> Seq<Seq<char>> {
    Seq::new(v.len(), |i: int| v[i]@)
}

/// A well-formed scope value: non-empty and free of whitespace.
pub open spec fn valid_scope(s: Seq<char>) -> bool {
    s.len() > 0 && !has_space(s)
}

/// Every entry of `ss` is a well-formed scope value.
pub open spec fn all_scopes_valid(ss: Seq<Seq<char>>) -> bool {
    forall|i: int| 0 <= i < ss.len() ==> valid_scope(ss[i])
}

/// The entries of `ss` are in strictly increasing lexicographic order.
pub open spec fn sorted_strict(ss: Seq<Seq<char>>) -> bool {
    forall|i: int, j: int| 0 <= i < j < ss.len() ==> lex_lt(ss[i], ss[j])
}

/// The scopes joined by single ASCII spaces.
pub open spec fn join_spaces(ss: Seq<Seq<char>>) -> Seq<char>
    decreases ss.len(),
{
    if ss.len() == 0 {
        Seq::empty()
    } else if ss.len() == 1 {
        ss[0]
    } else {
        join_spaces(ss.drop_last()) + seq![' '] + ss.last()
    }
}

/// The content fingerprint of a normalized scope sequence: unpadded base64 of
/// the SHA-256 digest of the UTF-8 bytes of the space-joined scopes.
pub open spec fn fingerprint_of(ss: Seq<Seq<char>>) -> Seq<char> {
    base64_nopad_of(sha256_of(vstd::utf8::encode_utf8(join_spaces(ss))))
}

/// Two strictly sorted sequences with the same members are identical: the
/// normalized form is canonical.
pub proof fn lemma_sorted_canonical(a: Seq<Seq<char>>, b: Seq<Seq<char>>)
    requires
        sorted_strict(a),
        sorted_strict(b),
        forall|x: Seq<char>| a.contains(x) <==> b.contains(x),
    ensures
        a == b,
    decreases a.len(),
{
    if a.len() == 0 {
        if b.len() > 0 {
            assert(b.contains(b[0]));
            assert(a.contains(b[0]));
        }
        assert(a =~= b);
    } else {
        assert(a.contains(a[0]));
        assert(b.contains(a[0]));
        assert(b.contains(b[0]));
        assert(a.contains(b[0]));
        let ia = choose|i: int| 0 <= i < a.len() && a[i] == b[0];
        let ib = choose|i: int| 0 <= i < b.len() && b[i] == a[0];
        if a[0] != b[0] {
            assert(ia > 0);
            assert(ib > 0);
            assert(lex_lt(a[0], a[ia]));
            assert(lex_lt(b[0], b[ib]));
            lemma_lex_trichotomy(a[0], b[0]);
        }
        assert(a[0] == b[0]);
        let at = a.drop_first();
        let bt = b.drop_first();
        assert(sorted_strict(at)) by {
            assert(forall|i: int, j: int|
                0 <= i < j < at.len() ==> at[i] == a[i + 1] && at[j] == a[j + 1]);
        }
        assert(sorted_strict(bt)) by {
            assert(forall|i: int, j: int|
                0 <= i < j < bt.len() ==> bt[i] == b[i + 1] && bt[j] == b[j + 1]);
        }
        assert forall|x: Seq<char>| at.contains(x) implies bt.contains(x) by {
            let k = choose|k: int| 0 <= k < at.len() && at[k] == x;
            assert(a[k + 1] == x);
            assert(a.contains(x));
            assert(b.contains(x));
            let m = choose|m: int| 0 <= m < b.len() && b[m] == x;
            assert(lex_lt(a[0], a[k + 1]));
            if m == 0 {
                lemma_lex_trichotomy(a[0], x);
                assert(false);
            }
            assert(bt[m - 1] == x);
            assert(bt.contains(x));
        }
        assert forall|x: Seq<char>| bt.contains(x) implies at.contains(x) by {
            let k = choose|k: int| 0 <= k < bt.len() && bt[k] == x;
            assert(b[k + 1] == x);
            assert(b.contains(x));
            assert(a.contains(x));
            let m = choose|m: int| 0 <= m < a.len() && a[m] == x;
            assert(lex_lt(b[0], b[k + 1]));
            if m == 0 {
                lemma_lex_trichotomy(b[0], x);
                assert(false);
            }
            assert(at[m - 1] == x);
            assert(at.contains(x));
        }
        lemma_sorted_canonical(at, bt);
        assert(a =~= b) by {
            assert(forall|i: int| 1 <= i < a.len() ==> a[i] == at[i - 1] && b[i] == bt[i - 1]);
        }
    }
}

/// Membership in a pushed sequence: the new element, or an old member.
proof fn lemma_push_contains(s: Seq<Seq<char>>, x: Seq<char>, y: Seq<char>)
    ensures
        s.push(x).contains(y) <==> (s.contains(y) || y == x),
{
    if s.push(x).contains(y) {
        let k = choose|k: int| 0 <= k < s.push(x).len() && s.push(x)[k] == y;
        if k < s.len() {
            assert(s[k] == y);
            assert(s.contains(y));
        } else {
            assert(y == x);
        }
    }
    if s.contains(y) {
        let k = choose|k: int| 0 <= k < s.len() && s[k] == y;
        assert(s.push(x)[k] == y);
        assert(s.push(x).contains(y));
    }
    if y == x {
        assert(s.push(x)[s.len() as int] == y);
        assert(s.push(x).contains(y));
    }
}

/// Inserting a fresh element between its neighbours keeps the sequence
/// strictly sorted and every entry well formed.
proof fn lemma_sorted_insert(old_v: Seq<Seq<char>>, ov: Seq<Seq<char>>, x: Seq<char>, lo: int)
    requires
        sorted_strict(old_v),
        all_scopes_valid(old_v),
        valid_scope(x),
        0 <= lo <= old_v.len(),
        ov.len() == old_v.len() + 1,
        forall|j: int| 0 <= j < lo ==> #[trigger] ov[j] == old_v[j],
        ov[lo] == x,
        forall|j: int| lo < j < ov.len() ==> #[trigger] ov[j] == old_v[j - 1],
        forall|j: int| 0 <= j < lo ==> lex_lt(#[trigger] old_v[j], x),
        lo < old_v.len() ==> lex_lt(x, old_v[lo]),
    ensures
        sorted_strict(ov),
        all_scopes_valid(ov),
{
    assert forall|p: int, q: int| 0 <= p < q < ov.len() implies lex_lt(ov[p], ov[q]) by {
        if q < lo {
        } else if q == lo {
        } else if p < lo {
            if q - 1 == lo {
                lemma_lex_transitive(ov[p], x, ov[q]);
            } else {
                assert(lex_lt(ov[p], x));
                assert(lex_lt(x, old_v[lo]));
                assert(lex_lt(old_v[lo], old_v[q - 1]));
                lemma_lex_transitive(ov[p], x, old_v[lo]);
                lemma_lex_transitive(ov[p], old_v[lo], old_v[q - 1]);
            }
        } else if p == lo {
            if q - 1 > lo {
                lemma_lex_transitive(x, old_v[lo], old_v[q - 1]);
            }
        } else {
            assert(lex_lt(old_v[p - 1], old_v[q - 1]));
        }
    }
    assert forall|j: int| 0 <= j < ov.len() implies valid_scope(ov[j]) by {
        if j < lo {
        } else if j == lo {
        } else {
            assert(valid_scope(old_v[j - 1]));
        }
    }
}

/// Membership in a sequence with one element inserted: the new element, or an
/// old member.
proof fn lemma_insert_contains(
    old_v: Seq<Seq<char>>,
    ov: Seq<Seq<char>>,
    x: Seq<char>,
    lo: int,
    y: Seq<char>,
)
    requires
        0 <= lo <= old_v.len(),
        ov.len() == old_v.len() + 1,
        forall|j: int| 0 <= j < lo ==> #[trigger] ov[j] == old_v[j],
        ov[lo] == x,
        forall|j: int| lo < j < ov.len() ==> #[trigger] ov[j] == old_v[j - 1],
    ensures
        ov.contains(y) <==> (old_v.contains(y) || y == x),
{
    if ov.contains(y) {
        let k = choose|k: int| 0 <= k < ov.len() && ov[k] == y;
        if k < lo {
            assert(old_v[k] == y);
            assert(old_v.contains(y));
        } else if k == lo {
            assert(y == x);
        } else {
            assert(old_v[k - 1] == y);
            assert(old_v.contains(y));
        }
    }
    if old_v.contains(y) {
        let m = choose|m: int| 0 <= m < old_v.len() && old_v[m] == y;
        if m < lo {
            assert(ov[m] == y);
        } else {
            assert(ov[m + 1] == y);
        }
        assert(ov.contains(y));
    }
    if y == x {
        assert(ov[lo] == y);
        assert(ov.contains(y));
    }
}

/// Normalized set of OAuth scopes with a stable fingerprint.
///
/// Scopes are deduplicated and sorted so equality and the fingerprint remain
/// consistent across input orders. The fingerprint is the unpadded base64
/// SHA-256 digest of the normalized, space-joined scope string; it is computed
/// once at construction and carried with the set.
#[derive(Eq, Hash, Debug)]
pub struct ScopeSet {
    scopes: Vec<String>,
    fingerprint: String,
}

impl View for ScopeSet {
    type V = Seq<Seq<char>>;

    closed spec fn view(&self) -> Seq<Seq<char>> {
        views_of(self.scopes@)
    }
}

impl ScopeSet {
    /// The well-formedness carried by every scope set.
    pub open spec fn wf(&self) -> bool {
        &&& sorted_strict(self@)
        &&& all_scopes_valid(self@)
        &&& self.spec_fingerprint() == fingerprint_of(self@)
    }

    /// The fingerprint carried by the set.
    pub closed spec fn spec_fingerprint(&self) -> Seq<char> {
        self.fingerprint@
    }

    #[verifier::type_invariant]
    pub(crate) open spec fn type_inv(self) -> bool {
        self.wf()
    }

    /// Creates a normalized scope set: validates every entry, deduplicates,
    /// sorts, and fingerprints the result.
    pub fn new(scopes: Vec<String>) -> (r: Result<Self, ScopeValidationError>)
        ensures
            r is Ok <==> all_scopes_valid(views_of(scopes@)),
            r matches Ok(s) ==> {
                &&& s.wf()
                &&& forall|x: Seq<char>| s@.contains(x) <==> views_of(scopes@).contains(x)
            },
            r matches Err(e) ==> (e matches ScopeValidationError::ContainsWhitespace { scope }
                ==> has_space(scope@) && views_of(scopes@).contains(scope@)),
            r matches Err(ScopeValidationError::Empty) ==> views_of(scopes@).contains(
                Seq::<char>::empty(),
            ),
    {
        let ghost ins = views_of(scopes@);
        let mut out: Vec<String> = Vec::new();
        let n = scopes.len();
        let mut i: usize = 0;
        while i < n
            invariant
                i <= n,
                n == scopes@.len(),
                ins == views_of(scopes@),
                sorted_strict(views_of(out@)),
                all_scopes_valid(views_of(out@)),
                forall|j: int| 0 <= j < i ==> valid_scope(#[trigger] ins[j]),
                forall|x: Seq<char>|
                    views_of(out@).contains(x) <==> ins.subrange(0, i as int).contains(x),
            decreases n - i,
        {
            let sc = &scopes[i];
            proof {
                assert(ins[i as int] == scopes@[i as int]@);
            }
            if sc.as_str().unicode_len() == 0 {
                proof {
                    assert(ins.contains(ins[i as int]));
                    assert(ins[i as int] =~= Seq::<char>::empty());
                }
                return Err(ScopeValidationError::Empty);
            }
            if str_has_space(sc.as_str()) {
                let offending = sc.clone();
                proof {
                    assert(ins.contains(ins[i as int]));
                }
                return Err(ScopeValidationError::ContainsWhitespace { scope: offending });
            }
            let ghost old_out = out@;
            let ghost old_v = views_of(old_out);
            let ghost pre = ins.subrange(0, i as int);
            let ghost x = scopes@[i as int]@;
            let mut lo: usize = 0;
            let mut stop: bool = false;
            while !stop && lo < out.len()
                invariant
                    lo <= out@.len(),
                    out@ == old_out,
                    sc@ == x,
                    x == scopes@[i as int]@,
                    i < n,
                    n == scopes@.len(),
                    forall|j: int| 0 <= j < lo ==> lex_lt(#[trigger] out@[j]@, x),
                    stop ==> lo < out@.len() && !lex_lt(out@[lo as int]@, x),
                decreases out@.len() - lo + (if stop { 0int } else { 1int }),
            {
                if !str_lt(out[lo].as_str(), sc.as_str()) {
                    stop = true;
                } else {
                    lo += 1;
                }
            }
            proof {
                assert(ins.subrange(0, i + 1) =~= pre.push(ins[i as int]));
                assert(forall|j: int|
                    0 <= j < old_out.len() ==> #[trigger] old_v[j] == old_out[j]@);
            }
            let dup = lo < out.len() && str_eq_chars(out[lo].as_str(), sc.as_str());
            if dup {
                proof {
                    assert(old_v[lo as int] == x);
                    assert(old_v.contains(old_v[lo as int]));
                    assert forall|y: Seq<char>|
                        views_of(out@).contains(y) <==> #[trigger] ins.subrange(
                            0,
                            i + 1,
                        ).contains(y) by {
                        lemma_push_contains(pre, x, y);
                    }
                }
            } else {
                proof {
                    if lo < old_out.len() {
                        lemma_lex_trichotomy(old_out[lo as int]@, x);
                        assert(lex_lt(x, old_v[lo as int]));
                    }
                }
                let inserted = sc.clone();
                out.insert(lo, inserted);
                proof {
                    let ghost ov = views_of(out@);
                    assert(out@ == old_out.insert(lo as int, scopes@[i as int]));
                    old_out.insert_ensures(lo as int, scopes@[i as int]);
                    assert(forall|j: int| 0 <= j < lo ==> #[trigger] out@[j] == old_out[j]);
                    assert forall|j: int| lo < j < out@.len() implies #[trigger] out@[j]
                        == old_out[j - 1] by {
                        assert(out@[(j - 1) + 1] == old_out[j - 1]);
                    }
                    assert(out@[lo as int] == scopes@[i as int]);
                    assert(forall|j: int| 0 <= j < out@.len() ==> #[trigger] ov[j] == out@[j]@);
                    assert(ov[lo as int] == x);
                    assert(forall|j: int| 0 <= j < lo ==> #[trigger] ov[j] == old_v[j]);
                    assert(forall|j: int| lo < j < ov.len() ==> #[trigger] ov[j] == old_v[j - 1]);
                    assert(forall|j: int| 0 <= j < lo ==> lex_lt(#[trigger] old_v[j], x));
                    lemma_sorted_insert(old_v, ov, x, lo as int);
                    assert forall|y: Seq<char>|
                        views_of(out@).contains(y) <==> #[trigger] ins.subrange(
                            0,
                            i + 1,
                        ).contains(y) by {
                        lemma_push_contains(pre, x, y);
                        lemma_insert_contains(old_v, ov, x, lo as int, y);
                    }
                }
            }
            i += 1;
        }
        proof {
            assert(ins.subrange(0, n as int) =~= ins);
        }
        let fingerprint = compute_fingerprint(&out);
        let result = ScopeSet { scopes: out, fingerprint };
        proof {
            assert(result@ == views_of(result.scopes@));
        }
        Ok(result)
    }


    /// Builds a scope set from a slice of scope strings.
    pub fn try_from(values: &[String]) -> (r: Result<Self, ScopeValidationError>)
        ensures
            r is Ok <==> all_scopes_valid(views_of(values@)),
            r matches Ok(s) ==> {
                &&& s.wf()
                &&& forall|x: Seq<char>| s@.contains(x) <==> views_of(values@).contains(x)
            },
    {
        let mut owned: Vec<String> = Vec::new();
        let n = values.len();
        let mut i: usize = 0;
        while i < n
            invariant
                i <= n,
                n == values@.len(),
                owned@.len() == i,
                forall|j: int| 0 <= j < i ==> owned@[j]@ == values@[j]@,
            decreases n - i,
        {
            owned.push(values[i].clone());
            i += 1;
        }
        proof {
            assert(views_of(owned@) =~= views_of(values@));
        }
        Self::new(owned)
    }

    /// Number of distinct scopes.
    pub fn len(&self) -> (r: usize)
        ensures
            r == self@.len(),
    {
        self.scopes.len()
    }

    /// Returns true if no scopes are defined.
    pub fn is_empty(&self) -> (r: bool)
        ensures
            r == (self@.len() == 0),
    {
        self.scopes.len() == 0
    }

    /// Returns true if the normalized set contains the provided scope.
    pub fn contains(&self, scope: &str) -> (r: bool)
        ensures
            r == self@.contains(scope@),
    {
        let n = self.scopes.len();
        let mut i: usize = 0;
        while i < n
            invariant
                i <= n,
                n == self@.len(),
                self@ == views_of(self.scopes@),
                forall|j: int| 0 <= j < i ==> self@[j] != scope@,
            decreases n - i,
        {
            proof {
                assert(self@[i as int] == self.scopes@[i as int]@);
            }
            if str_eq_chars(self.scopes[i].as_str(), scope) {
                assert(self@.contains(scope@)) by {
                    assert(self@[i as int] == scope@);
                }
                return true;
            }
            i += 1;
        }
        proof {
            if self@.contains(scope@) {
                let k = choose|k: int| 0 <= k < self@.len() && self@[k] == scope@;
            }
        }
        false
    }

    /// The normalized scopes, in position order.
    pub fn iter(&self) -> (r: &[String])
        ensures
            views_of(r@) == self@,
    {
        self.as_slice()
    }

    /// Returns the normalized string representation (space-delimited).
    pub fn normalized(&self) -> (r: String)
        ensures
            r@ == join_spaces(self@),
    {
        join_with_spaces(&self.scopes)
    }

    /// Stable fingerprint derived from the normalized scope list: the
    /// unpadded base64 SHA-256 digest of the space-joined scopes, computed at
    /// construction and returned unchanged on every call.
    pub fn fingerprint(&self) -> (r: String)
        ensures
            r@ == self.spec_fingerprint(),
            r@ == fingerprint_of(self@),
    {
        proof {
            use_type_invariant(self);
        }
        self.fingerprint.clone()
    }

    /// Returns the underlying slice of scope strings.
    pub fn as_slice(&self) -> (r: &[String])
        ensures
            views_of(r@) == self@,
    {
        let r = self.scopes.as_slice();
        proof {
            assert(views_of(r@) =~= self@);
        }
        r
    }
}

impl Clone for ScopeSet {
    fn clone(&self) -> (r: Self)
        ensures
            r@ == self@,
            r.spec_fingerprint() == self.spec_fingerprint(),
    {
        proof {
            use_type_invariant(self);
        }
        let mut scopes: Vec<String> = Vec::new();
        let n = self.scopes.len();
        let mut i: usize = 0;
        while i < n
            invariant
                i <= n,
                n == self.scopes@.len(),
                scopes@.len() == i,
                forall|j: int| 0 <= j < i ==> scopes@[j]@ == self.scopes@[j]@,
            decreases n - i,
        {
            scopes.push(self.scopes[i].clone());
            i += 1;
        }
        proof {
            assert(views_of(scopes@) =~= views_of(self.scopes@));
        }
        let r = ScopeSet { scopes, fingerprint: self.fingerprint.clone() };
        r
    }
}

impl PartialEq for ScopeSet {
    fn eq(&self, other: &Self) -> (r: bool) {
        let a = self.scopes.len();
        if a != other.scopes.len() {
            proof {
                assert(self@.len() != other@.len());
            }
            return false;
        }
        let mut i: usize = 0;
        while i < a
            invariant
                i <= a,
                a == self@.len(),
                a == other@.len(),
                self@ == views_of(self.scopes@),
                other@ == views_of(other.scopes@),
                forall|j: int| 0 <= j < i ==> self@[j] == other@[j],
            decreases a - i,
        {
            proof {
                assert(self@[i as int] == self.scopes@[i as int]@);
                assert(other@[i as int] == other.scopes@[i as int]@);
            }
            if !str_eq_chars(self.scopes[i].as_str(), other.scopes[i].as_str()) {
                return false;
            }
            i += 1;
        }
        proof {
            assert(self@ =~= other@);
        }
        true
    }
}

impl vstd::std_specs::cmp::PartialEqSpecImpl for ScopeSet {
    open spec fn obeys_eq_spec() -> bool {
        true
    }

    open spec fn eq_spec(&self, other: &Self) -> bool {
        self@ == other@
    }
}

impl std::str::FromStr for ScopeSet {
    type Err = ScopeValidationError;

    /// Parses a whitespace-separated scope string: the empty string is the
    /// empty set, an all-whitespace string is rejected, and anything else is
    /// split on whitespace runs and normalized.
    fn from_str(s: &str) -> Result<Self, Self::Err> {
        if s.unicode_len() == 0 {
            let scopes: Vec<String> = Vec::new();
            let fingerprint = compute_fingerprint(&scopes);
            proof {
                assert(views_of(scopes@) =~= Seq::<Seq<char>>::empty());
            }
            return Ok(ScopeSet { scopes, fingerprint });
        }
        if str_all_space(s) {
            return Err(ScopeValidationError::Empty);
        }
        let mut tokens: Vec<String> = Vec::new();
        let mut current = String::new();
        let n = s.unicode_len();
        let mut i: usize = 0;
        while i < n
            invariant
                i <= n,
                n == s@.len(),
            decreases n - i,
        {
            let c = s.get_char(i);
            if crate::text::char_is_space(c) {
                if current.as_str().unicode_len() > 0 {
                    tokens.push(current);
                    current = String::new();
                }
            } else {
                crate::text::push_char(&mut current, c);
            }
            i += 1;
        }
        if current.as_str().unicode_len() > 0 {
            tokens.push(current);
        }
        ScopeSet::new(tokens)
    }
}

/// Scope fingerprint stability: two scope sets whose members are the same
/// have the same normalized sequence and therefore the same fingerprint,
/// whatever order or duplication their inputs had.
pub proof fn lemma_fingerprint_stability(a: ScopeSet, b: ScopeSet)
    requires
        a.wf(),
        b.wf(),
        forall|x: Seq<char>| a@.contains(x) <==> b@.contains(x),
    ensures
        a@ == b@,
        a.spec_fingerprint() == b.spec_fingerprint(),
{
    lemma_sorted_canonical(a@, b@);
}

/// Joins the strings with single ASCII spaces.
fn join_with_spaces(scopes: &Vec<String>) -> (r: String)
    ensures
        r@ == join_spaces(views_of(scopes@)),
{
    let ghost vs = views_of(scopes@);
    let mut buf = String::new();
    let n = scopes.len();
    let mut i: usize = 0;
    while i < n
        invariant
            i <= n,
            n == scopes@.len(),
            vs == views_of(scopes@),
            buf@ == join_spaces(vs.subrange(0, i as int)),
        decreases n - i,
    {
        if i > 0 {
            push_char(&mut buf, ' ');
        }
        buf.append(scopes[i].as_str());
        proof {
            let pre = vs.subrange(0, i as int);
            let cur = vs.subrange(0, i + 1);
            assert(cur.drop_last() =~= pre);
            assert(cur.last() == vs[i as int]);
            assert(vs[i as int] == scopes@[i as int]@);
            if i == 0 {
                assert(cur.len() == 1);
                assert(join_spaces(cur) == cur[0]);
                assert(buf@ =~= cur[0]);
            } else {
                assert(join_spaces(cur) == join_spaces(pre) + seq![' '] + vs[i as int]);
                assert(buf@ =~= join_spaces(pre) + seq![' '] + vs[i as int]);
            }
        }
        i += 1;
    }
    proof {
        assert(vs.subrange(0, n as int) =~= vs);
    }
    buf
}

/// Computes the scope fingerprint: SHA-256 over the UTF-8 bytes of the
/// space-joined scopes, base64-encoded without padding.
fn compute_fingerprint(scopes: &Vec<String>) -> (r: String)
    ensures
        r@ == fingerprint_of(views_of(scopes@)),
{
    let normalized = join_with_spaces(scopes);
    let bytes = normalized.as_str().as_bytes_vec();
    let digest = sha256(bytes.as_slice());
    base64_nopad(digest.as_slice())
}

} // verus!
