//! Character- and sequence-level helpers shared by the validators, the scope
//! normalizer, and the provider error classifier: Unicode whitespace and
//! control checks, lexicographic ordering of character sequences, ASCII
//! case-insensitive matching, and substring search.

use vstd::prelude::*;
use vstd::string::StrSliceExecFns;

verus! {

/// Unicode `White_Space` property, the set recognized by character
/// whitespace tests throughout the crate.
pub open spec fn is_space_char(c: char) -> bool {
    let u = c as u32;
    ||| u == 0x09
    ||| u == 0x0A
    ||| u == 0x0B
    ||| u == 0x0C
    ||| u == 0x0D
    ||| u == 0x20
    ||| u == 0x85
    ||| u == 0xA0
    ||| u == 0x1680
    ||| (0x2000 <= u && u <= 0x200A)
    ||| u == 0x2028
    ||| u == 0x2029
    ||| u == 0x202F
    ||| u == 0x205F
    ||| u == 0x3000
}

/// Unicode `Cc` category: the control characters.
pub open spec fn is_control_char(c: char) -> bool {
    let u = c as u32;
    u < 0x20 || (0x7F <= u && u <= 0x9F)
}

/// Some character of `s` is whitespace.
pub open spec fn has_space(s: Seq<char>) -> bool {
    exists|i: int| 0 <= i < s.len() && is_space_char(s[i])
}

/// Every character of `s` is whitespace.
pub open spec fn all_space(s: Seq<char>) -> bool {
    forall|i: int| 0 <= i < s.len() ==> is_space_char(s[i])
}

pub fn char_is_space(c: char) -> (r: bool)
    ensures
        r == is_space_char(c),
{
    let u = c as u32;
    u == 0x09 || u == 0x0A || u == 0x0B || u == 0x0C || u == 0x0D || u == 0x20 || u == 0x85
        || u == 0xA0 || u == 0x1680 || (0x2000 <= u && u <= 0x200A) || u == 0x2028 || u == 0x2029
        || u == 0x202F || u == 0x205F || u == 0x3000
}

pub fn char_is_control(c: char) -> (r: bool)
    ensures
        r == is_control_char(c),
{
    let u = c as u32;
    u < 0x20 || (0x7F <= u && u <= 0x9F)
}

/// Whether any character of `s` is whitespace.
pub fn str_has_space(s: &str) -> (r: bool)
    ensures
        r == has_space(s@),
{
    let n = s.unicode_len();
    let mut i: usize = 0;
    while i < n
        invariant
            i <= n,
            n == s@.len(),
            forall|j: int| 0 <= j < i ==> !is_space_char(s@[j]),
        decreases n - i,
    {
        if char_is_space(s.get_char(i)) {
            assert(is_space_char(s@[i as int]));
            return true;
        }
        i += 1;
    }
    false
}

/// Whether every character of `s` is whitespace.
pub fn str_all_space(s: &str) -> (r: bool)
    ensures
        r == all_space(s@),
{
    let n = s.unicode_len();
    let mut i: usize = 0;
    while i < n
        invariant
            i <= n,
            n == s@.len(),
            forall|j: int| 0 <= j < i ==> is_space_char(s@[j]),
        decreases n - i,
    {
        if !char_is_space(s.get_char(i)) {
            assert(!is_space_char(s@[i as int]));
            return false;
        }
        i += 1;
    }
    true
}

/// Relies on std's `String::push`: appends exactly one character.
#[verifier::external_body]
pub fn push_char(s: &mut String, c: char)
    ensures
        final(s)@ == old(s)@.push(c),
{
    s.push(c);
}

/// Collects the characters of `s` into a vector.
pub fn chars_vec(s: &str) -> (v: Vec<char>)
    ensures
        v@ == s@,
{
    let n = s.unicode_len();
    let mut v: Vec<char> = Vec::new();
    let mut i: usize = 0;
    while i < n
        invariant
            i <= n,
            n == s@.len(),
            v@ == s@.subrange(0, i as int),
        decreases n - i,
    {
        v.push(s.get_char(i));
        assert(v@ =~= s@.subrange(0, i + 1));
        i += 1;
    }
    assert(v@ =~= s@);
    v
}

/// Character-by-character equality of two string slices.
pub fn str_eq_chars(a: &str, b: &str) -> (r: bool)
    ensures
        r == (a@ == b@),
{
    let na = a.unicode_len();
    let nb = b.unicode_len();
    if na != nb {
        assert(a@ != b@) by {
            assert(a@.len() != b@.len());
        }
        return false;
    }
    let mut i: usize = 0;
    while i < na
        invariant
            i <= na,
            na == a@.len(),
            na == b@.len(),
            forall|j: int| 0 <= j < i ==> a@[j] == b@[j],
        decreases na - i,
    {
        if a.get_char(i) != b.get_char(i) {
            assert(a@[i as int] != b@[i as int]);
            return false;
        }
        i += 1;
    }
    proof {
        assert(a@ =~= b@);
    }
    true
}

/// Strict lexicographic order on character sequences, by code point.
pub open spec fn lex_lt(a: Seq<char>, b: Seq<char>) -> bool
    decreases a.len(),
{
    if b.len() == 0 {
        false
    } else if a.len() == 0 {
        true
    } else if (a[0] as u32) < (b[0] as u32) {
        true
    } else if (a[0] as u32) > (b[0] as u32) {
        false
    } else {
        lex_lt(a.drop_first(), b.drop_first())
    }
}

/// When `a` and `b` agree strictly before `i` and differ at `i`, the order is
/// decided by the characters at `i`.
pub proof fn lemma_lex_lt_first_diff(a: Seq<char>, b: Seq<char>, i: int)
    requires
        0 <= i < a.len(),
        i < b.len(),
        forall|j: int| 0 <= j < i ==> a[j] == b[j],
        a[i] != b[i],
    ensures
        lex_lt(a, b) == ((a[i] as u32) < (b[i] as u32)),
    decreases i,
{
    if i == 0 {
        assert((a[0] as u32) != (b[0] as u32)) by {
            crate::text::lemma_char_cast_injective(a[0], b[0]);
        }
    } else {
        assert(a[0] == b[0]);
        assert(a.drop_first()[i - 1] == a[i]);
        assert(b.drop_first()[i - 1] == b[i]);
        assert(forall|j: int| 0 <= j < i - 1 ==> a.drop_first()[j] == b.drop_first()[j]);
        lemma_lex_lt_first_diff(a.drop_first(), b.drop_first(), i - 1);
    }
}

/// Distinct characters have distinct code points.
pub proof fn lemma_char_cast_injective(c: char, d: char)
    ensures
        (c as u32) == (d as u32) ==> c == d,
{
}

/// When one sequence is a prefix of the other, the shorter one comes first.
pub proof fn lemma_lex_lt_prefix(a: Seq<char>, b: Seq<char>)
    requires
        a.len() <= b.len(),
        forall|j: int| 0 <= j < a.len() ==> a[j] == b[j],
    ensures
        lex_lt(a, b) == (a.len() < b.len()),
    decreases a.len(),
{
    if a.len() == 0 {
    } else {
        assert(a.drop_first()[0] == a[1] || a.len() == 1);
        assert(forall|j: int|
            0 <= j < a.drop_first().len() ==> a.drop_first()[j] == b.drop_first()[j]);
        lemma_lex_lt_prefix(a.drop_first(), b.drop_first());
    }
}

/// The order is irreflexive and total: of `a < b`, `a == b`, `b < a`,
/// exactly one holds.
pub proof fn lemma_lex_trichotomy(a: Seq<char>, b: Seq<char>)
    ensures
        lex_lt(a, b) || lex_lt(b, a) || a == b,
        lex_lt(a, b) ==> !lex_lt(b, a) && a != b,
        lex_lt(b, a) ==> !lex_lt(a, b) && a != b,
    decreases a.len(),
{
    if a.len() == 0 || b.len() == 0 {
        if a.len() == b.len() {
            assert(a =~= b);
        }
    } else {
        lemma_char_cast_injective(a[0], b[0]);
        if (a[0] as u32) == (b[0] as u32) {
            lemma_lex_trichotomy(a.drop_first(), b.drop_first());
            if a.drop_first() == b.drop_first() {
                assert(a =~= b) by {
                    assert(forall|i: int|
                        1 <= i < a.len() ==> a[i] == a.drop_first()[i - 1] && b[i]
                            == b.drop_first()[i - 1]);
                }
            }
            if a == b {
                assert(a.drop_first() =~= b.drop_first());
            }
        } else {
            assert(a != b);
        }
    }
}

/// The order is transitive.
pub proof fn lemma_lex_transitive(a: Seq<char>, b: Seq<char>, c: Seq<char>)
    requires
        lex_lt(a, b),
        lex_lt(b, c),
    ensures
        lex_lt(a, c),
    decreases a.len() + b.len() + c.len(),
{
    if a.len() == 0 {
        assert(b.len() > 0);
        if c.len() == 0 {
            assert(!lex_lt(b, c));
        }
    } else {
        assert(b.len() > 0);
        assert(c.len() > 0);
        if (a[0] as u32) < (b[0] as u32) {
            if (b[0] as u32) <= (c[0] as u32) {
            } else {
                assert(!lex_lt(b, c));
            }
        } else if (a[0] as u32) == (b[0] as u32) {
            if (b[0] as u32) < (c[0] as u32) {
            } else if (b[0] as u32) == (c[0] as u32) {
                lemma_lex_transitive(a.drop_first(), b.drop_first(), c.drop_first());
            } else {
                assert(!lex_lt(b, c));
            }
        } else {
            assert(!lex_lt(a, b));
        }
    }
}

/// Lexicographic comparison of two string slices, by code point.
pub fn str_lt(a: &str, b: &str) -> (r: bool)
    ensures
        r == lex_lt(a@, b@),
{
    let na = a.unicode_len();
    let nb = b.unicode_len();
    let n = if na < nb { na } else { nb };
    let mut i: usize = 0;
    while i < n
        invariant
            i <= n,
            na == a@.len(),
            nb == b@.len(),
            n == if na < nb { na } else { nb },
            forall|j: int| 0 <= j < i ==> a@[j] == b@[j],
        decreases n - i,
    {
        let ca = a.get_char(i);
        let cb = b.get_char(i);
        if ca != cb {
            proof {
                lemma_lex_lt_first_diff(a@, b@, i as int);
            }
            return (ca as u32) < (cb as u32);
        }
        i += 1;
    }
    proof {
        if na <= nb {
            lemma_lex_lt_prefix(a@, b@);
        } else {
            lemma_lex_lt_prefix(b@, a@);
            lemma_lex_trichotomy(a@, b@);
        }
    }
    na < nb
}

/// ASCII lowercase of a code point: maps `A`..`Z` onto `a`..`z` and leaves
/// everything else alone.
pub open spec fn lower_u32(u: u32) -> u32 {
    if 0x41 <= u && u <= 0x5A {
        (u + 0x20) as u32
    } else {
        u
    }
}

pub fn lower_u32_exec(u: u32) -> (r: u32)
    ensures
        r == lower_u32(u),
{
    if 0x41 <= u && u <= 0x5A {
        u + 0x20
    } else {
        u
    }
}

/// ASCII case-insensitive equality of two character sequences.
pub open spec fn eq_ignore_ascii_case(a: Seq<char>, b: Seq<char>) -> bool {
    a.len() == b.len() && forall|i: int|
        0 <= i < a.len() ==> lower_u32(a[i] as u32) == lower_u32(b[i] as u32)
}

/// ASCII case-insensitive equality of two character vectors.
pub fn chars_eq_ignore_case(a: &Vec<char>, b: &Vec<char>) -> (r: bool)
    ensures
        r == eq_ignore_ascii_case(a@, b@),
{
    if a.len() != b.len() {
        return false;
    }
    let n = a.len();
    let mut i: usize = 0;
    while i < n
        invariant
            i <= n,
            n == a@.len(),
            n == b@.len(),
            forall|j: int| 0 <= j < i ==> lower_u32(a@[j] as u32) == lower_u32(b@[j] as u32),
        decreases n - i,
    {
        if lower_u32_exec(a[i] as u32) != lower_u32_exec(b[i] as u32) {
            return false;
        }
        i += 1;
    }
    true
}

/// The lowercased token `tok` occurs at position `i` of `hay`, comparing
/// ASCII case-insensitively.
pub open spec fn matches_lower_at(hay: Seq<char>, tok: Seq<char>, i: int) -> bool {
    forall|k: int| 0 <= k < tok.len() ==> lower_u32(hay[i + k] as u32) == (tok[k] as u32)
}

/// The lowercased `hay` contains the (already lowercase) token `tok`.
pub open spec fn contains_lower(hay: Seq<char>, tok: Seq<char>) -> bool {
    exists|i: int| 0 <= i <= hay.len() - tok.len() && matches_lower_at(hay, tok, i)
}

/// Whether `s` starts with the (already lowercase) token `tok`, comparing
/// ASCII case-insensitively.
pub fn str_starts_with_lower(s: &str, tok: &Vec<char>) -> (r: bool)
    ensures
        r == (s@.len() >= tok@.len() && matches_lower_at(s@, tok@, 0)),
{
    let n = s.unicode_len();
    let tn = tok.len();
    if n < tn {
        return false;
    }
    let mut k: usize = 0;
    while k < tn
        invariant
            k <= tn,
            tn <= n,
            n == s@.len(),
            tn == tok@.len(),
            forall|q: int| 0 <= q < k ==> lower_u32(s@[q] as u32) == (tok@[q] as u32),
        decreases tn - k,
    {
        if lower_u32_exec(s.get_char(k) as u32) != tok[k] as u32 {
            assert(lower_u32(s@[k as int] as u32) != (tok@[k as int] as u32));
            assert(!matches_lower_at(s@, tok@, 0)) by {
                assert(s@[0 + k as int] == s@[k as int]);
            }
            return false;
        }
        k += 1;
    }
    assert(matches_lower_at(s@, tok@, 0)) by {
        assert forall|q: int| 0 <= q < tok@.len() implies lower_u32(s@[0 + q] as u32) == (
        tok@[q] as u32) by {
            assert(lower_u32(s@[q] as u32) == (tok@[q] as u32));
        }
    }
    true
}

/// Substring search for an already-lowercase token, comparing the haystack
/// ASCII case-insensitively.
pub fn chars_contain_lower(hay: &Vec<char>, tok: &Vec<char>) -> (r: bool)
    ensures
        r == contains_lower(hay@, tok@),
{
    if tok.len() > hay.len() {
        return false;
    }
    if tok.len() == 0 {
        assert(matches_lower_at(hay@, tok@, 0));
        return true;
    }
    let hn = hay.len();
    let tn = tok.len();
    let last = hn - tn;
    let mut i: usize = 0;
    while i <= last
        invariant
            i <= last + 1,
            hn == hay@.len(),
            tn == tok@.len(),
            last == hn - tn,
            0 < tn <= hn,
            forall|p: int| 0 <= p < i ==> !matches_lower_at(hay@, tok@, p),
        decreases last + 1 - i,
    {
        let mut k: usize = 0;
        let mut all: bool = true;
        while k < tn
            invariant
                k <= tn,
                i <= last,
                hn == hay@.len(),
                tn == tok@.len(),
                last == hn - tn,
                0 < tn <= hn,
                all == forall|q: int|
                    0 <= q < k ==> lower_u32(hay@[i + q] as u32) == (tok@[q] as u32),
            decreases tn - k,
        {
            assert(i + k < hay@.len());
            let c = hay[i + k];
            if lower_u32_exec(c as u32) != tok[k] as u32 {
                assert(lower_u32(hay@[i + k] as u32) != (tok@[k as int] as u32));
                assert(!matches_lower_at(hay@, tok@, i as int));
                all = false;
                k = tn;
            } else {
                k += 1;
            }
        }
        if all {
            assert(matches_lower_at(hay@, tok@, i as int));
            return true;
        }
        assert(!matches_lower_at(hay@, tok@, i as int));
        i += 1;
    }
    false
}

} // verus!
