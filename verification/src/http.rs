//! Transport-facing primitives for OAuth token exchanges: per-request
//! response metadata and the slot it travels through, and the parsing of
//! `Retry-After` values given as whole seconds.

use vstd::prelude::*;

use vstd::string::StrSliceExecFns;

verus! {

/// Captures metadata from the most recent HTTP response for downstream error
/// mapping. Durations are whole seconds. Construct values by field name;
/// more fields may appear over time.
#[derive(Clone, Copy, Debug, PartialEq, Eq, Structural)]
pub struct ResponseMetadata {
    /// HTTP status code returned by the token endpoint, if available.
    pub status: Option<u16>,
    /// Retry-After hint expressed as a relative duration in seconds.
    pub retry_after: Option<i64>,
}

impl Default for ResponseMetadata {
    /// No status, no retry hint.
    fn default() -> (r: Self)
        ensures
            r == (ResponseMetadata { status: None, retry_after: None }),
    {
        ResponseMetadata { status: None, retry_after: None }
    }
}

/// One-slot cell for handing [`ResponseMetadata`] from the transport to the
/// error-mapping layer. A fresh slot is used per request: the transport
/// clears it before dispatch and stores the metadata once headers are known;
/// the facade takes the value exactly once after the call resolves.
#[derive(Debug)]
pub struct ResponseMetadataSlot {
    current: Option<ResponseMetadata>,
}

impl View for ResponseMetadataSlot {
    type V = Option<ResponseMetadata>;

    closed spec fn view(&self) -> Option<ResponseMetadata> {
        self.current
    }
}

impl ResponseMetadataSlot {
    /// Creates an empty slot.
    pub fn new() -> (r: Self)
        ensures
            r@ is None,
    {
        ResponseMetadataSlot { current: None }
    }

    /// Stores new metadata for the current request, replacing anything held.
    pub fn store(&mut self, meta: ResponseMetadata)
        ensures
            final(self)@ == Some(meta),
    {
        self.current = Some(meta);
    }

    /// Returns the captured metadata, if any, consuming it from the slot.
    pub fn take(&mut self) -> (r: Option<ResponseMetadata>)
        ensures
            r == old(self)@,
            final(self)@ is None,
    {
        let r = self.current;
        self.current = None;
        r
    }
}

impl Default for ResponseMetadataSlot {
    /// An empty slot.
    fn default() -> (r: Self)
        ensures
            r@ is None,
    {
        ResponseMetadataSlot::new()
    }
}

/// The numeric value of a sequence of decimal digits.
pub open spec fn digits_value(s: Seq<char>) -> int
    decreases s.len(),
{
    if s.len() == 0 {
        0
    } else {
        digits_value(s.drop_last()) * 10 + (s.last() as int - '0' as int)
    }
}

/// Every character is a decimal digit.
pub open spec fn all_digits(s: Seq<char>) -> bool {
    forall|i: int| 0 <= i < s.len() ==> '0' <= #[trigger] s[i] <= '9'
}

/// Parses a `Retry-After` value given as a non-negative whole number of
/// seconds. Returns the value when the input is one or more decimal digits
/// and fits in `u64`, and nothing otherwise.
pub fn parse_retry_after_seconds(raw: &str) -> (r: Option<u64>)
    ensures
        r matches Some(v) ==> raw@.len() > 0 && all_digits(raw@) && v == digits_value(raw@),
        r is None ==> raw@.len() == 0 || !all_digits(raw@) || digits_value(raw@) > u64::MAX,
{
    let n = raw.unicode_len();
    if n == 0 {
        return None;
    }
    let mut value: u64 = 0;
    let mut i: usize = 0;
    while i < n
        invariant
            i <= n,
            n == raw@.len(),
            all_digits(raw@.subrange(0, i as int)),
            value == digits_value(raw@.subrange(0, i as int)),
        decreases n - i,
    {
        let c = raw.get_char(i);
        let u = c as u32;
        if u < '0' as u32 || u > '9' as u32 {
            assert(!all_digits(raw@)) by {
                assert(!('0' <= raw@[i as int] <= '9'));
            }
            return None;
        }
        let d = (u - 0x30) as u64;
        let ghost pre = raw@.subrange(0, i as int);
        let ghost cur = raw@.subrange(0, i + 1);
        proof {
            assert(cur.drop_last() =~= pre);
            assert(cur.last() == raw@[i as int]);
        }
        if value > (u64::MAX - d) / 10 {
            proof {
                assert(digits_value(cur) == digits_value(pre) * 10 + d);
                assert(digits_value(cur) > u64::MAX);
                if all_digits(raw@) {
                    lemma_digits_value_monotone(raw@, i + 1);
                }
            }
            return None;
        }
        value = value * 10 + d;
        i += 1;
    }
    proof {
        assert(raw@.subrange(0, n as int) =~= raw@);
    }
    Some(value)
}

/// A digit string's value only grows as it gets longer.
proof fn lemma_digits_value_monotone(s: Seq<char>, i: int)
    requires
        0 <= i <= s.len(),
        all_digits(s),
    ensures
        digits_value(s.subrange(0, i)) <= digits_value(s) || !all_digits(s),
    decreases s.len() - i,
{
    if i == s.len() {
        assert(s.subrange(0, i) =~= s);
    } else {
        let cur = s.subrange(0, i);
        let next = s.subrange(0, i + 1);
        assert(next.drop_last() =~= cur);
        assert(next.last() == s[i]);
        assert('0' <= s[i] <= '9');
        assert(digits_value(cur) >= 0) by {
            lemma_digits_value_nonneg(cur, s);
        }
        assert(digits_value(next) == digits_value(cur) * 10 + (s[i] as int - '0' as int));
        lemma_digits_value_monotone(s, i + 1);
    }
}

/// A digit string's value is non-negative.
proof fn lemma_digits_value_nonneg(s: Seq<char>, whole: Seq<char>)
    requires
        forall|i: int| 0 <= i < s.len() ==> '0' <= #[trigger] s[i] <= '9',
    ensures
        digits_value(s) >= 0,
    decreases s.len(),
{
    if s.len() > 0 {
        lemma_digits_value_nonneg(s.drop_last(), whole);
    }
}

} // verus!
