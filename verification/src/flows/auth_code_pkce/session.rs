//! Authorization Code + PKCE handshake state: state and verifier
//! generation, the S256 challenge, the authorize URL, and state validation.

use vstd::prelude::*;

use crate::auth::id::{PrincipalId, TenantId};
use crate::auth::scope::ScopeSet;
use crate::crypto::{base64_url_nopad, base64_url_nopad_of, sha256, sha256_of};
use crate::error::Error;
use crate::flows::common::join_with;
use crate::provider::descriptor::ProviderDescriptor;
use crate::text::{push_char, str_eq_chars};
use vstd::string::StrSliceExecFns;
use vstd::string::StringExecFns;

verus! {

/// Length of the opaque `state` value, in characters.
pub const STATE_LEN: usize = 32;

/// Length of the PKCE verifier, in characters.
pub const PKCE_VERIFIER_LEN: usize = 64;

/// An ASCII letter or digit.
pub open spec fn is_ascii_alphanumeric_char(c: char) -> bool {
    let u = c as u32;
    (0x30 <= u && u <= 0x39) || (0x41 <= u && u <= 0x5A) || (0x61 <= u && u <= 0x7A)
}

/// Draws a random alphanumeric string.
///
/// Relies on rand's `Alphanumeric` distribution (`SampleString`) over the
/// thread-local generator: exactly `len` characters, each an ASCII letter or
/// digit. The values drawn are random, so nothing more is promised.
#[verifier::external_body]
fn random_alphanumeric(len: usize) -> (r: String)
    ensures
        r@.len() == len,
        forall|i: int| 0 <= i < r@.len() ==> is_ascii_alphanumeric_char(#[trigger] r@[i]),
{
    rand::distr::SampleString::sample_string(&rand::distr::Alphanumeric, &mut rand::rng(), len)
}

/// Supported PKCE challenge methods surfaced via [`AuthorizationSession`].
#[derive(Clone, Copy, Debug, PartialEq, Eq, Structural)]
pub enum PkceCodeChallengeMethod {
    /// SHA-256 based PKCE (RFC 7636 S256).
    S256,
}

impl PkceCodeChallengeMethod {
    /// Returns the RFC 7636 identifier for the challenge method.
    pub fn as_str(self) -> (r: &'static str)
        ensures
            r@ == "S256"@,
    {
        "S256"
    }
}

/// The S256 challenge for a verifier: URL-safe unpadded base64 of the
/// SHA-256 digest of the verifier's UTF-8 bytes.
pub open spec fn challenge_of(verifier: Seq<char>) -> Seq<char> {
    base64_url_nopad_of(sha256_of(vstd::utf8::encode_utf8(verifier)))
}

/// A PKCE verifier/challenge pair using the S256 method.
pub struct PkcePair {
    /// The secret verifier presented at code exchange.
    pub verifier: String,
    /// The derived challenge sent with the authorize request.
    pub challenge: String,
    /// The challenge method (always S256).
    pub method: PkceCodeChallengeMethod,
}

impl PkcePair {
    /// The pair is coherent: the challenge is the S256 challenge of the
    /// verifier.
    pub open spec fn wf(&self) -> bool {
        self.challenge@ == challenge_of(self.verifier@)
    }

    /// Generates a fresh 64-character verifier and its S256 challenge.
    pub fn generate() -> (r: Self)
        ensures
            r.wf(),
            r.verifier@.len() == PKCE_VERIFIER_LEN,
            forall|i: int|
                0 <= i < r.verifier@.len() ==> is_ascii_alphanumeric_char(#[trigger] r.verifier@[i]),
            r.method is S256,
    {
        let verifier = random_alphanumeric(PKCE_VERIFIER_LEN);
        let challenge = compute_pkce_challenge(verifier.as_str());
        PkcePair { verifier, challenge, method: PkceCodeChallengeMethod::S256 }
    }
}

impl Clone for PkcePair {
    fn clone(&self) -> (r: Self)
        ensures
            r.verifier@ == self.verifier@,
            r.challenge@ == self.challenge@,
            r.method == self.method,
    {
        PkcePair {
            verifier: self.verifier.clone(),
            challenge: self.challenge.clone(),
            method: self.method,
        }
    }
}

/// Computes the S256 code challenge for a verifier.
pub fn compute_pkce_challenge(verifier: &str) -> (r: String)
    ensures
        r@ == challenge_of(verifier@),
{
    let bytes = verifier.as_bytes_vec();
    let digest = sha256(bytes.as_slice());
    base64_url_nopad(digest.as_slice())
}

/// A byte the form-urlencoding keeps as itself: ASCII letters and digits,
/// `*`, `-`, `.`, and `_`.
pub open spec fn keeps_byte(b: u8) -> bool {
    ||| b == 0x2A
    ||| b == 0x2D
    ||| b == 0x2E
    ||| (0x30 <= b && b <= 0x39)
    ||| (0x41 <= b && b <= 0x5A)
    ||| b == 0x5F
    ||| (0x61 <= b && b <= 0x7A)
}

/// The uppercase hexadecimal digit for a nibble.
pub open spec fn hex_digit(d: u8) -> char {
    if d < 10 {
        (0x30 + d) as char
    } else {
        (0x37 + d) as char
    }
}

/// The `application/x-www-form-urlencoded` rendering of one byte: kept
/// bytes stand as themselves, a space becomes `+`, and everything else a
/// percent-escape with uppercase hex digits.
pub open spec fn encode_byte(b: u8) -> Seq<char> {
    if keeps_byte(b) {
        seq![b as char]
    } else if b == 0x20 {
        seq!['+']
    } else {
        seq!['%', hex_digit(b / 16), hex_digit(b % 16)]
    }
}

/// The form-urlencoding of a byte sequence.
pub open spec fn form_urlencode(bytes: Seq<u8>) -> Seq<char>
    decreases bytes.len(),
{
    if bytes.len() == 0 {
        Seq::empty()
    } else {
        form_urlencode(bytes.drop_last()) + encode_byte(bytes.last())
    }
}

/// Form-urlencodes the UTF-8 bytes of a string.
pub fn urlencode_component(s: &str) -> (r: String)
    ensures
        r@ == form_urlencode(vstd::utf8::encode_utf8(s@)),
{
    let bytes = s.as_bytes_vec();
    let ghost bv = bytes@;
    let mut buf = String::new();
    let n = bytes.len();
    let mut i: usize = 0;
    while i < n
        invariant
            i <= n,
            n == bytes@.len(),
            bv == bytes@,
            buf@ == form_urlencode(bv.subrange(0, i as int)),
        decreases n - i,
    {
        let b = bytes[i];
        let ghost pre = bv.subrange(0, i as int);
        let ghost cur = bv.subrange(0, i + 1);
        proof {
            assert(cur.drop_last() =~= pre);
            assert(cur.last() == bv[i as int]);
        }
        if b == 0x2A || b == 0x2D || b == 0x2E || (0x30 <= b && b <= 0x39) || (0x41 <= b && b
            <= 0x5A) || b == 0x5F || (0x61 <= b && b <= 0x7A) {
            push_char(&mut buf, b as char);
            proof {
                assert(buf@ =~= form_urlencode(pre) + encode_byte(bv[i as int]));
            }
        } else if b == 0x20 {
            push_char(&mut buf, '+');
            proof {
                assert(buf@ =~= form_urlencode(pre) + encode_byte(bv[i as int]));
            }
        } else {
            push_char(&mut buf, '%');
            let hi = b / 16;
            let lo = b % 16;
            let hi_c: char = if hi < 10 {
                (0x30 + hi) as char
            } else {
                (0x37 + hi) as char
            };
            let lo_c: char = if lo < 10 {
                (0x30 + lo) as char
            } else {
                (0x37 + lo) as char
            };
            push_char(&mut buf, hi_c);
            push_char(&mut buf, lo_c);
            proof {
                assert(hi_c == hex_digit(bv[i as int] / 16));
                assert(lo_c == hex_digit(bv[i as int] % 16));
                assert(buf@ =~= form_urlencode(pre) + encode_byte(bv[i as int]));
            }
        }
        i += 1;
    }
    proof {
        assert(bv.subrange(0, n as int) =~= bv);
    }
    buf
}

/// The encoded `key=value` rendering of one query pair.
pub open spec fn encoded_pair(k: Seq<char>, v: Seq<char>) -> Seq<char> {
    form_urlencode(vstd::utf8::encode_utf8(k)) + seq!['='] + form_urlencode(
        vstd::utf8::encode_utf8(v),
    )
}

/// The encoded query string for a pair sequence, joined by `&`.
pub open spec fn encoded_query(pairs: Seq<(Seq<char>, Seq<char>)>) -> Seq<char>
    decreases pairs.len(),
{
    if pairs.len() == 0 {
        Seq::empty()
    } else if pairs.len() == 1 {
        encoded_pair(pairs[0].0, pairs[0].1)
    } else {
        encoded_query(pairs.drop_last()) + seq!['&'] + encoded_pair(
            pairs.last().0,
            pairs.last().1,
        )
    }
}

/// The authorize URL: the base endpoint, a `?` (or `&` when the base
/// already carries a query), and the encoded pairs.
pub open spec fn authorize_url_of(base: Seq<char>, pairs: Seq<(Seq<char>, Seq<char>)>) -> Seq<
    char,
> {
    let sep: char = if base.contains('?') {
        '&'
    } else {
        '?'
    };
    base + seq![sep] + encoded_query(pairs)
}

/// The query pairs appended to the authorize endpoint, in protocol order;
/// the `scope` parameter is omitted for an empty scope set.
pub open spec fn authorize_pairs(
    client_id: Seq<char>,
    redirect_uri: Seq<char>,
    scope: Seq<Seq<char>>,
    delimiter: char,
    state: Seq<char>,
    challenge: Seq<char>,
) -> Seq<(Seq<char>, Seq<char>)> {
    let head = seq![
        ("response_type"@, "code"@),
        ("client_id"@, client_id),
        ("redirect_uri"@, redirect_uri),
    ];
    let with_scope = if scope.len() == 0 {
        head
    } else {
        head.push(("scope"@, join_with(scope, delimiter)))
    };
    with_scope + seq![
        ("state"@, state),
        ("code_challenge"@, challenge),
        ("code_challenge_method"@, "S256"@),
    ]
}

/// Appends form-urlencoded query pairs to a base URL, using `&` when the
/// base already carries a query.
pub fn append_query_pairs(base: &str, pairs: &Vec<(String, String)>) -> (r: String)
    ensures
        r@ == authorize_url_of(
            base@,
            crate::flows::client_credentials::pair_views(pairs@),
        ),
{
    let ghost pv = crate::flows::client_credentials::pair_views(pairs@);
    let mut buf = String::from_str(base);
    let has_query = str_contains_char(base, '?');
    if has_query {
        push_char(&mut buf, '&');
    } else {
        push_char(&mut buf, '?');
    }
    let ghost prefix = buf@;
    let n = pairs.len();
    let mut i: usize = 0;
    while i < n
        invariant
            i <= n,
            n == pairs@.len(),
            pv == crate::flows::client_credentials::pair_views(pairs@),
            buf@ == prefix + encoded_query(pv.subrange(0, i as int)),
        decreases n - i,
    {
        if i > 0 {
            push_char(&mut buf, '&');
        }
        let key_enc = urlencode_component(pairs[i].0.as_str());
        buf.append(key_enc.as_str());
        push_char(&mut buf, '=');
        let val_enc = urlencode_component(pairs[i].1.as_str());
        buf.append(val_enc.as_str());
        proof {
            let pre = pv.subrange(0, i as int);
            let cur = pv.subrange(0, i + 1);
            assert(cur.drop_last() =~= pre);
            assert(cur.last() == pv[i as int]);
            assert(pv[i as int] == (pairs@[i as int].0@, pairs@[i as int].1@));
            if i == 0 {
                assert(encoded_query(cur) == encoded_pair(cur[0].0, cur[0].1));
                assert(buf@ =~= prefix + encoded_query(cur));
            } else {
                assert(encoded_query(cur) == encoded_query(pre) + seq!['&'] + encoded_pair(
                    pv[i as int].0,
                    pv[i as int].1,
                ));
                assert(buf@ =~= prefix + encoded_query(cur));
            }
        }
        i += 1;
    }
    proof {
        assert(pv.subrange(0, n as int) =~= pv);
        assert(buf@ =~= authorize_url_of(base@, pv));
    }
    buf
}

/// Whether the string contains the character.
fn str_contains_char(s: &str, c: char) -> (r: bool)
    ensures
        r == s@.contains(c),
{
    let n = s.unicode_len();
    let mut i: usize = 0;
    while i < n
        invariant
            i <= n,
            n == s@.len(),
            forall|j: int| 0 <= j < i ==> s@[j] != c,
        decreases n - i,
    {
        if s.get_char(i) == c {
            assert(s@.contains(c)) by {
                assert(s@[i as int] == c);
            }
            return true;
        }
        i += 1;
    }
    proof {
        if s@.contains(c) {
            let k = choose|k: int| 0 <= k < s@.len() && s@[k] == c;
        }
    }
    false
}

/// Builds the ordered authorize query pairs for a session.
fn build_authorize_pairs(
    client_id: &str,
    redirect_uri: &str,
    scope: &ScopeSet,
    delimiter: char,
    state: &str,
    challenge: &str,
) -> (r: Vec<(String, String)>)
    ensures
        crate::flows::client_credentials::pair_views(r@) == authorize_pairs(
            client_id@,
            redirect_uri@,
            scope@,
            delimiter,
            state@,
            challenge@,
        ),
{
    let mut pairs: Vec<(String, String)> = Vec::new();
    pairs.push((String::from_str("response_type"), String::from_str("code")));
    pairs.push((String::from_str("client_id"), client_id.to_owned()));
    pairs.push((String::from_str("redirect_uri"), redirect_uri.to_owned()));
    match crate::flows::common::format_scope(scope, delimiter) {
        Some(value) => {
            pairs.push((String::from_str("scope"), value));
        },
        None => {},
    }
    pairs.push((String::from_str("state"), state.to_owned()));
    pairs.push((String::from_str("code_challenge"), challenge.to_owned()));
    pairs.push((String::from_str("code_challenge_method"), String::from_str("S256")));
    proof {
        assert(crate::flows::client_credentials::pair_views(pairs@) =~= authorize_pairs(
            client_id@,
            redirect_uri@,
            scope@,
            delimiter,
            state@,
            challenge@,
        ));
    }
    pairs
}

/// Authorization Code + PKCE handshake metadata.
pub struct AuthorizationSession {
    /// Tenant identifier tied to the session.
    pub tenant: TenantId,
    /// Principal identifier tied to the session.
    pub principal: PrincipalId,
    /// Requested scope set (prior to any provider overrides during exchange).
    pub scope: ScopeSet,
    /// Opaque state value that must round-trip via the redirect handler.
    pub state: String,
    /// Redirect URI supplied when constructing the authorize URL.
    pub redirect_uri: String,
    /// Fully-formed HTTPS authorize URL that callers should send end-users to.
    pub authorize_url: String,
    /// PKCE verifier/challenge pair bound to the session.
    pub pkce: PkcePair,
}

impl AuthorizationSession {
    /// The verifier held by the session.
    pub open spec fn spec_verifier(&self) -> Seq<char> {
        self.pkce.verifier@
    }

    /// The challenge held by the session.
    pub open spec fn spec_challenge(&self) -> Seq<char> {
        self.pkce.challenge@
    }

    /// Assembles a session from its parts.
    pub fn new(
        tenant: TenantId,
        principal: PrincipalId,
        scope: ScopeSet,
        redirect_uri: String,
        authorize_url: String,
        state: String,
        pkce: PkcePair,
    ) -> (r: Self)
        ensures
            r.tenant@ == tenant@,
            r.principal@ == principal@,
            r.scope@ == scope@,
            r.state@ == state@,
            r.redirect_uri@ == redirect_uri@,
            r.authorize_url@ == authorize_url@,
            r.spec_verifier() == pkce.verifier@,
            r.spec_challenge() == pkce.challenge@,
    {
        AuthorizationSession { tenant, principal, scope, state, redirect_uri, authorize_url, pkce }
    }

    /// PKCE code challenge derived from the secret verifier.
    pub fn code_challenge(&self) -> (r: &str)
        ensures
            r@ == self.spec_challenge(),
    {
        self.pkce.challenge.as_str()
    }

    /// PKCE challenge method (currently always `S256`).
    pub fn code_challenge_method(&self) -> (r: PkceCodeChallengeMethod)
        ensures
            r == self.pkce.method,
    {
        self.pkce.method
    }

    /// Validates the returned `state` parameter after the authorization
    /// redirect: any inequality is an invalid-grant failure.
    pub fn validate_state(&self, returned_state: &str) -> (r: Result<(), Error>)
        ensures
            r is Ok <==> returned_state@ == self.state@,
            r matches Err(e) ==> (e matches Error::InvalidGrant { reason } && reason@
                == "Authorization state mismatch."@),
    {
        if str_eq_chars(returned_state, self.state.as_str()) {
            Ok(())
        } else {
            Err(
                Error::InvalidGrant {
                    reason: String::from_str("Authorization state mismatch."),
                },
            )
        }
    }

    /// Dismantles the session into the parts the code exchange needs.
    pub fn into_exchange_parts(self) -> (r: (TenantId, PrincipalId, ScopeSet, String, PkcePair))
        ensures
            r.0@ == self.tenant@,
            r.1@ == self.principal@,
            r.2@ == self.scope@,
            r.3@ == self.redirect_uri@,
            r.4.verifier@ == self.spec_verifier(),
            r.4.challenge@ == self.spec_challenge(),
    {
        let AuthorizationSession { tenant, principal, scope, redirect_uri, pkce, .. } = self;
        (tenant, principal, scope, redirect_uri, pkce)
    }
}

/// Builds a full authorization session: a fresh 32-character state, a fresh
/// PKCE pair, and the authorize URL with the protocol-ordered query
/// parameters.
pub fn build_session(
    descriptor: &ProviderDescriptor,
    client_id: &str,
    tenant: TenantId,
    principal: PrincipalId,
    scope: ScopeSet,
    redirect_uri: String,
) -> (r: AuthorizationSession)
    ensures
        r.tenant@ == tenant@,
        r.principal@ == principal@,
        r.scope@ == scope@,
        r.redirect_uri@ == redirect_uri@,
        r.state@.len() == STATE_LEN,
        forall|i: int| 0 <= i < r.state@.len() ==> is_ascii_alphanumeric_char(#[trigger] r.state@[i]),
        r.spec_challenge() == challenge_of(r.spec_verifier()),
        r.spec_verifier().len() == PKCE_VERIFIER_LEN,
        r.authorize_url@ == authorize_url_of(
            descriptor.endpoints.authorization@,
            authorize_pairs(
                client_id@,
                redirect_uri@,
                scope@,
                descriptor.quirks.scope_delimiter,
                r.state@,
                r.spec_challenge(),
            ),
        ),
{
    let state = random_alphanumeric(STATE_LEN);
    let pkce = PkcePair::generate();
    let authorize_url = build_authorize_url(
        descriptor,
        client_id,
        redirect_uri.as_str(),
        &scope,
        state.as_str(),
        &pkce,
    );
    AuthorizationSession::new(tenant, principal, scope, redirect_uri, authorize_url, state, pkce)
}

/// Builds the authorize URL for a session: the descriptor's authorization
/// endpoint with the protocol-ordered, form-urlencoded query parameters
/// appended.
pub fn build_authorize_url(
    descriptor: &ProviderDescriptor,
    client_id: &str,
    redirect_uri: &str,
    scope: &ScopeSet,
    state: &str,
    pkce: &PkcePair,
) -> (r: String)
    ensures
        r@ == authorize_url_of(
            descriptor.endpoints.authorization@,
            authorize_pairs(
                client_id@,
                redirect_uri@,
                scope@,
                descriptor.quirks.scope_delimiter,
                state@,
                pkce.challenge@,
            ),
        ),
{
    let pairs = build_authorize_pairs(
        client_id,
        redirect_uri,
        scope,
        descriptor.quirks.scope_delimiter,
        state,
        pkce.challenge.as_str(),
    );
    append_query_pairs(descriptor.endpoints.authorization.as_str(), &pairs)
}

} // verus!
