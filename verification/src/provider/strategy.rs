//! Provider strategy hooks that customize token exchanges.
//!
//! Implementations decorate outgoing token requests and classify provider
//! failures without tying flows to any particular HTTP client.

use vstd::prelude::*;

use crate::provider::descriptor::grant::GrantType;
use crate::text::{
    chars_contain_lower, chars_eq_ignore_case, chars_vec, contains_lower, eq_ignore_ascii_case,
};
use vstd::string::StrSliceExecFns;
use vstd::string::StringExecFns;

verus! {

/// Canonical provider error categories used by strategies.
#[derive(Clone, Copy, Debug, PartialEq, Eq, Structural)]
pub enum ProviderErrorKind {
    /// Provider rejected the authorization grant (bad code/refresh token).
    InvalidGrant,
    /// Client authentication failed.
    InvalidClient,
    /// Requested scopes exceed what the token covers.
    InsufficientScope,
    /// Failure is temporary and should be retried.
    Transient,
}

/// Longest body preview carried in an error context, in characters.
pub const BODY_PREVIEW_LIMIT: usize = 256;

/// Context passed to provider strategies when classifying token errors. It
/// carries only primitive data: status codes, OAuth fields, and a body
/// preview.
#[derive(Debug)]
pub struct ProviderErrorContext {
    /// Grant type associated with the failing request.
    pub grant_type: GrantType,
    /// HTTP status code returned by the provider, when available.
    pub http_status: Option<u16>,
    /// Provider-supplied OAuth `error` field.
    pub oauth_error: Option<String>,
    /// Provider-supplied OAuth `error_description` field.
    pub error_description: Option<String>,
    /// Preview of the response body for non-JSON payloads.
    pub body_preview: Option<String>,
    /// Indicates whether the failure originated from the network/transport layer.
    pub network_error: bool,
}

/// View of an optional owned string.
pub open spec fn opt_string_view(o: &Option<String>) -> Option<Seq<char>> {
    match o {
        Some(s) => Some(s@),
        None => None,
    }
}

/// The classification an exact OAuth error code maps to, compared ASCII
/// case-insensitively.
pub open spec fn match_exact_kind(v: Seq<char>) -> Option<ProviderErrorKind> {
    if eq_ignore_ascii_case(v, "invalid_grant"@) || eq_ignore_ascii_case(v, "access_denied"@) {
        Some(ProviderErrorKind::InvalidGrant)
    } else if eq_ignore_ascii_case(v, "invalid_client"@) || eq_ignore_ascii_case(
        v,
        "unauthorized_client"@,
    ) {
        Some(ProviderErrorKind::InvalidClient)
    } else if eq_ignore_ascii_case(v, "invalid_scope"@) || eq_ignore_ascii_case(
        v,
        "insufficient_scope"@,
    ) {
        Some(ProviderErrorKind::InsufficientScope)
    } else if eq_ignore_ascii_case(v, "temporarily_unavailable"@) || eq_ignore_ascii_case(
        v,
        "server_error"@,
    ) {
        Some(ProviderErrorKind::Transient)
    } else {
        None
    }
}

/// The classification a substring scan of a lowercased body yields.
pub open spec fn body_kind(body: Option<Seq<char>>) -> Option<ProviderErrorKind> {
    match body {
        None => None,
        Some(b) => if contains_lower(b, "invalid_grant"@) {
            Some(ProviderErrorKind::InvalidGrant)
        } else if contains_lower(b, "invalid_client"@) {
            Some(ProviderErrorKind::InvalidClient)
        } else if contains_lower(b, "insufficient_scope"@) || contains_lower(
            b,
            "invalid_scope"@,
        ) {
            Some(ProviderErrorKind::InsufficientScope)
        } else if contains_lower(b, "temporarily_unavailable"@) || contains_lower(b, "retry"@) {
            Some(ProviderErrorKind::Transient)
        } else {
            None
        },
    }
}

/// The classification the structured OAuth fields yield: the `error` code
/// first, then the `error_description` as an exact code, then a substring
/// scan of the description.
pub open spec fn oauth_error_kind(
    err: Option<Seq<char>>,
    desc: Option<Seq<char>>,
) -> Option<ProviderErrorKind> {
    let from_err = match err {
        Some(e) => match_exact_kind(e),
        None => None,
    };
    if from_err is Some {
        from_err
    } else {
        let from_desc = match desc {
            Some(d) => match_exact_kind(d),
            None => None,
        };
        if from_desc is Some {
            from_desc
        } else {
            body_kind(desc)
        }
    }
}

/// The fallback classification by HTTP status.
pub open spec fn status_kind(status: Option<u16>) -> ProviderErrorKind {
    match status {
        Some(s) => if s == 400 || s == 404 || s == 410 {
            ProviderErrorKind::InvalidGrant
        } else if s == 401 {
            ProviderErrorKind::InvalidClient
        } else if s == 403 {
            ProviderErrorKind::InsufficientScope
        } else {
            ProviderErrorKind::Transient
        },
        None => ProviderErrorKind::Transient,
    }
}

/// The default classification: network failures are transient; then the
/// structured OAuth fields, then the body preview, then the HTTP status.
pub open spec fn classify_spec(ctx: &ProviderErrorContext) -> ProviderErrorKind {
    if ctx.network_error {
        ProviderErrorKind::Transient
    } else {
        let from_fields = oauth_error_kind(
            opt_string_view(&ctx.oauth_error),
            opt_string_view(&ctx.error_description),
        );
        match from_fields {
            Some(k) => k,
            None => match body_kind(opt_string_view(&ctx.body_preview)) {
                Some(k) => k,
                None => status_kind(ctx.http_status),
            },
        }
    }
}

/// The body preview kept in a context: at most 256 characters, with an
/// ellipsis appended when the body was longer.
pub open spec fn spec_truncate_preview(body: Seq<char>) -> Seq<char> {
    if body.len() <= 256 {
        body
    } else {
        body.subrange(0, 256).push('\u{2026}')
    }
}

/// Truncates a body preview at 256 characters, counting characters rather
/// than bytes, and appends an ellipsis when something was cut.
pub fn truncate_preview(body: String) -> (r: String)
    ensures
        r@ == spec_truncate_preview(body@),
{
    let n = body.as_str().unicode_len();
    if n <= BODY_PREVIEW_LIMIT {
        return body;
    }
    let cut = body.as_str().substring_char(0, BODY_PREVIEW_LIMIT);
    let mut buf = String::from_str(cut);
    crate::text::push_char(&mut buf, '\u{2026}');
    buf
}

impl ProviderErrorContext {
    /// Creates a new context scoped to the provided grant type.
    pub fn new(grant_type: GrantType) -> (r: Self)
        ensures
            r.grant_type == grant_type,
            r.http_status is None,
            r.oauth_error is None,
            r.error_description is None,
            r.body_preview is None,
            !r.network_error,
    {
        ProviderErrorContext {
            grant_type,
            http_status: None,
            oauth_error: None,
            error_description: None,
            body_preview: None,
            network_error: false,
        }
    }

    /// Convenience constructor for transport-level/network failures.
    pub fn network_failure(grant_type: GrantType) -> (r: Self)
        ensures
            r.grant_type == grant_type,
            r.http_status is None,
            r.oauth_error is None,
            r.error_description is None,
            r.body_preview is None,
            r.network_error,
    {
        ProviderErrorContext {
            grant_type,
            http_status: None,
            oauth_error: None,
            error_description: None,
            body_preview: None,
            network_error: true,
        }
    }

    /// Overrides the network error flag.
    pub fn with_network_error(self, network_error: bool) -> (r: Self)
        ensures
            r == (ProviderErrorContext { network_error, ..self }),
    {
        ProviderErrorContext { network_error, ..self }
    }

    /// Adds an HTTP status code (e.g., 400, 401, 500).
    pub fn with_http_status(self, status: u16) -> (r: Self)
        ensures
            r == (ProviderErrorContext { http_status: Some(status), ..self }),
    {
        ProviderErrorContext { http_status: Some(status), ..self }
    }

    /// Adds the OAuth error code string returned by the provider.
    pub fn with_oauth_error(self, error: String) -> (r: Self)
        ensures
            r == (ProviderErrorContext { oauth_error: r.oauth_error, ..self }),
            r.oauth_error matches Some(e) && e@ == error@,
    {
        ProviderErrorContext { oauth_error: Some(error), ..self }
    }

    /// Adds the OAuth `error_description` field.
    pub fn with_error_description(self, description: String) -> (r: Self)
        ensures
            r == (ProviderErrorContext { error_description: r.error_description, ..self }),
            r.error_description matches Some(d) && d@ == description@,
    {
        ProviderErrorContext { error_description: Some(description), ..self }
    }

    /// Adds a body preview for providers that return non-JSON payloads,
    /// truncated at 256 characters.
    pub fn with_body_preview(self, body: String) -> (r: Self)
        ensures
            r == (ProviderErrorContext { body_preview: r.body_preview, ..self }),
            r.body_preview matches Some(b) && b@ == spec_truncate_preview(body@),
    {
        let truncated = truncate_preview(body);
        ProviderErrorContext { body_preview: Some(truncated), ..self }
    }
}

/// Strategy hook that allows providers to decorate requests and classify
/// errors. Override only what you need: `augment_token_request` has a
/// default no-op implementation. The form is a list of key/value pairs.
pub trait ProviderStrategy {
    /// Maps low-level HTTP/JSON errors into the broker taxonomy for a token request.
    fn classify_token_error(&self, ctx: &ProviderErrorContext) -> ProviderErrorKind;

    /// Gives providers a chance to add custom form parameters before dispatching.
    fn augment_token_request(&self, grant: GrantType, form: &mut Vec<(String, String)>) {
    }
}

/// Default strategy that applies RFC-guided heuristics: structured OAuth
/// fields first, then body text hints, and finally the HTTP status code.
/// Network failures are always treated as transient.
#[derive(Clone, Copy, Debug, Default)]
pub struct DefaultProviderStrategy;

/// Matches a value against the exact OAuth error codes, ASCII
/// case-insensitively.
fn match_exact_value(value: &str) -> (r: Option<ProviderErrorKind>)
    ensures
        r == match_exact_kind(value@),
{
    let v = chars_vec(value);
    if chars_eq_ignore_case(&v, &chars_vec("invalid_grant")) || chars_eq_ignore_case(
        &v,
        &chars_vec("access_denied"),
    ) {
        Some(ProviderErrorKind::InvalidGrant)
    } else if chars_eq_ignore_case(&v, &chars_vec("invalid_client")) || chars_eq_ignore_case(
        &v,
        &chars_vec("unauthorized_client"),
    ) {
        Some(ProviderErrorKind::InvalidClient)
    } else if chars_eq_ignore_case(&v, &chars_vec("invalid_scope")) || chars_eq_ignore_case(
        &v,
        &chars_vec("insufficient_scope"),
    ) {
        Some(ProviderErrorKind::InsufficientScope)
    } else if chars_eq_ignore_case(&v, &chars_vec("temporarily_unavailable"))
        || chars_eq_ignore_case(&v, &chars_vec("server_error")) {
        Some(ProviderErrorKind::Transient)
    } else {
        None
    }
}

/// Scans a lowercased body for classification tokens.
fn classify_body(body: &Option<String>) -> (r: Option<ProviderErrorKind>)
    ensures
        r == body_kind(opt_string_view(body)),
{
    match body {
        None => None,
        Some(b) => {
            let hay = chars_vec(b.as_str());
            if chars_contain_lower(&hay, &chars_vec("invalid_grant")) {
                Some(ProviderErrorKind::InvalidGrant)
            } else if chars_contain_lower(&hay, &chars_vec("invalid_client")) {
                Some(ProviderErrorKind::InvalidClient)
            } else if chars_contain_lower(&hay, &chars_vec("insufficient_scope"))
                || chars_contain_lower(&hay, &chars_vec("invalid_scope")) {
                Some(ProviderErrorKind::InsufficientScope)
            } else if chars_contain_lower(&hay, &chars_vec("temporarily_unavailable"))
                || chars_contain_lower(&hay, &chars_vec("retry")) {
                Some(ProviderErrorKind::Transient)
            } else {
                None
            }
        },
    }
}

/// Classifies by the structured OAuth fields.
fn classify_oauth_error(
    oauth_error: &Option<String>,
    error_description: &Option<String>,
) -> (r: Option<ProviderErrorKind>)
    ensures
        r == oauth_error_kind(opt_string_view(oauth_error), opt_string_view(error_description)),
{
    let from_err = match oauth_error {
        Some(e) => match_exact_value(e.as_str()),
        None => None,
    };
    if let Some(k) = from_err {
        return Some(k);
    }
    let from_desc = match error_description {
        Some(d) => match_exact_value(d.as_str()),
        None => None,
    };
    if let Some(k) = from_desc {
        return Some(k);
    }
    classify_body(error_description)
}

/// Classifies by HTTP status alone.
fn classify_status(status: Option<u16>) -> (r: ProviderErrorKind)
    ensures
        r == status_kind(status),
{
    match status {
        Some(s) => {
            if s == 400 || s == 404 || s == 410 {
                ProviderErrorKind::InvalidGrant
            } else if s == 401 {
                ProviderErrorKind::InvalidClient
            } else if s == 403 {
                ProviderErrorKind::InsufficientScope
            } else {
                ProviderErrorKind::Transient
            }
        },
        None => ProviderErrorKind::Transient,
    }
}

impl DefaultProviderStrategy {
    /// The default classification, exactly [`classify_spec`]: network
    /// failures are transient, then structured OAuth fields, then the body
    /// preview, then the HTTP status.
    pub fn classify(&self, ctx: &ProviderErrorContext) -> (r: ProviderErrorKind)
        ensures
            r == classify_spec(ctx),
    {
        if ctx.network_error {
            return ProviderErrorKind::Transient;
        }
        if let Some(kind) = classify_oauth_error(&ctx.oauth_error, &ctx.error_description) {
            return kind;
        }
        if let Some(kind) = classify_body(&ctx.body_preview) {
            return kind;
        }
        classify_status(ctx.http_status)
    }
}

impl ProviderStrategy for DefaultProviderStrategy {
    fn classify_token_error(&self, ctx: &ProviderErrorContext) -> (r: ProviderErrorKind) {
        self.classify(ctx)
    }
}

} // verus!
