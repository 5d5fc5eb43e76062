//! Token response normalization and provider error mapping: the decision
//! core of the facade that turns provider responses into token records and
//! transport failures into the broker error taxonomy.

use vstd::prelude::*;

use crate::auth::scope::{
    all_scopes_valid, lemma_sorted_canonical, views_of, ScopeSet, ScopeValidationError,
};
use crate::auth::token::family::TokenFamily;
use crate::auth::token::record::{sat_add_i64, saturating_add_i64, TokenRecord};
use crate::auth::token::secret::TokenSecret;
use crate::error::{ConfigError, Error, TransientError, TransportError};
use crate::http::ResponseMetadata;
use crate::provider::descriptor::grant::GrantType;
use crate::provider::strategy::{
    classify_spec, DefaultProviderStrategy, ProviderErrorContext, ProviderErrorKind,
};
use crate::text::push_char;
use vstd::string::StringExecFns;

verus! {

/// The plain data of a token endpoint response: what normalization reads.
#[derive(Debug)]
pub struct TokenResponseData {
    /// The issued access token.
    pub access_token: String,
    /// The rotated refresh token, when the provider issued one.
    pub refresh_token: Option<String>,
    /// Lifetime of the access token, in seconds, when given.
    pub expires_in: Option<u64>,
    /// The scopes the provider reports, when it reports any.
    pub scopes: Option<Vec<String>>,
}

/// View of an optional owned string.
pub open spec fn opt_secret_view(o: &Option<String>) -> Option<Seq<char>> {
    match o {
        Some(s) => Some(s@),
        None => None,
    }
}

/// Whether the scopes a response reports agree with the requested set: no
/// report is fine, and a report must hold exactly the requested members.
pub open spec fn response_scopes_ok(scopes: &Option<Vec<String>>, requested: Seq<Seq<char>>) -> bool {
    match scopes {
        None => true,
        Some(list) => all_scopes_valid(views_of(list@)) && (forall|x: Seq<char>|
            views_of(list@).contains(x) <==> requested.contains(x)),
    }
}

/// Whether a response normalizes successfully: a representable positive
/// `expires_in` and agreeing scopes.
pub open spec fn response_ok(resp: &TokenResponseData, requested: Seq<Seq<char>>) -> bool {
    &&& resp.expires_in matches Some(e)
    &&& resp.expires_in->0 > 0
    &&& resp.expires_in->0 <= i64::MAX
    &&& response_scopes_ok(&resp.scopes, requested)
}

/// Normalizes a refresh-grant token response into a record plus the
/// optionally rotated refresh secret.
///
/// `expires_in` is required, must be representable, and must be positive;
/// reported scopes must equal the requested set member for member. The
/// record is issued at `now` and expires `expires_in` seconds later.
pub fn map_refresh_token_response(
    family: TokenFamily,
    requested_scope: &ScopeSet,
    response: TokenResponseData,
    grant: GrantType,
    now: i64,
) -> (r: Result<(TokenRecord, Option<String>), Error>)
    ensures
        r is Ok <==> response_ok(&response, requested_scope@),
        response.expires_in is None ==> r == Err::<(TokenRecord, Option<String>), _>(
            Error::Config(ConfigError::MissingExpiresIn),
        ),
        response.expires_in matches Some(e) && e > i64::MAX ==> r == Err::<
            (TokenRecord, Option<String>),
            _,
        >(Error::Config(ConfigError::ExpiresInOutOfRange)),
        response.expires_in matches Some(e) && e == 0 ==> r == Err::<
            (TokenRecord, Option<String>),
            _,
        >(Error::Config(ConfigError::NonPositiveExpiresIn)),
        (response.expires_in matches Some(e) && 0 < e <= i64::MAX && !response_scopes_ok(
            &response.scopes,
            requested_scope@,
        )) ==> (r matches Err(err) && (err matches Error::Config(c) ==> (c matches
        ConfigError::ScopesChanged { grant: g } && g == grant) || c is InvalidScope)),
        r matches Ok((rec, rotated)) ==> {
            &&& rec@.family == family@
            &&& rec@.scope == requested_scope@
            &&& rec@.access_token == response.access_token@
            &&& rec@.refresh_token == opt_secret_view(&response.refresh_token)
            &&& rec@.issued_at == now
            &&& rec@.expires_at == sat_add_i64(now, response.expires_in->0 as i64)
            &&& rec@.revoked_at is None
            &&& opt_secret_view(&rotated) == opt_secret_view(&response.refresh_token)
        },
{
    let expires_in = match &response.expires_in {
        Some(e) => *e,
        None => {
            return Err(Error::Config(ConfigError::MissingExpiresIn));
        },
    };
    if expires_in > i64::MAX as u64 {
        return Err(Error::Config(ConfigError::ExpiresInOutOfRange));
    }
    if expires_in == 0 {
        return Err(Error::Config(ConfigError::NonPositiveExpiresIn));
    }
    match &response.scopes {
        Some(list) => {
            let returned = match ScopeSet::try_from(list.as_slice()) {
                Ok(s) => s,
                Err(e) => {
                    return Err(Error::Config(ConfigError::InvalidScope(e)));
                },
            };
            let same = &returned == requested_scope;
            proof {
                use_type_invariant(&returned);
                use_type_invariant(requested_scope);
                if !same {
                    if forall|x: Seq<char>|
                        returned@.contains(x) <==> requested_scope@.contains(x) {
                        lemma_sorted_canonical(returned@, requested_scope@);
                    }
                }
            }
            if !same {
                return Err(Error::Config(ConfigError::ScopesChanged { grant }));
            }
        },
        None => {},
    }
    let expires_secs = expires_in as i64;
    let expires_at = saturating_add_i64(now, expires_secs);
    let refresh_secret = match &response.refresh_token {
        Some(s) => Some(TokenSecret::new(s.as_str())),
        None => None,
    };
    let record = TokenRecord {
        family,
        scope: requested_scope.clone(),
        access_token: TokenSecret::new(response.access_token.as_str()),
        refresh_token: refresh_secret,
        issued_at: now,
        expires_at,
        revoked_at: None,
    };
    Ok((record, response.refresh_token))
}

/// Normalizes a standard (client-credentials or authorization-code) token
/// response into a record; the rules are those of
/// [`map_refresh_token_response`].
pub fn map_standard_token_response(
    family: TokenFamily,
    requested_scope: &ScopeSet,
    response: TokenResponseData,
    grant: GrantType,
    now: i64,
) -> (r: Result<TokenRecord, Error>)
    ensures
        r is Ok <==> response_ok(&response, requested_scope@),
        response.expires_in is None ==> r == Err::<TokenRecord, _>(
            Error::Config(ConfigError::MissingExpiresIn),
        ),
        response.expires_in matches Some(e) && e > i64::MAX ==> r == Err::<TokenRecord, _>(
            Error::Config(ConfigError::ExpiresInOutOfRange),
        ),
        response.expires_in matches Some(e) && e == 0 ==> r == Err::<TokenRecord, _>(
            Error::Config(ConfigError::NonPositiveExpiresIn),
        ),
        r matches Ok(rec) ==> {
            &&& rec@.family == family@
            &&& rec@.scope == requested_scope@
            &&& rec@.access_token == response.access_token@
            &&& rec@.refresh_token == opt_secret_view(&response.refresh_token)
            &&& rec@.issued_at == now
            &&& rec@.expires_at == sat_add_i64(now, response.expires_in->0 as i64)
            &&& rec@.revoked_at is None
        },
{
    match map_refresh_token_response(family, requested_scope, response, grant, now) {
        Ok((record, _)) => Ok(record),
        Err(e) => Err(e),
    }
}

/// The status captured in the metadata, when any.
pub open spec fn spec_meta_status(meta: Option<&ResponseMetadata>) -> Option<u16> {
    match meta {
        Some(m) => m.status,
        None => None,
    }
}

/// The retry hint captured in the metadata, in seconds, when any.
pub open spec fn spec_meta_retry_after(meta: Option<&ResponseMetadata>) -> Option<i64> {
    match meta {
        Some(m) => m.retry_after,
        None => None,
    }
}

/// Reads the status out of optional captured metadata.
pub fn meta_status(meta: Option<&ResponseMetadata>) -> (r: Option<u16>)
    ensures
        r == spec_meta_status(meta),
{
    match meta {
        Some(m) => m.status,
        None => None,
    }
}

/// Reads the retry hint out of optional captured metadata, in seconds.
pub fn meta_retry_after(meta: Option<&ResponseMetadata>) -> (r: Option<i64>)
    ensures
        r == spec_meta_retry_after(meta),
{
    match meta {
        Some(m) => m.retry_after,
        None => None,
    }
}

/// Turns a classification and message into the broker error for a provider
/// rejection: each OAuth kind keeps the message as its reason, and the
/// transient kind always carries the captured status and retry hint.
pub fn compose_provider_error(
    kind: ProviderErrorKind,
    message: String,
    status: Option<u16>,
    retry_after: Option<i64>,
) -> (r: Error)
    ensures
        kind is InvalidGrant ==> (r matches Error::InvalidGrant { reason } && reason@
            == message@),
        kind is InvalidClient ==> (r matches Error::InvalidClient { reason } && reason@
            == message@),
        kind is InsufficientScope ==> (r matches Error::InsufficientScope { reason } && reason@
            == message@),
        kind is Transient ==> (r matches Error::Transient(TransientError::TokenEndpoint {
            message: m,
            status: s,
            retry_after: ra,
        }) && m@ == message@ && s == status && ra == retry_after),
{
    match kind {
        ProviderErrorKind::InvalidGrant => Error::InvalidGrant { reason: message },
        ProviderErrorKind::InvalidClient => Error::InvalidClient { reason: message },
        ProviderErrorKind::InsufficientScope => Error::InsufficientScope { reason: message },
        ProviderErrorKind::Transient => Error::Transient(
            TransientError::TokenEndpoint { message, status, retry_after },
        ),
    }
}

/// The message reported for an OAuth error response: the description when
/// one was given, the error code otherwise.
pub open spec fn oauth_error_message(
    oauth_error: Seq<char>,
    description: &Option<String>,
) -> Seq<char> {
    let detail = match description {
        Some(d) => d@,
        None => oauth_error,
    };
    "Token endpoint returned an OAuth error: "@ + detail + seq!['.']
}

/// Maps an OAuth error response from the token endpoint using the default
/// classification, carrying the captured metadata into transient errors.
pub fn map_server_response_error(
    grant: GrantType,
    oauth_error: String,
    error_description: Option<String>,
    meta: Option<&ResponseMetadata>,
) -> (r: Error)
    ensures
        ({
            let ctx = ProviderErrorContext {
                grant_type: grant,
                http_status: spec_meta_status(meta),
                oauth_error: Some(oauth_error),
                error_description,
                body_preview: None,
                network_error: false,
            };
            let msg = oauth_error_message(oauth_error@, &error_description);
            match classify_spec(&ctx) {
                ProviderErrorKind::InvalidGrant => r matches Error::InvalidGrant { reason }
                    && reason@ == msg,
                ProviderErrorKind::InvalidClient => r matches Error::InvalidClient { reason }
                    && reason@ == msg,
                ProviderErrorKind::InsufficientScope => r matches Error::InsufficientScope {
                    reason,
                } && reason@ == msg,
                ProviderErrorKind::Transient => r matches Error::Transient(
                    TransientError::TokenEndpoint { message, status, retry_after },
                ) && message@ == msg && status == spec_meta_status(meta) && retry_after
                    == spec_meta_retry_after(meta),
            }
        }),
{
    let mut message = String::from_str("Token endpoint returned an OAuth error: ");
    match &error_description {
        Some(d) => {
            message.append(d.as_str());
        },
        None => {
            message.append(oauth_error.as_str());
        },
    }
    push_char(&mut message, '.');
    let mut ctx = ProviderErrorContext::new(grant).with_oauth_error(oauth_error);
    ctx = match error_description {
        Some(d) => ctx.with_error_description(d),
        None => ctx,
    };
    ctx = match meta_status(meta) {
        Some(s) => ctx.with_http_status(s),
        None => ctx,
    };
    let strategy = DefaultProviderStrategy;
    let kind = strategy.classify(&ctx);
    compose_provider_error(kind, message, meta_status(meta), meta_retry_after(meta))
}

/// Maps a transport failure by its nature: a client-builder failure is a
/// configuration error, a timeout is a transient token-endpoint error with
/// the captured metadata, and anything else is a network error.
pub fn map_transport_failure(
    is_builder: bool,
    is_timeout: bool,
    error_message: String,
    error_status: Option<u16>,
    meta: Option<&ResponseMetadata>,
) -> (r: Error)
    ensures
        is_builder ==> (r matches Error::Config(ConfigError::HttpClientBuild { message })
            && message@ == error_message@),
        !is_builder && is_timeout ==> (r matches Error::Transient(
            TransientError::TokenEndpoint { message, status, retry_after },
        ) && message@ == "Request timed out while calling the token endpoint."@ && status == (
        match spec_meta_status(meta) {
            Some(s) => Some(s),
            None => error_status,
        }) && retry_after == spec_meta_retry_after(meta)),
        !is_builder && !is_timeout ==> (r matches Error::Transport(TransportError::Network {
            message,
        }) && message@ == error_message@),
{
    if is_builder {
        return Error::Config(ConfigError::HttpClientBuild { message: error_message });
    }
    if is_timeout {
        let status = match meta_status(meta) {
            Some(s) => Some(s),
            None => error_status,
        };
        return Error::Transient(
            TransientError::TokenEndpoint {
                message: String::from_str("Request timed out while calling the token endpoint."),
                status,
                retry_after: meta_retry_after(meta),
            },
        );
    }
    Error::Transport(TransportError::Network { message: error_message })
}

/// Maps a transport error that carries only a message into a transient
/// token-endpoint error with the captured metadata.
pub fn map_generic_transport_error(meta: Option<&ResponseMetadata>, message: String) -> (r: Error)
    ensures
        r matches Error::Transient(TransientError::TokenEndpoint {
            message: m,
            status,
            retry_after,
        }) && m@ == ("HTTP client error occurred while calling the token endpoint: "@ + message@
            + seq!['.']) && status == spec_meta_status(meta) && retry_after
            == spec_meta_retry_after(meta),
{
    let mut full = String::from_str("HTTP client error occurred while calling the token endpoint: ");
    full.append(message.as_str());
    push_char(&mut full, '.');
    Error::Transient(
        TransientError::TokenEndpoint {
            message: full,
            status: meta_status(meta),
            retry_after: meta_retry_after(meta),
        },
    )
}

/// Maps a transport error of unknown shape into a transient token-endpoint
/// error with the captured metadata.
pub fn map_unknown_transport_error(meta: Option<&ResponseMetadata>) -> (r: Error)
    ensures
        r matches Error::Transient(TransientError::TokenEndpoint {
            message: m,
            status,
            retry_after,
        }) && m@ == "HTTP client error occurred while calling the token endpoint."@ && status
            == spec_meta_status(meta) && retry_after == spec_meta_retry_after(meta),
{
    Error::Transient(
        TransientError::TokenEndpoint {
            message: String::from_str(
                "HTTP client error occurred while calling the token endpoint.",
            ),
            status: meta_status(meta),
            retry_after: meta_retry_after(meta),
        },
    )
}

/// Wraps a response-body parse failure into a transient parse error with
/// the captured status.
pub fn compose_parse_error(message: String, meta: Option<&ResponseMetadata>) -> (r: Error)
    ensures
        r matches Error::Transient(TransientError::TokenResponseParse { message: m, status })
            && m@ == message@ && status == spec_meta_status(meta),
{
    Error::Transient(
        TransientError::TokenResponseParse { message, status: meta_status(meta) },
    )
}

} // verus!
