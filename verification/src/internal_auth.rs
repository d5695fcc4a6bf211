use vstd::prelude::*;
use crate::config::Settings;
use crate::ratelimit::{
    spec_check_allowed, spec_check_store, spec_rate_key, AccountTypeRateLimiter,
};
use crate::text::{has_prefix, is_prefix};

verus! {

/// Per-request identity, built once by the auth gate and read-only
/// thereafter.
#[derive(Clone, Debug)]
pub struct InternalContext {
    pub user_id: Option<String>,
    pub user_email: Option<String>,
    pub organization_id: Option<String>,
    pub account_type: String,
    pub request_id: Option<String>,
    pub is_internal: bool,
}

impl Default for InternalContext {
    fn default() -> (r: Self)
        ensures
            r.user_id is None,
            r.user_email is None,
            r.organization_id is None,
            r.account_type@ == Seq::<char>::empty(),
            r.request_id is None,
            r.is_internal == false,
    {
        InternalContext {
            user_id: None,
            user_email: None,
            organization_id: None,
            account_type: String::new(),
            request_id: None,
            is_internal: false,
        }
    }
}

/// The account tier assumed when a request names none.
pub fn default_account_type() -> (r: String)
    ensures
        r@ == "casual"@,
{
    String::from_str("casual")
}

/// The optional identity headers of one request, as plain values.
#[derive(Clone, Debug)]
pub struct RequestHeaders {
    pub internal_secret: Option<String>,
    pub user_id: Option<String>,
    pub user_email: Option<String>,
    pub organization_id: Option<String>,
    pub account_type: Option<String>,
    pub request_id: Option<String>,
}

/// Paths served without secret validation or rate limiting.
pub open spec fn spec_allowlisted(path: Seq<char>) -> bool {
    ||| is_prefix("/health"@, path)
    ||| is_prefix("/docs"@, path)
    ||| is_prefix("/redoc"@, path)
    ||| is_prefix("/openapi.json"@, path)
    ||| is_prefix("/metrics"@, path)
}

pub fn is_allowlisted_path(path: &str) -> (r: bool)
    ensures
        r == spec_allowlisted(path@),
{
    has_prefix(path, "/health") || has_prefix(path, "/docs") || has_prefix(path, "/redoc")
        || has_prefix(path, "/openapi.json") || has_prefix(path, "/metrics")
}

/// Relies on constant_time_eq::constant_time_eq: whether the two byte
/// strings are equal, compared without data-dependent timing; byte
/// equality of UTF-8 encodings coincides with character equality.
#[verifier::external_body]
fn ct_str_eq(a: &str, b: &str) -> (r: bool)
    ensures
        r == (a@ == b@),
{
    constant_time_eq::constant_time_eq(a.as_bytes(), b.as_bytes())
}

/// When a request's secret passes: either no secret is configured — the
/// explicit insecure-by-default fallback, every request allowed — or the
/// provided value equals the configured one.
pub open spec fn spec_secret_ok(configured: Seq<char>, provided: Seq<char>) -> bool {
    configured.len() == 0 || provided == configured
}

/// Validates the provided shared secret against the configured one in
/// constant time.
pub fn secret_ok(configured: &str, provided: &str) -> (r: bool)
    ensures
        r == spec_secret_ok(configured@, provided@),
{
    if configured.is_empty() {
        true
    } else {
        ct_str_eq(provided, configured)
    }
}

/// The secret value a request carries: the header's value, or empty when
/// the header is absent.
pub open spec fn spec_provided_secret(h: RequestHeaders) -> Seq<char> {
    match h.internal_secret {
        Some(s) => s@,
        None => Seq::<char>::empty(),
    }
}

/// The account tier a request names, or the default tier.
pub open spec fn spec_account_type(h: RequestHeaders) -> Seq<char> {
    match h.account_type {
        Some(a) => a@,
        None => "casual"@,
    }
}

/// Agreement between an identity context and the headers it came of.
pub open spec fn context_matches(ctx: InternalContext, h: RequestHeaders) -> bool {
    &&& ctx.user_id == h.user_id
    &&& ctx.user_email == h.user_email
    &&& ctx.organization_id == h.organization_id
    &&& ctx.account_type@ == spec_account_type(h)
    &&& ctx.request_id == h.request_id
    &&& ctx.is_internal == true
}

fn clone_opt(s: &Option<String>) -> (r: Option<String>)
    ensures
        r == *s,
{
    match s {
        Some(v) => Some(v.clone()),
        None => None,
    }
}

/// Builds the request-scoped identity context from the identity headers,
/// with the account tier defaulting and the internal flag set.
pub fn build_context(h: &RequestHeaders) -> (ctx: InternalContext)
    ensures
        context_matches(ctx, *h),
{
    InternalContext {
        user_id: clone_opt(&h.user_id),
        user_email: clone_opt(&h.user_email),
        organization_id: clone_opt(&h.organization_id),
        account_type: match &h.account_type {
            Some(a) => a.clone(),
            None => default_account_type(),
        },
        request_id: clone_opt(&h.request_id),
        is_internal: true,
    }
}

/// Structured body of a rejected request.
#[derive(Clone, Debug)]
pub struct ErrorBody {
    pub error: String,
    pub detail: String,
}

/// The body of an unauthorized response.
pub fn unauthorized_body() -> (r: ErrorBody)
    ensures
        r.error@ == "Unauthorized"@,
        r.detail@ == "Invalid internal secret"@,
{
    ErrorBody {
        error: String::from_str("Unauthorized"),
        detail: String::from_str("Invalid internal secret"),
    }
}

/// What the auth gate decides for one request.
#[derive(Debug)]
pub enum GateOutcome {
    /// The path is allow-listed: the request proceeds with no validation.
    Bypass,
    /// The provided secret did not match the configured one.
    Unauthorized,
    /// The rate governor denied the request.
    TooManyRequests,
    /// The request proceeds, carrying this identity context.
    Proceed(InternalContext),
}

/// What the auth gate works with: the service settings, and the rate
/// governor when a shared counter store is configured.
pub struct AppState {
    pub settings: Settings,
    pub limiter: Option<AccountTypeRateLimiter>,
}

/// The auth gate's decision for one request: allow-listed paths bypass
/// everything; then the shared secret is validated (an unconfigured secret
/// allows all requests); then the identity context is built and, when a
/// governor is configured, the rate check runs — a denial short-circuits.
/// The caller echoes `X-Request-ID` from the returned context.
pub fn internal_auth_middleware(
    state: &mut AppState,
    path: &str,
    headers: &RequestHeaders,
    now: u64,
) -> (r: GateOutcome)
    requires
        now + 60 <= u64::MAX,
    ensures
        final(state).settings == old(state).settings,
        spec_allowlisted(path@) ==> r is Bypass && *final(state) == *old(state),
        !spec_allowlisted(path@) && !spec_secret_ok(
            old(state).settings.internal_api_secret@,
            spec_provided_secret(*headers),
        ) ==> r is Unauthorized && *final(state) == *old(state),
        !spec_allowlisted(path@) && spec_secret_ok(
            old(state).settings.internal_api_secret@,
            spec_provided_secret(*headers),
        ) ==> {
            let base = spec_rate_key(headers.organization_id, headers.user_id);
            let tier = spec_account_type(*headers);
            match old(state).limiter {
                None => (r matches GateOutcome::Proceed(ctx) && context_matches(ctx, *headers))
                    && *final(state) == *old(state),
                Some(l) => {
                    &&& (final(state).limiter matches Some(l1) && l1@ == spec_check_store(
                        l@,
                        base,
                        tier,
                        now,
                    ))
                    &&& if spec_check_allowed(l@, base, tier, now) {
                        r matches GateOutcome::Proceed(ctx) && context_matches(ctx, *headers)
                    } else {
                        r is TooManyRequests
                    }
                },
            }
        },
{
    if is_allowlisted_path(path) {
        return GateOutcome::Bypass;
    }
    let provided: &str = match &headers.internal_secret {
        Some(s) => s.as_str(),
        None => "",
    };
    proof {
        reveal_strlit("");
        assert(""@ =~= Seq::<char>::empty());
    }
    if !secret_ok(state.settings.internal_api_secret.as_str(), provided) {
        return GateOutcome::Unauthorized;
    }
    let context = build_context(headers);
    let allowed = match &mut state.limiter {
        Some(l) => l.check_rate_limit(&context, now),
        None => true,
    };
    if !allowed {
        return GateOutcome::TooManyRequests;
    }
    GateOutcome::Proceed(context)
}

/// The body of a too-many-requests response.
pub fn too_many_requests_body() -> (r: ErrorBody)
    ensures
        r.error@ == "Too Many Requests"@,
        r.detail@ == "Rate limit exceeded"@,
{
    ErrorBody {
        error: String::from_str("Too Many Requests"),
        detail: String::from_str("Rate limit exceeded"),
    }
}

} // verus!
