//! Who is acting in the web dashboard, by authentication mode, and the
//! audit records of their actions.

use crate::clock::{now, Instant};
use crate::text::{lowercases_to, lowercase_equals, owned, seq_starts_with, strip_prefix};
use vstd::prelude::*;

verus! {

/// Authentication mode for the Web UI
#[derive(Debug, Clone, Copy, PartialEq, Eq, Structural)]
pub enum AuthMode {
    /// No authentication (the mode written `none`): everyone acts as
    /// `web-ui-user`
    NoAuth,
    /// Simple username input - trusts user-provided username
    Simple,
    /// Kubernetes TokenReview - validates K8s token and extracts username
    Token,
    /// Proxy/Ingress auth - reads username from HTTP headers
    Proxy,
}

/// The mode that the setting `s` names, ignoring letter case (as `str::to_lowercase` lowers it); no
/// authentication for any other value.
pub open spec fn auth_mode_named(s: Seq<char>) -> AuthMode {
    if lowercases_to(s, "simple"@) {
        AuthMode::Simple
    } else if lowercases_to(s, "token"@) {
        AuthMode::Token
    } else if lowercases_to(s, "proxy"@) {
        AuthMode::Proxy
    } else {
        AuthMode::NoAuth
    }
}

impl AuthMode {
    /// The mode set by `HEADWIND_UI_AUTH_MODE` (given as `setting`; no
    /// authentication when unset).
    pub fn from_env(setting: Option<&str>) -> (r: AuthMode)
        ensures
            r == match setting {
                Some(s) => auth_mode_named(s@),
                None => AuthMode::NoAuth,
            },
    {
        match setting {
            Some(s) => {
                if lowercase_equals(s, "simple") {
                    AuthMode::Simple
                } else if lowercase_equals(s, "token") {
                    AuthMode::Token
                } else if lowercase_equals(s, "proxy") {
                    AuthMode::Proxy
                } else {
                    AuthMode::NoAuth
                }
            },
            None => AuthMode::NoAuth,
        }
    }

    /// The header naming the user in proxy mode: `HEADWIND_UI_PROXY_HEADER`
    /// (given as `setting`), `X-Forwarded-User` when unset.
    pub fn proxy_header(setting: Option<&str>) -> (r: String)
        ensures
            r@ == match setting {
                Some(s) => s@,
                None => "X-Forwarded-User"@,
            },
    {
        match setting {
            Some(s) => owned(s),
            None => owned("X-Forwarded-User"),
        }
    }
}

/// User identity extracted from the request
#[derive(Clone, Debug)]
pub struct UserIdentity {
    pub username: String,
    pub auth_mode: AuthMode,
}

/// Authentication error response
#[derive(Clone, Debug)]
pub struct AuthError {
    pub error: String,
}

/// The headers of a request that identification reads (each `None` when
/// absent or not text).
#[derive(Clone, Debug)]
pub struct RequestHeaders {
    /// `X-User`
    pub x_user: Option<String>,
    /// `Authorization`
    pub authorization: Option<String>,
    /// The proxy header named by `proxy_header`
    pub proxy_user: Option<String>,
    /// The name of the proxy header
    pub proxy_header: String,
}

/// What identifying a request comes to.
#[derive(Clone, Debug)]
pub enum IdentityStep {
    /// The user is known
    Known(UserIdentity),
    /// The bearer token must be reviewed by the cluster first
    ReviewToken(String),
}

/// Identifies the user of a request under `mode`: nobody in particular
/// without authentication; the `X-User` header (else `anonymous`) in
/// simple mode; the proxy header, which must be present, in proxy mode; in
/// token mode the bearer token of the `Authorization` header, to be
/// reviewed.
pub fn identify_request(mode: AuthMode, headers: &RequestHeaders) -> (r: Result<IdentityStep, AuthError>)
    ensures
        mode == AuthMode::NoAuth ==> (r matches Ok(IdentityStep::Known(u)) && u.username@
            == "web-ui-user"@ && u.auth_mode == mode),
        mode == AuthMode::Simple ==> (r matches Ok(IdentityStep::Known(u)) && u.auth_mode == mode
            && u.username@ == match headers.x_user {
            Some(x) => x@,
            None => "anonymous"@,
        }),
        mode == AuthMode::Proxy ==> match headers.proxy_user {
            Some(p) => r matches Ok(IdentityStep::Known(u)) && u.username@ == p@ && u.auth_mode == mode,
            None => r matches Err(e) && e.error@ == "Missing "@ + headers.proxy_header@ + " header"@,
        },
        mode == AuthMode::Token ==> match headers.authorization {
            None => r matches Err(e) && e.error@ == "Missing Authorization header"@,
            Some(a) => if seq_starts_with(a@, "Bearer "@) {
                r matches Ok(IdentityStep::ReviewToken(t)) && t@ == a@.skip(7)
            } else {
                r matches Err(e) && e.error@
                    == "Invalid Authorization header format. Expected: Bearer <token>"@
            },
        },
{
    match mode {
        AuthMode::NoAuth => Ok(
            IdentityStep::Known(UserIdentity { username: owned("web-ui-user"), auth_mode: mode }),
        ),
        AuthMode::Simple => {
            let username = match &headers.x_user {
                Some(x) => x.clone(),
                None => owned("anonymous"),
            };
            Ok(IdentityStep::Known(UserIdentity { username, auth_mode: mode }))
        },
        AuthMode::Token => {
            let header = match &headers.authorization {
                Some(a) => a,
                None => return Err(AuthError { error: owned("Missing Authorization header") }),
            };
            proof {
                reveal_strlit("Bearer ");
            }
            match strip_prefix(header.as_str(), "Bearer ") {
                Some(t) => {
                    assert(t@ =~= header@.skip(7));
                    Ok(IdentityStep::ReviewToken(owned(t)))
                },
                None => Err(
                    AuthError {
                        error: owned("Invalid Authorization header format. Expected: Bearer <token>"),
                    },
                ),
            }
        },
        AuthMode::Proxy => match &headers.proxy_user {
            Some(p) => Ok(IdentityStep::Known(UserIdentity { username: p.clone(), auth_mode: mode })),
            None => {
                let mut m = owned("Missing ");
                m.append(headers.proxy_header.as_str());
                m.append(" header");
                Err(AuthError { error: m })
            },
        },
    }
}

/// The identity after a token review: the reviewed user, or the review's
/// failure.
pub fn token_identity(review: Result<String, String>) -> (r: Result<UserIdentity, AuthError>)
    ensures
        match review {
            Ok(u) => r matches Ok(id) && id.username@ == u@ && id.auth_mode == AuthMode::Token,
            Err(e) => r matches Err(err) && err.error@ == "Token validation failed: "@ + e@,
        },
{
    match review {
        Ok(u) => Ok(UserIdentity { username: u, auth_mode: AuthMode::Token }),
        Err(e) => {
            let mut m = owned("Token validation failed: ");
            m.append(e.as_str());
            Err(AuthError { error: m })
        },
    }
}

/// What a TokenReview answered.
#[derive(Clone, Debug)]
pub struct TokenReviewOutcome {
    pub authenticated: Option<bool>,
    /// The user info, when the review gave one, with its user name
    pub user: Option<Option<String>>,
}

/// The user name a TokenReview vouches for: it must have a status, say the
/// token is authenticated, and name a user.
pub fn token_review_username(status: &Option<TokenReviewOutcome>) -> (r: Result<String, String>)
    ensures
        match status {
            None => r matches Err(m) && m@ == "TokenReview returned no status"@,
            Some(s) => if s.authenticated != Some(true) {
                r matches Err(m) && m@ == "Token is not authenticated"@
            } else {
                match s.user {
                    None => r matches Err(m) && m@ == "TokenReview returned no user info"@,
                    Some(None) => r matches Err(m) && m@ == "Username not found in token"@,
                    Some(Some(u)) => r matches Ok(n) && n@ == u@,
                }
            },
        },
{
    let s = match status {
        Some(s) => s,
        None => return Err(owned("TokenReview returned no status")),
    };
    let authenticated = match s.authenticated {
        Some(b) => b,
        None => false,
    };
    if !authenticated {
        return Err(owned("Token is not authenticated"));
    }
    match &s.user {
        None => Err(owned("TokenReview returned no user info")),
        Some(None) => Err(owned("Username not found in token")),
        Some(Some(u)) => Ok(u.clone()),
    }
}

/// Audit log entry for tracking user actions in the Web UI
#[derive(Clone, Debug)]
pub struct AuditLogEntry {
    pub timestamp: String,
    pub username: String,
    pub action: String,
    pub resource_type: String,
    pub resource_namespace: String,
    pub resource_name: String,
    pub result: String,
    pub reason: Option<String>,
}

/// The RFC 3339 text that chrono writes for `t` in UTC.
pub uninterp spec fn rfc3339_text(t: Instant) -> Seq<char>;

/// Calls `chrono::DateTime::from_timestamp` and `to_rfc3339`; empty when
/// chrono cannot represent the instant. Only that the text is a function
/// of the instant is stated.
#[verifier::external_body]
fn format_rfc3339(t: Instant) -> (r: String)
    ensures
        r@ == rfc3339_text(t),
{
    match chrono::DateTime::from_timestamp(t.seconds, t.nanos) {
        Some(d) => d.to_rfc3339(),
        None => String::new(),
    }
}

impl AuditLogEntry {
    /// An audit record of an action, stamped with the current time.
    pub fn new(
        username: String,
        action: String,
        resource_type: String,
        resource_namespace: String,
        resource_name: String,
        result: String,
        reason: Option<String>,
    ) -> (r: Self)
        ensures
            exists|t: Instant| r.timestamp@ == rfc3339_text(t),
            r.username == username,
            r.action == action,
            r.resource_type == resource_type,
            r.resource_namespace == resource_namespace,
            r.resource_name == resource_name,
            r.result == result,
            r.reason == reason,
    {
        let t = now();
        AuditLogEntry {
            timestamp: format_rfc3339(t),
            username,
            action,
            resource_type,
            resource_namespace,
            resource_name,
            result,
            reason,
        }
    }
}

} // verus!
