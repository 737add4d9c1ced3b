//! Decisions of the HTTP layer: trace ids, bearer tokens, sessions,
//! the response envelope and the mapping of storage errors.

use vstd::prelude::*;
use crate::error::{fails_validation, AppError, NOT_FOUND};
use crate::text::{chars_of, starts_with, starts_with_str, str_eq, string_from};

verus! {

/// The trace id of a request.
#[derive(Debug, Clone, PartialEq, Eq)]
pub struct TraceId(pub String);

/// The body of every response, success or failure.
#[derive(Debug, Clone, PartialEq, Eq)]
pub struct Envelope<T> {
    pub code: u32,
    pub message: String,
    pub data: Option<T>,
    pub trace_id: Option<String>,
}

/// A handler's successful result, to be wrapped as a success envelope.
#[derive(Debug, Clone, PartialEq, Eq)]
pub struct AppJson<T>(pub T);

/// The answer to a path no route serves: HTTP 404, code 10404, "路径不存在".
pub fn not_found_fallback() -> (r: (u16, Envelope<()>))
    ensures
        r.0 == 404,
        r.1.code == NOT_FOUND,
        r.1.message@ == "路径不存在"@,
        r.1.data is None,
        r.1.trace_id is None,
{
    (404, Envelope { code: NOT_FOUND, message: "路径不存在".to_owned(), data: None, trace_id: None })
}

/// The HTTP status an error is answered with: business errors (and every
/// other refusal of a request) travel as HTTP 200 with their code in the
/// body; only missing credentials (401), missing permissions (403) and
/// internal failures (500) use the HTTP status.
pub open spec fn status_of(e: AppError) -> u16 {
    match e {
        AppError::Unauthenticated => 401,
        AppError::Forbidden(_) => 403,
        AppError::Internal(_) => 500,
        _ => 200,
    }
}

pub fn http_status(e: &AppError) -> (r: u16)
    ensures
        r == status_of(*e),
{
    match e {
        AppError::Unauthenticated => 401,
        AppError::Forbidden(_) => 403,
        AppError::Internal(_) => 500,
        _ => 200,
    }
}

/// A business error is always answered with HTTP 200, and no error is
/// answered with any status but 200, 401, 403 or 500.
pub proof fn law_business_errors_are_http_200(e: AppError)
    ensures
        e is Business ==> status_of(e) == 200,
        status_of(e) == 200 || status_of(e) == 401 || status_of(e) == 403 || status_of(e) == 500,
{
}

pub open spec fn is_lower_hex(c: char) -> bool {
    ('0' <= c && c <= '9') || ('a' <= c && c <= 'f')
}

/// The shape of a hyphenated UUID: 36 characters, '-' at 8, 13, 18 and 23,
/// lower-case hexadecimal digits elsewhere.
pub open spec fn is_hyphenated_uuid(s: Seq<char>) -> bool {
    &&& s.len() == 36
    &&& forall|i: int| 0 <= i < 36 ==> (if i == 8 || i == 13 || i == 18 || i == 23 {
        s[i] == '-'
    } else {
        is_lower_hex(#[trigger] s[i])
    })
}

/// The version and variant digits of a random (version 4, RFC 4122) UUID
/// in hyphenated form.
pub open spec fn is_v4_uuid(s: Seq<char>) -> bool {
    &&& is_hyphenated_uuid(s)
    &&& s[14] == '4'
    &&& (s[19] == '8' || s[19] == '9' || s[19] == 'a' || s[19] == 'b')
}

/// `uuid::Uuid::new_v4().to_string()`: a random UUID whose version digit is
/// set to 4 and whose variant bits are set to RFC 4122. Its `Display` writes
/// the hyphenated lower-case form; the other digits are chance, so nothing
/// more is said of them.
#[verifier::external_body]
fn new_uuid_v4() -> (r: String)
    ensures
        is_v4_uuid(r@),
{
    uuid::Uuid::new_v4().to_string()
}

/// The trace id of a request: the one the client sent, else a new random
/// UUID.
pub fn resolve_trace_id(sent: Option<String>) -> (r: String)
    ensures
        sent matches Some(s) ==> r == s,
        sent is None ==> is_v4_uuid(r@),
{
    match sent {
        Some(s) => s,
        None => new_uuid_v4(),
    }
}

/// The token of an `Authorization: Bearer <token>` header; anything else is
/// unauthenticated.
pub fn bearer_token(header: Option<&str>) -> (r: Result<String, AppError>)
    ensures
        (header matches Some(h) && starts_with(h@, "Bearer "@)) ==> (r matches Ok(t) && t@ == header->0@.skip(7)),
        !(header matches Some(h) && starts_with(h@, "Bearer "@)) ==> r == Err::<String, AppError>(AppError::Unauthenticated),
{
    match header {
        None => Err(AppError::Unauthenticated),
        Some(h) => {
            let cs = chars_of(h);
            if !starts_with_str(&cs, "Bearer ") {
                return Err(AppError::Unauthenticated);
            }
            proof {
                reveal_strlit("Bearer ");
                assert(cs@.subrange(7, cs@.len() as int) =~= h@.skip(7));
            }
            Ok(string_from(&cs, 7, cs.len()))
        },
    }
}

/// A token's id: none when empty. Only tokens with an id are looked up in
/// the revocation list.
pub fn token_id(jti: String) -> (r: Option<String>)
    ensures
        jti@.len() == 0 ==> r is None,
        jti@.len() > 0 ==> r == Some(jti),
{
    if jti.as_str().is_empty() { None } else { Some(jti) }
}

/// What a session action needs of the current token.
#[derive(Debug, Clone, Copy, PartialEq, Eq, Structural)]
pub enum SessionAction {
    Logout,
    Refresh,
}

pub open spec fn missing_jti_message(a: SessionAction) -> Seq<char> {
    match a {
        SessionAction::Logout => "JWT 缺少 jti,不能登出"@,
        SessionAction::Refresh => "JWT 缺少 jti,不能刷新"@,
    }
}

/// Logging out or refreshing needs the token's id and expiry.
pub fn session_of(action: SessionAction, jti: Option<String>, exp: Option<i64>) -> (r: Result<(String, i64), AppError>)
    ensures
        jti is None ==> fails_validation(r, missing_jti_message(action)),
        jti is Some && exp is None ==> fails_validation(r, "JWT 缺少 exp"@),
        jti is Some && exp is Some ==> r == Ok::<(String, i64), AppError>((jti->0, exp->0)),
{
    let j = match jti {
        Some(j) => j,
        None => {
            let m = match action {
                SessionAction::Logout => "JWT 缺少 jti,不能登出",
                SessionAction::Refresh => "JWT 缺少 jti,不能刷新",
            };
            return Err(AppError::validation(m.to_owned()));
        },
    };
    match exp {
        Some(e) => Ok((j, e)),
        None => Err(AppError::validation("JWT 缺少 exp".to_owned())),
    }
}

/// A storage error with SQLSTATE 23505 (unique violation) becomes a
/// conflict naming the database's message; other errors are not mapped here.
pub fn unique_violation(sqlstate: Option<&str>, db_message: &str) -> (r: Option<AppError>)
    ensures
        (sqlstate matches Some(c) && c@ == "23505"@) ==> (r matches Some(AppError::Conflict(m)) && m@ == "唯一约束冲突: "@ + db_message@),
        !(sqlstate matches Some(c) && c@ == "23505"@) ==> r is None,
{
    match sqlstate {
        Some(c) => {
            if str_eq(c, "23505") {
                let mut m = "唯一约束冲突: ".to_owned();
                m.append(db_message);
                Some(AppError::conflict(m))
            } else {
                None
            }
        },
        None => None,
    }
}

/// The readiness probe: 200 "ready" when the database answers, else 503
/// "not-ready".
pub fn readiness(db_answers: bool) -> (r: (u16, &'static str))
    ensures
        db_answers ==> r.0 == 200 && r.1@ == "ready"@,
        !db_answers ==> r.0 == 503 && r.1@ == "not-ready"@,
{
    if db_answers { (200, "ready") } else { (503, "not-ready") }
}


// -- the authentication guard ------------------------------------------------

/// What the guard reads of a decoded token.
#[derive(Debug, Clone, PartialEq, Eq)]
pub struct Claims {
    /// The subject as a user id, when it is one.
    pub user_id: Option<i64>,
    pub login_name: String,
    pub tenant_id: i64,
    pub permissions: Vec<String>,
    pub roles: Vec<String>,
    /// The token's id; empty when it has none.
    pub jti: String,
    /// The expiry, in seconds since the epoch.
    pub exp: i64,
}

/// Who makes a request, for the handlers and the audit log.
#[derive(Debug, Clone, PartialEq, Eq)]
pub struct AuditContext {
    pub user_id: i64,
    pub login_name: String,
    pub trace_id: String,
    pub tenant_id: i64,
    pub ip: Option<String>,
    pub user_agent: Option<String>,
    pub permissions: Vec<String>,
    pub roles: Vec<String>,
    pub jti: Option<String>,
    pub jwt_exp: Option<i64>,
}

/// Where the guard of a request stands.
#[derive(Debug, Clone, PartialEq, Eq)]
pub enum AuthState {
    /// The bearer token is being decoded.
    AwaitClaims { trace_id: Option<String>, user_agent: Option<String> },
    /// The token's id is being looked up in the revocation list.
    AwaitRevocation { ctx: AuditContext },
    /// The request has been admitted or refused.
    Done,
}

/// What the decoder or the revocation list answered.
#[derive(Debug, Clone, PartialEq, Eq)]
pub enum AuthEvent {
    Decoded(Claims),
    DecodeFailed(AppError),
    /// Whether the token's id is in the revocation list.
    RevocationChecked(bool),
    /// The revocation list could not be read.
    LookupFailed,
}

/// What the guard asks for next.
#[derive(Debug, Clone, PartialEq, Eq)]
pub enum AuthAction {
    /// Decode this token with the configured secret.
    Decode(String),
    /// Look up this token id in the revocation list.
    CheckRevoked(String),
    /// Let the request through with this context.
    Admit(AuditContext),
    /// Refuse the request with this error.
    Reject(AppError),
}

/// The context of a request whose token carried `c`, for user `uid`.
pub open spec fn context_of(c: Claims, uid: i64, trace_id: String, user_agent: Option<String>) -> AuditContext {
    AuditContext {
        user_id: uid,
        login_name: c.login_name,
        trace_id,
        tenant_id: c.tenant_id,
        ip: None,
        user_agent,
        permissions: c.permissions,
        roles: c.roles,
        jti: if c.jti@.len() == 0 { None } else { Some(c.jti) },
        jwt_exp: Some(c.exp),
    }
}

/// `ctx` is the context of token `c` for a request that sent `trace` and
/// `user_agent`: the trace id is the one sent, else a new UUID.
pub open spec fn admitted_context(ctx: AuditContext, c: Claims, trace: Option<String>, user_agent: Option<String>) -> bool {
    &&& c.user_id is Some
    &&& ctx == context_of(c, c.user_id->0, ctx.trace_id, user_agent)
    &&& match trace {
        Some(t) => ctx.trace_id == t,
        None => is_v4_uuid(ctx.trace_id@),
    }
}

/// Starts the guard of a request from its `Authorization` header, the trace
/// id set on it and its `User-Agent`: without a bearer token the request is
/// refused as unauthenticated, else the token is decoded.
pub fn start_auth(authorization: Option<&str>, trace_id: Option<String>, user_agent: Option<String>) -> (r: (AuthState, AuthAction))
    ensures
        match authorization {
            Some(h) if starts_with(h@, "Bearer "@) => {
                &&& r.0 == (AuthState::AwaitClaims { trace_id, user_agent })
                &&& r.1 matches AuthAction::Decode(t) && t@ == h@.skip(7)
            },
            _ => r.0 == AuthState::Done && r.1 == AuthAction::Reject(AppError::Unauthenticated),
        },
{
    match bearer_token(authorization) {
        Ok(t) => (AuthState::AwaitClaims { trace_id, user_agent }, AuthAction::Decode(t)),
        Err(e) => (AuthState::Done, AuthAction::Reject(e)),
    }
}

/// The guard's next step:
/// - a token that does not decode is refused with the decoder's error;
/// - one whose subject is not a user id is refused as unauthenticated;
/// - one with an id is looked up in the revocation list, and refused as
///   unauthenticated when it is there or the list cannot be read;
/// - otherwise the request is admitted with the token's context.
pub fn step_auth(state: AuthState, event: AuthEvent) -> (r: (AuthState, AuthAction))
    ensures
        match (state, event) {
            (AuthState::AwaitClaims { .. }, AuthEvent::DecodeFailed(e)) =>
                r == (AuthState::Done, AuthAction::Reject(e)),
            (AuthState::AwaitClaims { trace_id, user_agent }, AuthEvent::Decoded(c)) =>
                if c.user_id is None {
                    r == (AuthState::Done, AuthAction::Reject(AppError::Unauthenticated))
                } else if c.jti@.len() > 0 {
                    &&& r.1 == AuthAction::CheckRevoked(c.jti)
                    &&& r.0 matches AuthState::AwaitRevocation { ctx } && admitted_context(ctx, c, trace_id, user_agent)
                } else {
                    &&& r.0 == AuthState::Done
                    &&& r.1 matches AuthAction::Admit(ctx) && admitted_context(ctx, c, trace_id, user_agent)
                },
            (AuthState::AwaitRevocation { ctx }, AuthEvent::RevocationChecked(revoked)) =>
                if revoked {
                    r == (AuthState::Done, AuthAction::Reject(AppError::Unauthenticated))
                } else {
                    r == (AuthState::Done, AuthAction::Admit(ctx))
                },
            (AuthState::AwaitRevocation { .. }, AuthEvent::LookupFailed) =>
                r == (AuthState::Done, AuthAction::Reject(AppError::Unauthenticated)),
            _ => r.0 == AuthState::Done && r.1 matches AuthAction::Reject(AppError::Internal(_)),
        },
{
    match (state, event) {
        (AuthState::AwaitClaims { .. }, AuthEvent::DecodeFailed(e)) => (AuthState::Done, AuthAction::Reject(e)),
        (AuthState::AwaitClaims { trace_id, user_agent }, AuthEvent::Decoded(c)) => {
            let uid = match c.user_id {
                Some(u) => u,
                None => return (AuthState::Done, AuthAction::Reject(AppError::Unauthenticated)),
            };
            let has_jti = !c.jti.as_str().is_empty();
            let jti_text = c.jti.clone();
            let trace = resolve_trace_id(trace_id);
            let ctx = AuditContext {
                user_id: uid,
                login_name: c.login_name,
                trace_id: trace,
                tenant_id: c.tenant_id,
                ip: None,
                user_agent,
                permissions: c.permissions,
                roles: c.roles,
                jti: if has_jti { Some(c.jti) } else { None },
                jwt_exp: Some(c.exp),
            };
            if has_jti {
                (AuthState::AwaitRevocation { ctx }, AuthAction::CheckRevoked(jti_text))
            } else {
                (AuthState::Done, AuthAction::Admit(ctx))
            }
        },
        (AuthState::AwaitRevocation { ctx }, AuthEvent::RevocationChecked(revoked)) => {
            if revoked {
                (AuthState::Done, AuthAction::Reject(AppError::Unauthenticated))
            } else {
                (AuthState::Done, AuthAction::Admit(ctx))
            }
        },
        (AuthState::AwaitRevocation { .. }, AuthEvent::LookupFailed) =>
            (AuthState::Done, AuthAction::Reject(AppError::Unauthenticated)),
        _ => (AuthState::Done, AuthAction::Reject(AppError::Internal("鉴权收到不匹配的回应".to_owned()))),
    }
}


// -- the audit log -----------------------------------------------------------

/// One row of the audit log: who called what, the answer and how long it took.
#[derive(Debug, Clone, PartialEq, Eq)]
pub struct AuditRecord {
    pub trace_id: Option<String>,
    pub user_id: Option<i64>,
    pub login_name: Option<String>,
    pub http_method: String,
    pub http_path: String,
    pub http_status: i32,
    pub ip: Option<String>,
    pub user_agent: Option<String>,
    pub duration_ms: i32,
}

/// The audit row of a finished request. The trace id is the request's own,
/// as resolved when it came in (sent by the client or made up), so that the
/// row joins the rest of the request's trail; the user is the authenticated
/// one, if any;
/// the client address is not known; the duration is the elapsed
/// milliseconds cut to 32 bits.
pub fn audit_record(
    method: String,
    path: String,
    trace_id: TraceId,
    user_agent: Option<String>,
    ctx: Option<&AuditContext>,
    status: u16,
    elapsed_ms: u128,
) -> (r: AuditRecord)
    ensures
        r.trace_id == Some(trace_id.0),
        r.user_id == (match ctx { Some(c) => Some(c.user_id), None => None::<i64> }),
        r.login_name == (match ctx { Some(c) => Some(c.login_name), None => None::<String> }),
        r.http_method == method,
        r.http_path == path,
        r.http_status == status as i32,
        r.ip is None,
        r.user_agent == user_agent,
        r.duration_ms == elapsed_ms as i32,
{
    let (user_id, login_name) = match ctx {
        Some(c) => (Some(c.user_id), Some(c.login_name.clone())),
        None => (None, None),
    };
    AuditRecord {
        trace_id: Some(trace_id.0),
        user_id,
        login_name,
        http_method: method,
        http_path: path,
        http_status: status as i32,
        ip: None,
        user_agent,
        duration_ms: elapsed_ms as i32,
    }
}

} // verus!
