use cuba_ims::api::{
    audit_record, bearer_token, http_status, not_found_fallback, readiness, resolve_trace_id, session_of,
    start_auth, step_auth, token_id, unique_violation, AuditContext, AuthAction, AuthEvent,
    AuthState, Claims, SessionAction, TraceId,
};
use cuba_ims::error::{AppError, NOT_FOUND, UNAUTHENTICATED};
use cuba_ims::status::DocStatus;

fn is_uuid_shape(s: &str) -> bool {
    let cs: Vec<char> = s.chars().collect();
    cs.len() == 36
        && cs.iter().enumerate().all(|(i, &c)| {
            if [8, 13, 18, 23].contains(&i) { c == '-' } else { c.is_ascii_digit() || ('a'..='f').contains(&c) }
        })
        && cs[14] == '4'
        && "89ab".contains(cs[19])
}

fn claims(user_id: Option<i64>, jti: &str) -> Claims {
    Claims {
        user_id,
        login_name: "admin".to_string(),
        tenant_id: 1,
        permissions: vec!["inv:read".to_string()],
        roles: vec!["ADMIN".to_string()],
        jti: jti.to_string(),
        exp: 1_700_000_000,
    }
}

#[test]
fn a_sent_trace_id_is_kept() {
    assert_eq!(resolve_trace_id(Some("abc".to_string())), "abc");
}

#[test]
fn a_missing_trace_id_is_a_fresh_uuid() {
    let a = resolve_trace_id(None);
    let b = resolve_trace_id(None);
    assert!(is_uuid_shape(&a), "{a}");
    assert!(is_uuid_shape(&b), "{b}");
    assert_ne!(a, b);
}

#[test]
fn bearer_tokens() {
    assert_eq!(bearer_token(Some("Bearer abc.def")), Ok("abc.def".to_string()));
    assert_eq!(bearer_token(Some("Bearer ")), Ok(String::new()));
    assert_eq!(bearer_token(Some("bearer abc")), Err(AppError::Unauthenticated));
    assert_eq!(bearer_token(Some("Basic x")), Err(AppError::Unauthenticated));
    assert_eq!(bearer_token(None), Err(AppError::Unauthenticated));
}

#[test]
fn token_ids_and_sessions() {
    assert_eq!(token_id(String::new()), None);
    assert_eq!(token_id("j1".to_string()), Some("j1".to_string()));
    assert_eq!(session_of(SessionAction::Logout, Some("j".to_string()), Some(9)), Ok(("j".to_string(), 9)));
    assert_eq!(
        session_of(SessionAction::Logout, None, Some(9)),
        Err(AppError::Validation("JWT 缺少 jti,不能登出".to_string()))
    );
    assert_eq!(
        session_of(SessionAction::Refresh, None, None),
        Err(AppError::Validation("JWT 缺少 jti,不能刷新".to_string()))
    );
    assert_eq!(
        session_of(SessionAction::Refresh, Some("j".to_string()), None),
        Err(AppError::Validation("JWT 缺少 exp".to_string()))
    );
}

#[test]
fn unique_violations_become_conflicts() {
    assert_eq!(
        unique_violation(Some("23505"), "duplicate key"),
        Some(AppError::Conflict("唯一约束冲突: duplicate key".to_string()))
    );
    assert_eq!(unique_violation(Some("23503"), "fk"), None);
    assert_eq!(unique_violation(None, "x"), None);
}

#[test]
fn envelope_probe_and_codes() {
    let (status, e) = not_found_fallback();
    assert_eq!(status, 404);
    assert_eq!((e.code, e.message.as_str(), e.data, e.trace_id), (NOT_FOUND, "路径不存在", None, None));
    assert_eq!(http_status(&AppError::Unauthenticated), 401);
    assert_eq!(http_status(&AppError::Forbidden("x".to_string())), 403);
    assert_eq!(http_status(&AppError::Internal("x".to_string())), 500);
    assert_eq!(http_status(&AppError::Business { code: 40105, message: "x".to_string() }), 200);
    assert_eq!(http_status(&AppError::Validation("x".to_string())), 200);
    assert_eq!(http_status(&AppError::NotFound("x".to_string())), 200);
    assert_eq!(readiness(true), (200, "ready"));
    assert_eq!(readiness(false), (503, "not-ready"));
    assert_eq!(AppError::Unauthenticated.code(), Some(UNAUTHENTICATED));
    assert_eq!(AppError::NotFound("x".to_string()).code(), Some(10404));
    assert_eq!(AppError::Validation("x".to_string()).code(), None);
    assert_eq!(DocStatus::Draft.as_str(), "DRAFT");
}

#[test]
fn no_bearer_token_is_refused_at_once() {
    let (s, a) = start_auth(Some("Token x"), None, None);
    assert_eq!(s, AuthState::Done);
    assert_eq!(a, AuthAction::Reject(AppError::Unauthenticated));
}

#[test]
fn a_token_with_an_id_is_checked_against_revocation() {
    let (s, a) = start_auth(Some("Bearer t0k"), Some("trace-1".to_string()), Some("curl".to_string()));
    assert_eq!(a, AuthAction::Decode("t0k".to_string()));
    let (s, a) = step_auth(s, AuthEvent::Decoded(claims(Some(7), "jti-1")));
    assert_eq!(a, AuthAction::CheckRevoked("jti-1".to_string()));
    let (s2, a2) = step_auth(s.clone(), AuthEvent::RevocationChecked(true));
    assert_eq!((s2, a2), (AuthState::Done, AuthAction::Reject(AppError::Unauthenticated)));
    let (s3, a3) = step_auth(s.clone(), AuthEvent::LookupFailed);
    assert_eq!((s3, a3), (AuthState::Done, AuthAction::Reject(AppError::Unauthenticated)));
    let (s4, a4) = step_auth(s, AuthEvent::RevocationChecked(false));
    assert_eq!(s4, AuthState::Done);
    assert_eq!(
        a4,
        AuthAction::Admit(AuditContext {
            user_id: 7,
            login_name: "admin".to_string(),
            trace_id: "trace-1".to_string(),
            tenant_id: 1,
            ip: None,
            user_agent: Some("curl".to_string()),
            permissions: vec!["inv:read".to_string()],
            roles: vec!["ADMIN".to_string()],
            jti: Some("jti-1".to_string()),
            jwt_exp: Some(1_700_000_000),
        })
    );
}

#[test]
fn a_token_without_an_id_is_admitted_directly() {
    let (s, _) = start_auth(Some("Bearer t"), None, None);
    let (s, a) = step_auth(s, AuthEvent::Decoded(claims(Some(3), "")));
    assert_eq!(s, AuthState::Done);
    match a {
        AuthAction::Admit(ctx) => {
            assert_eq!(ctx.user_id, 3);
            assert_eq!(ctx.jti, None);
            assert!(is_uuid_shape(&ctx.trace_id));
        },
        other => panic!("unexpected {other:?}"),
    }
}

#[test]
fn bad_tokens_are_refused() {
    let (s, _) = start_auth(Some("Bearer t"), None, None);
    let (_, a) = step_auth(s.clone(), AuthEvent::Decoded(claims(None, "j")));
    assert_eq!(a, AuthAction::Reject(AppError::Unauthenticated));
    let (_, a) = step_auth(s.clone(), AuthEvent::DecodeFailed(AppError::Validation("expired".to_string())));
    assert_eq!(a, AuthAction::Reject(AppError::Validation("expired".to_string())));
    let (_, a) = step_auth(s, AuthEvent::RevocationChecked(false));
    assert!(matches!(a, AuthAction::Reject(AppError::Internal(_))));
}

#[test]
fn an_audit_row_records_the_request() {
    let ctx = AuditContext {
        user_id: 7,
        login_name: "admin".to_string(),
        trace_id: "t".to_string(),
        tenant_id: 1,
        ip: None,
        user_agent: None,
        permissions: vec![],
        roles: vec![],
        jti: None,
        jwt_exp: None,
    };
    let r = audit_record(
        "POST".to_string(),
        "/api/v1/defects".to_string(),
        TraceId("tr".to_string()),
        Some("ua".to_string()),
        Some(&ctx),
        201,
        (1u128 << 32) + 15,
    );
    assert_eq!(r.user_id, Some(7));
    assert_eq!(r.login_name.as_deref(), Some("admin"));
    assert_eq!(r.http_status, 201);
    assert_eq!(r.duration_ms, 15);
    assert_eq!(r.ip, None);
    assert_eq!(r.trace_id.as_deref(), Some("tr"));
    let generated = TraceId(resolve_trace_id(None));
    let r = audit_record("GET".to_string(), "/".to_string(), generated.clone(), None, None, 200, 3);
    assert_eq!(r.trace_id, Some(generated.0));
    assert_eq!((r.user_id, r.login_name, r.duration_ms), (None, None, 3));
}
