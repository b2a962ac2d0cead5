use authust::api::{ApiError as FlowApiError, ApiErrorKind};
use authust::auth::{AuthError, AuthustClaims, Claims, SessionInfo, UserRole, ISSUER};
use authust::error::{argon_error, jwt_response, ApiError, ArgonError, Error, ErrorKind, JwtErrorKind};
use authust::executor::context::ExecutionContext;
use authust::model::error::SubmissionError;
use authust::model::flow::FlowDesignation;
use authust::model::policy::{PolicyKind, PolicyResult};
use authust::model::tenant::Tenant;
use authust::policy_engine::uri::{RhaiUri, RhaiUriError, Scheme};
use authust::policy_engine::{compile, decode_expression, ExpressionCompilationError};
use authust::routes::applications::AppInfo;
use authust::routes::user::{page_default, per_page_default, Pagination};

#[test]
fn error_kind_responses() {
    let r = ErrorKind::not_found().response();
    assert_eq!((r.status, r.message), (404, None));
    let r = ErrorKind::Auth(AuthError::MissingCookie).response();
    assert_eq!((r.status, r.message.as_deref()), (401, Some("Authentication cookie missing")));
    let r = ErrorKind::Auth(AuthError::ClaimsMissingInInfo).response();
    assert_eq!((r.status, r.message), (500, None));
    let r = ErrorKind::HeaderNotAscii { header_name: "x-test".to_string() }.response();
    assert_eq!(
        (r.status, r.message.as_deref()),
        (400, Some("Header 'x-test' contains non-ascii chars"))
    );
    let r = ErrorKind::Api(ApiError::new(418, "teapot")).response();
    assert_eq!((r.status, r.message.as_deref()), (418, Some("teapot")));
    let r = ErrorKind::Json { status: 422, body: "bad json".to_string() }.response();
    assert_eq!((r.status, r.message.as_deref()), (422, Some("bad json")));
    let r = ErrorKind::PoolError.response();
    assert_eq!(r.status, 500);
    let e = Error::from_kind(ErrorKind::PostgresError);
    assert!(e.is_server_error);
    let e = Error::from_kind(ErrorKind::forbidden());
    assert!(!e.is_server_error);
    assert_eq!(e.response_error.status, 403);
    assert!(matches!(e.kind(), ErrorKind::Status(403)));
}

#[test]
fn jwt_and_argon_responses() {
    let r = jwt_response(&JwtErrorKind::ExpiredSignature);
    assert_eq!((r.status, r.message.as_deref()), (401, Some("JWT: Expired")));
    let r = jwt_response(&JwtErrorKind::ImmatureSignature);
    assert_eq!((r.status, r.message.as_deref()), (400, Some("JWT: Immature signature")));
    let r = jwt_response(&JwtErrorKind::InvalidRsaKey);
    assert_eq!((r.status, r.message), (500, None));
    let r = argon_error(&ArgonError::Password);
    assert_eq!((r.status, r.message.as_deref()), (401, Some("Invalid password")));
    let r = argon_error(&ArgonError::Other);
    assert_eq!((r.status, r.message), (500, None));
}

#[test]
fn api_error_kinds() {
    assert_eq!(ApiErrorKind::NotFound.status(), 404);
    assert_eq!(ApiErrorKind::Conflict.status(), 409);
    assert_eq!(ApiErrorKind::SubmissionError(SubmissionError::NoPendingUser).status(), 400);
    assert_eq!(ApiErrorKind::PwHash("x".to_string()).status(), 500);
    assert!(!ApiErrorKind::Forbidden.is_internal());
    assert!(ApiErrorKind::PoolError("x".to_string()).is_internal());
    assert!(matches!(ApiErrorKind::from_jwt(JwtErrorKind::InvalidRsaKey), ApiErrorKind::JsonWebToken(JwtErrorKind::InvalidRsaKey)));
    assert!(matches!(ApiErrorKind::from_jwt(JwtErrorKind::ExpiredSignature), ApiErrorKind::InvalidSessionCookie));
    assert!(matches!(ApiErrorKind::from_argon(ArgonError::Password, "m".to_string()), ApiErrorKind::InvalidLoginData));
    assert!(matches!(ApiErrorKind::from_argon(ArgonError::Other, "m".to_string()), ApiErrorKind::PwHash(m) if m == "m"));
    assert!(matches!(ApiErrorKind::from_postgres(true, "m".to_string()), ApiErrorKind::Conflict));
    assert!(matches!(ApiErrorKind::from_postgres(false, "m".to_string()), ApiErrorKind::PostgresError(_)));
    let e: FlowApiError = ApiErrorKind::MiscInternal("x".to_string()).into_api();
    assert!(e.has_trace);
    let e = FlowApiError::from_kind(ApiErrorKind::Unauthorized);
    assert!(!e.has_trace);
}

fn session(user: u128, roles: Option<Vec<UserRole>>) -> SessionInfo {
    SessionInfo {
        id: 1,
        user,
        claims: roles.map(|roles| Claims::new(user, 1, AuthustClaims { roles }, 1_000)),
    }
}

#[test]
fn roles_and_claims() {
    let admin = session(1, Some(vec![UserRole::Admin]));
    assert!(admin.has_role(UserRole::Developer));
    assert!(admin.has_role(UserRole::Logs));
    assert!(admin.check_admin().is_ok());
    let dev = session(2, Some(vec![UserRole::Developer]));
    assert!(dev.check_developer().is_ok());
    assert!(matches!(dev.check_admin(), Err(ErrorKind::Status(403))));
    let anonymous = session(3, None);
    assert!(!anonymous.has_role(UserRole::Logs));
    assert!(matches!(anonymous.check_role(UserRole::Logs), Err(ErrorKind::Status(403))));
    let c = Claims::new(9, 8, AuthustClaims { roles: vec![] }, 1_000);
    assert_eq!(c.iss, ISSUER);
    assert_eq!((c.exp, c.nbf, c.sub, c.sid, c.aal), (1_120, 1_000, 9, 8, 0));
    assert_eq!(UserRole::Developer.to_string(), "developer");
    assert_eq!(AuthError::InvalidSession.to_string(), "Invalid session");
}

#[test]
fn application_owner_or_admin() {
    let app = AppInfo { owner: 1, system: false };
    assert!(app.check(&session(1, None)).is_ok());
    assert!(matches!(app.check(&session(2, Some(vec![UserRole::Admin]))), Err(ErrorKind::Status(403))));
    let system = AppInfo { owner: 1, system: true };
    assert!(system.check(&session(2, Some(vec![UserRole::Admin]))).is_ok());
    assert!(system.check(&session(2, Some(vec![UserRole::Developer]))).is_err());
}

#[test]
fn pagination() {
    assert_eq!(per_page_default(), 25);
    assert_eq!(page_default(), 1);
    let p = Pagination { page: 3, per_page: 25 };
    assert_eq!(p.limit(100), 25);
    assert_eq!(p.offset(100), 50);
    let p = Pagination { page: 2, per_page: 500 };
    assert_eq!(p.limit(100), 100);
    assert_eq!(p.offset(100), 100);
    let p = Pagination { page: 0, per_page: 10 };
    assert_eq!(p.offset(100), 0);
}

#[test]
fn tenant_default_flows() {
    let t = Tenant {
        uid: 1,
        host: "localhost".to_string(),
        default: true,
        title: "t".to_string(),
        logo: String::new(),
        favicon: String::new(),
        invalidation_flow: Some(1),
        authentication_flow: Some(2),
        authorization_flow: Some(3),
        enrollment_flow: Some(4),
        recovery_flow: Some(5),
        unenrollment_flow: None,
        configuration_flow: Some(7),
    };
    assert_eq!(t.get_flow(&FlowDesignation::Authentication), Some(2));
    assert_eq!(t.get_flow(&FlowDesignation::Unenrollment), None);
    // The recovery designation is answered with the enrollment flow.
    assert_eq!(t.get_flow(&FlowDesignation::Recovery), Some(4));
}

#[test]
fn uri_parts() {
    assert_eq!(Scheme::from_name("https"), Ok(Scheme::Https));
    assert_eq!(Scheme::from_name("http"), Ok(Scheme::Http));
    assert_eq!(Scheme::from_name("ftp"), Err(RhaiUriError::UnsupportedScheme));
    let u = RhaiUri::create(
        Scheme::Https,
        "a.example".to_string(),
        "https://a.example/x?y=1".to_string(),
        None,
        "/x".to_string(),
        Some("y=1".to_string()),
    )
    .unwrap();
    assert_eq!(u.get_port(), 443);
    assert_eq!(u.get_host(), "a.example");
    assert_eq!(u.get_path(), "/x");
    assert_eq!(u.get_query(), Some("y=1".to_string()));
    assert_eq!(u.to_string(), "https://a.example/x?y=1");
    let u = RhaiUri::create(Scheme::Http, "h".to_string(), "http://h/".to_string(), None, "/".to_string(), None).unwrap();
    assert_eq!(u.get_port(), 80);
    assert!(u.get_scheme().is_http());
    let u = RhaiUri::create(Scheme::Http, "h".to_string(), "http://h:8080/".to_string(), Some(8080), "/".to_string(), None).unwrap();
    assert_eq!(u.get_port(), 8080);
}

#[test]
fn expressions_decode_from_base64() {
    // "true" in URL-safe base64 without padding.
    assert_eq!(decode_expression("dHJ1ZQ").ok().unwrap(), "true");
    assert!(matches!(decode_expression("dHJ1ZQ=="), Err(ExpressionCompilationError::InvalidBase64)));
    assert!(matches!(decode_expression("***"), Err(ExpressionCompilationError::InvalidBase64)));
    let engine = rhai::Engine::new();
    assert!(compile(&engine, "dHJ1ZQ").is_ok());
    assert!(matches!(compile(&engine, "!!"), Err(ExpressionCompilationError::InvalidBase64)));
    // "1 +" does not parse.
    assert!(matches!(compile(&engine, "MSAr"), Err(ExpressionCompilationError::Parse(_))));
}

#[test]
fn password_expiry_policy() {
    let mut ctx = ExecutionContext::new("s".to_string());
    assert_eq!(PolicyKind::PasswordExpiry { max_age: 60 }.validate(&ctx), PolicyResult::NotApplicable);
    ctx.user = Some(authust::executor::context::PolicyUser {
        uid: 1,
        name: "u".to_string(),
        password_change_date: ctx.start_time,
    });
    assert_eq!(
        PolicyKind::PasswordExpiry { max_age: 3600 }.validate(&ctx),
        PolicyResult::Value(false)
    );
}

use authust::auth::bearer_token;
use authust::csrf::HeaderValue;

#[test]
fn bearer_tokens() {
    let t = |s: &str| HeaderValue::Text(s.to_string());
    assert_eq!(bearer_token(&t("Bearer abcdefghij0123456789")).ok(), Some("abcdefghij0123456789".to_string()));
    assert_eq!(bearer_token(&t("Bearer aaaa.bbbb-cccc_dd==")).ok(), Some("aaaa.bbbb-cccc_dd==".to_string()));
    assert!(matches!(bearer_token(&t("Bearer short")), Err(AuthError::InvalidHeader)));
    assert!(matches!(bearer_token(&t("Basic abcdefghij0123456789")), Err(AuthError::InvalidHeader)));
    assert!(matches!(bearer_token(&t("Bearer abcdefghij01234567 9")), Err(AuthError::InvalidHeader)));
    assert!(matches!(bearer_token(&t("Bearer abcdefghij0123456789!")), Err(AuthError::InvalidHeader)));
    assert!(matches!(bearer_token(&HeaderValue::Missing), Err(AuthError::MissingHeader)));
    assert!(matches!(bearer_token(&HeaderValue::NotText), Err(AuthError::InvalidHeader)));
}

use authust::routes::expect_single_row;

#[test]
fn single_row_changes() {
    assert!(expect_single_row(1, 404).is_ok());
    assert!(matches!(expect_single_row(0, 404), Err(ErrorKind::Status(404))));
    assert!(matches!(expect_single_row(0, 409), Err(ErrorKind::Status(409))));
    assert!(matches!(expect_single_row(3, 404), Err(ErrorKind::Status(500))));
}

#[test]
fn application_lookup_checks() {
    assert!(matches!(AppInfo::check_by_id(None, &session(1, None)), Err(ErrorKind::Status(404))));
    let app = AppInfo { owner: 1, system: false };
    assert!(AppInfo::check_by_id(Some(app), &session(1, None)).is_ok());
    assert!(matches!(AppInfo::check_by_id(Some(app), &session(2, None)), Err(ErrorKind::Status(403))));
}

use authust::routes::user::{check_user_delete, check_user_replace, UserReplacePayload};

fn replacement(active: bool, roles: Vec<UserRole>) -> UserReplacePayload {
    UserReplacePayload {
        name: "u".to_string(),
        email: None,
        active,
        roles,
        customer: false,
        require_password_reset: false,
    }
}

#[test]
fn the_last_admin_stays() {
    assert!(check_user_delete(false).is_ok());
    assert!(matches!(check_user_delete(true), Err(ErrorKind::Status(403))));
    assert!(check_user_replace(&replacement(true, vec![UserRole::Admin]), true).is_ok());
    assert!(matches!(
        check_user_replace(&replacement(false, vec![UserRole::Admin]), true),
        Err(ErrorKind::Status(403))
    ));
    assert!(matches!(
        check_user_replace(&replacement(true, vec![UserRole::Developer]), true),
        Err(ErrorKind::Status(403))
    ));
    assert!(check_user_replace(&replacement(false, vec![]), false).is_ok());
}

use authust::executor::context::now_utc_nanos;

#[test]
fn contexts_start_now() {
    let before = std::time::SystemTime::now()
        .duration_since(std::time::UNIX_EPOCH)
        .unwrap()
        .as_nanos() as i128;
    let ctx = ExecutionContext::new("s".to_string());
    let now = now_utc_nanos();
    assert!(ctx.start_time >= before - 1_000_000_000);
    assert!(ctx.start_time <= now);
    assert!(now - before < 60 * 1_000_000_000);
    assert_eq!(ctx.session_id, "s");
    assert!(ctx.pending.is_none() && ctx.user.is_none() && ctx.error.is_none());
}

use authust::routes::applications::{check_application_group, check_create_application};

#[test]
fn creating_applications() {
    let admin = session(1, Some(vec![UserRole::Admin]));
    let dev = session(2, Some(vec![UserRole::Developer]));
    let nobody = session(3, None);
    assert_eq!(check_create_application(true, &admin).ok(), Some(true));
    assert_eq!(check_create_application(false, &admin).ok(), Some(true));
    assert_eq!(check_create_application(false, &dev).ok(), Some(false));
    assert!(matches!(check_create_application(true, &dev), Err(ErrorKind::Status(403))));
    assert!(matches!(check_create_application(false, &nobody), Err(ErrorKind::Status(403))));
    assert!(check_application_group(true, "g").is_ok());
    match check_application_group(false, "g1") {
        Err(ErrorKind::Api(e)) => {
            assert_eq!(e.status, 400);
            assert_eq!(e.message, "Unknown application_group 'g1'");
        }
        _ => panic!("expected a refusal"),
    }
}
