use authust::routes::oauth::{
    check_authorize_request, enabled_scope, find_scopes, selected_scope_names, NewError,
    NewErrorNotSpec, OAuthAuthorizeParameters, OAuthErrorAuthorizeKind, OAuthErrorCommonKind,
    OAuthErrorKind, OAuthErrorTokenKind, ResponseMode, ResponseType, Scope,
};
use authust::routes::InternalScope;

#[test]
fn scope_from_str_reads_internal_and_custom_scopes() {
    assert_eq!(
        Scope::from_str("profile:read").unwrap(),
        Scope::Internal(InternalScope::ProfileRead)
    );
    assert_eq!(
        Scope::from_str("profile:write").unwrap(),
        Scope::Internal(InternalScope::ProfileWrite)
    );
    assert_eq!(
        Scope::from_str("openid").unwrap(),
        Scope::Custom("openid".to_string())
    );
    assert_eq!(
        Scope::from_str("a-b.c:d").unwrap(),
        Scope::Custom("a-b.c:d".to_string())
    );
}

#[test]
fn scope_from_str_refuses_invalid_names() {
    assert!(Scope::from_str("").is_err());
    assert!(Scope::from_str("two words").is_err());
    assert!(Scope::from_str("Upper").is_err());
    assert!(Scope::from_str("digits1").is_err());
    assert!(Scope::from_str("line\nbreak").is_err());
}

#[test]
fn scope_to_string_gives_its_name() {
    assert_eq!(Scope::Internal(InternalScope::ProfileRead).to_string(), "profile:read");
    assert_eq!(Scope::Custom("email".to_string()).to_string(), "email");
}

#[test]
fn internal_scope_names() {
    assert_eq!(InternalScope::from_str("profile:read"), Some(InternalScope::ProfileRead));
    assert_eq!(InternalScope::from_str("profile"), None);
    assert_eq!(InternalScope::ProfileWrite.to_string(), "profile:write");
    assert_eq!(InternalScope::string_values(), ["profile:read", "profile:write"]);
    assert_eq!(
        InternalScope::values(),
        [InternalScope::ProfileRead, InternalScope::ProfileWrite]
    );
}

#[test]
fn find_scopes_keeps_allowed_scopes_in_order() {
    let requested = vec![
        "openid".to_string(),
        "profile:write".to_string(),
        "profile:read".to_string(),
        "email".to_string(),
    ];
    let allowed = vec![InternalScope::ProfileRead];
    let (found, errors) = find_scopes(&requested, &allowed).unwrap();
    assert_eq!(
        found,
        vec![
            Scope::Custom("openid".to_string()),
            Scope::Internal(InternalScope::ProfileRead),
            Scope::Custom("email".to_string()),
        ]
    );
    assert!(errors.is_empty());
}

#[test]
fn find_scopes_fails_on_an_unreadable_scope() {
    let requested = vec!["openid".to_string(), "Bad Scope".to_string()];
    assert!(find_scopes(&requested, &vec![]).is_err());
    let (found, _) = find_scopes(&vec![], &vec![]).unwrap();
    assert!(found.is_empty());
}

#[test]
fn enabled_scope_reads_consent_fields() {
    assert_eq!(enabled_scope("enable-scope:email"), Some("email".to_string()));
    assert_eq!(enabled_scope("enable-scope:"), None);
    assert_eq!(enabled_scope("other"), None);
    assert_eq!(enabled_scope("enable-scopes:email"), None);
    let keys = vec![
        "enable-scope:profile:read".to_string(),
        "csrf".to_string(),
        "enable-scope:email".to_string(),
    ];
    assert_eq!(
        selected_scope_names(&keys),
        vec!["profile:read".to_string(), "email".to_string()]
    );
}

#[test]
fn oauth_error_statuses() {
    assert_eq!(OAuthErrorKind::Common(OAuthErrorCommonKind::InvalidRequest).status(), 400);
    assert_eq!(OAuthErrorKind::Common(OAuthErrorCommonKind::UnauthorizedClient).status(), 401);
    assert_eq!(OAuthErrorKind::Common(OAuthErrorCommonKind::InvalidScope).status(), 400);
    assert_eq!(OAuthErrorKind::Authorize(OAuthErrorAuthorizeKind::AccessDenied).status(), 403);
    assert_eq!(
        OAuthErrorKind::Authorize(OAuthErrorAuthorizeKind::UnsupportedResponseType).status(),
        400
    );
    assert_eq!(OAuthErrorKind::Authorize(OAuthErrorAuthorizeKind::ServerError).status(), 500);
    assert_eq!(
        OAuthErrorKind::Authorize(OAuthErrorAuthorizeKind::TemporarilyUnavailable).status(),
        503
    );
    assert_eq!(OAuthErrorKind::Token(OAuthErrorTokenKind::InvalidGrant).status(), 401);
    assert_eq!(OAuthErrorKind::NotSpec(NewErrorNotSpec::InvalidClient).status(), 401);
    assert_eq!(OAuthErrorKind::NotSpec(NewErrorNotSpec::InvalidRedirectUri).status(), 400);
}

#[test]
fn new_error_constructors_set_their_kind() {
    let e = NewError::invalid_scope(Some("d".to_string()), Some("s".to_string()), None, None);
    assert_eq!(e.kind, OAuthErrorKind::Common(OAuthErrorCommonKind::InvalidScope));
    assert_eq!(e.description, Some("d".to_string()));
    assert_eq!(e.state, Some("s".to_string()));
    let e = NewError::invalid_client(None, None, None);
    assert_eq!(e.kind, OAuthErrorKind::NotSpec(NewErrorNotSpec::InvalidClient));
    assert_eq!(e.redirect_uri, None);
    let e = NewError::token_unsupported_grant_type(None, None, None, Some("x".to_string()));
    assert_eq!(e.kind, OAuthErrorKind::Token(OAuthErrorTokenKind::UnsupportedGrantType));
    assert_eq!(e.redirect_uri, Some("x".to_string()));
    let e = NewError::authorize_access_denied(None, None, None, None);
    assert_eq!(e.kind, OAuthErrorKind::Authorize(OAuthErrorAuthorizeKind::AccessDenied));
}

fn params(redirect: &str, response_type: ResponseType, response_mode: ResponseMode) -> OAuthAuthorizeParameters {
    OAuthAuthorizeParameters {
        client_id: "client".to_string(),
        response_type,
        response_mode,
        redirect_uri: redirect.to_string(),
        scopes: vec![],
        state: Some("xyz".to_string()),
        other: vec![],
    }
}

#[test]
fn authorize_request_checks() {
    let registered = vec!["https://app.example/cb".to_string()];
    let ok = check_authorize_request(
        &params("https://app.example/cb", ResponseType::Code, ResponseMode::Query),
        &registered,
    );
    assert_eq!(ok.unwrap(), "https://app.example/cb");

    // A redirect address that parses and serializes differently.
    let registered_root = vec!["https://app.example".to_string()];
    let ok = check_authorize_request(
        &params("https://app.example", ResponseType::Code, ResponseMode::Query),
        &registered_root,
    );
    assert_eq!(ok.unwrap(), "https://app.example/");

    let err = check_authorize_request(
        &params("not a url", ResponseType::Code, ResponseMode::Query),
        &vec!["not a url".to_string()],
    )
    .unwrap_err();
    assert_eq!(err.kind, OAuthErrorKind::NotSpec(NewErrorNotSpec::InvalidRedirectUri));
    assert_eq!(err.state, None);

    let err = check_authorize_request(
        &params("https://other.example/cb", ResponseType::Code, ResponseMode::Query),
        &registered,
    )
    .unwrap_err();
    assert_eq!(err.kind, OAuthErrorKind::NotSpec(NewErrorNotSpec::InvalidRedirectUri));

    let err = check_authorize_request(
        &params("https://app.example/cb", ResponseType::Token, ResponseMode::Query),
        &registered,
    )
    .unwrap_err();
    assert_eq!(
        err.kind,
        OAuthErrorKind::Authorize(OAuthErrorAuthorizeKind::UnsupportedResponseType)
    );
    assert_eq!(err.state, Some("xyz".to_string()));
    assert_eq!(err.redirect_uri, Some("https://app.example/cb".to_string()));

    let err = check_authorize_request(
        &params("https://app.example/cb", ResponseType::Code, ResponseMode::Fragment),
        &registered,
    )
    .unwrap_err();
    assert_eq!(err.kind, OAuthErrorKind::Common(OAuthErrorCommonKind::InvalidRequest));
    assert_eq!(err.state, Some("xyz".to_string()));
}

use authust::routes::oauth::{decide_authorization, join_with_space, scope_names, AuthorizeDecision, AuthorizeMethod};

fn consent_params(scopes: &[&str]) -> OAuthAuthorizeParameters {
    let mut p = params("https://app.example/cb", ResponseType::Code, ResponseMode::Query);
    p.scopes = scopes.iter().map(|s| s.to_string()).collect();
    p
}

#[test]
fn join_and_names() {
    assert_eq!(join_with_space(&vec![]), "");
    assert_eq!(join_with_space(&vec!["a".to_string()]), "a");
    assert_eq!(join_with_space(&vec!["a".to_string(), "b".to_string(), "c".to_string()]), "a b c");
    assert_eq!(
        scope_names(&vec![Scope::Internal(InternalScope::ProfileRead), Scope::Custom("email".to_string())]),
        vec!["profile:read".to_string(), "email".to_string()]
    );
}

#[test]
fn authorization_get_shows_allowed_scopes() {
    let uri = "https://app.example/cb".to_string();
    let allowed = vec![InternalScope::ProfileRead];
    match decide_authorization(
        &consent_params(&["profile:read", "profile:write", "email"]),
        &uri,
        &allowed,
        AuthorizeMethod::Get,
    ) {
        AuthorizeDecision::ShowConsent { scopes, invalid_scopes } => {
            assert_eq!(scopes, vec!["profile:read".to_string(), "email".to_string()]);
            assert!(invalid_scopes.is_empty());
        }
        _ => panic!("expected the consent page"),
    }
    match decide_authorization(&consent_params(&["Bad"]), &uri, &allowed, AuthorizeMethod::Get) {
        AuthorizeDecision::Refuse(e) => {
            assert_eq!(e.kind, OAuthErrorKind::Common(OAuthErrorCommonKind::InvalidScope));
            assert_eq!(e.state, Some("xyz".to_string()));
            assert_eq!(e.redirect_uri, Some(uri.clone()));
        }
        _ => panic!("expected a refusal"),
    }
    assert!(matches!(
        decide_authorization(&consent_params(&[]), &uri, &allowed, AuthorizeMethod::Other),
        AuthorizeDecision::MethodNotAllowed
    ));
}

fn with_keys(scopes: &[&str], keys: &[String]) -> OAuthAuthorizeParameters {
    let mut p = consent_params(scopes);
    p.other = keys.iter().map(|k| (k.clone(), "on".to_string())).collect();
    p
}

#[test]
fn authorization_post_grants_enabled_scopes() {
    let uri = "https://app.example/cb".to_string();
    let allowed = vec![InternalScope::ProfileRead];
    let keys = vec![
        "enable-scope:profile:read".to_string(),
        "enable-scope:profile:write".to_string(),
        "enable-scope:email".to_string(),
        "other".to_string(),
    ];
    match decide_authorization(&with_keys(&["email"], &keys), &uri, &allowed, AuthorizeMethod::Post) {
        AuthorizeDecision::Grant { scope } => assert_eq!(scope, "profile:read email"),
        _ => panic!("expected a grant"),
    }
    let mut denied = keys.clone();
    denied.push("denied".to_string());
    match decide_authorization(&with_keys(&["email"], &denied), &uri, &allowed, AuthorizeMethod::Post) {
        AuthorizeDecision::Refuse(e) => {
            assert_eq!(e.kind, OAuthErrorKind::Authorize(OAuthErrorAuthorizeKind::AccessDenied));
            assert_eq!(e.redirect_uri, Some(uri.clone()));
        }
        _ => panic!("expected a refusal"),
    }
    let bad = vec!["enable-scope:Bad Scope".to_string()];
    match decide_authorization(&with_keys(&["email"], &bad), &uri, &allowed, AuthorizeMethod::Post) {
        AuthorizeDecision::Refuse(e) => {
            assert_eq!(e.kind, OAuthErrorKind::Common(OAuthErrorCommonKind::InvalidScope))
        }
        _ => panic!("expected a refusal"),
    }
    match decide_authorization(&consent_params(&[]), &uri, &allowed, AuthorizeMethod::Post) {
        AuthorizeDecision::Grant { scope } => assert_eq!(scope, ""),
        _ => panic!("expected a grant"),
    }
}

#[test]
fn internal_scopes_parse() {
    assert_eq!("profile:write".parse::<InternalScope>().ok(), Some(InternalScope::ProfileWrite));
    assert_eq!("profile:read".parse::<InternalScope>().ok(), Some(InternalScope::ProfileRead));
    assert!("profile".parse::<InternalScope>().is_err());
}

use authust::routes::oauth::{authorization_redirect, oauth_error_redirect, NewErrorAnswer};

#[test]
fn other_parameter_names() {
    let p = with_keys(&[], &["enable-scope:email".to_string(), "denied".to_string()]);
    assert_eq!(p.other_keys(), vec!["enable-scope:email".to_string(), "denied".to_string()]);
    assert!(consent_params(&[]).other_keys().is_empty());
}

#[test]
fn granted_codes_redirect_with_state() {
    let p = consent_params(&[]);
    assert_eq!(
        authorization_redirect(&p, "abc").unwrap(),
        "https://app.example/cb?code=abc&state=xyz"
    );
    let mut no_state = consent_params(&[]);
    no_state.state = None;
    assert_eq!(authorization_redirect(&no_state, "a b&c").unwrap(), "https://app.example/cb?code=a+b%26c");
    let mut bad = consent_params(&[]);
    bad.redirect_uri = "not a url".to_string();
    assert!(authorization_redirect(&bad, "abc").is_none());
}

#[test]
fn oauth_errors_are_answered() {
    let uri = Some("https://app.example/cb".to_string());
    let e = NewError::invalid_scope(None, Some("xyz".to_string()), None, uri.clone());
    match e.answer() {
        NewErrorAnswer::Redirect(to) => assert_eq!(to, "https://app.example/cb?error=invalid_scope&state=xyz"),
        _ => panic!("expected a redirect"),
    }
    let e = NewError::authorize_access_denied(Some("no way".to_string()), None, None, uri);
    match e.answer() {
        NewErrorAnswer::Redirect(to) => {
            assert_eq!(to, "https://app.example/cb?error=access_denied&error_description=no+way")
        }
        _ => panic!("expected a redirect"),
    }
    let e = NewError::invalid_redirect_uri(None, None, None);
    assert!(matches!(e.answer(), NewErrorAnswer::Json { status: 400 }));
    let e = NewError::token_invalid_grant(None, None, None, Some("::".to_string()));
    assert!(matches!(e.answer(), NewErrorAnswer::Internal));
    assert_eq!(
        oauth_error_redirect(
            OAuthErrorKind::Token(OAuthErrorTokenKind::InvalidGrant),
            Some("d".to_string()),
            Some("s".to_string()),
            "https://a.example/x?old=1"
        )
        .unwrap(),
        "https://a.example/x?error=invalid_grant&description=d&state=s"
    );
}
