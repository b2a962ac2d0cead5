use base64::{prelude::BASE64_URL_SAFE_NO_PAD, Engine as _};

use authust::api::flow::{deletion_outcome, flow_changes, UpdateModel};
use authust::api::policy::{expiration_policy, prepare_expression, ExpressionRejection, MAX_EXPRESSION_LEN};
use authust::api::ApiErrorKind;
use authust::interface::flow_location;
use authust::model::flow::{AuthenticationRequirement, Flow, FlowDesignation};
use authust::model::policy::PolicyKind;

fn flow() -> Flow {
    Flow {
        uid: 1,
        slug: "login".to_string(),
        title: "Log in".to_string(),
        designation: FlowDesignation::Authentication,
        authentication: AuthenticationRequirement::Unauthenticated,
        bindings: vec![],
        entries: vec![],
    }
}

#[test]
fn flow_updates_list_what_changes() {
    let f = flow();
    let same = UpdateModel {
        title: Some("Log in".to_string()),
        designation: Some(FlowDesignation::Authentication),
        authentication: None,
    };
    let c = flow_changes(&f, &same);
    assert!(!c.has_changed());
    let other = UpdateModel {
        title: Some("Sign in".to_string()),
        designation: Some(FlowDesignation::Enrollment),
        authentication: Some(AuthenticationRequirement::Unauthenticated),
    };
    let c = flow_changes(&f, &other);
    assert!(c.has_changed());
    assert_eq!(c.title, Some("Sign in".to_string()));
    assert_eq!(c.designation, Some(FlowDesignation::Enrollment));
    assert_eq!(c.authentication, None);
}

#[test]
fn flow_deletion_outcomes() {
    assert!(deletion_outcome(1).is_ok());
    assert!(matches!(deletion_outcome(0), Err(ApiErrorKind::NotFound)));
    assert!(matches!(
        deletion_outcome(2),
        Err(ApiErrorKind::MiscInternal(m)) if m == "More than one row affected on flow deletion"
    ));
}

#[test]
fn expression_bodies() {
    let engine = rhai::Engine::new();
    let ok = prepare_expression(&engine, b"1 + 1 == 2".to_vec()).ok().unwrap();
    assert_eq!(ok, BASE64_URL_SAFE_NO_PAD.encode(b"1 + 1 == 2"));
    let e = prepare_expression(&engine, vec![b'1'; MAX_EXPRESSION_LEN + 1]).err().unwrap();
    assert!(matches!(e, ExpressionRejection::TooLarge));
    assert_eq!(e.status(), 413);
    let e = prepare_expression(&engine, vec![0xff, 0xfe]).err().unwrap();
    assert!(matches!(e, ExpressionRejection::NotUtf8));
    assert_eq!(e.status(), 400);
    let e = prepare_expression(&engine, b"1 +".to_vec()).err().unwrap();
    assert!(matches!(e, ExpressionRejection::Parse(_)));
    assert_eq!(e.status(), 400);
}

#[test]
fn expiration_policies() {
    assert!(expiration_policy(-1).is_none());
    assert!(matches!(expiration_policy(0), Some(PolicyKind::PasswordExpiry { max_age: 0 })));
    assert!(matches!(expiration_policy(3600), Some(PolicyKind::PasswordExpiry { max_age: 3600 })));
}

#[test]
fn flow_locations() {
    assert_eq!(flow_location("", "login", None), "/flow/login");
    assert_eq!(flow_location("https://ui.example", "login", Some("next=/a")), "https://ui.example/flow/login?next=/a");
}
