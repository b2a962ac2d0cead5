use argon2::password_hash::SaltString;
use argon2::{Algorithm, Argon2, Params, PasswordHasher, Version};

use authust::api::ApiErrorKind;
use authust::executor::context::{ExecutionContext, ExecutionError};
use authust::executor::flow::{
    check_binding, check_bindings, check_policy, ExpressionOutcome, FlowCheck, FlowCheckOutput,
    FlowExecution,
};
use authust::executor::stages::{
    lookup_fields, str_from_field, CompleteStep, FormField, IdentifiedUser, MAX_COMPLETION_STEPS,
};
use authust::executor::FlowKey;
use authust::model::data::{FlowComponent, PendingUser};
use authust::model::error::{FieldErrorKind, FieldType, SubmissionError};
use authust::model::flow::{
    AuthenticationRequirement, Flow, FlowBinding, FlowBindingKind, FlowDesignation, FlowEntry,
};
use authust::model::policy::{Policy, PolicyKind};
use authust::model::reference::{Reference, ReferenceId};
use authust::model::stage::{ConsentMode, PasswordBackend, Stage, StageKind, UserField};
use authust::model::user::PartialUser;

const NANOS: i128 = 1_000_000_000;

fn user(uid: u128, is_admin: bool) -> PartialUser {
    PartialUser {
        uid,
        name: format!("user{uid}"),
        avatar_url: None,
        is_admin,
        password_change_date: 0,
    }
}

fn stage(uid: i32, kind: StageKind) -> Stage {
    Stage { uid, slug: format!("stage-{uid}"), kind, timeout: 0 }
}

fn entry(stage_uid: i32, bindings: Vec<FlowBinding>) -> FlowEntry {
    FlowEntry { ordering: 0, bindings, stage: Reference::new_uid(stage_uid) }
}

fn flow(authentication: AuthenticationRequirement, bindings: Vec<FlowBinding>, entries: Vec<FlowEntry>) -> Flow {
    Flow {
        uid: 1,
        slug: "login".to_string(),
        title: "Log in".to_string(),
        designation: FlowDesignation::Authentication,
        authentication,
        bindings,
        entries,
    }
}

fn binding(kind: FlowBindingKind, negate: bool) -> FlowBinding {
    FlowBinding { enabled: true, negate, order: 0, kind }
}

fn execution(f: Flow) -> FlowExecution {
    let key = FlowKey::new(&"session".to_string(), f.uid);
    FlowExecution::new(f, key, ExecutionContext::new("session".to_string()))
}

fn some(s: &str) -> Option<String> {
    Some(s.to_string())
}

#[test]
fn negation_swaps_pass_and_fail() {
    for o in [
        FlowCheckOutput::Passed,
        FlowCheckOutput::Failed,
        FlowCheckOutput::FailedHard,
        FlowCheckOutput::Neutral,
    ] {
        assert_eq!(o.negate().negate(), o);
    }
    assert_eq!(FlowCheckOutput::Passed.negate(), FlowCheckOutput::Failed);
    assert_eq!(FlowCheckOutput::FailedHard.negate(), FlowCheckOutput::FailedHard);
    assert_eq!(FlowCheckOutput::Neutral.negate(), FlowCheckOutput::Neutral);
    assert!(FlowCheckOutput::Neutral.passed());
    assert!(!FlowCheckOutput::FailedHard.passed());
    assert!(!FlowCheckOutput::FailedHard.negate().passed());
}

#[test]
fn authentication_requirements() {
    let admin = Some(user(1, true));
    let plain = Some(user(2, false));
    let nobody: Option<PartialUser> = None;
    let check = |req| FlowCheck::Authentication(req);
    let n = FlowCheckOutput::Neutral;
    assert_eq!(check(AuthenticationRequirement::Superuser).check(&admin, n), FlowCheckOutput::Passed);
    assert_eq!(check(AuthenticationRequirement::Superuser).check(&plain, n), FlowCheckOutput::Failed);
    assert_eq!(check(AuthenticationRequirement::Superuser).check(&nobody, n), FlowCheckOutput::Failed);
    assert_eq!(check(AuthenticationRequirement::Required).check(&plain, n), FlowCheckOutput::Passed);
    assert_eq!(check(AuthenticationRequirement::Required).check(&nobody, n), FlowCheckOutput::Failed);
    assert_eq!(check(AuthenticationRequirement::Unauthenticated).check(&nobody, n), FlowCheckOutput::Passed);
    assert_eq!(check(AuthenticationRequirement::Unauthenticated).check(&plain, n), FlowCheckOutput::Failed);
    assert_eq!(check(AuthenticationRequirement::Ignored).check(&nobody, n), FlowCheckOutput::Neutral);
    assert_eq!(
        check(AuthenticationRequirement::Required).message(),
        "You must be logged in to access this flow"
    );
    assert_eq!(
        check(AuthenticationRequirement::Superuser).negated_message(),
        "You must be a superuser to access this flow"
    );
    assert_eq!(FlowCheck::IsUser(3).message(), "Access denied");
}

#[test]
fn policy_outcomes() {
    let expiry = Policy { uid: 1, slug: "expiry".to_string(), kind: PolicyKind::PasswordExpiry { max_age: 60 } };
    let strength = Policy { uid: 2, slug: "strength".to_string(), kind: PolicyKind::PasswordStrength };
    let expr = Policy { uid: 3, slug: "expr".to_string(), kind: PolicyKind::Expression("dHJ1ZQ".to_string()) };
    let mut u = user(1, false);
    u.password_change_date = 1_000 * NANOS;
    let some = Some(u);
    let m = ExpressionOutcome::Missing;
    // 59 seconds after the change: not expired; 60 seconds: expired.
    assert_eq!(check_policy(&expiry, 1_059 * NANOS, &some, m), FlowCheckOutput::Passed);
    assert_eq!(check_policy(&expiry, 1_060 * NANOS, &some, m), FlowCheckOutput::Failed);
    assert_eq!(check_policy(&expiry, 1_060 * NANOS, &None, m), FlowCheckOutput::Neutral);
    assert_eq!(check_policy(&strength, 0, &some, m), FlowCheckOutput::Neutral);
    assert_eq!(check_policy(&expr, 0, &some, ExpressionOutcome::Missing), FlowCheckOutput::Neutral);
    assert_eq!(check_policy(&expr, 0, &some, ExpressionOutcome::Error), FlowCheckOutput::FailedHard);
    assert_eq!(check_policy(&expr, 0, &some, ExpressionOutcome::Value(true)), FlowCheckOutput::Passed);
    assert_eq!(check_policy(&expr, 0, &some, ExpressionOutcome::Value(false)), FlowCheckOutput::Failed);
}

#[test]
fn bindings_are_checked_in_order() {
    let me = Some(user(7, false));
    let n = FlowCheckOutput::Neutral;
    assert_eq!(check_binding(&binding(FlowBindingKind::User(7), false), &me, n), None);
    assert_eq!(
        (check_binding(&binding(FlowBindingKind::User(8), false), &me, n)),
        some("Access denied")
    );
    assert_eq!(
        (check_binding(&binding(FlowBindingKind::User(7), true), &me, n)),
        some("Access denied")
    );
    let mut disabled = binding(FlowBindingKind::User(8), false);
    disabled.enabled = false;
    assert_eq!(check_binding(&disabled, &me, n), None);
    // A disabled group binding is never checked.
    let mut group = binding(FlowBindingKind::Group(1), false);
    group.enabled = false;
    let policy = binding(FlowBindingKind::Policy(Reference::new_uid(1)), false);
    assert_eq!(check_binding(&policy, &me, FlowCheckOutput::FailedHard).is_some(), true);
    assert_eq!(check_binding(&policy, &me, FlowCheckOutput::Passed), None);
    let negated_policy = binding(FlowBindingKind::Policy(Reference::new_uid(1)), true);
    assert!(check_binding(&negated_policy, &me, FlowCheckOutput::FailedHard).is_some());
    let list = vec![group, policy, binding(FlowBindingKind::User(7), false)];
    assert_eq!(check_bindings(&list, &me, &vec![n, FlowCheckOutput::Passed, n]), None);
    assert_eq!(
        (check_bindings(&list, &me, &vec![n, FlowCheckOutput::Failed, n])),
        some("Access denied")
    );
}

#[test]
fn flow_check_order() {
    let f = flow(
        AuthenticationRequirement::Required,
        vec![binding(FlowBindingKind::User(7), false)],
        vec![entry(1, vec![binding(FlowBindingKind::Policy(Reference::new_uid(4)), false)])],
    );
    let ex = execution(f);
    let n = FlowCheckOutput::Neutral;
    assert_eq!(
        (ex.check(&None, &vec![n], &vec![n])),
        some("You must be logged in to access this flow")
    );
    assert_eq!((ex.check(&Some(user(8, false)), &vec![n], &vec![n])), some("Access denied"));
    assert_eq!(ex.check(&Some(user(7, false)), &vec![n], &vec![n]), None);
    assert_eq!(
        (ex.check(&Some(user(7, false)), &vec![n], &vec![FlowCheckOutput::Failed])),
        some("Access denied")
    );
}

#[test]
fn execution_walks_through_entries() {
    let f = flow(
        AuthenticationRequirement::Ignored,
        vec![],
        vec![entry(1, vec![]), entry(2, vec![]), entry(3, vec![])],
    );
    let mut ex = execution(f);
    assert_eq!(ex.current_entry_idx, 0);
    assert!(!ex.is_completed());
    assert_eq!(ex.get_entry().stage.id, ReferenceId::Uid(1));
    ex.complete_current();
    assert_eq!(ex.get_entry().stage.id, ReferenceId::Uid(2));
    ex.complete_current();
    assert_eq!(ex.current_entry_idx, 2);
    assert!(!ex.is_completed());
    ex.complete_current();
    assert!(ex.is_completed());
    assert_eq!(ex.current_entry_idx, 2);
    assert_eq!(ex.key.flow, 1);
    assert_eq!(ex.key.session, "session");
}

#[test]
fn form_fields() {
    assert_eq!(str_from_field("uid", &FormField::Text("alice".to_string())).unwrap(), "alice");
    match str_from_field("uid", &FormField::Missing) {
        Err(SubmissionError::Field(e)) => {
            assert_eq!(e.field, "uid");
            assert!(matches!(e.kind, FieldErrorKind::Missing));
        }
        _ => panic!("expected a missing field"),
    }
    match str_from_field("uid", &FormField::NotText(FieldType::Number)) {
        Err(SubmissionError::Field(e)) => {
            assert!(matches!(
                e.kind,
                FieldErrorKind::InvalidType { expected: FieldType::String, got: FieldType::Number }
            ));
        }
        _ => panic!("expected a type error"),
    }
    assert_eq!(lookup_fields(&vec![UserField::Email, UserField::Uuid]), (false, true, true));
    assert_eq!(lookup_fields(&vec![]), (false, false, false));
}

fn login_flow() -> Flow {
    flow(
        AuthenticationRequirement::Ignored,
        vec![],
        vec![entry(1, vec![]), entry(2, vec![]), entry(3, vec![])],
    )
}

fn low_cost_hash(password: &str) -> String {
    let params = Params::new(8, 1, 1, None).unwrap();
    let argon = Argon2::new(Algorithm::Argon2id, Version::V0x13, params);
    let salt = SaltString::from_b64("c29tZXNhbHRzYWx0").unwrap();
    argon.hash_password(password.as_bytes(), &salt).unwrap().to_string()
}

#[test]
fn identification_sets_a_pending_user() {
    let mut ex = execution(login_flow());
    match ex.identify(None) {
        Err(SubmissionError::Field(e)) => {
            assert_eq!(e.field, "uid");
            match e.kind {
                FieldErrorKind::Invalid { message } => assert_eq!(message, "Failed to authenticate"),
                _ => panic!("expected an invalid field"),
            }
        }
        _ => panic!("expected a failure"),
    }
    assert!(ex.context.pending.is_none());
    ex.identify(Some(IdentifiedUser { uid: 42, name: "alice".to_string(), is_admin: true }))
        .unwrap();
    let p = ex.context.pending.as_ref().unwrap();
    assert_eq!(p.uid, 42);
    assert_eq!(p.name, "alice");
    assert!(!p.authenticated);
    assert!(p.is_admin);
}

fn is_invalid_password(e: &ApiErrorKind) -> bool {
    match e {
        ApiErrorKind::SubmissionError(SubmissionError::Field(f)) => {
            f.field == "password"
                && matches!(&f.kind, FieldErrorKind::Invalid { message } if message == "Invalid Password")
        }
        _ => false,
    }
}

#[test]
fn password_stage_checks_the_hash() {
    let internal = vec![PasswordBackend::Internal];
    let hash = low_cost_hash("hunter2");
    let mut ex = execution(login_flow());
    // No pending user yet.
    assert!(matches!(
        ex.check_password(&internal, &FormField::Text("hunter2".to_string()), Some(hash.clone())),
        Err(ApiErrorKind::SubmissionError(SubmissionError::NoPendingUser))
    ));
    ex.identify(Some(IdentifiedUser { uid: 42, name: "alice".to_string(), is_admin: false }))
        .unwrap();
    // Missing field.
    assert!(matches!(
        ex.check_password(&internal, &FormField::Missing, Some(hash.clone())),
        Err(ApiErrorKind::SubmissionError(SubmissionError::Field(_)))
    ));
    // No stored hash for the pending user.
    assert!(matches!(
        ex.check_password(&internal, &FormField::Text("hunter2".to_string()), None),
        Err(ApiErrorKind::SubmissionError(SubmissionError::NoPendingUser))
    ));
    // Only an LDAP backend: always refused.
    let e = ex
        .check_password(&vec![PasswordBackend::LDAP], &FormField::Text("hunter2".to_string()), Some(hash.clone()))
        .unwrap_err();
    assert!(is_invalid_password(&e));
    // Wrong password.
    let e = ex
        .check_password(&internal, &FormField::Text("wrong".to_string()), Some(hash.clone()))
        .unwrap_err();
    assert!(is_invalid_password(&e));
    assert!(!ex.context.pending.as_ref().unwrap().authenticated);
    // A hash that cannot be read.
    let e = ex
        .check_password(&internal, &FormField::Text("hunter2".to_string()), Some("not-a-hash".to_string()))
        .unwrap_err();
    assert!(matches!(e, ApiErrorKind::PwHash(_)));
    // Right password.
    ex.check_password(&internal, &FormField::Text("hunter2".to_string()), Some(hash)).unwrap();
    let p = ex.context.pending.as_ref().unwrap();
    assert!(p.authenticated);
    assert_eq!(p.uid, 42);
}

#[test]
fn completion_steps() {
    let login = stage(2, StageKind::UserLogin);
    let ident = stage(1, StageKind::Identification { password: None, user_fields: vec![UserField::Name] });
    let mut ex = execution(login_flow());
    assert!(matches!(ex.complete_step(&ident, 0), CompleteStep::AwaitInput));
    ex.complete_current();
    assert!(matches!(ex.complete_step(&login, 0), CompleteStep::NoPendingUser));
    assert!(matches!(ex.complete_step(&login, MAX_COMPLETION_STEPS + 1), CompleteStep::LoopLimit));
    ex.context.pending = Some(PendingUser {
        uid: 5,
        name: "bob".to_string(),
        avatar_url: None,
        authenticated: false,
        is_admin: false,
    });
    assert!(matches!(ex.complete_step(&login, 1), CompleteStep::AuthenticationFailed));
    let err = ex.context.error.as_ref().unwrap();
    assert_eq!(err.message, "Authentication of pending user failed");
    assert_eq!(err.stage.as_ref().unwrap().id, ReferenceId::Uid(2));
    ex.context.error = None;
    ex.context.pending.as_mut().unwrap().authenticated = true;
    match ex.complete_step(&login, 1) {
        CompleteStep::Login(u) => {
            assert_eq!(u.uid, 5);
            assert!(u.authenticated);
        }
        _ => panic!("expected a login"),
    }
    ex.complete_current();
    ex.complete_current();
    assert!(matches!(ex.complete_step(&login, 0), CompleteStep::Finished));
}

#[test]
fn flow_data_components() {
    let mut ex = execution(login_flow());
    let ident = stage(
        1,
        StageKind::Identification {
            password: Some(Reference::new_uid(9)),
            user_fields: vec![UserField::Email],
        },
    );
    let (data, drop) = ex.data(None, &None, &None, &ident);
    assert!(!drop);
    assert_eq!(data.flow.title, "Log in");
    match data.component {
        FlowComponent::Identification { user_fields, sources, password } => {
            assert_eq!(user_fields, vec![UserField::Email]);
            assert!(sources.sources.is_empty());
            assert_eq!(password.unwrap().recovery_url, "");
        }
        _ => panic!("expected identification"),
    }
    let (data, _) = ex.data(None, &Some("Access denied".to_string()), &None, &ident);
    match data.component {
        FlowComponent::AccessDenied { message } => {
            assert_eq!(message, "Flow does not apply to current user")
        }
        _ => panic!("expected access denied"),
    }
    let deny = stage(4, StageKind::Deny);
    match ex.data(None, &None, &None, &deny).0.component {
        FlowComponent::AccessDenied { message } => assert_eq!(message, "Access denied"),
        _ => panic!("expected access denied"),
    }
    let login = stage(2, StageKind::UserLogin);
    match ex.data(None, &None, &None, &login).0.component {
        FlowComponent::AccessDenied { message } => {
            assert_eq!(message, "Internal error while constructing component")
        }
        _ => panic!("expected access denied"),
    }
    ex.context.error = Some(ExecutionError { stage: None, message: "boom".to_string() });
    match ex.data(None, &None, &None, &deny).0.component {
        FlowComponent::Error { message } => assert_eq!(message, "boom"),
        _ => panic!("expected an error"),
    }
    ex.complete_current();
    ex.complete_current();
    ex.complete_current();
    let consent = stage(5, StageKind::Consent { mode: ConsentMode::Once });
    let (data, drop) = ex.data(None, &None, &Some("/done".to_string()), &consent);
    assert!(drop);
    match data.component {
        FlowComponent::Redirect { to } => assert_eq!(to, "/done"),
        _ => panic!("expected a redirect"),
    }
    let (data, drop) = ex.data(None, &None, &None, &consent);
    assert!(!drop);
    match data.component {
        FlowComponent::Error { message } => assert_eq!(message, "Missing Redirect"),
        _ => panic!("expected an error"),
    }
}

#[test]
fn stage_input_requirements() {
    assert!(StageKind::Deny.requires_input());
    assert!(StageKind::Password { backends: vec![] }.requires_input());
    assert!(!StageKind::UserLogin.requires_input());
    assert!(!StageKind::UserLogout.requires_input());
    assert!(!StageKind::UserWrite.requires_input());
}

use authust::executor::stages::{submission_step, SubmissionStep};

#[test]
fn submission_steps_by_stage() {
    let ident = stage(
        1,
        StageKind::Identification {
            password: Some(Reference::new_uid(2)),
            user_fields: vec![UserField::Name, UserField::Uuid],
        },
    );
    match submission_step(&ident, &FormField::Text("alice".to_string())) {
        Ok(SubmissionStep::LookupUser { uid, by_name, by_email, by_uuid, password }) => {
            assert_eq!(uid, "alice");
            assert_eq!((by_name, by_email, by_uuid), (true, false, true));
            assert_eq!(password.unwrap().id, ReferenceId::Uid(2));
        }
        _ => panic!("expected a lookup"),
    }
    assert!(matches!(
        submission_step(&ident, &FormField::Missing),
        Err(SubmissionError::Field(_))
    ));
    let password = stage(2, StageKind::Password { backends: vec![PasswordBackend::Internal] });
    match submission_step(&password, &FormField::Missing) {
        Ok(SubmissionStep::CheckPassword { backends }) => {
            assert_eq!(backends, vec![PasswordBackend::Internal])
        }
        _ => panic!("expected a password check"),
    }
    for kind in [StageKind::Deny, StageKind::UserLogin, StageKind::Consent { mode: ConsentMode::Always }] {
        assert!(matches!(submission_step(&stage(3, kind), &FormField::Missing), Ok(SubmissionStep::Done)));
    }
}

use authust::api::auth::check_login;

#[test]
fn sign_in_checks() {
    let hash = low_cost_hash("correct horse");
    assert_eq!(check_login(None, "x").ok(), Some(false));
    assert_eq!(check_login(Some(hash.clone()), "correct horse").ok(), Some(true));
    assert!(matches!(check_login(Some(hash), "wrong"), Err(ApiErrorKind::InvalidLoginData)));
    assert!(matches!(check_login(Some("garbage".to_string()), "x"), Err(ApiErrorKind::PwHash(_))));
}

use authust::api::auth::{registration_hash, RegisterForm};

#[test]
fn registered_password_signs_in() {
    let form = RegisterForm { name: "alice".to_string(), password: "s3cret".to_string() };
    let hash = registration_hash(&form).ok().unwrap();
    assert!(hash.starts_with("$argon2id$v=19$"));
    assert_eq!(check_login(Some(hash.clone()), "s3cret").ok(), Some(true));
    assert!(matches!(check_login(Some(hash), "other"), Err(ApiErrorKind::InvalidLoginData)));
}

use authust::api::auth::registration_outcome;

#[test]
fn registration_outcomes() {
    assert_eq!(registration_outcome(Ok("h".to_string())).ok(), Some("h".to_string()));
    assert!(matches!(
        registration_outcome(Err((true, "m".to_string()))),
        Err(ApiErrorKind::InvalidLoginData)
    ));
    assert!(matches!(
        registration_outcome(Err((false, "m".to_string()))),
        Err(ApiErrorKind::PwHash(m)) if m == "m"
    ));
}

use authust::executor::stages::PostFlowStep;

#[test]
fn after_a_submission() {
    let mut ex = execution(login_flow());
    assert!(matches!(
        ex.post_flow_step(Err(ApiErrorKind::SubmissionError(SubmissionError::NoPendingUser))),
        PostFlowStep::ShowError(SubmissionError::NoPendingUser)
    ));
    assert_eq!(ex.current_entry_idx, 0);
    assert!(matches!(ex.post_flow_step(Err(ApiErrorKind::NotFound)), PostFlowStep::Fail(ApiErrorKind::NotFound)));
    assert_eq!(ex.current_entry_idx, 0);
    assert!(matches!(ex.post_flow_step(Ok(())), PostFlowStep::Continue));
    assert_eq!(ex.current_entry_idx, 1);
}
