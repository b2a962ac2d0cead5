//! What the stages of a flow do with a submission, and how the stages that
//! need no input are run through.
use argon2::password_hash::{Encoding, Error, PasswordHash};
use vstd::prelude::*;

use crate::api::ApiErrorKind;
use crate::error::ArgonError;
use crate::executor::context::ExecutionError;
use crate::executor::flow::FlowExecution;
use crate::model::data::PendingUser;
use crate::model::error::{FieldError, FieldErrorKind, FieldType, SubmissionError};
use crate::model::reference::Reference;
use crate::model::stage::{PasswordBackend, Stage, StageKind, UserField};

verus! {

/// A field of a submitted form: absent, present with a value that is not a
/// string (of the given type), or a string.
#[derive(Debug, Clone)]
pub enum FormField {
    Missing,
    NotText(FieldType),
    Text(String),
}

/// Whether a field error is about the given field and of the given kind.
pub open spec fn is_field_error(e: SubmissionError, field: Seq<char>, kind: FieldErrorKind) -> bool {
    e matches SubmissionError::Field(fe) && fe.field@ == field && fe.kind == kind
}

/// Whether a field error is about the given field and says it is invalid
/// with the given message.
pub open spec fn is_invalid_field(e: SubmissionError, field: Seq<char>, message: Seq<char>) -> bool {
    &&& e matches SubmissionError::Field(fe)
    &&& fe.field@ == field
    &&& fe.kind matches FieldErrorKind::Invalid { message: m }
    &&& m@ == message
}

/// The text of a field, or the error it is answered with: the field is
/// missing, or holds a value of another type than a string.
pub fn str_from_field(name: &str, field: &FormField) -> (r: Result<String, SubmissionError>)
    ensures
        match *field {
            FormField::Missing => r matches Err(e) && is_field_error(e, name@, FieldErrorKind::Missing),
            FormField::NotText(t) => r matches Err(e) && is_field_error(
                e,
                name@,
                FieldErrorKind::InvalidType { expected: FieldType::String, got: t },
            ),
            FormField::Text(s) => r matches Ok(v) && v@ == s@,
        },
{
    match field {
        FormField::Missing => Err(
            SubmissionError::Field(FieldError::new(name.to_owned(), FieldErrorKind::Missing)),
        ),
        FormField::NotText(t) => Err(
            SubmissionError::Field(
                FieldError::new(name.to_owned(), FieldErrorKind::invalid_type(FieldType::String, *t)),
            ),
        ),
        FormField::Text(s) => Ok(s.clone()),
    }
}

/// Whether a list of user fields holds one.
pub fn contains_field(fields: &Vec<UserField>, field: UserField) -> (r: bool)
    ensures
        r == fields@.contains(field),
{
    let mut i: usize = 0;
    while i < fields.len()
        invariant
            i <= fields.len(),
            forall|j: int| 0 <= j < i ==> fields@[j] != field,
        decreases fields.len() - i,
    {
        if fields[i] == field {
            return true;
        }
        i = i + 1;
    }
    false
}

/// By which fields an identification stage looks a user up: by name, by
/// email, by UUID.
pub fn lookup_fields(user_fields: &Vec<UserField>) -> (r: (bool, bool, bool))
    ensures
        r == (user_fields@.contains(UserField::Name), user_fields@.contains(UserField::Email),
        user_fields@.contains(UserField::Uuid)),
{
    (
        contains_field(user_fields, UserField::Name),
        contains_field(user_fields, UserField::Email),
        contains_field(user_fields, UserField::Uuid),
    )
}

/// What a submission to a stage asks of the caller.
#[derive(Debug, Clone)]
pub enum SubmissionStep {
    /// Nothing: the stage takes the submission as it is.
    Done,
    /// Look the user up by `uid` in the fields the stage names, then pass
    /// what was found to `FlowExecution::identify`; with a password stage,
    /// go on with that stage's password check.
    LookupUser {
        uid: String,
        by_name: bool,
        by_email: bool,
        by_uuid: bool,
        password: Option<Reference<Stage>>,
    },
    /// Check the submitted password with these backends
    /// (`FlowExecution::check_password`).
    CheckPassword { backends: Vec<PasswordBackend> },
}

/// What a submission to a stage asks for: an identification stage reads the
/// `uid` field and asks for a user lookup, a password stage asks for a
/// password check, and every other stage takes the submission as it is.
pub fn submission_step(stage: &Stage, uid: &FormField) -> (r: Result<SubmissionStep, SubmissionError>)
    ensures
        match stage.kind {
            StageKind::Identification { password, user_fields } => match *uid {
                FormField::Missing => r matches Err(e) && is_field_error(e, "uid"@, FieldErrorKind::Missing),
                FormField::NotText(t) => r matches Err(e) && is_field_error(
                    e,
                    "uid"@,
                    FieldErrorKind::InvalidType { expected: FieldType::String, got: t },
                ),
                FormField::Text(s) => {
                    &&& r matches Ok(SubmissionStep::LookupUser { uid: u, by_name, by_email, by_uuid, password: p })
                    &&& u@ == s@
                    &&& by_name == user_fields@.contains(UserField::Name)
                    &&& by_email == user_fields@.contains(UserField::Email)
                    &&& by_uuid == user_fields@.contains(UserField::Uuid)
                    &&& (p is Some <==> password is Some)
                    &&& (p matches Some(x) ==> x.id == password->0.id)
                },
            },
            StageKind::Password { backends } => r matches Ok(SubmissionStep::CheckPassword { backends: b })
                && b@ == backends@,
            _ => r matches Ok(SubmissionStep::Done),
        },
{
    match &stage.kind {
        StageKind::Identification { password, user_fields } => {
            let uid = match str_from_field("uid", uid) {
                Ok(u) => u,
                Err(e) => return Err(e),
            };
            let (by_name, by_email, by_uuid) = lookup_fields(user_fields);
            let password = match password {
                Some(p) => Some(p.clone()),
                None => None,
            };
            Ok(SubmissionStep::LookupUser { uid, by_name, by_email, by_uuid, password })
        },
        StageKind::Password { backends } => {
            let mut copy: Vec<PasswordBackend> = Vec::new();
            let mut i: usize = 0;
            while i < backends.len()
                invariant
                    i <= backends.len(),
                    copy@ == backends@.take(i as int),
                decreases backends.len() - i,
            {
                copy.push(backends[i]);
                assert(copy@ =~= backends@.take(i + 1));
                i = i + 1;
            }
            assert(backends@.take(backends.len() as int) =~= backends@);
            Ok(SubmissionStep::CheckPassword { backends: copy })
        },
        _ => Ok(SubmissionStep::Done),
    }
}

/// A user found by an identification stage: UUID as an integer, name, and
/// whether it is an admin.
#[derive(Debug, Clone)]
pub struct IdentifiedUser {
    pub uid: u128,
    pub name: String,
    pub is_admin: bool,
}

/// Whether an Argon2 hash accepts a password: `Ok(true)` or `Ok(false)`, or
/// the error reading the hash (whether it is the wrong-password error, and
/// its message).
pub uninterp spec fn argon2_password_check(hash: Seq<char>, password: Seq<char>) -> Result<
    bool,
    (bool, Seq<char>),
>;

/// Checks a password against a stored Argon2 hash (`PasswordHash::parse`
/// with B64 encoding, then `verify_password` with `Argon2::default()`).
/// A mismatch is `Ok(false)`; a hash that cannot be read is an error with
/// its message. The outcome is named, not stated.
#[verifier::external_body]
pub(crate) fn check_password_hash(hash: &str, password: &str) -> (r: Result<bool, (bool, String)>)
    ensures
        match (r, argon2_password_check(hash@, password@)) {
            (Ok(b), Ok(c)) => b == c,
            (Err((p, m)), Err((q, n))) => p == q && m@ == n,
            _ => false,
        },
{
    let parsed = match PasswordHash::parse(hash, Encoding::B64) {
        Ok(parsed) => parsed,
        Err(err) => return Err((err == Error::Password, err.to_string())),
    };
    match parsed.verify_password(&[&argon2::Argon2::default()], password) {
        Ok(()) => Ok(true),
        Err(Error::Password) => Ok(false),
        Err(err) => Err((false, err.to_string())),
    }
}

/// The error of a wrong or unaccepted password.
pub open spec fn is_invalid_password(e: ApiErrorKind) -> bool {
    e matches ApiErrorKind::SubmissionError(s) && is_invalid_field(s, "password"@, "Invalid Password"@)
}

/// How a step of running through the stages that need no input ends.
#[derive(Debug, Clone)]
pub enum CompleteStep {
    /// The flow has completed.
    Finished,
    /// The current stage waits for input.
    AwaitInput,
    /// Too many stages ran in a row.
    LoopLimit,
    /// A login stage found no pending user.
    NoPendingUser,
    /// A login stage found a pending user that has not authenticated; the
    /// context now holds the error.
    AuthenticationFailed,
    /// A login stage signs in this user; the caller updates the session and
    /// then completes the entry.
    Login(PendingUser),
}

/// The maximal number of stages that are run through in a row.
pub const MAX_COMPLETION_STEPS: u32 = 40;

impl FlowExecution {
    /// An identification stage found a user, or did not: the user becomes the
    /// pending user, not yet authenticated; without one the submission fails.
    pub fn identify(&mut self, found: Option<IdentifiedUser>) -> (r: Result<(), SubmissionError>)
        ensures
            final(self).flow == old(self).flow,
            final(self).current_entry_idx == old(self).current_entry_idx,
            final(self).is_completed == old(self).is_completed,
            final(self).context.start_time == old(self).context.start_time,
            final(self).context.user == old(self).context.user,
            final(self).context.error == old(self).context.error,
            match found {
                Some(u) => {
                    &&& r is Ok
                    &&& final(self).context.pending matches Some(p)
                    &&& p.uid == u.uid
                    &&& p.name@ == u.name@
                    &&& p.avatar_url is None
                    &&& !p.authenticated
                    &&& p.is_admin == u.is_admin
                },
                None => {
                    &&& final(self).context.pending == old(self).context.pending
                    &&& r matches Err(e)
                    &&& is_invalid_field(e, "uid"@, "Failed to authenticate"@)
                },
            },
    {
        match found {
            Some(user) => {
                self.context.pending = Some(
                    PendingUser {
                        uid: user.uid,
                        name: user.name,
                        avatar_url: None,
                        authenticated: false,
                        is_admin: user.is_admin,
                    },
                );
                Ok(())
            },
            None => Err(
                SubmissionError::Field(
                    FieldError::new(
                        String::from_str("uid"),
                        FieldErrorKind::invalid(String::from_str("Failed to authenticate")),
                    ),
                ),
            ),
        }
    }

    /// A password stage checks the submitted password of the pending user.
    /// With the internal backend it is checked against `stored_hash`, the
    /// hash stored for the pending user (none when there is no such user); a
    /// match authenticates the pending user. Any other outcome refuses the
    /// password.
    pub fn check_password(
        &mut self,
        backends: &Vec<PasswordBackend>,
        field: &FormField,
        stored_hash: Option<String>,
    ) -> (r: Result<(), ApiErrorKind>)
        ensures
            final(self).flow == old(self).flow,
            final(self).current_entry_idx == old(self).current_entry_idx,
            final(self).is_completed == old(self).is_completed,
            final(self).context.start_time == old(self).context.start_time,
            final(self).context.user == old(self).context.user,
            final(self).context.error == old(self).context.error,
            r is Ok ==> {
                &&& final(self).context.pending matches Some(p)
                &&& old(self).context.pending matches Some(q)
                &&& p.authenticated
                &&& p.uid == q.uid
                &&& p.name == q.name
                &&& p.is_admin == q.is_admin
                &&& p.avatar_url == q.avatar_url
            },
            r is Err ==> final(self).context.pending == old(self).context.pending,
            old(self).context.pending is None ==> r == Err::<(), ApiErrorKind>(
                ApiErrorKind::SubmissionError(SubmissionError::NoPendingUser),
            ),
            old(self).context.pending is Some ==> match *field {
                FormField::Missing => r matches Err(ApiErrorKind::SubmissionError(e))
                    && is_field_error(e, "password"@, FieldErrorKind::Missing),
                FormField::NotText(t) => r matches Err(ApiErrorKind::SubmissionError(e))
                    && is_field_error(
                    e,
                    "password"@,
                    FieldErrorKind::InvalidType { expected: FieldType::String, got: t },
                ),
                FormField::Text(password) => if backends@.contains(PasswordBackend::Internal) {
                    match stored_hash {
                        None => r == Err::<(), ApiErrorKind>(
                            ApiErrorKind::SubmissionError(SubmissionError::NoPendingUser),
                        ),
                        Some(hash) => match argon2_password_check(hash@, password@) {
                            Ok(true) => r is Ok,
                            Ok(false) => r matches Err(e) && is_invalid_password(e),
                            Err((is_password, message)) => if is_password {
                                r == Err::<(), ApiErrorKind>(ApiErrorKind::InvalidLoginData)
                            } else {
                                r matches Err(ApiErrorKind::PwHash(m)) && m@ == message
                            },
                        },
                    }
                } else {
                    r matches Err(e) && is_invalid_password(e)
                },
            },
    {
        if self.context.pending.is_none() {
            return Err(ApiErrorKind::SubmissionError(SubmissionError::NoPendingUser));
        }
        let password = match str_from_field("password", field) {
            Ok(p) => p,
            Err(e) => return Err(ApiErrorKind::SubmissionError(e)),
        };
        let mut internal = false;
        let mut i: usize = 0;
        while i < backends.len()
            invariant
                i <= backends.len(),
                internal == (exists|j: int| 0 <= j < i && backends@[j] == PasswordBackend::Internal),
            decreases backends.len() - i,
        {
            if backends[i] == PasswordBackend::Internal {
                internal = true;
            }
            i = i + 1;
        }
        assert(internal == backends@.contains(PasswordBackend::Internal));
        if internal {
            let hash = match stored_hash {
                Some(h) => h,
                None => return Err(ApiErrorKind::SubmissionError(SubmissionError::NoPendingUser)),
            };
            match check_password_hash(hash.as_str(), password.as_str()) {
                Ok(true) => {
                    let pending = self.context.pending.take();
                    match pending {
                        Some(mut p) => {
                            p.authenticated = true;
                            self.context.pending = Some(p);
                        },
                        None => {},
                    }
                    return Ok(());
                },
                Ok(false) => {},
                Err((is_password, message)) => {
                    let err = if is_password {
                        ArgonError::Password
                    } else {
                        ArgonError::Other
                    };
                    return Err(ApiErrorKind::from_argon(err, message));
                },
            }
        }
        Err(
            ApiErrorKind::SubmissionError(
                SubmissionError::Field(
                    FieldError::new(
                        String::from_str("password"),
                        FieldErrorKind::invalid(String::from_str("Invalid Password")),
                    ),
                ),
            ),
        )
    }

    /// One step of running through the stages that need no input, given the
    /// stage of the current entry and how many stages have run so far. Only
    /// login stages are run: with an authenticated pending user the step
    /// signs that user in; without one it records the failure in the context.
    pub fn complete_step(&mut self, stage: &Stage, iterations: u32) -> (r: CompleteStep)
        requires
            old(self).wf(),
            !old(self).is_completed ==> old(self).current_entry_idx < old(self).flow.entries.len(),
            !old(self).is_completed && !stage.kind.spec_requires_input() && iterations
                <= MAX_COMPLETION_STEPS ==> stage.kind is UserLogin,
        ensures
            final(self).flow == old(self).flow,
            final(self).current_entry_idx == old(self).current_entry_idx,
            final(self).is_completed == old(self).is_completed,
            final(self).context.pending == old(self).context.pending,
            !(r is AuthenticationFailed) ==> final(self).context.error == old(self).context.error,
            old(self).is_completed ==> r is Finished,
            !old(self).is_completed && stage.kind.spec_requires_input() ==> r is AwaitInput,
            !old(self).is_completed && !stage.kind.spec_requires_input() && iterations
                > MAX_COMPLETION_STEPS ==> r is LoopLimit,
            !old(self).is_completed && !stage.kind.spec_requires_input() && iterations
                <= MAX_COMPLETION_STEPS ==> match old(self).context.pending {
                None => r is NoPendingUser,
                Some(p) => if p.authenticated {
                    r matches CompleteStep::Login(u) && u.uid == p.uid && u.name@ == p.name@
                        && u.is_admin == p.is_admin && u.authenticated && crate::opt_view(
                        u.avatar_url,
                    ) == crate::opt_view(p.avatar_url)
                } else {
                    &&& r is AuthenticationFailed
                    &&& final(self).context.error matches Some(e)
                    &&& e.message@ == "Authentication of pending user failed"@
                    &&& e.stage matches Some(s)
                    &&& s.id == old(self).flow.entries@[old(self).current_entry_idx as int].stage.id
                },
            },
    {
        if self.is_completed {
            return CompleteStep::Finished;
        }
        if stage.kind.requires_input() {
            return CompleteStep::AwaitInput;
        }
        if iterations > MAX_COMPLETION_STEPS {
            return CompleteStep::LoopLimit;
        }
        let user = match &self.context.pending {
            Some(p) => p.copy(),
            None => return CompleteStep::NoPendingUser,
        };
        if !user.authenticated {
            let stage_ref = self.flow.entries[self.current_entry_idx].stage.clone();
            self.context.error = Some(
                ExecutionError {
                    stage: Some(stage_ref),
                    message: String::from_str("Authentication of pending user failed"),
                },
            );
            return CompleteStep::AuthenticationFailed;
        }
        CompleteStep::Login(user)
    }
}

/// What follows a submission to the current entry.
#[derive(Debug, Clone)]
pub enum PostFlowStep {
    /// The submission was refused: the flow's data is shown with this error.
    ShowError(SubmissionError),
    /// Handling the submission failed otherwise; the request fails with this.
    Fail(ApiErrorKind),
    /// The entry is completed: the stages that need no input are run next,
    /// then the client is sent back to the flow.
    Continue,
}

impl FlowExecution {
    /// Goes on after a submission was handled: a refused submission is shown
    /// with its error and another failure fails the request, both leaving the
    /// execution as it is; a handled one completes the current entry.
    pub fn post_flow_step(&mut self, handled: Result<(), ApiErrorKind>) -> (r: PostFlowStep)
        requires
            old(self).wf(),
        ensures
            final(self).wf(),
            final(self).flow == old(self).flow,
            final(self).key == old(self).key,
            final(self).context == old(self).context,
            match handled {
                Ok(()) => {
                    &&& r is Continue
                    &&& (final(self).current_entry_idx as int, final(self).is_completed)
                        == crate::executor::flow::spec_advance(
                        old(self).current_entry_idx as int,
                        old(self).is_completed,
                        old(self).flow.entries.len() as int,
                    )
                },
                Err(ApiErrorKind::SubmissionError(e)) => {
                    &&& r == PostFlowStep::ShowError(e)
                    &&& *final(self) == *old(self)
                },
                Err(e) => {
                    &&& r == PostFlowStep::Fail(e)
                    &&& *final(self) == *old(self)
                },
            },
    {
        match handled {
            Ok(()) => {
                self.complete_current();
                PostFlowStep::Continue
            },
            Err(ApiErrorKind::SubmissionError(e)) => PostFlowStep::ShowError(e),
            Err(e) => PostFlowStep::Fail(e),
        }
    }
}

} // verus!
