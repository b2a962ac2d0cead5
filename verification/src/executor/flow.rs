//! The checks that guard a flow and its entries, and the state of a running
//! flow: which entry it is at, whether it has completed, and what the client
//! is shown.
use vstd::prelude::*;

use crate::opt_view;

use crate::executor::context::{
    valid_timestamp, ExecutionContext, ExecutionError, NANOS_PER_SECOND,
};
use crate::executor::FlowKey;
use crate::model::data::{FlowComponent, FlowData, FlowInfo, PasswordComponentData, PendingUser, Sources};
use crate::model::error::SubmissionError;
use crate::model::flow::{AuthenticationRequirement, Flow, FlowBinding, FlowBindingKind, FlowEntry};
use crate::model::policy::{Policy, PolicyKind};
use crate::model::reference::Reference;
use crate::model::stage::{Stage, StageKind};
use crate::model::user::PartialUser;

verus! {

/// The outcome of a single check. `Passed` and `Neutral` let the user
/// through, `Failed` and `FailedHard` do not; negation swaps `Passed` and
/// `Failed` and leaves the other two alone.
#[derive(Debug, Clone, Copy, PartialEq, Eq, Structural)]
pub enum FlowCheckOutput {
    Passed,
    Failed,
    FailedHard,
    Neutral,
}

/// Negation of an outcome.
pub open spec fn spec_negate(o: FlowCheckOutput) -> FlowCheckOutput {
    match o {
        FlowCheckOutput::Passed => FlowCheckOutput::Failed,
        FlowCheckOutput::Failed => FlowCheckOutput::Passed,
        FlowCheckOutput::FailedHard => FlowCheckOutput::FailedHard,
        FlowCheckOutput::Neutral => FlowCheckOutput::Neutral,
    }
}

/// Whether an outcome lets the user through.
pub open spec fn spec_passed(o: FlowCheckOutput) -> bool {
    o is Passed || o is Neutral
}

/// The outcome of a yes-or-no check.
pub open spec fn bool_output(b: bool) -> FlowCheckOutput {
    if b {
        FlowCheckOutput::Passed
    } else {
        FlowCheckOutput::Failed
    }
}

impl FlowCheckOutput {
    /// Negates the outcome.
    pub fn negate(self) -> (r: Self)
        ensures
            r == spec_negate(self),
    {
        match self {
            FlowCheckOutput::Passed => Self::Failed,
            FlowCheckOutput::Failed => Self::Passed,
            FlowCheckOutput::FailedHard => Self::FailedHard,
            FlowCheckOutput::Neutral => Self::Neutral,
        }
    }

    /// Whether the outcome lets the user through.
    pub fn passed(&self) -> (r: bool)
        ensures
            r == spec_passed(*self),
    {
        match self {
            FlowCheckOutput::Passed | FlowCheckOutput::Neutral => true,
            FlowCheckOutput::Failed | FlowCheckOutput::FailedHard => false,
        }
    }
}

/// Negating twice gives the outcome back.
pub proof fn lemma_negate_involutive(o: FlowCheckOutput)
    ensures
        spec_negate(spec_negate(o)) == o,
{
}

/// Negation turns a pass into a failure and back, and never lets a hard
/// failure through nor stops a neutral outcome.
pub proof fn lemma_negate_passes(o: FlowCheckOutput)
    ensures
        (o is Passed || o is Failed) ==> spec_passed(spec_negate(o)) == !spec_passed(o),
        o is FailedHard ==> !spec_passed(spec_negate(o)),
        o is Neutral ==> spec_passed(spec_negate(o)),
{
}

/// Conversion of a check's answer into an outcome.
pub trait IntoFlowCheckOutput {
    spec fn spec_into_output(self) -> FlowCheckOutput;

    fn into_output(self) -> (r: FlowCheckOutput)
        ensures
            r == self.spec_into_output(),
    ;
}

impl IntoFlowCheckOutput for bool {
    open spec fn spec_into_output(self) -> FlowCheckOutput {
        bool_output(self)
    }

    fn into_output(self) -> (r: FlowCheckOutput) {
        if self {
            FlowCheckOutput::Passed
        } else {
            FlowCheckOutput::Failed
        }
    }
}

/// A check: the flow's authentication requirement, being a given user (by
/// the UUID as an integer), or a policy.
#[derive(Debug, Clone)]
pub enum FlowCheck {
    Authentication(AuthenticationRequirement),
    IsUser(u128),
    Policy(Reference<Policy>),
}

/// The outcome of an authentication requirement for the signed-in user.
pub open spec fn spec_auth_check(req: AuthenticationRequirement, user: Option<PartialUser>) -> FlowCheckOutput {
    match req {
        AuthenticationRequirement::Superuser => match user {
            Some(u) => bool_output(u.is_admin),
            None => FlowCheckOutput::Failed,
        },
        AuthenticationRequirement::Required => bool_output(user is Some),
        AuthenticationRequirement::Unauthenticated => bool_output(user is None),
        AuthenticationRequirement::Ignored => FlowCheckOutput::Neutral,
    }
}

/// The outcome of a check for the signed-in user; a policy check has the
/// outcome its policy gave.
pub open spec fn spec_check(
    check: FlowCheck,
    user: Option<PartialUser>,
    policy_outcome: FlowCheckOutput,
) -> FlowCheckOutput {
    match check {
        FlowCheck::Authentication(req) => spec_auth_check(req, user),
        FlowCheck::IsUser(id) => bool_output(user matches Some(u) && u.uid == id),
        FlowCheck::Policy(_) => policy_outcome,
    }
}

/// What the user is told when a check stops them.
pub open spec fn spec_message(check: FlowCheck) -> Seq<char> {
    match check {
        FlowCheck::Authentication(req) => match req {
            AuthenticationRequirement::Superuser => "You must be a superuser to access this flow"@,
            AuthenticationRequirement::Required => "You must be logged in to access this flow"@,
            AuthenticationRequirement::Unauthenticated => "You must not be logged in to access this flow"@,
            AuthenticationRequirement::Ignored => "This is an error! "@,
        },
        _ => "Access denied"@,
    }
}

/// The check a binding performs.
pub open spec fn spec_check_of_kind(kind: FlowBindingKind) -> FlowCheck {
    match kind {
        FlowBindingKind::User(id) => FlowCheck::IsUser(id),
        FlowBindingKind::Policy(policy) => FlowCheck::Policy(policy),
        FlowBindingKind::Group(id) => FlowCheck::IsUser(id),
    }
}

impl FlowCheck {
    /// The check of a user or policy binding.
    pub fn from_binding_kind(value: FlowBindingKind) -> (r: Self)
        requires
            !(value is Group),
        ensures
            r == spec_check_of_kind(value),
    {
        match value {
            FlowBindingKind::User(id) => FlowCheck::IsUser(id),
            FlowBindingKind::Policy(policy) => FlowCheck::Policy(policy),
            FlowBindingKind::Group(id) => FlowCheck::IsUser(id),
        }
    }

    /// Runs the check for the signed-in user; `policy_outcome` is what the
    /// policy of a policy check gave.
    pub fn check(&self, user: &Option<PartialUser>, policy_outcome: FlowCheckOutput) -> (r: FlowCheckOutput)
        ensures
            r == spec_check(*self, *user, policy_outcome),
    {
        match self {
            FlowCheck::Authentication(requirement) => match requirement {
                AuthenticationRequirement::Superuser => {
                    if let Some(u) = user {
                        u.is_admin.into_output()
                    } else {
                        FlowCheckOutput::Failed
                    }
                },
                AuthenticationRequirement::Required => user.is_some().into_output(),
                AuthenticationRequirement::Unauthenticated => user.is_none().into_output(),
                AuthenticationRequirement::Ignored => FlowCheckOutput::Neutral,
            },
            FlowCheck::IsUser(id) => {
                let same = match user {
                    Some(u) => u.uid == *id,
                    None => false,
                };
                same.into_output()
            },
            FlowCheck::Policy(_) => policy_outcome,
        }
    }

    /// What the user is told when the check stops them.
    pub fn message(&self) -> (r: String)
        ensures
            r@ == spec_message(*self),
    {
        match self {
            FlowCheck::Authentication(requirement) => match requirement {
                AuthenticationRequirement::Superuser => String::from_str(
                    "You must be a superuser to access this flow",
                ),
                AuthenticationRequirement::Required => String::from_str(
                    "You must be logged in to access this flow",
                ),
                AuthenticationRequirement::Unauthenticated => String::from_str(
                    "You must not be logged in to access this flow",
                ),
                AuthenticationRequirement::Ignored => String::from_str("This is an error! "),
            },
            FlowCheck::IsUser(_) => String::from_str("Access denied"),
            FlowCheck::Policy(_) => String::from_str("Access denied"),
        }
    }

    /// The message of a negated check: the same as the check's own.
    pub fn negated_message(&self) -> (r: String)
        ensures
            r@ == spec_message(*self),
    {
        match self {
            FlowCheck::Authentication(_) => self.message(),
            FlowCheck::IsUser(_) => self.message(),
            FlowCheck::Policy(_) => self.message(),
        }
    }
}

/// What a policy's expression gave, where the policy is an expression: no
/// compiled expression was found, running it failed, or it returned a value.
#[derive(Debug, Clone, Copy, PartialEq, Eq, Structural)]
pub enum ExpressionOutcome {
    Missing,
    Error,
    Value(bool),
}

/// The outcome of a policy for the signed-in user at time `now`: a password
/// expiry policy passes while less than its maximal age has passed since the
/// user's last password change and is neutral without a user; a password
/// strength policy is neutral; an expression policy passes or fails by the
/// value its expression returned, fails hard when running it failed, and is
/// neutral when it has no compiled expression.
pub open spec fn spec_check_policy(
    kind: PolicyKind,
    now: i128,
    user: Option<PartialUser>,
    expression: ExpressionOutcome,
) -> FlowCheckOutput {
    match kind {
        PolicyKind::PasswordExpiry { max_age } => match user {
            Some(u) => bool_output(now - u.password_change_date < max_age * NANOS_PER_SECOND),
            None => FlowCheckOutput::Neutral,
        },
        PolicyKind::PasswordStrength => FlowCheckOutput::Neutral,
        PolicyKind::Expression(_) => match expression {
            ExpressionOutcome::Missing => FlowCheckOutput::Neutral,
            ExpressionOutcome::Error => FlowCheckOutput::FailedHard,
            ExpressionOutcome::Value(b) => bool_output(b),
        },
    }
}

/// Evaluates a policy for the signed-in user at time `now` (the time the
/// flow execution started); for an expression policy, `expression` is what
/// running its expression gave.
pub fn check_policy(
    policy: &Policy,
    now: i128,
    user: &Option<PartialUser>,
    expression: ExpressionOutcome,
) -> (r: FlowCheckOutput)
    requires
        valid_timestamp(now),
        user matches Some(u) ==> valid_timestamp(u.password_change_date),
    ensures
        r == spec_check_policy(policy.kind, now, *user, expression),
{
    match &policy.kind {
        PolicyKind::PasswordExpiry { max_age } => match user {
            Some(u) => {
                let elapsed: i128 = now - u.password_change_date;
                let limit: i128 = (*max_age as i128) * NANOS_PER_SECOND;
                (elapsed < limit).into_output()
            },
            None => FlowCheckOutput::Neutral,
        },
        PolicyKind::PasswordStrength => FlowCheckOutput::Neutral,
        PolicyKind::Expression(_) => match expression {
            ExpressionOutcome::Missing => FlowCheckOutput::Neutral,
            ExpressionOutcome::Error => FlowCheckOutput::FailedHard,
            ExpressionOutcome::Value(b) => b.into_output(),
        },
    }
}

/// What a binding says for the signed-in user: nothing when it is disabled
/// or its (possibly negated) check lets the user through, and otherwise the
/// check's message.
pub open spec fn spec_binding_result(
    binding: FlowBinding,
    user: Option<PartialUser>,
    policy_outcome: FlowCheckOutput,
) -> Option<Seq<char>> {
    if !binding.enabled {
        None
    } else {
        let check = spec_check_of_kind(binding.kind);
        let result = spec_check(check, user, policy_outcome);
        let result = if binding.negate {
            spec_negate(result)
        } else {
            result
        };
        if !spec_passed(result) {
            Some(spec_message(check))
        } else {
            None
        }
    }
}

/// The bindings that can be checked: no enabled one is a group binding.
pub open spec fn checkable_bindings(bindings: Seq<FlowBinding>) -> bool {
    forall|i: int| 0 <= i < bindings.len() ==> (#[trigger] bindings[i]).enabled ==> !(
    bindings[i].kind is Group)
}

/// Checks one binding for the signed-in user; `policy_outcome` is what the
/// binding's policy gave, where it is a policy binding.
pub fn check_binding(binding: &FlowBinding, user: &Option<PartialUser>, policy_outcome: FlowCheckOutput) -> (r:
    Option<String>)
    requires
        binding.enabled ==> !(binding.kind is Group),
    ensures
        opt_view(r) == spec_binding_result(*binding, *user, policy_outcome),
{
    if !binding.enabled {
        return None;
    }
    let check = FlowCheck::from_binding_kind(binding.kind.clone_kind());
    let result = check.check(user, policy_outcome);
    let result = if binding.negate {
        result.negate()
    } else {
        result
    };
    if !result.passed() {
        Some(check.message())
    } else {
        None
    }
}

impl FlowBindingKind {
    /// A copy of the binding kind.
    pub fn clone_kind(&self) -> (r: Self)
        ensures
            r == *self,
    {
        match self {
            FlowBindingKind::Group(id) => FlowBindingKind::Group(*id),
            FlowBindingKind::User(id) => FlowBindingKind::User(*id),
            FlowBindingKind::Policy(policy) => FlowBindingKind::Policy(policy.clone()),
        }
    }
}

/// The message of the first binding, from index `i` on, that stops the
/// user, or nothing when none does.
pub open spec fn spec_first_failure(
    bindings: Seq<FlowBinding>,
    user: Option<PartialUser>,
    outcomes: Seq<FlowCheckOutput>,
    i: int,
) -> Option<Seq<char>>
    decreases bindings.len() - i,
{
    if i < 0 || i >= bindings.len() {
        None
    } else {
        match spec_binding_result(bindings[i], user, outcomes[i]) {
            Some(m) => Some(m),
            None => spec_first_failure(bindings, user, outcomes, i + 1),
        }
    }
}

/// Checks a list of bindings in order and gives the message of the first one
/// that stops the user. `outcomes[i]` is what the policy of `bindings[i]`
/// gave, where it is a policy binding.
pub fn check_bindings(
    bindings: &Vec<FlowBinding>,
    user: &Option<PartialUser>,
    outcomes: &Vec<FlowCheckOutput>,
) -> (r: Option<String>)
    requires
        outcomes.len() == bindings.len(),
        checkable_bindings(bindings@),
    ensures
        opt_view(r) == spec_first_failure(bindings@, *user, outcomes@, 0),
{
    let mut i: usize = 0;
    while i < bindings.len()
        invariant
            i <= bindings.len(),
            outcomes.len() == bindings.len(),
            checkable_bindings(bindings@),
            spec_first_failure(bindings@, *user, outcomes@, 0) == spec_first_failure(
                bindings@,
                *user,
                outcomes@,
                i as int,
            ),
        decreases bindings.len() - i,
    {
        assert(bindings@[i as int].enabled ==> !(bindings@[i as int].kind is Group));
        let m = check_binding(&bindings[i], user, outcomes[i]);
        if m.is_some() {
            return m;
        }
        i = i + 1;
    }
    None
}

/// The message of the first check that stops the signed-in user from running
/// the current entry of a flow: the flow's authentication requirement, then
/// the flow's bindings, then the entry's bindings.
pub open spec fn spec_flow_check(
    flow: Flow,
    entry: FlowEntry,
    user: Option<PartialUser>,
    flow_outcomes: Seq<FlowCheckOutput>,
    entry_outcomes: Seq<FlowCheckOutput>,
) -> Option<Seq<char>> {
    let auth = FlowCheck::Authentication(flow.authentication);
    if !spec_passed(spec_check(auth, user, FlowCheckOutput::Neutral)) {
        Some(spec_message(auth))
    } else {
        match spec_first_failure(flow.bindings@, user, flow_outcomes, 0) {
            Some(m) => Some(m),
            None => spec_first_failure(entry.bindings@, user, entry_outcomes, 0),
        }
    }
}

/// Where a running flow stands after one more entry is completed: at the
/// next entry, or completed when there is none.
pub open spec fn spec_advance(idx: int, completed: bool, n_entries: int) -> (int, bool) {
    if idx + 1 < n_entries {
        (idx + 1, completed)
    } else {
        (idx, true)
    }
}

/// Where a running flow stands after `k` entries are completed from its start.
pub open spec fn spec_advance_n(k: nat, n_entries: int) -> (int, bool)
    decreases k,
{
    if k == 0 {
        (0, false)
    } else {
        let prev = spec_advance_n((k - 1) as nat, n_entries);
        spec_advance(prev.0, prev.1, n_entries)
    }
}

/// A flow that starts at its first entry stands, after `k` completions, at
/// entry `min(k, n - 1)` of its `n` entries, and has completed exactly when
/// `k` reaches `n`.
pub proof fn lemma_flow_progress(k: nat, n_entries: int)
    requires
        n_entries > 0,
    ensures
        spec_advance_n(k, n_entries).0 == (if k < n_entries {
            k as int
        } else {
            n_entries - 1
        }),
        spec_advance_n(k, n_entries).1 == (k >= n_entries),
    decreases k,
{
    if k > 0 {
        lemma_flow_progress((k - 1) as nat, n_entries);
    }
}

/// The component shown for a stage that waits for input; server-side stages
/// have none.
pub open spec fn spec_component_ok(stage: Stage, r: Option<FlowComponent>) -> bool {
    match stage.kind {
        StageKind::Deny => r matches Some(FlowComponent::AccessDenied { message }) && message@
            == "Access denied"@,
        StageKind::Identification { password, user_fields } => r matches Some(
            FlowComponent::Identification { user_fields: f, sources, password: p },
        ) && f@ == user_fields@ && sources.sources@.len() == 0 && !sources.show_source_labels && (
        p is Some <==> password is Some) && (p matches Some(d) ==> d.recovery_url@ == ""@),
        StageKind::Password { .. } => r matches Some(FlowComponent::Password { data })
            && data.recovery_url@ == ""@,
        _ => r is None,
    }
}

/// The stages whose component can be built: all but prompt and consent stages.
pub open spec fn has_component(stage: Stage) -> bool {
    !(stage.kind is Prompt || stage.kind is Consent)
}

impl Stage {
    /// The component the client renders for this stage.
    pub fn as_component(&self) -> (r: Option<FlowComponent>)
        requires
            has_component(*self),
        ensures
            spec_component_ok(*self, r),
    {
        match &self.kind {
            StageKind::Deny => Some(FlowComponent::AccessDenied { message: String::from_str("Access denied") }),
            StageKind::Identification { password, user_fields } => {
                let mut fields = Vec::new();
                let mut i: usize = 0;
                while i < user_fields.len()
                    invariant
                        i <= user_fields.len(),
                        fields@ == user_fields@.take(i as int),
                    decreases user_fields.len() - i,
                {
                    fields.push(user_fields[i]);
                    assert(fields@ =~= user_fields@.take(i + 1));
                    i = i + 1;
                }
                assert(fields@ =~= user_fields@);
                let password_data = match password {
                    Some(_) => Some(PasswordComponentData { recovery_url: String::from_str("") }),
                    None => None,
                };
                Some(
                    FlowComponent::Identification {
                        user_fields: fields,
                        sources: Sources { sources: Vec::new(), show_source_labels: false },
                        password: password_data,
                    },
                )
            },
            StageKind::Password { .. } => Some(
                FlowComponent::Password {
                    data: PasswordComponentData { recovery_url: String::from_str("") },
                },
            ),
            _ => None,
        }
    }
}

impl PendingUser {
    /// A copy of the pending user.
    pub fn copy(&self) -> (r: Self)
        ensures
            r.uid == self.uid,
            r.name@ == self.name@,
            opt_view(r.avatar_url) == opt_view(self.avatar_url),
            r.authenticated == self.authenticated,
            r.is_admin == self.is_admin,
    {
        let avatar_url = match &self.avatar_url {
            Some(url) => Some(url.clone()),
            None => None,
        };
        PendingUser {
            uid: self.uid,
            name: self.name.clone(),
            avatar_url,
            authenticated: self.authenticated,
            is_admin: self.is_admin,
        }
    }
}

/// A running flow: the flow, the key it runs under, its context, the entry it
/// is at and whether it has completed.
pub struct FlowExecution {
    pub flow: Flow,
    pub key: FlowKey,
    pub context: ExecutionContext,
    pub current_entry_idx: usize,
    pub is_completed: bool,
}

impl FlowExecution {
    /// The entry index stays within the flow's entries (at its start when the
    /// flow has none).
    pub open spec fn wf(&self) -> bool {
        self.current_entry_idx < self.flow.entries.len() || (self.flow.entries.len() == 0
            && self.current_entry_idx == 0)
    }

    /// A flow execution at the first entry.
    pub fn new(flow: Flow, key: FlowKey, context: ExecutionContext) -> (r: Self)
        ensures
            r.wf(),
            r.flow == flow,
            r.key == key,
            r.context == context,
            r.current_entry_idx == 0,
            !r.is_completed,
    {
        FlowExecution { flow, key, context, current_entry_idx: 0, is_completed: false }
    }

    /// The entry the flow is at.
    pub fn get_entry(&self) -> (r: &FlowEntry)
        requires
            self.current_entry_idx < self.flow.entries.len(),
        ensures
            *r == self.flow.entries@[self.current_entry_idx as int],
    {
        &self.flow.entries[self.current_entry_idx]
    }

    /// Moves to the next entry, or marks the flow completed after its last.
    pub fn complete_current(&mut self)
        requires
            old(self).wf(),
        ensures
            final(self).wf(),
            final(self).flow == old(self).flow,
            final(self).key == old(self).key,
            final(self).context == old(self).context,
            (final(self).current_entry_idx as int, final(self).is_completed) == spec_advance(
                old(self).current_entry_idx as int,
                old(self).is_completed,
                old(self).flow.entries.len() as int,
            ),
    {
        let new: usize = self.current_entry_idx + 1;
        if new < self.flow.entries.len() {
            self.current_entry_idx = new;
        } else {
            self.is_completed = true;
        }
    }

    /// Whether the flow has completed.
    pub fn is_completed(&self) -> (r: bool)
        ensures
            r == self.is_completed,
    {
        self.is_completed
    }

    /// The message of the first check that stops the signed-in user from
    /// running the current entry, or nothing when all let the user through.
    /// `flow_outcomes` and `entry_outcomes` are what the policies of the
    /// flow's and the entry's policy bindings gave.
    pub fn check(
        &self,
        user: &Option<PartialUser>,
        flow_outcomes: &Vec<FlowCheckOutput>,
        entry_outcomes: &Vec<FlowCheckOutput>,
    ) -> (r: Option<String>)
        requires
            self.current_entry_idx < self.flow.entries.len(),
            flow_outcomes.len() == self.flow.bindings.len(),
            entry_outcomes.len() == self.flow.entries@[self.current_entry_idx as int].bindings.len(),
            checkable_bindings(self.flow.bindings@),
            checkable_bindings(self.flow.entries@[self.current_entry_idx as int].bindings@),
        ensures
            opt_view(r) == spec_flow_check(
                self.flow,
                self.flow.entries@[self.current_entry_idx as int],
                *user,
                flow_outcomes@,
                entry_outcomes@,
            ),
    {
        let auth_check = FlowCheck::Authentication(self.flow.authentication);
        if !auth_check.check(user, FlowCheckOutput::Neutral).passed() {
            return Some(auth_check.message());
        }
        let m = check_bindings(&self.flow.bindings, user, flow_outcomes);
        if m.is_some() {
            return m;
        }
        let entry = self.get_entry();
        check_bindings(&entry.bindings, user, entry_outcomes)
    }

    /// What the client is shown, and whether the execution is to be dropped
    /// (it has completed and redirects the client). `denied` is the result of
    /// `check` for the signed-in user, `next` the address to go to once the
    /// flow is completed, and `stage` the stage of the current entry.
    pub fn data(
        &self,
        error: Option<SubmissionError>,
        denied: &Option<String>,
        next: &Option<String>,
        stage: &Stage,
    ) -> (r: (FlowData, bool))
        requires
            !self.is_completed && denied is None && self.context.error is None ==> has_component(
                *stage,
            ),
        ensures
            r.0.flow.title@ == self.flow.title@,
            r.0.error == error,
            r.1 == (self.is_completed && next is Some),
            if denied is Some && !self.is_completed {
                &&& r.0.pending_user is None
                &&& r.0.component matches FlowComponent::AccessDenied { message }
                &&& message@ == "Flow does not apply to current user"@
            } else {
                &&& (r.0.pending_user is Some <==> self.context.pending is Some)
                &&& (r.0.pending_user matches Some(p) ==> p.uid == self.context.pending->0.uid
                    && p.name@ == self.context.pending->0.name@ && p.authenticated
                    == self.context.pending->0.authenticated && p.is_admin
                    == self.context.pending->0.is_admin && opt_view(p.avatar_url) == opt_view(
                    self.context.pending->0.avatar_url,
                ))
                &&& if self.is_completed {
                    match next {
                        Some(to) => r.0.component matches FlowComponent::Redirect { to: t } && t@
                            == to@,
                        None => r.0.component matches FlowComponent::Error { message } && message@
                            == "Missing Redirect"@,
                    }
                } else {
                    match self.context.error {
                        Some(err) => r.0.component matches FlowComponent::Error { message }
                            && message@ == err.message@,
                        None => if stage.kind is UserLogin || stage.kind is UserLogout
                            || stage.kind is UserWrite {
                            r.0.component matches FlowComponent::AccessDenied { message }
                                && message@ == "Internal error while constructing component"@
                        } else {
                            spec_component_ok(*stage, Some(r.0.component))
                        },
                    }
                }
            },
    {
        let flow_info = FlowInfo { title: self.flow.title.clone() };
        let is_completed = self.is_completed;
        if denied.is_some() && !is_completed {
            return (
                FlowData {
                    flow: flow_info,
                    error,
                    pending_user: None,
                    component: FlowComponent::AccessDenied {
                        message: String::from_str("Flow does not apply to current user"),
                    },
                },
                false,
            );
        }
        let mut invalidate = false;
        let component = if is_completed {
            match next {
                Some(to) => {
                    invalidate = true;
                    FlowComponent::Redirect { to: to.clone() }
                },
                None => FlowComponent::Error { message: String::from_str("Missing Redirect") },
            }
        } else {
            match &self.context.error {
                Some(err) => FlowComponent::Error { message: err.message.clone() },
                None => match stage.as_component() {
                    Some(v) => v,
                    None => FlowComponent::AccessDenied {
                        message: String::from_str("Internal error while constructing component"),
                    },
                },
            }
        };
        let pending_user = match &self.context.pending {
            Some(p) => Some(p.copy()),
            None => None,
        };
        (FlowData { flow: flow_info, component, pending_user, error }, invalidate)
    }
}

/// Negation swaps passing and failing, keeps a hard failure and a neutral
/// outcome as they are, and negating twice gives back the outcome.
pub proof fn lemma_negation_swaps(o: FlowCheckOutput)
    ensures
        o is Passed <==> spec_negate(o) is Failed,
        o is Failed <==> spec_negate(o) is Passed,
        o is FailedHard <==> spec_negate(o) is FailedHard,
        o is Neutral <==> spec_negate(o) is Neutral,
        spec_negate(spec_negate(o)) == o,
{
}

/// The binding with its negation flipped.
pub open spec fn flip_negation(b: FlowBinding) -> FlowBinding {
    FlowBinding { enabled: b.enabled, negate: !b.negate, order: b.order, kind: b.kind }
}

/// A user binding lets the signed-in user through exactly when that user is
/// the bound one, and its negation exactly when the user is someone else or
/// nobody is signed in; a disabled binding lets everyone through.
pub proof fn lemma_user_binding(b: FlowBinding, user: Option<PartialUser>, o: FlowCheckOutput)
    requires
        b.kind matches FlowBindingKind::User(_),
    ensures
        !b.enabled ==> spec_binding_result(b, user, o) is None,
        b.enabled && !b.negate ==> (spec_binding_result(b, user, o) is None <==> (user matches Some(
            u,
        ) && b.kind == FlowBindingKind::User(u.uid))),
        b.enabled && b.negate ==> (spec_binding_result(b, user, o) is None <==> !(user matches Some(
            u,
        ) && b.kind == FlowBindingKind::User(u.uid))),
        spec_binding_result(b, user, o) matches Some(m) ==> m == "Access denied"@,
{
}

/// Negating an enabled binding whose check answers yes or no turns letting
/// the user through into denying and back; a hard failure denies and a
/// neutral outcome lets through, negated or not.
pub proof fn lemma_negation_flips_binding(b: FlowBinding, user: Option<PartialUser>, o: FlowCheckOutput)
    requires
        b.enabled,
        !(b.kind is Group),
    ensures
        (b.kind is User || o is Passed || o is Failed) ==> (spec_binding_result(b, user, o) is None
            <==> spec_binding_result(flip_negation(b), user, o) is Some),
        b.kind is Policy && o is FailedHard ==> spec_binding_result(b, user, o) is Some,
        b.kind is Policy && o is Neutral ==> spec_binding_result(b, user, o) is None,
        b.kind is Policy && o is Passed ==> (spec_binding_result(b, user, o) is None <==> !b.negate),
        b.kind is Policy && o is Failed ==> (spec_binding_result(b, user, o) is None <==> b.negate),
{
}

} // verus!
