//! Lookup of flows, stages, prompts and policies by reference: the tables
//! that cache them, the storage that freezes what one flow execution needs,
//! and the conversion of what the database holds.
use std::collections::HashMap;
use std::sync::Arc;

use vstd::prelude::*;

use crate::model::flow::{AuthenticationRequirement, Flow, FlowBinding, FlowDesignation, FlowEntry};
use crate::model::policy::Policy;
use crate::model::prompt::{Prompt, PromptKind};
use crate::model::reference::{Referencable, Reference, ReferenceId, ReferenceTarget};
use crate::model::stage::{ConsentMode, PasswordBackend, PgConsentMode, Stage, StageKind, UserField};

verus! {

broadcast use vstd::std_specs::hash::group_hash_axioms;

/// Shares the value behind an `Arc` (`Arc::clone`): the result points to the
/// same value.
#[verifier::external_body]
fn arc_clone<T>(a: &Arc<T>) -> (r: Arc<T>)
    ensures
        r == *a,
{
    Arc::clone(a)
}

/// The value found under a slug: the one inserted last under it.
pub open spec fn spec_find_slug<T>(entries: Seq<(String, Arc<T>)>, slug: Seq<char>) -> Option<Arc<T>>
    decreases entries.len(),
{
    if entries.len() == 0 {
        None
    } else if entries.last().0@ == slug {
        Some(entries.last().1)
    } else {
        spec_find_slug(entries.drop_last(), slug)
    }
}

/// Whether two keys name the same object: equal slugs or equal ids.
pub open spec fn same_key(a: ReferenceId, b: ReferenceId) -> bool {
    match (a, b) {
        (ReferenceId::Slug(x), ReferenceId::Slug(y)) => x@ == y@,
        (ReferenceId::Uid(x), ReferenceId::Uid(y)) => x == y,
        _ => false,
    }
}

/// A table of objects, found by slug and by id.
#[derive(Debug)]
pub struct LookupTable<T> {
    pub slugs: Vec<(String, Arc<T>)>,
    pub ids: HashMap<i32, Arc<T>>,
}

impl<T> LookupTable<T> {
    /// The object found under a key, if any.
    pub open spec fn spec_lookup(&self, id: ReferenceId) -> Option<Arc<T>> {
        match id {
            ReferenceId::Slug(slug) => spec_find_slug(self.slugs@, slug@),
            ReferenceId::Uid(uid) => if self.ids@.contains_key(uid) {
                Some(self.ids@[uid])
            } else {
                None
            },
        }
    }

    /// An empty table.
    pub fn new() -> (r: Self)
        ensures
            forall|id: ReferenceId| #[trigger] r.spec_lookup(id) is None,
    {
        let r = LookupTable { slugs: Vec::new(), ids: HashMap::new() };
        assert forall|id: ReferenceId| #[trigger] r.spec_lookup(id) is None by {
            match id {
                ReferenceId::Slug(s) => {},
                ReferenceId::Uid(u) => {
                    assert(!r.ids@.contains_key(u));
                },
            }
        }
        r
    }

    /// The object found under a key.
    pub fn lookup_id(&self, id: &ReferenceId) -> (r: Option<Arc<T>>)
        ensures
            r == self.spec_lookup(*id),
    {
        match id {
            ReferenceId::Slug(slug) => {
                let mut i: usize = self.slugs.len();
                assert(self.slugs@.take(i as int) =~= self.slugs@);
                while i > 0
                    invariant
                        i <= self.slugs@.len(),
                        self.spec_lookup(*id) == spec_find_slug(self.slugs@, slug@),
                        spec_find_slug(self.slugs@, slug@) == spec_find_slug(
                            self.slugs@.take(i as int),
                            slug@,
                        ),
                    decreases i,
                {
                    let ghost prefix = self.slugs@.take(i as int);
                    assert(prefix.drop_last() =~= self.slugs@.take(i - 1));
                    assert(prefix.last() == self.slugs@[i - 1]);
                    if self.slugs[i - 1].0 == *slug {
                        return Some(arc_clone(&self.slugs[i - 1].1));
                    }
                    i = i - 1;
                }
                None
            },
            ReferenceId::Uid(uid) => match self.ids.get(uid) {
                Some(v) => Some(arc_clone(v)),
                None => None,
            },
        }
    }

    /// Adds an object under a key; later lookups under that key find it, and
    /// lookups under other keys are unchanged.
    pub fn insert_ref(&mut self, id: ReferenceId, value: Arc<T>)
        ensures
            forall|k: ReferenceId| #[trigger] final(self).spec_lookup(k) == if same_key(k, id) {
                Some(value)
            } else {
                old(self).spec_lookup(k)
            },
    {
        match id {
            ReferenceId::Slug(slug) => {
                let ghost old_slugs = self.slugs@;
                self.slugs.push((slug, value));
                assert(self.slugs@.drop_last() =~= old_slugs);
                assert forall|k: ReferenceId| #[trigger] self.spec_lookup(k) == if same_key(k, id) {
                    Some(value)
                } else {
                    old(self).spec_lookup(k)
                } by {
                    match k {
                        ReferenceId::Slug(s) => {},
                        ReferenceId::Uid(u) => {},
                    }
                }
            },
            ReferenceId::Uid(uid) => {
                self.ids.insert(uid, value);
            },
        }
    }
}

/// Whether an object is found under a key: its id for an id key, its slug
/// for a slug key.
pub open spec fn key_matches<T: Referencable>(value: T, k: ReferenceId) -> bool {
    ||| (k matches ReferenceId::Uid(u) && value.spec_uid_key() == Some(u))
    ||| (k matches ReferenceId::Slug(s) && value.spec_slug_key() == Some(s@))
}

/// Whether `after` is `before` with `value` inserted: lookups under the keys
/// of `value` find it, the others are unchanged.
pub open spec fn inserted<T: Referencable>(before: LookupTable<T>, value: Arc<T>, after: LookupTable<T>) -> bool {
    forall|k: ReferenceId| #[trigger] after.spec_lookup(k) == if key_matches(*value, k) {
        Some(value)
    } else {
        before.spec_lookup(k)
    }
}

/// The object that the last of a sequence of inserts under a key put there.
pub open spec fn spec_last_match<T: Referencable>(values: Seq<Arc<T>>, k: ReferenceId) -> Option<Arc<T>>
    decreases values.len(),
{
    if values.len() == 0 {
        None
    } else if key_matches(*values.last(), k) {
        Some(values.last())
    } else {
        spec_last_match(values.drop_last(), k)
    }
}

/// After a new table and a sequence of inserts, a lookup under a key finds
/// the last inserted object that has that key (by id for an id key, by slug
/// for a slug key), and nothing when none has it.
pub proof fn lemma_lookup_after_inserts<T: Referencable>(
    tables: Seq<LookupTable<T>>,
    values: Seq<Arc<T>>,
)
    requires
        tables.len() == values.len() + 1,
        forall|k: ReferenceId| #[trigger] tables[0].spec_lookup(k) is None,
        forall|i: int| 0 <= i < values.len() ==> #[trigger] inserted(tables[i], values[i], tables[i + 1]),
    ensures
        forall|k: ReferenceId| #[trigger] tables.last().spec_lookup(k) == spec_last_match(values, k),
    decreases values.len(),
{
    if values.len() > 0 {
        let n = values.len() - 1;
        let prev_tables = tables.drop_last();
        let prev_values = values.drop_last();
        assert forall|i: int| 0 <= i < prev_values.len() implies #[trigger] inserted(
            prev_tables[i],
            prev_values[i],
            prev_tables[i + 1],
        ) by {
            assert(inserted(tables[i], values[i], tables[i + 1]));
        }
        lemma_lookup_after_inserts(prev_tables, prev_values);
        assert(inserted(tables[n], values[n], tables[n + 1]));
        assert forall|k: ReferenceId| #[trigger] tables.last().spec_lookup(k) == spec_last_match(values, k) by {
            assert(prev_tables.last() == tables[n]);
            assert(tables.last() == tables[n + 1]);
            assert(prev_tables.last().spec_lookup(k) == spec_last_match(prev_values, k));
        }
    }
}

impl<T: ReferenceTarget + Referencable> LookupTable<T> {
    /// The object a reference points to, if the table holds it.
    pub fn lookup(&self, r: &Reference<T>) -> (res: Option<Arc<T>>)
        ensures
            res == self.spec_lookup(r.id),
    {
        self.lookup_id(&r.id)
    }

    /// Adds an object under its id and under its slug, where it has them.
    pub fn insert(&mut self, value: Arc<T>)
        ensures
            inserted(*old(self), value, *final(self)),
            forall|k: ReferenceId| #[trigger] final(self).spec_lookup(k) == if (k matches ReferenceId::Uid(
                u,
            ) && (*value).spec_uid_key() == Some(u)) || (k matches ReferenceId::Slug(s) && (
            *value).spec_slug_key() == Some(s@)) {
                Some(value)
            } else {
                old(self).spec_lookup(k)
            },
    {
        let ghost old_self = *self;
        let by_uid = value.ref_uid();
        if let Some(r) = by_uid {
            self.insert_ref(r.id, arc_clone(&value));
        }
        let ghost mid = *self;
        let by_slug = value.ref_slug();
        if let Some(r) = by_slug {
            self.insert_ref(r.id, arc_clone(&value));
        }
        assert forall|k: ReferenceId| #[trigger] self.spec_lookup(k) == if (k matches ReferenceId::Uid(
            u,
        ) && (*value).spec_uid_key() == Some(u)) || (k matches ReferenceId::Slug(s) && (
        *value).spec_slug_key() == Some(s@)) {
            Some(value)
        } else {
            old_self.spec_lookup(k)
        } by {
            assert(mid.spec_lookup(k) == if k matches ReferenceId::Uid(u) && (
            *value).spec_uid_key() == Some(u) {
                Some(value)
            } else {
                old_self.spec_lookup(k)
            });
            match k {
                ReferenceId::Slug(s) => {
                    if (*value).spec_slug_key() == Some(s@) {
                        assert(by_slug matches Some(rr) && rr.id matches ReferenceId::Slug(t) && t@
                            == s@);
                        assert(same_key(by_slug->0.id, k));
                    }
                },
                ReferenceId::Uid(u) => {},
            }
        }
    }
}

/// The kind of policy as the database stores it.
#[derive(Debug, Clone, Copy, PartialEq, Eq, Structural)]
pub enum PgPolicyKind {
    PasswordExpiry,
    PasswordStrength,
    Expression,
}

/// A row of the policies table.
#[derive(Debug, Clone)]
pub struct PgPolicy {
    pub uid: i32,
    pub slug: String,
    pub kind: PgPolicyKind,
    pub password_expiration: Option<i32>,
    pub password_strength: Option<i32>,
    pub expression: Option<i32>,
}

/// The kind of stage as the database stores it.
#[derive(Debug, Clone, Copy, PartialEq, Eq, Structural)]
pub enum PgStageKind {
    Deny,
    Prompt,
    Identification,
    UserLogin,
    UserLogout,
    UserWrite,
    Password,
    Consent,
}

/// The kind of prompt as the database stores it.
#[derive(Debug, Clone, Copy, PartialEq, Eq, Structural)]
pub enum PgPromptKind {
    Username,
    Email,
    Password,
    Text,
    TextReadOnly,
    SignedNumber,
    UnsignedNumber,
    Checkbox,
    Switch,
    Date,
    DateTime,
    Seperator,
    Static,
    Locale,
}

/// A row of the stages table.
#[derive(Debug, Clone)]
pub struct PgStage {
    pub uid: i32,
    pub slug: String,
    pub kind: PgStageKind,
    pub timeout: i64,
    pub identification_password_stage: Option<i32>,
    pub identification_stage: Option<i32>,
    pub consent_stage: Option<i32>,
}

/// A row of the flows table.
#[derive(Debug, Clone)]
pub struct PgFlow {
    pub uid: i32,
    pub slug: String,
    pub title: String,
    pub authentication: AuthenticationRequirement,
    pub designation: FlowDesignation,
}

/// The prompt kind a stored kind stands for.
pub open spec fn spec_prompt_kind(kind: PgPromptKind) -> PromptKind {
    match kind {
        PgPromptKind::Username => PromptKind::Username,
        PgPromptKind::Email => PromptKind::Email,
        PgPromptKind::Password => PromptKind::Password,
        PgPromptKind::Text => PromptKind::Text,
        PgPromptKind::TextReadOnly => PromptKind::TextReadOnly,
        PgPromptKind::SignedNumber => PromptKind::SignedNumber,
        PgPromptKind::UnsignedNumber => PromptKind::UnsignedNumber,
        PgPromptKind::Checkbox => PromptKind::Checkbox,
        PgPromptKind::Switch => PromptKind::Switch,
        PgPromptKind::Date => PromptKind::Date,
        PgPromptKind::DateTime => PromptKind::DateTime,
        PgPromptKind::Seperator => PromptKind::Seperator,
        PgPromptKind::Static => PromptKind::Static,
        PgPromptKind::Locale => PromptKind::Locale,
    }
}

/// The prompt kind that a stored prompt kind stands for.
pub fn prompt_kind_from_pg(kind: PgPromptKind) -> (r: PromptKind)
    ensures
        r == spec_prompt_kind(kind),
{
    match kind {
        PgPromptKind::Username => PromptKind::Username,
        PgPromptKind::Email => PromptKind::Email,
        PgPromptKind::Password => PromptKind::Password,
        PgPromptKind::Text => PromptKind::Text,
        PgPromptKind::TextReadOnly => PromptKind::TextReadOnly,
        PgPromptKind::SignedNumber => PromptKind::SignedNumber,
        PgPromptKind::UnsignedNumber => PromptKind::UnsignedNumber,
        PgPromptKind::Checkbox => PromptKind::Checkbox,
        PgPromptKind::Switch => PromptKind::Switch,
        PgPromptKind::Date => PromptKind::Date,
        PgPromptKind::DateTime => PromptKind::DateTime,
        PgPromptKind::Seperator => PromptKind::Seperator,
        PgPromptKind::Static => PromptKind::Static,
        PgPromptKind::Locale => PromptKind::Locale,
    }
}

/// The consent mode that a stored mode stands for; an `until` mode without a
/// duration lasts 0.
pub fn consent_mode_from_pg(mode: PgConsentMode, until: Option<i64>) -> (r: ConsentMode)
    ensures
        r == match mode {
            PgConsentMode::Always => ConsentMode::Always,
            PgConsentMode::Once => ConsentMode::Once,
            PgConsentMode::Until => ConsentMode::Until {
                duration: match until {
                    Some(d) => d,
                    None => 0,
                },
            },
        },
{
    match mode {
        PgConsentMode::Always => ConsentMode::Always,
        PgConsentMode::Once => ConsentMode::Once,
        PgConsentMode::Until => ConsentMode::Until {
            duration: match until {
                Some(d) => d,
                None => 0,
            },
        },
    }
}

/// The kind of object a reference that could not be resolved points to.
/// What else must be read to build a stage from its row: the fields of an
/// identification stage (by the row's identification stage, which may be
/// unset), or the mode of a consent stage.
#[derive(Debug, Clone, Copy, PartialEq, Eq, Structural)]
pub enum StageRowQuery {
    Nothing,
    IdentificationFields { identification_stage: Option<i32> },
    ConsentMode { consent_stage: i32 },
}

/// The further read a stage row asks for: an identification stage's fields,
/// a consent stage's mode where the row names a consent stage, else nothing.
pub fn stage_row_query(row: &PgStage) -> (r: StageRowQuery)
    ensures
        r == match row.kind {
            PgStageKind::Identification => StageRowQuery::IdentificationFields {
                identification_stage: row.identification_stage,
            },
            PgStageKind::Consent => match row.consent_stage {
                Some(u) => StageRowQuery::ConsentMode { consent_stage: u },
                None => StageRowQuery::Nothing,
            },
            _ => StageRowQuery::Nothing,
        },
{
    match row.kind {
        PgStageKind::Identification => StageRowQuery::IdentificationFields {
            identification_stage: row.identification_stage,
        },
        PgStageKind::Consent => match row.consent_stage {
            Some(u) => StageRowQuery::ConsentMode { consent_stage: u },
            None => StageRowQuery::Nothing,
        },
        _ => StageRowQuery::Nothing,
    }
}

/// Whether a stage kind is the one that a row of the given kind stands for,
/// with what was read for it.
pub open spec fn spec_stage_kind_of_row(
    row: PgStage,
    fields: Option<Seq<UserField>>,
    consent: Option<(PgConsentMode, Option<i64>)>,
    kind: StageKind,
) -> bool {
    match row.kind {
        PgStageKind::Deny => kind is Deny,
        PgStageKind::UserLogin => kind is UserLogin,
        PgStageKind::UserLogout => kind is UserLogout,
        PgStageKind::UserWrite => kind is UserWrite,
        PgStageKind::Password => kind matches StageKind::Password { backends } && backends@ == seq![
            PasswordBackend::Internal,
        ],
        PgStageKind::Identification => kind matches StageKind::Identification { password, user_fields }
            && Some(user_fields@) == fields && (password is Some
            <==> row.identification_password_stage is Some) && (password matches Some(p) ==> p.id
            == ReferenceId::Uid(row.identification_password_stage->0)),
        PgStageKind::Consent => match consent {
            Some((mode, until)) => kind == (StageKind::Consent {
                mode: match mode {
                    PgConsentMode::Always => ConsentMode::Always,
                    PgConsentMode::Once => ConsentMode::Once,
                    PgConsentMode::Until => ConsentMode::Until {
                        duration: match until {
                            Some(d) => d,
                            None => 0,
                        },
                    },
                },
            }),
            None => false,
        },
        PgStageKind::Prompt => false,
    }
}

/// The stage a row stands for, given the fields of an identification stage
/// and the mode of a consent stage where they were read: none when an
/// identification stage's fields or a consent stage's mode could not be read
/// (or the row names no consent stage).
pub fn stage_from_pg(
    row: PgStage,
    fields: Option<Vec<UserField>>,
    consent: Option<(PgConsentMode, Option<i64>)>,
) -> (r: Option<Stage>)
    requires
        row.kind != PgStageKind::Prompt,
    ensures
        r is None <==> ((row.kind == PgStageKind::Identification && fields is None) || (row.kind
            == PgStageKind::Consent && (row.consent_stage is None || consent is None))),
        r matches Some(s) ==> s.uid == row.uid && s.slug == row.slug && s.timeout == row.timeout
            && spec_stage_kind_of_row(
            row,
            match fields {
                Some(f) => Some(f@),
                None => None,
            },
            consent,
            s.kind,
        ),
{
    let kind = match row.kind {
        PgStageKind::Deny => StageKind::Deny,
        PgStageKind::Identification => match fields {
            Some(f) => StageKind::Identification {
                password: match row.identification_password_stage {
                    Some(p) => Some(Reference::new_uid(p)),
                    None => None,
                },
                user_fields: f,
            },
            None => return None,
        },
        PgStageKind::UserLogin => StageKind::UserLogin,
        PgStageKind::UserLogout => StageKind::UserLogout,
        PgStageKind::UserWrite => StageKind::UserWrite,
        PgStageKind::Password => {
            let mut backends: Vec<PasswordBackend> = Vec::new();
            backends.push(PasswordBackend::Internal);
            StageKind::Password { backends }
        },
        PgStageKind::Consent => {
            if row.consent_stage.is_none() {
                return None;
            }
            match consent {
                Some((mode, until)) => StageKind::Consent { mode: consent_mode_from_pg(mode, until) },
                None => return None,
            }
        },
        PgStageKind::Prompt => return None,
    };
    Some(Stage { uid: row.uid, slug: row.slug, kind, timeout: row.timeout })
}

/// What a stage refers to that must be loaded with it: the prompts of a
/// prompt stage, the password stage of an identification stage.
#[derive(Debug)]
pub struct StageLookups {
    pub prompts: Vec<Reference<Prompt>>,
    pub password: Option<Reference<Stage>>,
}

impl Stage {
    /// The references to load together with this stage (whose own
    /// references the caller loads in turn).
    pub fn lookups(&self) -> (r: StageLookups)
        ensures
            match self.kind {
                StageKind::Prompt { bindings } => r.password is None && r.prompts@.len()
                    == bindings@.len() && forall|i: int|
                    0 <= i < bindings@.len() ==> (#[trigger] r.prompts@[i]).id == bindings@[i].prompt.id,
                StageKind::Identification { password, .. } => r.prompts@.len() == 0 && (
                r.password is Some <==> password is Some) && (r.password matches Some(p)
                    ==> p.id == password->0.id),
                _ => r.prompts@.len() == 0 && r.password is None,
            },
    {
        match &self.kind {
            StageKind::Prompt { bindings } => {
                let mut prompts: Vec<Reference<Prompt>> = Vec::new();
                let mut i: usize = 0;
                while i < bindings.len()
                    invariant
                        i <= bindings.len(),
                        prompts@.len() == i,
                        forall|j: int| 0 <= j < i ==> (#[trigger] prompts@[j]).id == bindings@[j].prompt.id,
                    decreases bindings.len() - i,
                {
                    prompts.push(bindings[i].prompt.clone());
                    i = i + 1;
                }
                StageLookups { prompts, password: None }
            },
            StageKind::Identification { password, .. } => StageLookups {
                prompts: Vec::new(),
                password: match password {
                    Some(p) => Some(p.clone()),
                    None => None,
                },
            },
            _ => StageLookups { prompts: Vec::new(), password: None },
        }
    }
}

/// A row of a flow's entries: its id, its stage and its place in the flow.
#[derive(Debug, Clone, Copy)]
pub struct PgFlowEntry {
    pub uid: i32,
    pub stage: i32,
    pub ordering: i16,
}

/// The entries of a flow from its entry rows and the bindings read for each:
/// the rows whose bindings could not be read are dropped, the others kept in
/// order.
pub open spec fn spec_flow_entries(rows: Seq<(PgFlowEntry, Option<Vec<FlowBinding>>)>) -> Seq<
    (i16, i32, Seq<FlowBinding>),
>
    decreases rows.len(),
{
    if rows.len() == 0 {
        Seq::empty()
    } else {
        let rest = spec_flow_entries(rows.drop_last());
        match rows.last().1 {
            Some(b) => rest.push((rows.last().0.ordering, rows.last().0.stage, b@)),
            None => rest,
        }
    }
}

/// An entry as the contracts compare it: its place, the id of its stage and
/// its bindings.
pub open spec fn entry_view(e: FlowEntry) -> (i16, i32, Seq<FlowBinding>) {
    (
        e.ordering,
        match e.stage.id {
            ReferenceId::Uid(u) => u,
            ReferenceId::Slug(_) => -1i32,
        },
        e.bindings@,
    )
}

/// A flow from its row, its bindings and its entry rows with their bindings.
pub fn assemble_flow(
    row: PgFlow,
    bindings: Vec<FlowBinding>,
    entries: Vec<(PgFlowEntry, Option<Vec<FlowBinding>>)>,
) -> (r: Flow)
    ensures
        r.uid == row.uid,
        r.slug == row.slug,
        r.title == row.title,
        r.designation == row.designation,
        r.authentication == row.authentication,
        r.bindings@ == bindings@,
        r.entries@.map_values(|e: FlowEntry| entry_view(e)) == spec_flow_entries(entries@),
        forall|i: int| 0 <= i < r.entries@.len() ==> (#[trigger] r.entries@[i]).stage.id is Uid,
{
    let ghost rows = entries@;
    let mut out: Vec<FlowEntry> = Vec::new();
    let mut pending = entries;
    let n: usize = pending.len();
    let mut i: usize = 0;
    while i < n
        invariant
            n == rows.len(),
            i <= n,
            pending@ == rows.skip(i as int),
            out@.map_values(|e: FlowEntry| entry_view(e)) == spec_flow_entries(rows.take(i as int)),
            forall|j: int| 0 <= j < out@.len() ==> (#[trigger] out@[j]).stage.id is Uid,
        decreases n - i,
    {
        let ghost before = out@;
        assert(rows.take(i + 1).drop_last() =~= rows.take(i as int));
        assert(pending@[0] == rows[i as int]);
        let (row_entry, row_bindings) = pending.remove(0);
        match row_bindings {
            Some(b) => {
                out.push(FlowEntry { ordering: row_entry.ordering, bindings: b, stage: Reference::new_uid(row_entry.stage) });
                assert(out@.map_values(|e: FlowEntry| entry_view(e)) =~= before.map_values(
                    |e: FlowEntry| entry_view(e),
                ).push(entry_view(out@.last())));
            },
            None => {},
        }
        assert(pending@ =~= rows.skip(i + 1));
        i = i + 1;
    }
    assert(rows.take(n as int) =~= rows);
    Flow {
        uid: row.uid,
        slug: row.slug,
        title: row.title,
        designation: row.designation,
        authentication: row.authentication,
        bindings,
        entries: out,
    }
}

/// The kind of object a reference that could not be resolved points to.
#[derive(Debug, Clone, Copy, PartialEq, Eq, Structural)]
pub enum UnresolvedReferenceKind {
    Stage,
    Policy,
    Prompt,
    Flow,
}

/// A reference that could not be resolved.
#[derive(Debug, Clone)]
pub struct UnresolvedReference {
    pub kind: UnresolvedReferenceKind,
    pub id: ReferenceId,
}

/// The objects one flow execution uses. While it is open, every lookup goes
/// to the database and what is found is kept, what is not is recorded;
/// once frozen, lookups only see what was kept.
#[derive(Debug)]
pub struct FreezedStorage {
    pub frozen: bool,
    pub errors: Vec<UnresolvedReference>,
    pub stages: LookupTable<Stage>,
    pub policies: LookupTable<Policy>,
    pub prompts: LookupTable<Prompt>,
    pub flows: LookupTable<Flow>,
}

/// The result of a lookup in one table of a storage, and the table and
/// record of unresolved references afterwards. While the storage is open
/// `fetched` is what the database gave: it is kept when found and recorded
/// as unresolved otherwise. Once frozen, the table alone answers.
pub fn resolve_reference<T: ReferenceTarget + Referencable>(
    frozen: bool,
    table: &mut LookupTable<T>,
    errors: &mut Vec<UnresolvedReference>,
    kind: UnresolvedReferenceKind,
    reference: &Reference<T>,
    fetched: Option<Arc<T>>,
) -> (r: Option<Arc<T>>)
    ensures
        frozen ==> r == old(table).spec_lookup(reference.id) && *final(table) == *old(table)
            && final(errors)@ == old(errors)@,
        !frozen ==> r == fetched,
        !frozen && fetched is Some ==> final(errors)@ == old(errors)@ && forall|k: ReferenceId|
            #[trigger] final(table).spec_lookup(k) == if (k matches ReferenceId::Uid(u) && (
            *fetched->0).spec_uid_key() == Some(u)) || (k matches ReferenceId::Slug(s) && (
            *fetched->0).spec_slug_key() == Some(s@)) {
                fetched
            } else {
                old(table).spec_lookup(k)
            },
        !frozen && fetched is None ==> *final(table) == *old(table) && final(errors)@.len()
            == old(errors)@.len() + 1 && final(errors)@.drop_last() == old(errors)@
            && final(errors)@.last().kind == kind && final(errors)@.last().id == reference.id,
{
    if !frozen {
        match fetched {
            Some(value) => {
                table.insert(arc_clone(&value));
                Some(value)
            },
            None => {
                errors.push(UnresolvedReference { kind, id: reference.id.clone() });
                assert(errors@.drop_last() =~= old(errors)@);
                None
            },
        }
    } else {
        table.lookup(reference)
    }
}

impl FreezedStorage {
    /// An open storage with nothing kept.
    pub fn new() -> (r: Self)
        ensures
            !r.frozen,
            r.errors@.len() == 0,
            forall|id: ReferenceId| #[trigger] r.stages.spec_lookup(id) is None,
            forall|id: ReferenceId| #[trigger] r.policies.spec_lookup(id) is None,
            forall|id: ReferenceId| #[trigger] r.prompts.spec_lookup(id) is None,
            forall|id: ReferenceId| #[trigger] r.flows.spec_lookup(id) is None,
    {
        FreezedStorage {
            frozen: false,
            errors: Vec::new(),
            stages: LookupTable::new(),
            policies: LookupTable::new(),
            prompts: LookupTable::new(),
            flows: LookupTable::new(),
        }
    }

    /// Closes the storage and hands out the references that could not be
    /// resolved; a storage that is already frozen hands out none.
    pub fn freeze(&mut self) -> (r: Vec<UnresolvedReference>)
        ensures
            final(self).frozen,
            old(self).frozen ==> r@.len() == 0,
            !old(self).frozen ==> r@ == old(self).errors@,
            final(self).errors@.len() == 0 || old(self).frozen,
            old(self).frozen ==> final(self).errors@ == old(self).errors@,
            final(self).stages == old(self).stages,
            final(self).policies == old(self).policies,
            final(self).prompts == old(self).prompts,
            final(self).flows == old(self).flows,
    {
        if self.frozen {
            return Vec::new();
        }
        self.frozen = true;
        let mut taken = Vec::new();
        std::mem::swap(&mut taken, &mut self.errors);
        taken
    }
}


/// Whether bindings are in ascending order of their `order`.
pub open spec fn sorted_by_order(s: Seq<FlowBinding>) -> bool {
    forall|i: int, j: int| 0 <= i < j < s.len() ==> s[i].order <= s[j].order
}

/// `perm` says where each binding of `out` came from in `input`: it is a
/// permutation, `out` is sorted by order, and bindings of equal order keep
/// their relative position.
pub open spec fn stable_sort_witness(perm: Seq<int>, out: Seq<FlowBinding>, input: Seq<FlowBinding>) -> bool {
    &&& perm.len() == out.len()
    &&& out.len() == input.len()
    &&& forall|i: int| 0 <= i < perm.len() ==> 0 <= #[trigger] perm[i] < input.len()
    &&& forall|i: int, j: int| 0 <= i < j < perm.len() ==> perm[i] != perm[j]
    &&& forall|i: int| 0 <= i < out.len() ==> #[trigger] out[i] == input[perm[i]]
    &&& sorted_by_order(out)
    &&& forall|i: int, j: int|
        0 <= i < j < out.len() && out[i].order == out[j].order ==> perm[i] < perm[j]
}

/// Whether `out` is `input` sorted stably by order.
pub open spec fn is_stable_sort_of(out: Seq<FlowBinding>, input: Seq<FlowBinding>) -> bool {
    exists|perm: Seq<int>| stable_sort_witness(perm, out, input)
}

/// The bindings of a flow or an entry, from its policy, user and group
/// bindings in that order, sorted stably by their `order`.
pub fn merge_bindings(policies: Vec<FlowBinding>, users: Vec<FlowBinding>, groups: Vec<FlowBinding>) -> (r:
    Vec<FlowBinding>)
    ensures
        is_stable_sort_of(r@, policies@ + users@ + groups@),
{
    let ghost input = policies@ + users@ + groups@;
    let mut pending: Vec<FlowBinding> = Vec::new();
    let mut policies = policies;
    let mut users = users;
    let mut groups = groups;
    pending.append(&mut policies);
    pending.append(&mut users);
    pending.append(&mut groups);
    assert(pending@ =~= input);
    let n: usize = pending.len();
    let mut out: Vec<FlowBinding> = Vec::new();
    let ghost mut perm: Seq<int> = Seq::empty();
    let mut k: usize = 0;
    while k < n
        invariant
            n == input.len(),
            k <= n,
            pending@ == input.skip(k as int),
            out@.len() == k,
            perm.len() == k,
            forall|i: int| 0 <= i < perm.len() ==> 0 <= #[trigger] perm[i] < k,
            forall|i: int, j: int| 0 <= i < j < perm.len() ==> perm[i] != perm[j],
            forall|i: int| 0 <= i < out@.len() ==> #[trigger] out@[i] == input[perm[i]],
            sorted_by_order(out@),
            forall|i: int, j: int|
                0 <= i < j < out@.len() && out@[i].order == out@[j].order ==> perm[i] < perm[j],
        decreases n - k,
    {
        let x = pending.remove(0);
        assert(x == input[k as int]);
        assert(pending@ =~= input.skip(k + 1));
        let mut p: usize = 0;
        while p < out.len() && out[p].order <= x.order
            invariant
                p <= out@.len(),
                forall|i: int| 0 <= i < p ==> out@[i].order <= x.order,
            decreases out@.len() - p,
        {
            p = p + 1;
        }
        assert(forall|i: int| p <= i < out@.len() ==> out@[i].order > x.order) by {
            if p < out@.len() {
                assert(out@[p as int].order > x.order);
                assert forall|i: int| p <= i < out@.len() implies out@[i].order > x.order by {
                    if i > p {
                        assert(out@[p as int].order <= out@[i].order);
                    }
                }
            }
        }
        let ghost old_out = out@;
        let ghost old_perm = perm;
        out.insert(p, x);
        proof {
            perm = old_perm.insert(p as int, k as int);
            assert forall|i: int| 0 <= i < out@.len() implies #[trigger] out@[i] == input[perm[i]] by {
                if i < p {
                    assert(out@[i] == old_out[i]);
                } else if i > p {
                    assert(out@[i] == old_out[i - 1]);
                }
            }
            assert forall|i: int, j: int| 0 <= i < j < out@.len() implies out@[i].order
                <= out@[j].order by {
                if j < p {
                } else if j == p {
                    if i < p {
                        assert(out@[i] == old_out[i]);
                    }
                } else if i > p {
                    assert(out@[i] == old_out[i - 1]);
                    assert(out@[j] == old_out[j - 1]);
                } else if i == p {
                    assert(out@[j] == old_out[j - 1]);
                } else {
                    assert(out@[i] == old_out[i]);
                    assert(out@[j] == old_out[j - 1]);
                }
            }
            assert forall|i: int, j: int|
                0 <= i < j < out@.len() && out@[i].order == out@[j].order implies perm[i]
                < perm[j] by {
                if j < p {
                    assert(out@[i] == old_out[i]);
                    assert(out@[j] == old_out[j]);
                } else if j == p {
                    assert(perm[j] == k);
                    assert(perm[i] == old_perm[i]);
                } else if i > p {
                    assert(out@[i] == old_out[i - 1]);
                    assert(out@[j] == old_out[j - 1]);
                    assert(perm[i] == old_perm[i - 1]);
                    assert(perm[j] == old_perm[j - 1]);
                } else if i == p {
                    assert(out@[j] == old_out[j - 1]);
                } else {
                    assert(out@[i] == old_out[i]);
                    assert(out@[j] == old_out[j - 1]);
                    assert(perm[i] == old_perm[i]);
                    assert(perm[j] == old_perm[j - 1]);
                }
            }
            assert forall|i: int, j: int| 0 <= i < j < perm.len() implies perm[i] != perm[j] by {
                if j < p {
                } else if j == p {
                    assert(perm[i] == old_perm[i]);
                } else if i > p {
                    assert(perm[i] == old_perm[i - 1]);
                    assert(perm[j] == old_perm[j - 1]);
                } else if i == p {
                    assert(perm[j] == old_perm[j - 1]);
                } else {
                    assert(perm[i] == old_perm[i]);
                    assert(perm[j] == old_perm[j - 1]);
                }
            }
        }
        k = k + 1;
    }
    assert(stable_sort_witness(perm, out@, input));
    out
}
} // verus!
