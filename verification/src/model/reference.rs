//! References to stored objects, by numeric id or by slug.
use std::marker::PhantomData;

use vstd::prelude::*;

use crate::model::flow::Flow;
use crate::model::policy::Policy;
use crate::model::prompt::Prompt;
use crate::model::stage::Stage;

pub mod sealed;

use self::sealed::Sealed;

verus! {

/// The key of a referenced object: its slug or its numeric id.
#[derive(Debug, PartialEq, Eq, Hash)]
pub enum ReferenceId {
    Slug(String),
    Uid(i32),
}

impl Clone for ReferenceId {
    fn clone(&self) -> (r: Self)
        ensures
            r == *self,
    {
        match self {
            ReferenceId::Slug(slug) => ReferenceId::Slug(slug.clone()),
            ReferenceId::Uid(uid) => ReferenceId::Uid(*uid),
        }
    }
}

/// Whether a reference goes by id or by slug.
#[derive(Debug, Clone, Copy, PartialEq, Eq, Hash, Structural)]
pub enum ReferenceKind {
    Uid,
    Slug,
}

/// A typed reference to a stored object of type `Target`.
#[derive(Debug)]
pub struct Reference<Target> {
    pub id: ReferenceId,
    pub _target: PhantomData<Target>,
}

impl<Target: ReferenceTarget> Clone for Reference<Target> {
    fn clone(&self) -> (r: Self)
        ensures
            r.id == self.id,
    {
        Reference { id: self.id.clone(), _target: PhantomData }
    }
}

/// The types that can be referenced.
pub trait ReferenceTarget: Sealed {
    type Value;
}

impl ReferenceTarget for Stage {
    type Value = Self;
}

impl ReferenceTarget for Prompt {
    type Value = Self;
}

impl ReferenceTarget for Policy {
    type Value = Self;
}

impl ReferenceTarget for Flow {
    type Value = Self;
}

/// Whether a key is a slug or an id.
pub open spec fn spec_kind_of(id: ReferenceId) -> ReferenceKind {
    match id {
        ReferenceId::Slug(_) => ReferenceKind::Slug,
        ReferenceId::Uid(_) => ReferenceKind::Uid,
    }
}

impl<Target: ReferenceTarget> Reference<Target> {
    /// A reference by a key.
    pub fn new(id: ReferenceId) -> (r: Self)
        ensures
            r.id == id,
    {
        Self { id, _target: PhantomData }
    }

    /// A reference by id.
    pub fn new_uid(id: i32) -> (r: Self)
        ensures
            r.id == ReferenceId::Uid(id),
    {
        Self::new(ReferenceId::Uid(id))
    }

    /// A reference by slug.
    pub fn new_slug(slug: String) -> (r: Self)
        ensures
            r.id == ReferenceId::Slug(slug),
    {
        Self::new(ReferenceId::Slug(slug))
    }

    /// Whether the reference is by slug or by id.
    pub fn kind(&self) -> (r: ReferenceKind)
        ensures
            r == spec_kind_of(self.id),
    {
        match self.id {
            ReferenceId::Slug(_) => ReferenceKind::Slug,
            ReferenceId::Uid(_) => ReferenceKind::Uid,
        }
    }
}

/// Objects that can name themselves by id and by slug, where they have one.
pub trait Referencable: ReferenceTarget + Sized {
    /// The id under which the object is found, if it has one.
    spec fn spec_uid_key(&self) -> Option<i32>;

    /// The slug under which the object is found, if it has one.
    spec fn spec_slug_key(&self) -> Option<Seq<char>>;

    fn ref_uid(&self) -> (r: Option<Reference<Self>>)
        ensures
            match self.spec_uid_key() {
                Some(uid) => r matches Some(rr) && rr.id == ReferenceId::Uid(uid),
                None => r is None,
            },
    ;

    fn ref_slug(&self) -> (r: Option<Reference<Self>>)
        ensures
            match self.spec_slug_key() {
                Some(slug) => r matches Some(rr) && rr.id matches ReferenceId::Slug(s) && s@
                    == slug,
                None => r is None,
            },
    ;
}

impl Referencable for Stage {
    open spec fn spec_uid_key(&self) -> Option<i32> {
        Some(self.uid)
    }

    open spec fn spec_slug_key(&self) -> Option<Seq<char>> {
        Some(self.slug@)
    }

    fn ref_uid(&self) -> (r: Option<Reference<Self>>) {
        Some(Reference::new_uid(self.uid))
    }

    fn ref_slug(&self) -> (r: Option<Reference<Self>>) {
        Some(Reference::new_slug(self.slug.clone()))
    }
}

impl Referencable for Prompt {
    open spec fn spec_uid_key(&self) -> Option<i32> {
        Some(self.uid)
    }

    open spec fn spec_slug_key(&self) -> Option<Seq<char>> {
        None
    }

    fn ref_uid(&self) -> (r: Option<Reference<Self>>) {
        Some(Reference::new_uid(self.uid))
    }

    fn ref_slug(&self) -> (r: Option<Reference<Self>>) {
        None
    }
}

impl Referencable for Policy {
    open spec fn spec_uid_key(&self) -> Option<i32> {
        Some(self.uid)
    }

    open spec fn spec_slug_key(&self) -> Option<Seq<char>> {
        Some(self.slug@)
    }

    fn ref_uid(&self) -> (r: Option<Reference<Self>>) {
        Some(Reference::new_uid(self.uid))
    }

    fn ref_slug(&self) -> (r: Option<Reference<Self>>) {
        Some(Reference::new_slug(self.slug.clone()))
    }
}

impl Referencable for Flow {
    open spec fn spec_uid_key(&self) -> Option<i32> {
        None
    }

    open spec fn spec_slug_key(&self) -> Option<Seq<char>> {
        Some(self.slug@)
    }

    fn ref_uid(&self) -> (r: Option<Reference<Self>>) {
        None
    }

    fn ref_slug(&self) -> (r: Option<Reference<Self>>) {
        Some(Reference::new_slug(self.slug.clone()))
    }
}

} // verus!
