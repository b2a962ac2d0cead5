//! Errors in what a client submits to a flow.
use vstd::prelude::*;

verus! {

/// The JSON type of a submitted field.
#[derive(Debug, Clone, Copy, PartialEq, Eq, Structural)]
pub enum FieldType {
    Null,
    Boolean,
    String,
    Number,
    Object,
    Array,
}

/// Why a submission was refused.
#[derive(Debug, Clone)]
pub enum SubmissionError {
    NoPendingUser,
    Field(FieldError),
}

/// A field of a submission and what is wrong with it.
#[derive(Debug, Clone)]
pub struct FieldError {
    pub kind: FieldErrorKind,
    pub field: String,
}

impl FieldError {
    /// An error of a field.
    pub fn new(field: String, kind: FieldErrorKind) -> (r: Self)
        ensures
            r.field == field,
            r.kind == kind,
    {
        Self { field, kind }
    }
}

/// What is wrong with a submitted field.
#[derive(Debug, Clone)]
pub enum FieldErrorKind {
    Missing,
    Invalid { message: String },
    InvalidType { expected: FieldType, got: FieldType },
}

impl FieldErrorKind {
    /// An invalid value, with a message.
    pub fn invalid(message: String) -> (r: Self)
        ensures
            r == (FieldErrorKind::Invalid { message }),
    {
        Self::Invalid { message }
    }

    /// A value of another type than expected.
    pub fn invalid_type(expected: FieldType, got: FieldType) -> (r: Self)
        ensures
            r == (FieldErrorKind::InvalidType { expected, got }),
    {
        Self::InvalidType { expected, got }
    }
}

impl From<FieldError> for SubmissionError {
    fn from(value: FieldError) -> (r: Self) {
        SubmissionError::Field(value)
    }
}

impl vstd::std_specs::convert::FromSpecImpl<FieldError> for SubmissionError {
    open spec fn obeys_from_spec() -> bool {
        true
    }

    open spec fn from_spec(v: FieldError) -> Self {
        SubmissionError::Field(v)
    }
}

} // verus!
