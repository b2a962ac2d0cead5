//! Prompts: the fields a prompt stage asks for.
use vstd::prelude::*;

use crate::model::reference::Reference;

verus! {

/// A prompt bound to a prompt stage, in its order.
#[derive(Debug, Clone)]
pub struct PromptBinding {
    pub order: i16,
    pub prompt: Reference<Prompt>,
}

/// A field that a prompt stage asks for.
#[derive(Debug, Clone)]
pub struct Prompt {
    pub uid: i32,
    pub field_key: String,
    pub label: String,
    pub kind: PromptKind,
    pub placeholder: Option<String>,
    pub required: bool,
    pub help_text: Option<String>,
}

/// The kind of input a prompt asks for.
#[derive(Debug, Clone, Copy, PartialEq, Eq, Structural)]
pub enum PromptKind {
    Username,
    Email,
    Password,
    Text,
    TextReadOnly,
    SignedNumber,
    UnsignedNumber,
    Checkbox,
    Switch,
    Date,
    DateTime,
    Seperator,
    Static,
    Locale,
}

} // verus!
