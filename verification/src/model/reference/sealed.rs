use vstd::prelude::*;

use crate::model::flow::Flow;
use crate::model::policy::Policy;
use crate::model::prompt::Prompt;
use crate::model::stage::Stage;

verus! {

/// Closes the set of types that can be referenced.
pub trait Sealed {}

impl Sealed for Flow {}

impl Sealed for Stage {}

impl Sealed for Prompt {}

impl Sealed for Policy {}

} // verus!
