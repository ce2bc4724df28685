use vstd::prelude::*;
use crate::domain::{EffectUpdate, WheelCommand};

verus! {

/// What one force-feedback packet produced: the decoded effect updates and the wheel commands
/// they became.
#[derive(Debug, Clone, PartialEq, Eq)]
pub struct RuntimeUpdate {
    pub updates: Vec<EffectUpdate>,
    pub commands: Vec<WheelCommand>,
}

} // verus!
