//! The F753 target leaf: a declared part that opted out of every
//! capability.

use vstd::prelude::*;

use crate::{TargetDescriptor, TargetSlot};

verus! {

/// The target descriptor for the F753 part.
#[derive(Debug)]
pub struct F753 {
    // All we need to know about the F753
}

impl F753 {
    /// The descriptor's display name.
    pub fn name(&self) -> (s: &'static str)
        ensures
            s@ == "F753"@,
    {
        "F753"
    }
}

impl TargetDescriptor for F753 {
    open spec fn wrap_spec(self) -> TargetSlot {
        TargetSlot::F753(self)
    }

    open spec fn wraps(slot: TargetSlot) -> bool {
        slot is F753
    }

    open spec fn unwrap_spec(slot: TargetSlot) -> F753 {
        slot->F753_0
    }

    fn wrap(self) -> (s: TargetSlot) {
        TargetSlot::F753(self)
    }

    fn downcast(slot: &TargetSlot) -> (r: Option<&F753>) {
        match slot {
            TargetSlot::F753(target) => Some(target),
            _ => None,
        }
    }
}

} // verus!
