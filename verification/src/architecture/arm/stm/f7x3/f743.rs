//! The F743 target leaf: the one declared part that supports the debug
//! capability.

use vstd::prelude::*;

use crate::{TargetDescriptor, TargetSlot};

verus! {

/// The target descriptor for the F743 part.
#[derive(Debug)]
pub struct F743 {
    // All we need to know about the F743
}

impl F743 {
    /// The descriptor's display name.
    pub fn name(&self) -> (s: &'static str)
        ensures
            s@ == "F743"@,
    {
        "F743"
    }
}

impl TargetDescriptor for F743 {
    open spec fn wrap_spec(self) -> TargetSlot {
        TargetSlot::F743(self)
    }

    open spec fn wraps(slot: TargetSlot) -> bool {
        slot is F743
    }

    open spec fn unwrap_spec(slot: TargetSlot) -> F743 {
        slot->F743_0
    }

    fn wrap(self) -> (s: TargetSlot) {
        TargetSlot::F743(self)
    }

    fn downcast(slot: &TargetSlot) -> (r: Option<&F743>) {
        match slot {
            TargetSlot::F743(target) => Some(target),
            _ => None,
        }
    }
}

} // verus!
