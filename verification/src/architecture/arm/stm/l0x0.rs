//! The L0x0 family node.  No target is declared under it yet, so its
//! subtree can never claim the hardware.

use vstd::prelude::*;

use crate::{FamilyDescriptor, FamilySlot, Probe, TargetSequence, TargetSequenceTraits};

verus! {

/// The family descriptor for the L0x0 family.
#[derive(Debug)]
pub struct L0x0 {
    // All we need to know about generic L0x0
}

/// What the L0x0 subtree returns: with no target declared under it, no
/// leaf can commit, so the subtree never claims the hardware.
pub open spec fn l0x0_walk_spec(p: Probe) -> Option<(TargetSequence, TargetSequenceTraits)> {
    None
}

impl L0x0 {
    /// The descriptor's display name.
    pub fn name(&self) -> (s: &'static str)
        ensures
            s@ == "L0x0"@,
    {
        "L0x0"
    }

    /// Try to identify the connected hardware as an L0x0 part.  Even when
    /// the node's own check passes there is no target leaf to descend
    /// into, so the walk of this subtree always comes back empty.
    pub fn identify_target(self, probe: &Probe) -> (r: Option<(TargetSequence, TargetSequenceTraits)>)
        ensures
            r == l0x0_walk_spec(*probe),
    {
        if !probe.l0x0 {
            return None;
        }
        None
    }
}

impl FamilyDescriptor for L0x0 {
    open spec fn wrap_spec(self) -> FamilySlot {
        FamilySlot::L0x0(self)
    }

    open spec fn wraps(slot: FamilySlot) -> bool {
        slot is L0x0
    }

    open spec fn unwrap_spec(slot: FamilySlot) -> L0x0 {
        slot->L0x0_0
    }

    fn wrap(self) -> (s: FamilySlot) {
        FamilySlot::L0x0(self)
    }

    fn downcast(slot: &FamilySlot) -> (r: Option<&L0x0>) {
        match slot {
            FamilySlot::L0x0(family) => Some(family),
            _ => None,
        }
    }
}

} // verus!
