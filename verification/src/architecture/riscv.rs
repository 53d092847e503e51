//! The RISC-V architecture node.  No manufacturer is declared under it yet,
//! so its subtree can never claim the hardware.

use vstd::prelude::*;

use crate::{ArchitectureDescriptor, ArchitectureSlot, Probe, TargetSequence, TargetSequenceTraits};

verus! {

/// The architecture descriptor for RISC-V parts.
#[derive(Debug)]
pub struct RiscV {
    // All we need to know about generic RiscV
}

/// What the RiscV subtree returns: with no manufacturer declared under it,
/// no leaf can commit, so the subtree never claims the hardware.
pub open spec fn riscv_walk_spec(p: Probe) -> Option<(TargetSequence, TargetSequenceTraits)> {
    None
}

impl RiscV {
    /// The descriptor's display name.
    pub fn name(&self) -> (s: &'static str)
        ensures
            s@ == "RiscV"@,
    {
        "RiscV"
    }

    /// Try to identify the connected hardware as a RISC-V part.  Even when
    /// the node's own check passes there is no manufacturer to descend
    /// into, so the walk of this subtree always comes back empty.
    pub fn identify_target(self, probe: &Probe) -> (r: Option<(TargetSequence, TargetSequenceTraits)>)
        ensures
            r == riscv_walk_spec(*probe),
    {
        if !probe.riscv {
            return None;
        }
        None
    }
}

impl ArchitectureDescriptor for RiscV {
    open spec fn wrap_spec(self) -> ArchitectureSlot {
        ArchitectureSlot::RiscV(self)
    }

    open spec fn wraps(slot: ArchitectureSlot) -> bool {
        slot is RiscV
    }

    open spec fn unwrap_spec(slot: ArchitectureSlot) -> RiscV {
        slot->RiscV_0
    }

    fn wrap(self) -> (s: ArchitectureSlot) {
        ArchitectureSlot::RiscV(self)
    }

    fn downcast(slot: &ArchitectureSlot) -> (r: Option<&RiscV>) {
        match slot {
            ArchitectureSlot::RiscV(architecture) => Some(architecture),
            _ => None,
        }
    }
}

} // verus!
