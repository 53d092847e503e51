//! The Arm architecture node and the manufacturers declared under it.

use vstd::prelude::*;

use crate::{ArchitectureDescriptor, ArchitectureSlot, Probe, TargetSequence, TargetSequenceTraits};

pub mod stm;

verus! {

/// The architecture descriptor for Arm parts.
#[derive(Debug)]
pub struct Arm {
    // All we need to know about generic Arm
}

/// What the Arm subtree returns: Arm claims the hardware exactly when its
/// own check passes and a manufacturer declared under it claims it; the
/// winning subsequence gets its architecture slot stamped on the way up.
pub open spec fn arm_walk_spec(p: Probe) -> Option<(TargetSequence, TargetSequenceTraits)> {
    if p.arm && stm::stm_walk_spec(p) is Some {
        let (s, t) = stm::stm_walk_spec(p)->0;
        Some((
            TargetSequence {
                architecture: ArchitectureSlot::Arm(Arm {}),
                manufacturer: s.manufacturer,
                family: s.family,
                target: s.target,
            },
            t,
        ))
    } else {
        None
    }
}

impl Arm {
    /// The descriptor's display name.
    pub fn name(&self) -> (s: &'static str)
        ensures
            s@ == "Arm"@,
    {
        "Arm"
    }

    /// Try to identify the connected hardware as an Arm part: probe the
    /// manufacturers under Arm in declaration order and stamp the
    /// architecture slot of the first claiming subsequence.
    pub fn identify_target(self, probe: &Probe) -> (r: Option<(TargetSequence, TargetSequenceTraits)>)
        ensures
            r == arm_walk_spec(*probe),
    {
        if !probe.arm {
            return None;
        }
        match (stm::Stm {}).identify_target(probe) {
            Some((mut sequence, traits)) => {
                sequence.set_architecture(self);
                Some((sequence, traits))
            },
            None => None,
        }
    }
}

impl ArchitectureDescriptor for Arm {
    open spec fn wrap_spec(self) -> ArchitectureSlot {
        ArchitectureSlot::Arm(self)
    }

    open spec fn wraps(slot: ArchitectureSlot) -> bool {
        slot is Arm
    }

    open spec fn unwrap_spec(slot: ArchitectureSlot) -> Arm {
        slot->Arm_0
    }

    fn wrap(self) -> (s: ArchitectureSlot) {
        ArchitectureSlot::Arm(self)
    }

    fn downcast(slot: &ArchitectureSlot) -> (r: Option<&Arm>) {
        match slot {
            ArchitectureSlot::Arm(architecture) => Some(architecture),
            _ => None,
        }
    }
}

} // verus!
