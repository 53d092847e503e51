//! The Stm manufacturer node and the families declared under it.

use vstd::prelude::*;

use crate::{ManufacturerDescriptor, ManufacturerSlot, Probe, TargetSequence, TargetSequenceTraits};

pub mod f7x3;
pub mod l0x0;

verus! {

/// The manufacturer descriptor for Stm parts.
#[derive(Debug)]
pub struct Stm {
    // All we need to know about generic Stm
}

/// What the Stm subtree returns: Stm claims the hardware exactly when its
/// own check passes and a family declared under it claims it, the families
/// tried in declaration order; the winning subsequence gets its
/// manufacturer slot stamped on the way up.
pub open spec fn stm_walk_spec(p: Probe) -> Option<(TargetSequence, TargetSequenceTraits)> {
    if !p.stm {
        None
    } else if f7x3::f7x3_walk_spec(p) is Some {
        let (s, t) = f7x3::f7x3_walk_spec(p)->0;
        Some((
            TargetSequence {
                architecture: s.architecture,
                manufacturer: ManufacturerSlot::Stm(Stm {}),
                family: s.family,
                target: s.target,
            },
            t,
        ))
    } else if l0x0::l0x0_walk_spec(p) is Some {
        let (s, t) = l0x0::l0x0_walk_spec(p)->0;
        Some((
            TargetSequence {
                architecture: s.architecture,
                manufacturer: ManufacturerSlot::Stm(Stm {}),
                family: s.family,
                target: s.target,
            },
            t,
        ))
    } else {
        None
    }
}

impl Stm {
    /// The descriptor's display name.
    pub fn name(&self) -> (s: &'static str)
        ensures
            s@ == "Stm"@,
    {
        "Stm"
    }

    /// Try to identify the connected hardware as an Stm part: probe the
    /// families under Stm in declaration order and stamp the manufacturer
    /// slot of the first claiming subsequence.
    pub fn identify_target(self, probe: &Probe) -> (r: Option<(TargetSequence, TargetSequenceTraits)>)
        ensures
            r == stm_walk_spec(*probe),
    {
        if !probe.stm {
            return None;
        }
        match (f7x3::F7x3 {}).identify_target(probe) {
            Some((mut sequence, traits)) => {
                sequence.set_manufacturer(self);
                return Some((sequence, traits));
            },
            None => {},
        }
        match (l0x0::L0x0 {}).identify_target(probe) {
            Some((mut sequence, traits)) => {
                sequence.set_manufacturer(self);
                Some((sequence, traits))
            },
            None => None,
        }
    }
}

impl ManufacturerDescriptor for Stm {
    open spec fn wrap_spec(self) -> ManufacturerSlot {
        ManufacturerSlot::Stm(self)
    }

    open spec fn wraps(slot: ManufacturerSlot) -> bool {
        slot is Stm
    }

    open spec fn unwrap_spec(slot: ManufacturerSlot) -> Stm {
        slot->Stm_0
    }

    fn wrap(self) -> (s: ManufacturerSlot) {
        ManufacturerSlot::Stm(self)
    }

    fn downcast(slot: &ManufacturerSlot) -> (r: Option<&Stm>) {
        match slot {
            ManufacturerSlot::Stm(manufacturer) => Some(manufacturer),
            _ => None,
        }
    }
}

} // verus!
