//! The F7x3 family node and the target leaves declared under it.

use vstd::prelude::*;

use crate::{
    DebugEntry, FamilyDescriptor, FamilySlot, Probe, TargetSequence, TargetSequenceTraits,
};

pub mod f743;
pub mod f753;

verus! {

/// The family descriptor for the F7x3 family.
#[derive(Debug)]
pub struct F7x3 {
    // All we need to know about generic F7x3
}

/// What the F7x3 subtree returns: when the family's own check passes, the
/// target leaves are tried in declaration order, `F743` before `F753`.
/// The first leaf that claims the hardware fills the target slot, the
/// family fills its own slot on the way up, and the leaf's capability
/// table rides along: `F743` installs the debug entry, `F753` opted out.
pub open spec fn f7x3_walk_spec(p: Probe) -> Option<(TargetSequence, TargetSequenceTraits)> {
    if !p.f7x3 {
        None
    } else if p.f743 {
        Some((
            TargetSequence {
                architecture: crate::ArchitectureSlot::Empty,
                manufacturer: crate::ManufacturerSlot::Empty,
                family: FamilySlot::F7x3(F7x3 {}),
                target: crate::TargetSlot::F743(f743::F743 {}),
            },
            TargetSequenceTraits { debug: DebugEntry::F743View },
        ))
    } else if p.f753 {
        Some((
            TargetSequence {
                architecture: crate::ArchitectureSlot::Empty,
                manufacturer: crate::ManufacturerSlot::Empty,
                family: FamilySlot::F7x3(F7x3 {}),
                target: crate::TargetSlot::F753(f753::F753 {}),
            },
            TargetSequenceTraits { debug: DebugEntry::Disabled },
        ))
    } else {
        None
    }
}

impl F7x3 {
    /// The descriptor's display name.
    pub fn name(&self) -> (s: &'static str)
        ensures
            s@ == "F7x3"@,
    {
        "F7x3"
    }

    /// Try to identify the connected hardware as an F7x3 part: probe the
    /// target leaves in declaration order; the first that claims the
    /// hardware starts the sequence, fills the target slot and builds its
    /// capability table, and the family fills its own slot on the way up.
    pub fn identify_target(self, probe: &Probe) -> (r: Option<(TargetSequence, TargetSequenceTraits)>)
        ensures
            r == f7x3_walk_spec(*probe),
    {
        if !probe.f7x3 {
            return None;
        }
        if probe.f743 {
            let mut sequence = TargetSequence::default();
            sequence.set_target(f743::F743 {});
            sequence.set_family(self);

            let traits = TargetSequenceTraits { debug: DebugEntry::F743View };

            Some((sequence, traits))
        } else if probe.f753 {
            let mut sequence = TargetSequence::default();
            sequence.set_target(f753::F753 {});
            sequence.set_family(self);

            let traits = TargetSequenceTraits::default();

            Some((sequence, traits))
        } else {
            None
        }
    }
}

impl FamilyDescriptor for F7x3 {
    open spec fn wrap_spec(self) -> FamilySlot {
        FamilySlot::F7x3(self)
    }

    open spec fn wraps(slot: FamilySlot) -> bool {
        slot is F7x3
    }

    open spec fn unwrap_spec(slot: FamilySlot) -> F7x3 {
        slot->F7x3_0
    }

    fn wrap(self) -> (s: FamilySlot) {
        FamilySlot::F7x3(self)
    }

    fn downcast(slot: &FamilySlot) -> (r: Option<&F7x3>) {
        match slot {
            FamilySlot::F7x3(family) => Some(family),
            _ => None,
        }
    }
}

} // verus!
