//! The root of the taxonomy: the declared architectures, tried in
//! declaration order until one claims the connected hardware.

use vstd::prelude::*;

use crate::{Probe, TargetSequence, TargetSequenceTraits};

pub mod arm;
pub mod riscv;

verus! {

/// Whether some declared leaf claims the hardware described by the probe
/// readings: the only leaves reachable from the root sit under
/// `Arm -> Stm -> F7x3`.
pub open spec fn walk_claims(p: Probe) -> bool {
    p.arm && p.stm && p.f7x3 && (p.f743 || p.f753)
}

/// What a walk of the whole taxonomy returns for given probe readings:
/// the architectures are tried in declaration order and the first
/// subtree that claims the hardware wins.
pub open spec fn walk_spec(p: Probe) -> Option<(TargetSequence, TargetSequenceTraits)> {
    if arm::arm_walk_spec(p) is Some {
        arm::arm_walk_spec(p)
    } else {
        riscv::riscv_walk_spec(p)
    }
}

/// Walk over the architectures to identify the target: first match wins.
pub fn identify_target(probe: &Probe) -> (r: Option<(TargetSequence, TargetSequenceTraits)>)
    ensures
        r == walk_spec(*probe),
{
    let claimed = (arm::Arm {}).identify_target(probe);
    if claimed.is_some() {
        return claimed;
    }
    (riscv::RiscV {}).identify_target(probe)
}

/// The sequence a walk won by the `F743` leaf fills in.
pub open spec fn f743_sequence() -> TargetSequence {
    TargetSequence {
        architecture: crate::ArchitectureSlot::Arm(arm::Arm {}),
        manufacturer: crate::ManufacturerSlot::Stm(arm::stm::Stm {}),
        family: crate::FamilySlot::F7x3(arm::stm::f7x3::F7x3 {}),
        target: crate::TargetSlot::F743(arm::stm::f7x3::f743::F743 {}),
    }
}

/// The sequence a walk won by the `F753` leaf fills in.
pub open spec fn f753_sequence() -> TargetSequence {
    TargetSequence {
        architecture: crate::ArchitectureSlot::Arm(arm::Arm {}),
        manufacturer: crate::ManufacturerSlot::Stm(arm::stm::Stm {}),
        family: crate::FamilySlot::F7x3(arm::stm::f7x3::F7x3 {}),
        target: crate::TargetSlot::F753(arm::stm::f7x3::f753::F753 {}),
    }
}

/// The capability table the `F743` leaf builds.
pub open spec fn f743_traits() -> TargetSequenceTraits {
    TargetSequenceTraits { debug: crate::DebugEntry::F743View }
}

/// The capability table the `F753` leaf builds: it opted out of the debug
/// capability.
pub open spec fn f753_traits() -> TargetSequenceTraits {
    TargetSequenceTraits { debug: crate::DebugEntry::Disabled }
}

/// First match wins: whichever target leaf is the first to claim the
/// hardware, the walk returns exactly that leaf's four-descriptor path and
/// the capability table that leaf built.
pub proof fn lemma_first_match(p: Probe)
    requires
        walk_claims(p),
    ensures
        p.f743 ==> walk_spec(p) == Some((f743_sequence(), f743_traits())),
        !p.f743 ==> walk_spec(p) == Some((f753_sequence(), f753_traits())),
{
}

/// Total miss: the walk hands back a pair exactly when some leaf claims the
/// hardware; on a total miss it is empty, so no partial sequence can be
/// observed.
pub proof fn lemma_total_miss(p: Probe)
    ensures
        walk_spec(p) is Some <==> walk_claims(p),
{
}

} // verus!
