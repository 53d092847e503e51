use target_registry::architecture::arm::stm::f7x3::f743::F743;
use target_registry::architecture::arm::stm::f7x3::f753::F753;
use target_registry::architecture::arm::stm::f7x3::F7x3;
use target_registry::architecture::arm::stm::l0x0::L0x0;
use target_registry::architecture::arm::Arm;
use target_registry::architecture::arm::stm::Stm;
use target_registry::architecture::riscv::RiscV;
use target_registry::{Probe, TargetSequence, TargetSequenceTraits};

/// Every node's own hardware check passes, so the walk commits to the
/// first leaf in declaration order: F743.
fn first_match_probe() -> Probe {
    Probe {
        arm: true,
        riscv: true,
        stm: true,
        f7x3: true,
        l0x0: true,
        f743: true,
        f753: true,
    }
}

#[test]
fn id() {
    // Identify the current target
    let (sequence, traits) = TargetSequence::identify(&first_match_probe()).unwrap();

    // We can cast it to the specific variant
    let generic_sequence = sequence.get_as_generic::<Arm, Stm, F7x3, F743>();
    assert!(generic_sequence.is_some());
    // We can't cast it to the wrong types
    let bad_generic_sequence = sequence.get_as_generic::<Arm, Stm, F7x3, F753>();
    assert!(bad_generic_sequence.is_none());

    // The capability table hides the type parameters, so the debug view is
    // reached without naming them.
    let sequence_debug = traits.debug_view(&sequence).unwrap();
    // Now use it
    println!("{:?}", sequence_debug);
}

#[test]
fn first_match_wins_even_when_both_leaves_claim() {
    // Both targets claim the hardware; the one declared first wins.
    let (sequence, traits) = TargetSequence::identify(&first_match_probe()).unwrap();
    assert!(sequence.get_as_generic::<Arm, Stm, F7x3, F743>().is_some());
    assert!(sequence.get_as_generic::<Arm, Stm, F7x3, F753>().is_none());
    // And the table is the winning leaf's: its debug entry is installed.
    assert!(traits.debug_view(&sequence).is_some());
}

#[test]
fn debug_view_renders_all_four_names() {
    let (sequence, traits) = TargetSequence::identify(&first_match_probe()).unwrap();
    let view = traits.debug_view(&sequence).unwrap();
    let rendering = format!("{:?}", view);
    assert!(rendering.contains("Arm"));
    assert!(rendering.contains("Stm"));
    assert!(rendering.contains("F7x3"));
    assert!(rendering.contains("F743"));
}

#[test]
fn second_leaf_claims_when_first_rejects() {
    let probe = Probe {
        arm: true,
        riscv: true,
        stm: true,
        f7x3: true,
        l0x0: true,
        f743: false,
        f753: true,
    };
    let (sequence, traits) = TargetSequence::identify(&probe).unwrap();
    assert!(sequence.get_as_generic::<Arm, Stm, F7x3, F753>().is_some());
    assert!(sequence.get_as_generic::<Arm, Stm, F7x3, F743>().is_none());
    // F753 opted out of the debug capability: the entry is present but empty.
    assert!(traits.debug_view(&sequence).is_none());
}

#[test]
fn total_miss_returns_empty() {
    // Arm rejects because nothing under it matches; the walk then tries the
    // RiscV branch, which also rejects (it declares no manufacturers), so
    // the overall result is empty.
    let probe = Probe {
        arm: true,
        riscv: true,
        stm: false,
        f7x3: true,
        l0x0: true,
        f743: true,
        f753: true,
    };
    assert!(TargetSequence::identify(&probe).is_none());

    // The same when no node at all claims the hardware.
    let probe = Probe {
        arm: false,
        riscv: false,
        stm: false,
        f7x3: false,
        l0x0: false,
        f743: false,
        f753: false,
    };
    assert!(TargetSequence::identify(&probe).is_none());
}

#[test]
fn family_misses_when_no_target_claims() {
    // The family's own check passes but neither target leaf claims.
    let probe = Probe {
        arm: true,
        riscv: true,
        stm: true,
        f7x3: true,
        l0x0: true,
        f743: false,
        f753: false,
    };
    assert!(TargetSequence::identify(&probe).is_none());
}

#[test]
fn mismatched_projection_is_non_destructive() {
    let (sequence, traits) = TargetSequence::identify(&first_match_probe()).unwrap();

    // A projection with a mismatched tuple returns empty...
    assert!(sequence.get_as_generic::<RiscV, Stm, F7x3, F743>().is_none());
    assert!(sequence.get_as_generic::<Arm, Stm, L0x0, F743>().is_none());
    assert!(sequence.get_as_generic::<Arm, Stm, F7x3, F753>().is_none());

    // ...and the sequence is unchanged: the correct projection and the
    // capability entry still succeed afterwards, as often as asked.
    assert!(sequence.get_as_generic::<Arm, Stm, F7x3, F743>().is_some());
    assert!(sequence.get_as_generic::<Arm, Stm, F7x3, F743>().is_some());
    assert!(traits.debug_view(&sequence).is_some());
}

#[test]
fn default_capability_entries_return_empty_safely() {
    // A default table disables every capability: invoking one is safe and
    // returns empty, whatever the sequence holds.
    let empty_traits = TargetSequenceTraits::default();
    let empty_sequence = TargetSequence::default();
    assert!(empty_traits.debug_view(&empty_sequence).is_none());

    let (sequence, _) = TargetSequence::identify(&first_match_probe()).unwrap();
    assert!(empty_traits.debug_view(&sequence).is_none());

    // An installed entry invoked on a foreign sequence surfaces the
    // projection mismatch as empty rather than a crash.
    let (f753_sequence, _) = TargetSequence::identify(&Probe {
        arm: true,
        riscv: true,
        stm: true,
        f7x3: true,
        l0x0: true,
        f743: false,
        f753: true,
    })
    .unwrap();
    let (_, f743_traits) = TargetSequence::identify(&first_match_probe()).unwrap();
    assert!(f743_traits.debug_view(&f753_sequence).is_none());
    assert!(f743_traits.debug_view(&empty_sequence).is_none());
}

#[test]
fn empty_sequence_projects_nothing() {
    let sequence = TargetSequence::default();
    assert!(sequence.get_as_generic::<Arm, Stm, F7x3, F743>().is_none());
    assert!(sequence.get_as_generic::<RiscV, Stm, L0x0, F753>().is_none());
}

#[test]
fn independent_walks_share_no_state() {
    let (first_sequence, first_traits) = TargetSequence::identify(&first_match_probe()).unwrap();
    let (second_sequence, second_traits) = TargetSequence::identify(&first_match_probe()).unwrap();

    // Dropping one pair leaves the other fully usable.
    drop(first_sequence);
    drop(first_traits);
    assert!(second_sequence.get_as_generic::<Arm, Stm, F7x3, F743>().is_some());
    let view = second_traits.debug_view(&second_sequence).unwrap();
    assert_eq!(view.target, "F743");
}

#[test]
fn setters_fill_a_sequence_that_projects() {
    // Build the winning path by hand through the setters.
    let mut sequence = TargetSequence::default();
    sequence.set_architecture(Arm {});
    sequence.set_manufacturer(Stm {});
    sequence.set_family(F7x3 {});
    sequence.set_target(F753 {});
    assert!(sequence.get_as_generic::<Arm, Stm, F7x3, F753>().is_some());
    assert!(sequence.get_as_generic::<Arm, Stm, F7x3, F743>().is_none());

    // A later walk step may overwrite a slot; the projection follows it.
    sequence.set_target(F743 {});
    assert!(sequence.get_as_generic::<Arm, Stm, F7x3, F743>().is_some());
}

#[test]
fn descriptor_names_are_exact() {
    assert_eq!(Arm {}.name(), "Arm");
    assert_eq!(RiscV {}.name(), "RiscV");
    assert_eq!(Stm {}.name(), "Stm");
    assert_eq!(F7x3 {}.name(), "F7x3");
    assert_eq!(L0x0 {}.name(), "L0x0");
    assert_eq!(F743 {}.name(), "F743");
    assert_eq!(F753 {}.name(), "F753");

    let (sequence, traits) = TargetSequence::identify(&first_match_probe()).unwrap();
    let view = traits.debug_view(&sequence).unwrap();
    assert_eq!(view.architecture, "Arm");
    assert_eq!(view.manufacturer, "Stm");
    assert_eq!(view.family, "F7x3");
    assert_eq!(view.target, "F743");
}
