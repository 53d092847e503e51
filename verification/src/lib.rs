//! A target-identification registry for an embedded debug-probe host.
//!
//! The registry declares a fixed taxonomy of descriptor kinds, one level per
//! role: architecture, manufacturer, family, target.  A walk over the
//! taxonomy interrogates each node in declaration order and, when a target
//! leaf claims the connected hardware, returns a [`TargetSequence`] holding
//! the four descriptors of the winning path together with the
//! [`TargetSequenceTraits`] capability table that the leaf built.  A caller
//! that knows the concrete descriptor types can recover a statically typed
//! view of the sequence through [`TargetSequence::get_as_generic`]; one that
//! does not reaches leaf behaviour only through the capability table.

use vstd::prelude::*;

pub mod architecture;

use crate::architecture::arm::stm::f7x3::f743::F743;
use crate::architecture::arm::stm::f7x3::f753::F753;
use crate::architecture::arm::stm::f7x3::F7x3;
use crate::architecture::arm::stm::l0x0::L0x0;
use crate::architecture::arm::stm::Stm;
use crate::architecture::arm::Arm;
use crate::architecture::riscv::RiscV;

verus! {

/// The outcome of every taxonomy node's own hardware check against the
/// connected part.  Reading the probe transport is the collaborators'
/// business; the walk itself only consumes these plain answers, one per
/// node, each telling whether that node's check claimed the hardware.
pub struct Probe {
    pub arm: bool,
    pub riscv: bool,
    pub stm: bool,
    pub f7x3: bool,
    pub l0x0: bool,
    pub f743: bool,
    pub f753: bool,
}

/// The architecture slot of a sequence: empty, or one concrete
/// architecture descriptor.
pub enum ArchitectureSlot {
    Empty,
    Arm(Arm),
    RiscV(RiscV),
}

/// The manufacturer slot of a sequence: empty, or one concrete
/// manufacturer descriptor.
pub enum ManufacturerSlot {
    Empty,
    Stm(Stm),
}

/// The family slot of a sequence: empty, or one concrete family descriptor.
pub enum FamilySlot {
    Empty,
    F7x3(F7x3),
    L0x0(L0x0),
}

/// The target slot of a sequence: empty, or one concrete target descriptor.
pub enum TargetSlot {
    Empty,
    F743(F743),
    F753(F753),
}

/// A descriptor type that can occupy the architecture slot.
pub trait ArchitectureDescriptor: Sized {
    /// The slot value that carries this descriptor.
    spec fn wrap_spec(self) -> ArchitectureSlot;

    /// Whether the slot holds a descriptor of this type.
    spec fn wraps(slot: ArchitectureSlot) -> bool;

    /// The descriptor a slot holds, when `wraps` holds of it.
    spec fn unwrap_spec(slot: ArchitectureSlot) -> Self;

    /// Move this descriptor into its slot.
    fn wrap(self) -> (s: ArchitectureSlot)
        ensures
            s == self.wrap_spec(),
            Self::wraps(s),
            Self::unwrap_spec(s) == self,
    ;

    /// Recover a borrow of this descriptor type from a slot; nothing comes
    /// back exactly when the slot holds some other kind.
    fn downcast(slot: &ArchitectureSlot) -> (r: Option<&Self>)
        ensures
            r is Some <==> Self::wraps(*slot),
            r is Some ==> *r->0 == Self::unwrap_spec(*slot),
    ;
}

/// A descriptor type that can occupy the manufacturer slot.
pub trait ManufacturerDescriptor: Sized {
    /// The slot value that carries this descriptor.
    spec fn wrap_spec(self) -> ManufacturerSlot;

    /// Whether the slot holds a descriptor of this type.
    spec fn wraps(slot: ManufacturerSlot) -> bool;

    /// The descriptor a slot holds, when `wraps` holds of it.
    spec fn unwrap_spec(slot: ManufacturerSlot) -> Self;

    /// Move this descriptor into its slot.
    fn wrap(self) -> (s: ManufacturerSlot)
        ensures
            s == self.wrap_spec(),
            Self::wraps(s),
            Self::unwrap_spec(s) == self,
    ;

    /// Recover a borrow of this descriptor type from a slot; nothing comes
    /// back exactly when the slot holds some other kind.
    fn downcast(slot: &ManufacturerSlot) -> (r: Option<&Self>)
        ensures
            r is Some <==> Self::wraps(*slot),
            r is Some ==> *r->0 == Self::unwrap_spec(*slot),
    ;
}

/// A descriptor type that can occupy the family slot.
pub trait FamilyDescriptor: Sized {
    /// The slot value that carries this descriptor.
    spec fn wrap_spec(self) -> FamilySlot;

    /// Whether the slot holds a descriptor of this type.
    spec fn wraps(slot: FamilySlot) -> bool;

    /// The descriptor a slot holds, when `wraps` holds of it.
    spec fn unwrap_spec(slot: FamilySlot) -> Self;

    /// Move this descriptor into its slot.
    fn wrap(self) -> (s: FamilySlot)
        ensures
            s == self.wrap_spec(),
            Self::wraps(s),
            Self::unwrap_spec(s) == self,
    ;

    /// Recover a borrow of this descriptor type from a slot; nothing comes
    /// back exactly when the slot holds some other kind.
    fn downcast(slot: &FamilySlot) -> (r: Option<&Self>)
        ensures
            r is Some <==> Self::wraps(*slot),
            r is Some ==> *r->0 == Self::unwrap_spec(*slot),
    ;
}

/// A descriptor type that can occupy the target slot.
pub trait TargetDescriptor: Sized {
    /// The slot value that carries this descriptor.
    spec fn wrap_spec(self) -> TargetSlot;

    /// Whether the slot holds a descriptor of this type.
    spec fn wraps(slot: TargetSlot) -> bool;

    /// The descriptor a slot holds, when `wraps` holds of it.
    spec fn unwrap_spec(slot: TargetSlot) -> Self;

    /// Move this descriptor into its slot.
    fn wrap(self) -> (s: TargetSlot)
        ensures
            s == self.wrap_spec(),
            Self::wraps(s),
            Self::unwrap_spec(s) == self,
    ;

    /// Recover a borrow of this descriptor type from a slot; nothing comes
    /// back exactly when the slot holds some other kind.
    fn downcast(slot: &TargetSlot) -> (r: Option<&Self>)
        ensures
            r is Some <==> Self::wraps(*slot),
            r is Some ==> *r->0 == Self::unwrap_spec(*slot),
    ;
}

/// The struct that stores all the probe info: one slot per taxonomy role.
pub struct TargetSequence {
    pub architecture: ArchitectureSlot,
    pub manufacturer: ManufacturerSlot,
    pub family: FamilySlot,
    pub target: TargetSlot,
}

/// The sequence with all four slots empty.
pub open spec fn empty_sequence() -> TargetSequence {
    TargetSequence {
        architecture: ArchitectureSlot::Empty,
        manufacturer: ManufacturerSlot::Empty,
        family: FamilySlot::Empty,
        target: TargetSlot::Empty,
    }
}

impl TargetSequence {
    /// Walk over the options to identify the target.
    pub fn identify(probe: &Probe) -> (r: Option<(Self, TargetSequenceTraits)>)
        ensures
            r == architecture::walk_spec(*probe),
    {
        architecture::identify_target(probe)
    }

    /// Write the architecture slot, leaving the other three untouched.
    pub fn set_architecture<A: ArchitectureDescriptor>(&mut self, architecture: A)
        ensures
            final(self).architecture == architecture.wrap_spec(),
            final(self).manufacturer == old(self).manufacturer,
            final(self).family == old(self).family,
            final(self).target == old(self).target,
    {
        self.architecture = architecture.wrap();
    }

    /// Write the manufacturer slot, leaving the other three untouched.
    pub fn set_manufacturer<M: ManufacturerDescriptor>(&mut self, manufacturer: M)
        ensures
            final(self).architecture == old(self).architecture,
            final(self).manufacturer == manufacturer.wrap_spec(),
            final(self).family == old(self).family,
            final(self).target == old(self).target,
    {
        self.manufacturer = manufacturer.wrap();
    }

    /// Write the family slot, leaving the other three untouched.
    pub fn set_family<F: FamilyDescriptor>(&mut self, family: F)
        ensures
            final(self).architecture == old(self).architecture,
            final(self).manufacturer == old(self).manufacturer,
            final(self).family == family.wrap_spec(),
            final(self).target == old(self).target,
    {
        self.family = family.wrap();
    }

    /// Write the target slot, leaving the other three untouched.
    pub fn set_target<T: TargetDescriptor>(&mut self, target: T)
        ensures
            final(self).architecture == old(self).architecture,
            final(self).manufacturer == old(self).manufacturer,
            final(self).family == old(self).family,
            final(self).target == target.wrap_spec(),
    {
        self.target = target.wrap();
    }

    /// Borrow the loose components.
    fn get_components(&self) -> (r: (
        &ArchitectureSlot,
        &ManufacturerSlot,
        &FamilySlot,
        &TargetSlot,
    ))
        ensures
            *r.0 == self.architecture,
            *r.1 == self.manufacturer,
            *r.2 == self.family,
            *r.3 == self.target,
    {
        (&self.architecture, &self.manufacturer, &self.family, &self.target)
    }

    /// Try to create a temporary statically generic view of the sequence.
    /// It succeeds exactly when the four slots hold descriptors of kinds
    /// `A`, `M`, `F` and `T`; on any mismatch nothing comes back and the
    /// sequence is untouched.  On success the view borrows the descriptors
    /// in place, so repeated projections keep succeeding.
    pub fn get_as_generic<
        'a,
        A: ArchitectureDescriptor,
        M: ManufacturerDescriptor,
        F: FamilyDescriptor,
        T: TargetDescriptor,
    >(&'a self) -> (r: Option<GenericTargetSequence<'a, A, M, F, T>>)
        ensures
            r is Some <==> (A::wraps(self.architecture) && M::wraps(self.manufacturer)
                && F::wraps(self.family) && T::wraps(self.target)),
            r is Some ==> *(r->0).architecture == A::unwrap_spec(self.architecture),
            r is Some ==> *(r->0).manufacturer == M::unwrap_spec(self.manufacturer),
            r is Some ==> *(r->0).family == F::unwrap_spec(self.family),
            r is Some ==> *(r->0).target == T::unwrap_spec(self.target),
    {
        let (architecture, manufacturer, family, target) = self.get_components();

        let architecture = match A::downcast(architecture) {
            Some(architecture) => architecture,
            None => {
                return None;
            },
        };
        let manufacturer = match M::downcast(manufacturer) {
            Some(manufacturer) => manufacturer,
            None => {
                return None;
            },
        };
        let family = match F::downcast(family) {
            Some(family) => family,
            None => {
                return None;
            },
        };
        let target = match T::downcast(target) {
            Some(target) => target,
            None => {
                return None;
            },
        };

        Some(GenericTargetSequence { architecture, manufacturer, family, target })
    }
}

impl Default for TargetSequence {
    /// A fresh sequence with every slot empty.
    fn default() -> (s: Self)
        ensures
            s == empty_sequence(),
    {
        TargetSequence {
            architecture: ArchitectureSlot::Empty,
            manufacturer: ManufacturerSlot::Empty,
            family: FamilySlot::Empty,
            target: TargetSlot::Empty,
        }
    }
}

/// The target sequence that contains concrete types: a statically typed
/// view borrowing the four descriptors of a [`TargetSequence`].
#[derive(Debug)]
pub struct GenericTargetSequence<'a, A, M, F, T> {
    pub architecture: &'a A,
    pub manufacturer: &'a M,
    pub family: &'a F,
    pub target: &'a T,
}

/// The debug entry of a capability table: disabled, or the entry that the
/// `F743` leaf installs, which projects the sequence to that leaf's own
/// four-type path.
pub enum DebugEntry {
    Disabled,
    F743View,
}

/// Whether a sequence's four slots hold exactly the `F743` leaf's path.
pub open spec fn f743_path(s: TargetSequence) -> bool {
    &&& Arm::wraps(s.architecture)
    &&& Stm::wraps(s.manufacturer)
    &&& F7x3::wraps(s.family)
    &&& F743::wraps(s.target)
}

/// The printable view that the debug capability returns: the display names
/// of the four descriptors on the winning leaf's path.
#[derive(Debug)]
pub struct DebugView {
    pub architecture: &'static str,
    pub manufacturer: &'static str,
    pub family: &'static str,
    pub target: &'static str,
}

/// All the traits we care about.  Every target leaf returns one of these;
/// a capability the leaf does not support carries the disabled entry, so a
/// caller never has to test for presence before invoking.
pub struct TargetSequenceTraits {
    pub debug: DebugEntry,
}

impl TargetSequenceTraits {
    /// Invoke the debug capability: project the sequence to the installing
    /// leaf's typed path and render its descriptor names.  Nothing comes
    /// back exactly when the leaf opted out or the projection mismatches;
    /// the call itself never fails.
    pub fn debug_view(&self, sequence: &TargetSequence) -> (r: Option<DebugView>)
        ensures
            r is Some <==> (self.debug is F743View && f743_path(*sequence)),
            r is Some ==> (r->0).architecture@ == "Arm"@,
            r is Some ==> (r->0).manufacturer@ == "Stm"@,
            r is Some ==> (r->0).family@ == "F7x3"@,
            r is Some ==> (r->0).target@ == "F743"@,
    {
        match self.debug {
            DebugEntry::Disabled => None,
            DebugEntry::F743View => {
                match sequence.get_as_generic::<Arm, Stm, F7x3, F743>() {
                    Some(view) => Some(DebugView {
                        architecture: view.architecture.name(),
                        manufacturer: view.manufacturer.name(),
                        family: view.family.name(),
                        target: view.target.name(),
                    }),
                    None => None,
                }
            },
        }
    }
}

impl Default for TargetSequenceTraits {
    /// The table of a leaf that opted out of every capability: each entry
    /// is present and disabled.
    fn default() -> (t: Self)
        ensures
            t.debug is Disabled,
    {
        TargetSequenceTraits { debug: DebugEntry::Disabled }
    }
}

/// Capability typing: a table only ever leaves the walk beside the sequence
/// its leaf built, and when its debug entry is installed, that entry's
/// projection of the sequence cannot mismatch.
pub proof fn lemma_capability_typing(p: Probe, s: TargetSequence, t: TargetSequenceTraits)
    requires
        architecture::walk_spec(p) == Some((s, t)),
    ensures
        t.debug is F743View ==> f743_path(s),
{
}

} // verus!
