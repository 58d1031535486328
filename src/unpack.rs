use vstd::prelude::*;
use crate::registry::{all_hardware, Hardware, HardwareRegistry};

verus! {

/// Records whether the hardware entry point has been claimed.
#[derive(Clone, Copy, PartialEq, Eq, Structural, Debug)]
pub struct UnpackGuard {
    pub unpacked: bool,
}

impl UnpackGuard {
    /// A guard for a process that has not claimed the hardware yet.
    pub fn new() -> (r: Self)
        ensures
            !r.unpacked,
    {
        UnpackGuard { unpacked: false }
    }

    /// Marks the hardware as claimed; `true` only for the first claim.
    pub fn claim(&mut self) -> (r: bool)
        ensures
            r == !old(self).unpacked,
            final(self).unpacked,
    {
        let first = !self.unpacked;
        self.unpacked = true;
        first
    }
}

/// Acquires the hardware once and hands out its subsystem handles.
#[derive(Clone, Copy, PartialEq, Eq, Structural, Debug, Default)]
pub struct AgbUnpackPlugin;

/// The claim flag and the stored handles after one acquisition step from
/// `unpacked` and `held`.
pub open spec fn unpack_step(unpacked: bool, held: Set<Hardware>) -> (bool, Set<Hardware>) {
    if unpacked {
        (true, held)
    } else {
        (true, held.union(all_hardware()))
    }
}

impl AgbUnpackPlugin {
    /// Claims the hardware if nothing has yet, and then puts each subsystem handle
    /// into `registry`; a later call changes nothing. Returns whether it claimed.
    pub fn build(&self, guard: &mut UnpackGuard, registry: &mut HardwareRegistry) -> (r: bool)
        ensures
            r == !old(guard).unpacked,
            (final(guard).unpacked, final(registry)@) == unpack_step(old(guard).unpacked, old(registry)@),
    {
        if !guard.claim() {
            return false;
        }
        registry.insert(Hardware::Timers);
        registry.insert(Hardware::Sound);
        registry.insert(Hardware::Mixer);
        registry.insert(Hardware::Save);
        registry.insert(Hardware::Display);
        registry.insert(Hardware::Dma);
        assert(registry@ =~= old(registry)@.union(all_hardware()));
        true
    }
}

/// Running the acquisition step twice leaves the same state as running it once.
pub proof fn lemma_unpack_idempotent(unpacked: bool, held: Set<Hardware>)
    ensures
        unpack_step(unpack_step(unpacked, held).0, unpack_step(unpacked, held).1)
            == unpack_step(unpacked, held),
{
}

} // verus!
