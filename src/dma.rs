use vstd::prelude::*;
use crate::registry::{Hardware, HardwareRegistry};

verus! {

/// Exposes the DMA controller unchanged.
#[derive(Clone, Copy, PartialEq, Eq, Structural, Debug, Default)]
pub struct AgbDmaPlugin;

impl AgbDmaPlugin {
    /// Takes the DMA handle out of `registry`; `true` when it was there to take.
    pub fn finish(&self, registry: &mut HardwareRegistry) -> (r: bool)
        ensures
            r == old(registry)@.contains(Hardware::Dma),
            final(registry)@ == old(registry)@.remove(Hardware::Dma),
    {
        registry.take(Hardware::Dma)
    }
}

} // verus!
