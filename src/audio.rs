use vstd::prelude::*;
use crate::registry::{Hardware, HardwareRegistry};

verus! {

/// What the sound setup does once it owns the sound and mixer handles.
#[derive(Clone, Copy, PartialEq, Eq, Structural, Debug)]
pub struct SoundSetup {
    /// Whether to power on the retro sound chip.
    pub enable_dmg: bool,
}

/// Sets up the sound subsystem.
#[derive(Clone, Copy, PartialEq, Eq, Structural, Debug, Default)]
pub struct AgbSoundPlugin {
    /// Whether setup powers on the retro sound chip; otherwise the application does.
    pub enable_dmg: bool,
}

impl AgbSoundPlugin {
    /// Takes the sound handle and then the mixer handle out of `registry`. When both
    /// were there, returns what to do with them; otherwise `None`, and the sound
    /// handle, if it was taken, is not given back.
    pub fn finish(&self, registry: &mut HardwareRegistry) -> (r: Option<SoundSetup>)
        ensures
            old(registry)@.contains(Hardware::Sound) ==> final(registry)@ == old(registry)@.remove(
                Hardware::Sound,
            ).remove(Hardware::Mixer),
            !old(registry)@.contains(Hardware::Sound) ==> final(registry)@ == old(registry)@,
            r.is_some() == (old(registry)@.contains(Hardware::Sound) && old(registry)@.contains(
                Hardware::Mixer,
            )),
            r.is_some() ==> r.unwrap().enable_dmg == self.enable_dmg,
    {
        if !registry.take(Hardware::Sound) {
            proof {
                assert(registry@ =~= old(registry)@);
            }
            return None;
        }
        if !registry.take(Hardware::Mixer) {
            return None;
        }
        Some(SoundSetup { enable_dmg: self.enable_dmg })
    }
}

} // verus!
