use vstd::prelude::*;
use crate::registry::{Hardware, HardwareRegistry};

verus! {

/// The save-chip technology of a cartridge.
#[derive(Clone, Copy, PartialEq, Eq, Structural, Debug)]
pub enum MediaType {
    /// 32KiB battery-backed SRAM or FRAM.
    Sram32K,
    /// 8KiB EEPROM.
    Eeprom8K,
    /// 512B EEPROM.
    Eeprom512B,
    /// 64KiB flash chip.
    Flash64K,
    /// 128KiB flash chip.
    Flash128K,
}

/// The cartridge save controller and the media type it was initialised for.
#[derive(Clone, Copy, PartialEq, Eq, Structural, Debug)]
pub struct SaveManager {
    media: Option<MediaType>,
}

impl SaveManager {
    /// The media type the controller was initialised for, if any.
    pub closed spec fn media_spec(self) -> Option<MediaType> {
        self.media
    }

    /// A controller that has not been initialised.
    pub fn new() -> (r: Self)
        ensures
            r.media_spec().is_none(),
    {
        SaveManager { media: None }
    }

    /// Initialises the controller for `media`.
    pub fn init(&mut self, media: MediaType)
        ensures
            final(self).media_spec() == Some(media),
    {
        self.media = Some(media);
    }

    /// The media type the controller was initialised for, if any.
    pub fn media_type(&self) -> (r: Option<MediaType>)
        ensures
            r == self.media_spec(),
    {
        self.media
    }

    /// Whether the controller was initialised for `media`.
    pub fn is_initialized_for(&self, media: MediaType) -> (r: bool)
        ensures
            r == (self.media_spec() == Some(media)),
    {
        match self.media {
            Some(m) => m == media,
            None => false,
        }
    }
}

/// Sets up the save controller for the configured media type, if any.
#[derive(Clone, Copy, PartialEq, Eq, Structural, Debug, Default)]
pub struct AgbSavePlugin {
    /// The media type to initialise the controller for; with `None` the caller
    /// initialises it before use.
    pub save_type: Option<MediaType>,
}

impl AgbSavePlugin {
    /// Takes the save handle out of `registry` and returns its controller, initialised
    /// for the configured media type; `None` when the handle was already taken.
    pub fn finish(&self, registry: &mut HardwareRegistry) -> (r: Option<SaveManager>)
        ensures
            final(registry)@ == old(registry)@.remove(Hardware::Save),
            r.is_some() == old(registry)@.contains(Hardware::Save),
            r.is_some() ==> r.unwrap().media_spec() == self.save_type,
    {
        if !registry.take(Hardware::Save) {
            return None;
        }
        let mut manager = SaveManager::new();
        match self.save_type {
            Some(media) => manager.init(media),
            None => {},
        }
        Some(manager)
    }
}

} // verus!
