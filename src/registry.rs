use vstd::prelude::*;

verus! {

/// A hardware subsystem handle that can be owned by one component at a time.
#[derive(Clone, Copy, PartialEq, Eq, Structural, Debug)]
pub enum Hardware {
    Display,
    Sound,
    Mixer,
    Save,
    Timers,
    Dma,
}

/// The store of hardware handles that no component has claimed yet.
///
/// Each handle can be taken out once; a second attempt finds nothing.
#[derive(Clone, Copy, PartialEq, Eq, Structural, Debug)]
pub struct HardwareRegistry {
    display: bool,
    sound: bool,
    mixer: bool,
    save: bool,
    timers: bool,
    dma: bool,
}

impl HardwareRegistry {
    /// Whether the handle `h` is in the store.
    pub closed spec fn holds(self, h: Hardware) -> bool {
        match h {
            Hardware::Display => self.display,
            Hardware::Sound => self.sound,
            Hardware::Mixer => self.mixer,
            Hardware::Save => self.save,
            Hardware::Timers => self.timers,
            Hardware::Dma => self.dma,
        }
    }
}

impl View for HardwareRegistry {
    type V = Set<Hardware>;

    closed spec fn view(&self) -> Set<Hardware> {
        Set::new(|h: Hardware| self.holds(h))
    }
}

/// Every hardware handle.
pub open spec fn all_hardware() -> Set<Hardware> {
    Set::new(|h: Hardware| true)
}

impl HardwareRegistry {
    /// An empty store.
    pub fn new() -> (r: Self)
        ensures
            r@ == Set::<Hardware>::empty(),
    {
        let r = HardwareRegistry {
            display: false,
            sound: false,
            mixer: false,
            save: false,
            timers: false,
            dma: false,
        };
        assert(r@ =~= Set::<Hardware>::empty());
        r
    }

    fn set(&mut self, h: Hardware, v: bool)
        ensures
            forall|g: Hardware| #[trigger] final(self).holds(g) == if g == h { v } else { old(self).holds(g) },
    {
        match h {
            Hardware::Display => self.display = v,
            Hardware::Sound => self.sound = v,
            Hardware::Mixer => self.mixer = v,
            Hardware::Save => self.save = v,
            Hardware::Timers => self.timers = v,
            Hardware::Dma => self.dma = v,
        }
    }

    /// Whether the handle `h` is in the store.
    pub fn contains(&self, h: Hardware) -> (r: bool)
        ensures
            r == self@.contains(h),
    {
        match h {
            Hardware::Display => self.display,
            Hardware::Sound => self.sound,
            Hardware::Mixer => self.mixer,
            Hardware::Save => self.save,
            Hardware::Timers => self.timers,
            Hardware::Dma => self.dma,
        }
    }

    /// Puts the handle `h` into the store.
    pub fn insert(&mut self, h: Hardware)
        ensures
            final(self)@ == old(self)@.insert(h),
    {
        self.set(h, true);
        assert(final(self)@ =~= old(self)@.insert(h));
    }

    /// Takes the handle `h` out of the store; `true` when it was there to take.
    pub fn take(&mut self, h: Hardware) -> (r: bool)
        ensures
            r == old(self)@.contains(h),
            final(self)@ == old(self)@.remove(h),
    {
        let r = self.contains(h);
        self.set(h, false);
        assert(final(self)@ =~= old(self)@.remove(h));
        r
    }
}

/// Taking a handle twice finds it the second time nowhere: only one component can
/// come to own it.
pub proof fn lemma_take_once(held: Set<Hardware>, h: Hardware)
    ensures
        !held.remove(h).contains(h),
        held.remove(h).remove(h) == held.remove(h),
{
    assert(held.remove(h).remove(h) =~= held.remove(h));
}

} // verus!
