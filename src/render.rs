use vstd::prelude::*;
use crate::registry::{Hardware, HardwareRegistry};

verus! {

/// Number of hardware object-memory slots the display controller offers per frame.
pub const OAM_SLOTS: usize = 128;

/// Draw-priority tier of a sprite, from front (`P0`) to back (`P3`).
#[derive(Clone, Copy, PartialEq, Eq, Structural, Debug)]
pub enum Priority {
    P0,
    P1,
    P2,
    P3,
}

/// How the display controller composites a sprite.
#[derive(Clone, Copy, PartialEq, Eq, Structural, Debug)]
pub enum GraphicsMode {
    /// Drawn as is.
    Normal,
    /// Takes part in alpha blending.
    AlphaBlending,
    /// Masks the object window.
    Window,
}

/// Non-owning handle to a payload registered in a [`SpriteHandles`] table.
///
/// A handle carries the identity of the table that issued it and the slot it names
/// there. Two handles are equal exactly when they name the same slot of the same
/// table.
#[derive(Clone, Copy, PartialEq, Eq, Structural, Debug)]
pub struct SpriteHandle {
    table: u64,
    index: usize,
}

impl SpriteHandle {
    /// The identity of the table that issued this handle.
    pub closed spec fn table_id(self) -> u64 {
        self.table
    }

    /// The table slot this handle names.
    pub closed spec fn slot(self) -> nat {
        self.index as nat
    }
}

/// Handles are equal exactly when they come from the same table and name the same slot.
pub proof fn lemma_handle_eq(a: SpriteHandle, b: SpriteHandle)
    ensures
        (a == b) == (a.table_id() == b.table_id() && a.slot() == b.slot()),
{
}

/// Storage for uploaded sprite payloads.
///
/// The table owns every payload registered with it and never evicts one, so a
/// handle it issued keeps resolving for the table's whole lifetime. Each table has
/// an identity, given when it is made, that its handles carry; tables given
/// different identities never resolve each other's handles.
pub struct SpriteHandles<T> {
    id: u64,
    sprites: Vec<T>,
}

impl<T> View for SpriteHandles<T> {
    type V = Seq<T>;

    closed spec fn view(&self) -> Seq<T> {
        self.sprites@
    }
}

impl<T> SpriteHandles<T> {
    /// The identity of this table.
    pub closed spec fn id(&self) -> u64 {
        self.id
    }
}

/// What `handle` resolves to in the table of identity `id` holding `table`.
pub open spec fn resolve<T>(id: u64, table: Seq<T>, handle: SpriteHandle) -> Option<T> {
    if handle.table_id() == id && handle.slot() < table.len() {
        Some(table[handle.slot() as int])
    } else {
        None
    }
}

/// The handle issued for the payload registered next in the table of identity `id`
/// holding `table`.
pub closed spec fn next_handle<T>(id: u64, table: Seq<T>) -> SpriteHandle {
    SpriteHandle { table: id, index: table.len() as usize }
}

/// The next handle of a table belongs to that table and names the slot past its end.
pub proof fn lemma_next_handle<T>(id: u64, table: Seq<T>)
    requires
        table.len() < usize::MAX,
    ensures
        next_handle(id, table).table_id() == id,
        next_handle(id, table).slot() == table.len(),
{
}

impl<T> SpriteHandles<T> {
    /// Creates an empty table of identity `id`.
    pub fn new(id: u64) -> (r: Self)
        ensures
            r@ == Seq::<T>::empty(),
            r.id() == id,
    {
        SpriteHandles { id, sprites: Vec::new() }
    }

    /// Resolves `handle` to the payload it names, if this table issued it.
    pub fn get(&self, handle: &SpriteHandle) -> (r: Option<&T>)
        ensures
            r.is_some() == resolve(self.id(), self@, *handle).is_some(),
            r.is_some() ==> *r.unwrap() == resolve(self.id(), self@, *handle).unwrap(),
    {
        if handle.table == self.id && handle.index < self.sprites.len() {
            Some(&self.sprites[handle.index])
        } else {
            None
        }
    }

    /// Stores `sprite` and returns a handle to it.
    pub fn add(&mut self, sprite: T) -> (h: SpriteHandle)
        requires
            old(self)@.len() < usize::MAX,
        ensures
            final(self)@ == old(self)@.push(sprite),
            final(self).id() == old(self).id(),
            h == next_handle(old(self).id(), old(self)@),
            resolve(final(self).id(), final(self)@, h) == Some(sprite),
    {
        let h = SpriteHandle { table: self.id, index: self.sprites.len() };
        self.sprites.push(sprite);
        proof {
            assert(self@[old(self)@.len() as int] == sprite);
        }
        h
    }
}

/// Registering a payload keeps every handle resolving as it did, the new handle
/// resolves to the payload, and it equals no handle the table issued before.
pub proof fn lemma_register_keeps_handles<T>(id: u64, table: Seq<T>, payload: T, earlier: SpriteHandle)
    requires
        table.len() < usize::MAX,
    ensures
        resolve(id, table.push(payload), next_handle(id, table)) == Some(payload),
        resolve(id, table, earlier).is_some() ==> resolve(id, table.push(payload), earlier)
            == resolve(id, table, earlier),
        resolve(id, table, earlier).is_some() ==> next_handle(id, table) != earlier,
{
}

/// Handles issued by tables of different identities are never equal, and a table
/// never resolves a handle that another table issued.
pub proof fn lemma_separate_tables<T>(id1: u64, table1: Seq<T>, id2: u64, table2: Seq<T>)
    requires
        id1 != id2,
        table1.len() < usize::MAX,
        table2.len() < usize::MAX,
    ensures
        next_handle(id1, table1) != next_handle(id2, table2),
        forall|t: Seq<T>| resolve(id2, t, next_handle(id1, table1)).is_none(),
{
}

/// The table of identity `id` after registering each payload of `payloads` in turn,
/// and the handles issued.
pub open spec fn register_all<T>(id: u64, table: Seq<T>, payloads: Seq<T>) -> (Seq<T>, Seq<SpriteHandle>)
    decreases payloads.len(),
{
    if payloads.len() == 0 {
        (table, Seq::empty())
    } else {
        let (t, hs) = register_all(id, table, payloads.drop_last());
        (t.push(payloads.last()), hs.push(next_handle(id, t)))
    }
}

/// After any sequence of registrations, every handle issued resolves to the payload it
/// was issued for, and handles issued by different registrations are never equal.
pub proof fn lemma_register_all<T>(id: u64, table: Seq<T>, payloads: Seq<T>)
    requires
        table.len() + payloads.len() < usize::MAX,
    ensures
        register_all(id, table, payloads).0 == table + payloads,
        register_all(id, table, payloads).1.len() == payloads.len(),
        forall|i: int|
            0 <= i < payloads.len() ==> resolve(id, register_all(id, table, payloads).0,
                #[trigger] register_all(id, table, payloads).1[i]) == Some(payloads[i]),
        forall|i: int, j: int|
            0 <= i < payloads.len() && 0 <= j < payloads.len() && i != j
                ==> register_all(id, table, payloads).1[i] != register_all(id, table, payloads).1[j],
{
    lemma_handle_slots(id, table, payloads);
    let hs = register_all(id, table, payloads).1;
    assert forall|i: int| 0 <= i < payloads.len() implies resolve(id, register_all(id, table, payloads).0,
        #[trigger] hs[i]) == Some(payloads[i]) by {
        assert((table + payloads)[table.len() + i] == payloads[i]);
    }
}

proof fn lemma_handle_slots<T>(id: u64, table: Seq<T>, payloads: Seq<T>)
    requires
        table.len() + payloads.len() < usize::MAX,
    ensures
        register_all(id, table, payloads).0 == table + payloads,
        register_all(id, table, payloads).1.len() == payloads.len(),
        forall|i: int|
            0 <= i < payloads.len() ==> (#[trigger] register_all(id, table, payloads).1[i]).slot()
                == table.len() + i && register_all(id, table, payloads).1[i].table_id() == id,
    decreases payloads.len(),
{
    if payloads.len() == 0 {
        assert(table + payloads =~= table);
    } else {
        let prefix = payloads.drop_last();
        lemma_handle_slots(id, table, prefix);
        assert(table + payloads =~= (table + prefix).push(payloads.last()));
    }
}

/// Hands out table identities, each one once.
#[derive(Clone, Copy, PartialEq, Eq, Structural, Debug)]
pub struct SpriteTableIds {
    next: u64,
}

impl SpriteTableIds {
    /// The identity handed out next; every identity handed out so far is below it.
    pub closed spec fn next_id(self) -> u64 {
        self.next
    }

    /// An issuer that has handed out nothing.
    pub fn new() -> (r: Self)
        ensures
            r.next_id() == 0,
    {
        SpriteTableIds { next: 0 }
    }

    /// Hands out a new identity, above every one handed out before; `None` once all
    /// identities are used up.
    pub fn issue(&mut self) -> (r: Option<u64>)
        ensures
            old(self).next_id() < u64::MAX ==> r == Some(old(self).next_id()) && final(self).next_id()
                == old(self).next_id() + 1,
            old(self).next_id() == u64::MAX ==> r.is_none() && *final(self) == *old(self),
    {
        if self.next == u64::MAX {
            return None;
        }
        let id = self.next;
        self.next = self.next + 1;
        Some(id)
    }

    /// Makes an empty table with a new identity; `None` once all identities are used up.
    pub fn new_table<T>(&mut self) -> (r: Option<SpriteHandles<T>>)
        ensures
            old(self).next_id() < u64::MAX ==> r.is_some() && r.unwrap().id() == old(self).next_id()
                && r.unwrap()@ == Seq::<T>::empty() && final(self).next_id() == old(self).next_id() + 1,
            old(self).next_id() == u64::MAX ==> r.is_none() && *final(self) == *old(self),
    {
        match self.issue() {
            Some(id) => Some(SpriteHandles::new(id)),
            None => None,
        }
    }
}

/// Per-entity drawable state.
#[derive(Clone, Copy, PartialEq, Eq, Structural, Debug)]
pub struct Sprite {
    /// Handle to the sprite graphics data.
    pub handle: SpriteHandle,
    /// Whether the sprite is horizontally flipped.
    pub horizontal_flipped: bool,
    /// Whether the sprite is vertically flipped.
    pub vertical_flipped: bool,
    /// Whether the sprite is visible.
    pub visible: bool,
    /// The draw priority of this sprite.
    pub priority: Priority,
    /// The graphics mode of this sprite.
    pub graphics_mode: GraphicsMode,
}

impl Sprite {
    /// Creates a visible, unflipped sprite of front priority and normal mode.
    pub fn new(handle: SpriteHandle) -> (r: Self)
        ensures
            r == (Sprite {
                handle,
                horizontal_flipped: false,
                vertical_flipped: false,
                visible: true,
                priority: Priority::P0,
                graphics_mode: GraphicsMode::Normal,
            }),
    {
        Sprite {
            handle,
            horizontal_flipped: false,
            vertical_flipped: false,
            visible: true,
            priority: Priority::P0,
            graphics_mode: GraphicsMode::Normal,
        }
    }
}

/// An entity to composite: its sprite and its position in whole device coordinates.
#[derive(Clone, Copy, PartialEq, Eq, Structural, Debug)]
pub struct Drawable {
    pub sprite: Sprite,
    pub x: i32,
    pub y: i32,
}

/// What is written into one hardware object slot.
#[derive(Clone, Copy, PartialEq, Eq, Structural, Debug)]
pub struct ObjectAttributes {
    pub handle: SpriteHandle,
    pub x: i32,
    pub y: i32,
    pub horizontal_flipped: bool,
    pub vertical_flipped: bool,
    pub priority: Priority,
    pub graphics_mode: GraphicsMode,
}

/// The objects of one frame, in slot order, and whether the slots ran out.
pub struct Frame {
    pub objects: Vec<ObjectAttributes>,
    pub out_of_slots: bool,
}

/// Whether `d` takes a slot: its handle resolves in the table of identity `id` with
/// `table_len` payloads, and it is visible.
pub open spec fn takes_slot(id: u64, table_len: nat, d: Drawable) -> bool {
    d.sprite.handle.table_id() == id && d.sprite.handle.slot() < table_len && d.sprite.visible
}

/// The object that `d` is drawn as.
pub open spec fn attributes_of(d: Drawable) -> ObjectAttributes {
    ObjectAttributes {
        handle: d.sprite.handle,
        x: d.x,
        y: d.y,
        horizontal_flipped: d.sprite.horizontal_flipped,
        vertical_flipped: d.sprite.vertical_flipped,
        priority: d.sprite.priority,
        graphics_mode: d.sprite.graphics_mode,
    }
}

/// The objects of all entities of `ds` that take a slot, in iteration order.
pub open spec fn placed(id: u64, table_len: nat, ds: Seq<Drawable>) -> Seq<ObjectAttributes>
    decreases ds.len(),
{
    if ds.len() == 0 {
        Seq::empty()
    } else if takes_slot(id, table_len, ds.last()) {
        placed(id, table_len, ds.drop_last()).push(attributes_of(ds.last()))
    } else {
        placed(id, table_len, ds.drop_last())
    }
}

/// The frame drawn from `ds` with `slots` object slots: the first `slots` objects
/// that take a slot, and whether any further one was left out.
pub open spec fn composite(id: u64, table_len: nat, ds: Seq<Drawable>, slots: nat) -> (Seq<ObjectAttributes>, bool) {
    let all = placed(id, table_len, ds);
    if all.len() <= slots {
        (all, false)
    } else {
        (all.take(slots as int), true)
    }
}

proof fn lemma_placed_prefix(id: u64, table_len: nat, ds: Seq<Drawable>, i: int)
    requires
        0 <= i <= ds.len(),
    ensures
        placed(id, table_len, ds.take(i)).len() <= placed(id, table_len, ds).len(),
        placed(id, table_len, ds).take(placed(id, table_len, ds.take(i)).len() as int)
            == placed(id, table_len, ds.take(i)),
    decreases ds.len() - i,
{
    if i == ds.len() {
        assert(ds.take(i) =~= ds);
    } else {
        lemma_placed_prefix(id, table_len, ds, i + 1);
        assert(ds.take(i + 1).drop_last() =~= ds.take(i));
        assert(ds.take(i + 1).last() == ds[i]);
        let p = placed(id, table_len, ds.take(i));
        let q = placed(id, table_len, ds.take(i + 1));
        let all = placed(id, table_len, ds);
        assert(all.take(p.len() as int) =~= q.take(p.len() as int));
        assert(q.take(p.len() as int) =~= p);
    }
}

/// Composites `drawables`, in order, into at most `slots` hardware object slots.
///
/// An entity whose handle `table` did not issue, or that is not visible,
/// takes no slot. When an entity that takes a slot finds none left, compositing
/// stops and the frame reports that the slots ran out.
pub fn render_objects<T>(table: &SpriteHandles<T>, drawables: &Vec<Drawable>, slots: usize) -> (r: Frame)
    ensures
        (r.objects@, r.out_of_slots) == composite(table.id(), table@.len(), drawables@, slots as nat),
{
    let ghost n = table@.len();
    let ghost id = table.id();
    let mut objects: Vec<ObjectAttributes> = Vec::new();
    let mut i: usize = 0;
    while i < drawables.len()
        invariant
            n == table@.len(),
            id == table.id(),
            0 <= i <= drawables@.len(),
            objects@ == placed(id, n, drawables@.take(i as int)),
            objects@.len() <= slots,
        decreases drawables@.len() - i,
    {
        let d = drawables[i];
        proof {
            assert(drawables@.take(i + 1).drop_last() =~= drawables@.take(i as int));
            assert(drawables@.take(i + 1).last() == d);
        }
        if table.get(&d.sprite.handle).is_none() || !d.sprite.visible {
            i = i + 1;
        } else {
            let obj = ObjectAttributes {
                handle: d.sprite.handle,
                x: d.x,
                y: d.y,
                horizontal_flipped: d.sprite.horizontal_flipped,
                vertical_flipped: d.sprite.vertical_flipped,
                priority: d.sprite.priority,
                graphics_mode: d.sprite.graphics_mode,
            };
            if objects.len() == slots {
                proof {
                    lemma_placed_prefix(id, n, drawables@, i + 1);
                    let q = placed(id, n, drawables@.take(i + 1));
                    let all = placed(id, n, drawables@);
                    assert(all.take(slots as int) =~= q.take(slots as int));
                    assert(q.take(slots as int) =~= objects@);
                }
                return Frame { objects, out_of_slots: true };
            }
            objects.push(obj);
            i = i + 1;
        }
    }
    proof {
        assert(drawables@.take(i as int) =~= drawables@);
    }
    Frame { objects, out_of_slots: false }
}

/// With more entities that take a slot than there are slots, exactly the first
/// `slots` of them are drawn, in iteration order, the rest are left out, and the
/// frame reports the shortage once.
pub proof fn lemma_excess_drawables_truncated(id: u64, table_len: nat, ds: Seq<Drawable>, slots: nat)
    requires
        placed(id, table_len, ds).len() > slots,
    ensures
        composite(id, table_len, ds, slots).0.len() == slots,
        composite(id, table_len, ds, slots).0 == placed(id, table_len, ds).take(slots as int),
        composite(id, table_len, ds, slots).1,
{
}

/// With no more entities that take a slot than there are slots, all of them are
/// drawn and no shortage is reported.
pub proof fn lemma_enough_slots(id: u64, table_len: nat, ds: Seq<Drawable>, slots: nat)
    requires
        placed(id, table_len, ds).len() <= slots,
    ensures
        composite(id, table_len, ds, slots) == (placed(id, table_len, ds), false),
{
}

/// Sets up rendering: the sprite table and the per-frame compositing.
#[derive(Clone, Copy, PartialEq, Eq, Structural, Debug, Default)]
pub struct AgbRenderPlugin;

impl AgbRenderPlugin {
    /// Takes the display handle out of `registry` and, when it was there, returns
    /// the empty sprite table to expose beside it.
    /// The table gets the identity `table_id`.
    pub fn finish<T>(&self, registry: &mut HardwareRegistry, table_id: u64) -> (r: Option<SpriteHandles<T>>)
        ensures
            final(registry)@ == old(registry)@.remove(Hardware::Display),
            r.is_some() == old(registry)@.contains(Hardware::Display),
            r.is_some() ==> r.unwrap()@ == Seq::<T>::empty() && r.unwrap().id() == table_id,
    {
        if !registry.take(Hardware::Display) {
            return None;
        }
        Some(SpriteHandles::new(table_id))
    }
}

} // verus!
