//! The entity store: an arena of slots addressed by generation-counted
//! handles. Destroying a slot frees it; reusing a freed slot bumps its
//! generation, so a stale handle can never reach the new occupant.

use vstd::prelude::*;

use crate::entity::Entity;

verus! {

/// An opaque reference to an entity: a slot index plus the generation the
/// slot had when the entity was created. It stays valid until the entity
/// is destroyed.
#[derive(Clone, Copy, PartialEq, Eq, Structural, Debug)]
pub struct Handle {
    pub index: usize,
    pub gen: u64,
}

/// One arena slot: its current generation and its occupant, if any.
#[derive(Clone, Copy, PartialEq, Eq, Structural, Debug)]
pub struct Slot {
    pub gen: u64,
    pub state: Option<Entity>,
}

/// The arena of all live game objects.
pub struct EntityStore {
    pub slots: Vec<Slot>,
}

impl EntityStore {
    /// Whether `h` refers to a live entity.
    pub open spec fn valid(self, h: Handle) -> bool {
        &&& h.index < self.slots@.len()
        &&& self.slots@[h.index as int].gen == h.gen
        &&& self.slots@[h.index as int].state is Some
    }

    /// The entity `h` refers to.
    pub open spec fn at(self, h: Handle) -> Entity
        recommends
            self.valid(h),
    {
        self.slots@[h.index as int].state->Some_0
    }

    /// The handle of slot `i`, live or not.
    pub open spec fn handle_of(self, i: int) -> Handle {
        Handle { index: i as usize, gen: self.slots@[i].gen }
    }

    /// Whether slot `i` holds a live entity.
    pub open spec fn live_at(self, i: int) -> bool {
        0 <= i < self.slots@.len() && self.slots@[i].state is Some
    }

    /// Whether `h`'s slot has moved past it: either the slot's generation
    /// has outgrown the handle's, or the slot stands free at the handle's
    /// generation. Every destroyed handle is retired, slot generations
    /// only grow, and every operation's contract preserves retirement —
    /// so a retired handle is invalid now and in every later state.
    pub open spec fn retired(self, h: Handle) -> bool {
        h.index < self.slots@.len() && (self.slots@[h.index as int].gen > h.gen || (self.slots@[
            h.index as int
        ].gen == h.gen && self.slots@[h.index as int].state is None))
    }

    /// A retired handle is not live.
    pub proof fn lemma_retired_not_valid(self, h: Handle)
        requires
            self.retired(h),
        ensures
            !self.valid(h),
    {
    }

    pub fn new() -> (s: Self)
        ensures
            s.slots@.len() == 0,
            forall|h: Handle| !s.valid(h),
    {
        EntityStore { slots: Vec::new() }
    }

    /// How many slots the arena holds, free ones included.
    pub fn slot_count(&self) -> (n: usize)
        ensures
            n == self.slots@.len(),
    {
        self.slots.len()
    }

    /// The live entry of slot `i`, if slot `i` is occupied.
    pub fn entry_at(&self, i: usize) -> (r: Option<(Handle, Entity)>)
        requires
            i < self.slots@.len(),
        ensures
            r is Some <==> self.live_at(i as int),
            r is Some ==> {
                &&& r->Some_0.0 == self.handle_of(i as int)
                &&& self.valid(r->Some_0.0)
                &&& r->Some_0.1 == self.at(r->Some_0.0)
            },
    {
        let slot = self.slots[i];
        match slot.state {
            Some(e) => Some((Handle { index: i, gen: slot.gen }, e)),
            None => None,
        }
    }

    /// The entity behind `h`, or None if `h` is stale or unknown.
    pub fn get(&self, h: Handle) -> (r: Option<Entity>)
        ensures
            r is Some <==> self.valid(h),
            r is Some ==> r->Some_0 == self.at(h),
    {
        if h.index < self.slots.len() {
            let slot = self.slots[h.index];
            if slot.gen == h.gen {
                slot.state
            } else {
                None
            }
        } else {
            None
        }
    }

    /// Creates a new entity and returns its handle. A freed slot may be
    /// reused; its generation is bumped first, so handles to the slot's
    /// earlier occupants stay invalid: every retired handle stays
    /// retired, and the returned handle is not one of them.
    pub fn create(&mut self, e: Entity) -> (h: Handle)
        ensures
            final(self).valid(h),
            !old(self).valid(h),
            !old(self).retired(h),
            final(self).at(h) == e,
            forall|h2: Handle| h2 != h ==> (final(self).valid(h2) <==> old(self).valid(h2)),
            forall|h2: Handle|
                h2 != h && old(self).valid(h2) ==> final(self).at(h2) == old(self).at(h2),
            forall|h2: Handle| final(self).valid(h2) <==> old(self).valid(h2) || h2 == h,
            forall|h2: Handle| old(self).retired(h2) ==> final(self).retired(h2),
    {
        let n = self.slots.len();
        let mut i: usize = 0;
        while i < n
            invariant
                n == self.slots@.len(),
                i <= n,
                self.slots@ == old(self).slots@,
            decreases n - i,
        {
            let slot = self.slots[i];
            if slot.state.is_none() && slot.gen < u64::MAX {
                let h = Handle { index: i, gen: slot.gen + 1 };
                self.slots.set(i, Slot { gen: slot.gen + 1, state: Some(e) });
                assert(final(self).valid(h));
                assert(forall|h2: Handle|
                    h2 != h ==> (final(self).valid(h2) <==> old(self).valid(h2)));
                return h;
            }
            i = i + 1;
        }
        let h = Handle { index: n, gen: 0 };
        self.slots.push(Slot { gen: 0, state: Some(e) });
        h
    }

    /// Destroys the entity behind `h`. A stale or unknown handle is a
    /// harmless no-op, so a batch of destroy requests needs no ordering.
    /// A destroyed handle is retired for good.
    pub fn destroy(&mut self, h: Handle)
        ensures
            !final(self).valid(h),
            old(self).valid(h) ==> final(self).retired(h),
            forall|h2: Handle| h2 != h ==> (final(self).valid(h2) <==> old(self).valid(h2)),
            forall|h2: Handle|
                h2 != h && old(self).valid(h2) ==> final(self).at(h2) == old(self).at(h2),
            forall|h2: Handle| final(self).valid(h2) <==> old(self).valid(h2) && h2 != h,
            forall|h2: Handle| old(self).retired(h2) ==> final(self).retired(h2),
            final(self).slots@.len() == old(self).slots@.len(),
    {
        if h.index < self.slots.len() {
            let slot = self.slots[h.index];
            if slot.gen == h.gen && slot.state.is_some() {
                self.slots.set(h.index, Slot { gen: slot.gen, state: None });
            }
        }
    }

    /// Replaces the entity behind `h`; returns false (and changes nothing)
    /// if `h` is stale or unknown.
    pub fn update(&mut self, h: Handle, e: Entity) -> (r: bool)
        ensures
            r <==> old(self).valid(h),
            forall|h2: Handle| final(self).valid(h2) <==> old(self).valid(h2),
            r ==> final(self).at(h) == e,
            forall|h2: Handle|
                h2 != h && old(self).valid(h2) ==> final(self).at(h2) == old(self).at(h2),
            forall|h2: Handle| old(self).retired(h2) ==> final(self).retired(h2),
            final(self).slots@.len() == old(self).slots@.len(),
    {
        if h.index < self.slots.len() {
            let slot = self.slots[h.index];
            if slot.gen == h.gen && slot.state.is_some() {
                self.slots.set(h.index, Slot { gen: slot.gen, state: Some(e) });
                return true;
            }
        }
        false
    }

    /// The handles of all live entities, in slot order.
    pub fn live_handles(&self) -> (v: Vec<Handle>)
        ensures
            forall|k: int| 0 <= k < v@.len() ==> self.valid(#[trigger] v@[k]),
            forall|h: Handle| self.valid(h) ==> v@.contains(h),
            forall|k1: int, k2: int| 0 <= k1 < k2 < v@.len() ==> v@[k1].index < v@[k2].index,
    {
        let mut v: Vec<Handle> = Vec::new();
        let n = self.slots.len();
        let mut i: usize = 0;
        while i < n
            invariant
                n == self.slots@.len(),
                i <= n,
                forall|k: int| 0 <= k < v@.len() ==> self.valid(#[trigger] v@[k]),
                forall|k: int| 0 <= k < v@.len() ==> (#[trigger] v@[k]).index < i,
                forall|h: Handle| self.valid(h) && h.index < i ==> v@.contains(h),
                forall|k1: int, k2: int| 0 <= k1 < k2 < v@.len() ==> v@[k1].index < v@[k2].index,
            decreases n - i,
        {
            let slot = self.slots[i];
            if slot.state.is_some() {
                let h = Handle { index: i, gen: slot.gen };
                let ghost prev = v@;
                v.push(h);
                proof {
                    assert forall|h2: Handle| prev.contains(h2) implies v@.contains(h2) by {
                        let k = choose|k: int| 0 <= k < prev.len() && prev[k] == h2;
                        assert(v@[k] == h2);
                    }
                    assert(v@[v@.len() - 1] == h);
                    assert(forall|h2: Handle|
                        self.valid(h2) && h2.index < i + 1 ==> h2.index < i || h2 == h);
                }
            }
            i = i + 1;
        }
        assert(forall|h: Handle| self.valid(h) ==> h.index < n);
        v
    }
}

} // verus!
