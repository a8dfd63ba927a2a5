//! Generation-checked owning handles.
//!
//! An owning handle stands for a heap-held value the caller cannot name
//! directly, and crosses the boundary by value. Instead of a raw address,
//! a handle names a slot of a [`HandleTable`] together with the generation
//! at which the slot was filled; the table bumps a slot's generation when
//! the slot is freed, so a stale handle is detected — access after free
//! reports failure, and a double free is a no-op — rather than touching
//! freed memory.

use vstd::prelude::*;

verus! {

/// An opaque owning handle: a slot index and the generation at which that
/// slot was filled.
#[derive(Clone, Copy, Debug, PartialEq, Eq, Structural)]
pub struct Handle {
    pub index: usize,
    pub generation: u64,
}

/// An arena of owned values, addressed by generation-checked handles.
/// Freed slots are reused under a fresh generation; a slot whose
/// generation counter is exhausted is retired rather than reused.
pub struct HandleTable<T> {
    slots: Vec<Option<T>>,
    generations: Vec<u64>,
}

impl<T> HandleTable<T> {
    pub closed spec fn wf(self) -> bool {
        self.slots@.len() == self.generations@.len()
    }

    /// Whether `h` currently stands for a value this table owns.
    pub closed spec fn valid(self, h: Handle) -> bool {
        &&& (h.index as int) < self.slots@.len()
        &&& self.generations@[h.index as int] == h.generation
        &&& self.slots@[h.index as int] is Some
    }

    /// The value a valid handle stands for.
    pub closed spec fn value_of(self, h: Handle) -> T {
        self.slots@[h.index as int]->Some_0
    }

    /// An empty table, owning nothing; no handle is valid for it.
    pub fn new() -> (t: Self)
        ensures
            t.wf(),
            forall|h: Handle| !t.valid(h),
    {
        HandleTable { slots: Vec::new(), generations: Vec::new() }
    }

    /// Takes ownership of `value` and hands back a handle to it. Every
    /// handle that was valid before stays valid and keeps its value.
    #[verifier::loop_isolation(false)]
    pub fn insert(&mut self, value: T) -> (h: Handle)
        requires
            old(self).wf(),
        ensures
            final(self).wf(),
            final(self).valid(h),
            final(self).value_of(h) == value,
            !old(self).valid(h),
            forall|g: Handle| g != h ==> (final(self).valid(g) <==> old(self).valid(g)),
            forall|g: Handle|
                g != h && old(self).valid(g) ==> final(self).value_of(g) == old(self).value_of(g),
    {
        let ghost pre = *self;
        let n = self.slots.len();
        let mut i: usize = 0;
        while i < n
            invariant
                *self == pre,
                pre.wf(),
                n == self.slots@.len(),
                i <= n,
            decreases n - i,
        {
            if self.slots[i].is_none() && self.generations[i] < u64::MAX {
                let generation = self.generations[i];
                self.slots.set(i, Some(value));
                proof {
                    assert(self.slots@ == pre.slots@.update(i as int, Some(value)));
                    assert(self.generations@ == pre.generations@);
                    let hh = Handle { index: i, generation };
                    assert forall|g: Handle| g != hh implies (self.valid(g) <==> pre.valid(
                        g,
                    )) by {
                        if g.index == i {
                            assert(g.generation != generation);
                        }
                    }
                }
                return Handle { index: i, generation };
            }
            i = i + 1;
        }
        self.slots.push(Some(value));
        self.generations.push(0);
        Handle { index: n, generation: 0 }
    }

    /// Gives up the value `h` stands for, if `h` is still valid, and
    /// retires the handle: the slot's generation is bumped, so `h` can
    /// never come back to life. Freeing an invalid (or already freed)
    /// handle is a detected no-op. Every other valid handle stays valid
    /// and keeps its value.
    pub fn free(&mut self, h: Handle) -> (freed: bool)
        requires
            old(self).wf(),
        ensures
            final(self).wf(),
            freed == old(self).valid(h),
            !final(self).valid(h),
            forall|g: Handle|
                final(self).valid(g) ==> old(self).valid(g) && final(self).value_of(g) == old(
                    self,
                ).value_of(g),
            forall|g: Handle| old(self).valid(g) && g != h ==> final(self).valid(g),
    {
        if h.index >= self.slots.len() {
            return false;
        }
        if self.generations[h.index] != h.generation {
            return false;
        }
        if self.slots[h.index].is_none() {
            return false;
        }
        self.slots.set(h.index, None);
        let generation = self.generations[h.index];
        if generation < u64::MAX {
            self.generations.set(h.index, generation + 1);
        }
        true
    }

    /// The value `h` stands for, or nothing when `h` is null, stale or
    /// foreign: accessing a freed handle is detected, not undefined.
    pub fn access(&self, h: Handle) -> (r: Option<&T>)
        requires
            self.wf(),
        ensures
            match r {
                Some(v) => self.valid(h) && *v == self.value_of(h),
                None => !self.valid(h),
            },
    {
        if h.index >= self.slots.len() {
            return None;
        }
        if self.generations[h.index] != h.generation {
            return None;
        }
        match &self.slots[h.index] {
            Some(v) => Some(v),
            None => None,
        }
    }

    /// Releases whatever `h` held, then takes ownership of a fresh copy of
    /// `value`, updating `h` in place to the new handle. The old handle,
    /// if it was valid, is dead afterwards.
    #[verifier::loop_isolation(false)]
    pub fn init(&mut self, h: &mut Handle, value: T)
        requires
            old(self).wf(),
        ensures
            final(self).wf(),
            final(self).valid(*final(h)),
            final(self).value_of(*final(h)) == value,
            old(self).valid(*old(h)) ==> *final(h) != *old(h) && !final(self).valid(*old(h)),
            forall|g: Handle|
                g != *old(h) && g != *final(h) ==> (final(self).valid(g) <==> old(self).valid(g)),
            forall|g: Handle|
                g != *old(h) && g != *final(h) && old(self).valid(g) ==> final(self).value_of(g)
                    == old(self).value_of(g),
    {
        let ghost pre = *self;
        let ghost stale = *h;
        if h.index < self.slots.len() && self.generations[h.index] == h.generation
            && self.slots[h.index].is_some() {
            self.slots.set(h.index, None);
            let generation = self.generations[h.index];
            if generation < u64::MAX {
                self.generations.set(h.index, generation + 1);
            }
        }
        let n = self.slots.len();
        let mut i: usize = 0;
        while i < n
            invariant
                pre.wf(),
                self.wf(),
                n == self.slots@.len(),
                i <= n,
                self.slots@.len() == pre.slots@.len(),
                pre.valid(stale) ==> !self.valid(stale) && (self.generations@[stale.index as int]
                    != stale.generation || self.generations@[stale.index as int] == u64::MAX),
                forall|g: Handle| g != stale ==> (self.valid(g) <==> pre.valid(g)),
                forall|g: Handle|
                    g != stale && pre.valid(g) ==> self.value_of(g) == pre.value_of(g),
            decreases n - i,
        {
            if self.slots[i].is_none() && self.generations[i] < u64::MAX {
                let ghost mid = *self;
                let generation = self.generations[i];
                self.slots.set(i, Some(value));
                *h = Handle { index: i, generation };
                proof {
                    assert(self.slots@ == mid.slots@.update(i as int, Some(value)));
                    assert(self.generations@ == mid.generations@);
                    let hh = Handle { index: i, generation };
                    if pre.valid(stale) {
                        if stale.index == i {
                            assert(mid.generations@[stale.index as int] != stale.generation);
                        }
                        assert(hh != stale && !self.valid(stale));
                    }
                    assert forall|g: Handle| g != stale && g != hh implies (self.valid(g)
                        <==> pre.valid(g)) by {
                        if g.index == i {
                            assert(g.generation != generation);
                        }
                    }
                    assert forall|g: Handle| g != stale && g != hh && pre.valid(g) implies
                        self.value_of(g) == pre.value_of(g) by {
                        assert(mid.valid(g));
                        assert(g.index != i);
                    }
                }
                return ;
            }
            i = i + 1;
        }
        self.slots.push(Some(value));
        self.generations.push(0);
        *h = Handle { index: n, generation: 0 };
    }
}

} // verus!
