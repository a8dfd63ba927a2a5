//! Stateful, releasable iteration over the dataset's item collection.
//!
//! A cursor takes a snapshot of the collection's keys when it is created,
//! so its validity never depends on borrowing the live collection. Each
//! call yields the next id; an exhausted cursor yields a reserved end
//! sentinel, and keeps yielding it on every later call. The item table
//! gives no order guarantee, so a cursor promises completeness and
//! uniqueness of the yielded ids, not a particular order.

use vstd::prelude::*;

use crate::dataset::Dataset;

verus! {

/// Yielded by an exhausted cursor: the maximum representable id, which no
/// item of a well-formed dataset carries.
pub const VDEX_ITEM_ITER_END: u16 = 0xFFFF;

/// An owning cursor over the ids of the dataset's item collection.
pub struct VDexItemIter {
    ids: Vec<u16>,
    pos: usize,
}

impl VDexItemIter {
    /// The snapshot of ids the cursor was created over.
    pub closed spec fn ids(self) -> Seq<u16> {
        self.ids@
    }

    /// How many elements have been yielded so far.
    pub closed spec fn pos(self) -> int {
        self.pos as int
    }

    pub closed spec fn wf(self) -> bool {
        &&& self.pos <= self.ids@.len()
        &&& forall|i: int, j: int|
            #![auto]
            0 <= i < j < self.ids@.len() ==> self.ids@[i] != self.ids@[j]
        &&& forall|i: int| #![auto] 0 <= i < self.ids@.len() ==> self.ids@[i] != VDEX_ITEM_ITER_END
    }
}

/// The `k`-th element a fresh cursor over `ids` yields: the ids in order,
/// then the end sentinel on every later call.
pub open spec fn cursor_yield(ids: Seq<u16>, k: int) -> u16 {
    if 0 <= k < ids.len() {
        ids[k]
    } else {
        VDEX_ITEM_ITER_END
    }
}

/// Creates a cursor positioned before the first id of the dataset's item
/// collection, over a snapshot of the collection's keys.
pub fn vdex_item_iter(dex: &Dataset) -> (it: VDexItemIter)
    requires
        dex.wf(),
    ensures
        it.wf(),
        it.ids() == dex.item_ids(),
        it.pos() == 0,
{
    let n = dex.items.len();
    let mut ids: Vec<u16> = Vec::new();
    let mut i: usize = 0;
    while i < n
        invariant
            n == dex.items@.len(),
            i <= n,
            ids@.len() == i,
            forall|j: int| #![auto] 0 <= j < i ==> ids@[j] == dex.items@[j].id,
        decreases n - i,
    {
        ids.push(dex.items[i].id);
        i = i + 1;
    }
    proof {
        assert(ids@ =~= dex.item_ids());
    }
    VDexItemIter { ids, pos: 0 }
}

/// Advances the cursor and returns the next id, or the end sentinel once
/// the snapshot is exhausted; an exhausted cursor stays exhausted.
pub fn vdex_item_next(it: &mut VDexItemIter) -> (r: u16)
    requires
        old(it).wf(),
    ensures
        final(it).wf(),
        final(it).ids() == old(it).ids(),
        r == cursor_yield(old(it).ids(), old(it).pos()),
        old(it).pos() < old(it).ids().len() ==> final(it).pos() == old(it).pos() + 1,
        old(it).ids().len() <= old(it).pos() ==> final(it).pos() == old(it).pos(),
{
    if it.pos < it.ids.len() {
        let r = it.ids[it.pos];
        it.pos = it.pos + 1;
        r
    } else {
        VDEX_ITEM_ITER_END
    }
}

/// Releases a cursor and nulls the caller's reference in place, so a
/// second free of the same reference is a defined no-op.
pub fn vdex_free_item_iter(it: &mut Option<VDexItemIter>)
    ensures
        *final(it) is None,
{
    *it = None;
}

/// Cursor completeness law: a cursor over a collection of `N` unique keys
/// yields exactly `N` distinct elements, each an id of the source
/// collection, and from the `N`-th call on yields only the end sentinel.
pub proof fn lemma_cursor_completeness(dex: Dataset)
    requires
        dex.wf(),
    ensures
        forall|k1: int, k2: int|
            0 <= k1 < k2 < dex.item_ids().len() ==> cursor_yield(dex.item_ids(), k1)
                != cursor_yield(dex.item_ids(), k2),
        forall|k: int|
            0 <= k < dex.item_ids().len() ==> dex.has_item(cursor_yield(dex.item_ids(), k)),
        forall|k: int| dex.item_ids().len() <= k ==> cursor_yield(dex.item_ids(), k)
            == VDEX_ITEM_ITER_END,
{
    assert forall|k1: int, k2: int| 0 <= k1 < k2 < dex.item_ids().len() implies cursor_yield(
        dex.item_ids(),
        k1,
    ) != cursor_yield(dex.item_ids(), k2) by {
        assert(cursor_yield(dex.item_ids(), k1) == dex.items@[k1].id);
        assert(cursor_yield(dex.item_ids(), k2) == dex.items@[k2].id);
        assert(dex.items@[k1].id != dex.items@[k2].id);
    }
    assert forall|k: int| 0 <= k < dex.item_ids().len() implies dex.has_item(
        cursor_yield(dex.item_ids(), k),
    ) by {
        assert(cursor_yield(dex.item_ids(), k) == dex.items@[k].id);
        assert(0 <= k < dex.items@.len() && dex.items@[k].id == cursor_yield(dex.item_ids(), k));
    }
}

} // verus!
