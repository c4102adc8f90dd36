//! Slots: each holds the resources of one connection, and one connection at a time may use it.
//!
//! A slot counts the grants that are out. It is taken as long as there is one, and free again as
//! soon as the last one is dropped.

use vstd::prelude::*;

verus! {

/// What a slot guard holds.
pub struct SlotView {
    /// Whether the slot is taken.
    pub acquired: bool,
    /// How many grants are out.
    pub grants: nat,
}

impl SlotView {
    /// A slot that nobody uses.
    pub open spec fn free() -> SlotView {
        SlotView { acquired: false, grants: 0 }
    }

    /// The slot is taken exactly as long as there are grants.
    pub open spec fn inv(self) -> bool {
        self.acquired <==> self.grants > 0
    }

    /// The slot after it was taken.
    pub open spec fn taken(self) -> SlotView {
        SlotView { acquired: true, grants: self.grants + 1 }
    }

    /// The slot with one more grant.
    pub open spec fn granted(self) -> SlotView {
        SlotView { acquired: self.acquired, grants: self.grants + 1 }
    }

    /// The slot with one grant less. The last one frees the slot.
    pub open spec fn dropped(self) -> SlotView {
        SlotView {
            acquired: self.acquired && self.grants != 1,
            grants: (self.grants - 1) as nat,
        }
    }

    /// The slot with `n` grants less.
    pub open spec fn dropped_times(self, n: nat) -> SlotView
        decreases n,
    {
        if n == 0 {
            self
        } else {
            self.dropped_times((n - 1) as nat).dropped()
        }
    }
}

/// Guard that guarantees that only one connection is able to use a slot at a time, by creating
/// [`SlotGrant`] instances.
pub struct SlotGuard {
    grants: usize,
    acquired: bool,
    id: Ghost<int>,
}

/// Token for using a slot. As long as there is one, something of the slot is still being used.
///
/// A grant is given back with [`SlotGrant::drop`]. One that merely goes out of scope keeps its slot
/// taken.
#[must_use]
pub struct SlotGrant {
    id: Ghost<int>,
}

impl View for SlotGuard {
    type V = SlotView;

    closed spec fn view(&self) -> SlotView {
        SlotView { acquired: self.acquired, grants: self.grants as nat }
    }
}

impl SlotGuard {
    /// Which guard this is. Nothing is known of it, so nobody can show that two guards, each made by
    /// a call of its own, are the same one.
    pub closed spec fn id(self) -> int {
        self.id@
    }

    /// Creates a new slot guard.
    pub fn new() -> (guard: SlotGuard)
        ensures
            guard@ == SlotView::free(),
            guard@.inv(),
    {
        SlotGuard { grants: 0, acquired: false, id: Ghost(vstd::pervasive::arbitrary()) }
    }

    /// How many grants are out.
    pub fn grants(&self) -> (grants: usize)
        ensures
            grants == self@.grants,
    {
        self.grants
    }

    /// Tries to create a slot grant from this guard.
    /// Returns `None` if the slot is already acquired.
    pub fn try_acquire(&mut self) -> (grant: Option<SlotGrant>)
        requires
            old(self)@.inv(),
        ensures
            final(self)@.inv(),
            final(self).id() == old(self).id(),
            old(self)@.acquired ==> grant is None && final(self)@ == old(self)@,
            !old(self)@.acquired ==> grant is Some && grant->0.id() == old(self).id()
                && final(self)@ == old(self)@.taken(),
    {
        if self.acquired {
            return None;
        }
        self.acquired = true;
        Some(SlotGrant::new(self))
    }
}

impl SlotGrant {
    /// The guard that this grant came from.
    pub closed spec fn id(self) -> int {
        self.id@
    }

    /// Creates a grant of a slot that has been taken.
    fn new(guard: &mut SlotGuard) -> (grant: SlotGrant)
        requires
            old(guard)@.grants < usize::MAX,
        ensures
            final(guard)@ == old(guard)@.granted(),
            final(guard).id() == old(guard).id(),
            grant.id() == old(guard).id(),
    {
        guard.grants = guard.grants + 1;
        SlotGrant { id: Ghost(guard.id()) }
    }

    /// Creates another grant of the same slot. `guard` is the guard that this grant came from.
    pub fn clone(&self, guard: &mut SlotGuard) -> (grant: SlotGrant)
        requires
            self.id() == old(guard).id(),
            old(guard)@.inv(),
            0 < old(guard)@.grants < usize::MAX,
        ensures
            final(guard)@.inv(),
            final(guard)@ == old(guard)@.granted(),
            final(guard).id() == old(guard).id(),
            grant.id() == self.id(),
    {
        SlotGrant::new(guard)
    }

    /// Gives the grant back. `guard` is the guard that it came from.
    pub fn drop(self, guard: &mut SlotGuard)
        requires
            self.id() == old(guard).id(),
            old(guard)@.inv(),
            old(guard)@.grants > 0,
        ensures
            final(guard)@.inv(),
            final(guard)@ == old(guard)@.dropped(),
            final(guard).id() == old(guard).id(),
    {
        let before = guard.grants;
        guard.grants = guard.grants - 1;
        // If this is the last grant, release the guard
        if before == 1 {
            guard.acquired = false;
        }
    }
}

/// What can be done with a slot.
pub enum SlotOp {
    TryAcquire,
    Clone,
    Drop,
}

/// The slot after an operation.
pub open spec fn slot_step(slot: SlotView, op: SlotOp) -> SlotView {
    match op {
        SlotOp::TryAcquire => if slot.acquired {
            slot
        } else {
            slot.taken()
        },
        SlotOp::Clone => slot.granted(),
        SlotOp::Drop => slot.dropped(),
    }
}

/// A free slot after some operations.
pub open spec fn slot_after(ops: Seq<SlotOp>) -> SlotView
    decreases ops.len(),
{
    if ops.len() == 0 {
        SlotView::free()
    } else {
        slot_step(slot_after(ops.drop_last()), ops.last())
    }
}

/// How many grants are in somebody's hands after some operations.
pub open spec fn grants_out(ops: Seq<SlotOp>) -> int
    decreases ops.len(),
{
    if ops.len() == 0 {
        0
    } else {
        let before = grants_out(ops.drop_last());
        match ops.last() {
            SlotOp::TryAcquire => if before == 0 {
                1
            } else {
                before
            },
            SlotOp::Clone => before + 1,
            SlotOp::Drop => before - 1,
        }
    }
}

/// A grant is cloned or dropped only by somebody who has one.
pub open spec fn slot_trace(ops: Seq<SlotOp>) -> bool {
    forall|i: int|
        0 <= i < ops.len() && !((#[trigger] ops[i]) is TryAcquire) ==> grants_out(ops.take(i)) > 0
}

/// The slot always counts the grants that are out, and it is taken exactly as long as there is
/// one. So an attempt to take it succeeds exactly when nobody holds a grant.
pub proof fn slot_is_exclusive(ops: Seq<SlotOp>)
    requires
        slot_trace(ops),
    ensures
        slot_after(ops).grants == grants_out(ops),
        slot_after(ops).acquired <==> grants_out(ops) > 0,
        slot_after(ops).inv(),
    decreases ops.len(),
{
    if ops.len() > 0 {
        let front = ops.drop_last();
        assert forall|i: int| 0 <= i < front.len() && !((#[trigger] front[i]) is TryAcquire) implies
            grants_out(front.take(i)) > 0 by {
            assert(front[i] == ops[i]);
            assert(front.take(i) =~= ops.take(i));
        }
        slot_is_exclusive(front);
        assert(ops.take(ops.len() - 1) =~= front);
        assert(ops[ops.len() - 1] == ops.last());
    }
}

/// What is granted is given back: dropping a grant undoes the granting of it, and dropping the grant
/// that a free slot was taken with makes the slot free.
pub proof fn drop_undoes_a_grant(slot: SlotView)
    requires
        slot.inv(),
    ensures
        slot.grants > 0 ==> slot.granted().dropped() == slot,
        slot.grants > 0 ==> slot.granted().grants == slot.grants + 1,
        slot.grants > 0 ==> slot.dropped().grants == slot.grants - 1,
        SlotView::free().taken().dropped() == SlotView::free(),
        SlotView::free().taken() == (SlotView { acquired: true, grants: 1 }),
        !SlotView::free().acquired,
        SlotView::free().grants == 0,
        slot.acquired <==> slot.grants > 0,
{
}

/// A slot stays taken until as many grants are dropped as are out, and is free then.
pub proof fn last_drop_frees(slot: SlotView, n: nat)
    requires
        slot.inv(),
        n <= slot.grants,
    ensures
        slot.dropped_times(n).inv(),
        slot.dropped_times(n).grants == slot.grants - n,
        slot.dropped_times(n).acquired <==> n < slot.grants,
        n == slot.grants ==> slot.dropped_times(n) == SlotView::free(),
    decreases n,
{
    if n > 0 {
        last_drop_frees(slot, (n - 1) as nat);
    }
}

} // verus!
