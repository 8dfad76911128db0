//! Single-threaded wobbly pointers built on `std::rc`.
//!
//! A [`Wobbly<T>`](Wobbly) is mostly a non-owning handle to a heap value, like
//! `std::rc::Weak`: it can be [`upgrade`](Wobbly::upgrade)d to an `Rc` while
//! the value is alive, and [`downgrade`](Wobbly::downgrade)d to a plain
//! [`Weak`]. Unlike an ordinary weak handle, a *group* of `Wobbly` pointers —
//! one [`Wobbly::new`] call plus every clone descended from it — together owns
//! one strong hold on the value. That hold is released exactly once, by the
//! *first* member of the group that is dropped; the remaining members then
//! degrade to ordinary weak handles. Releasing on the first drop rather than
//! the last is what lets a cycle of `Wobbly` pointers be reclaimed: a cycle
//! can never drop its last member, but any one member dropped from outside
//! the cycle releases the group's hold.
//!
//! The group's hold is represented directly: the strong handle consumed by
//! [`Wobbly::new`] is moved into a slot shared by the whole group, and the
//! first drop takes it out of the slot and lets it fall. The slot thus plays
//! the role of the release flag in the group protocol modelled in
//! [`crate::group`]: a full slot is an unreleased group, an empty slot a
//! released one, and emptying is a one-way, one-time step.
//!
//! `Wobbly<T>` is confined to one thread, exactly like `std::rc::Weak<T>`:
//! the slot is a plain interior-mutable cell, so the exactly-once emptying
//! relies on the absence of concurrent access.

use vstd::prelude::*;

verus! {

#[verifier::reject_recursive_types(T)]
#[verifier::external_type_specification]
#[verifier::external_body]
pub struct ExCell<T: ?Sized>(std::cell::Cell<T>);

/// Opaque holder for a `std::rc::Weak`, which the verifier cannot inspect.
#[verifier::external_body]
#[verifier::reject_recursive_types(T)]
struct RawWeak<T> {
    inner: std::rc::Weak<T>,
}

/// A non-owning handle to a heap value, as handed out by
/// [`Wobbly::downgrade`]. It never keeps the value alive; it carries a ghost
/// record of the strong handle it descends from, so that a successful
/// [`upgrade`](Weak::upgrade) is known to yield that very value.
#[verifier::reject_recursive_types(T)]
pub struct Weak<T> {
    raw: RawWeak<T>,
    value: Ghost<std::rc::Rc<T>>,
}

/// The shared slot that holds a group's one strong handle until the first
/// member is dropped.
type Slot<T> = std::rc::Rc<std::cell::Cell<Option<std::rc::Rc<T>>>>;

/// A member of a group of wobbly pointers: a weak handle plus shared
/// ownership of the group's slot.
#[verifier::reject_recursive_types(T)]
pub struct Wobbly<T> {
    weak: Weak<T>,
    slot: Slot<T>,
}

/// Relies on `std::rc::Rc::downgrade`: returns a weak handle to the argument's
/// allocation and changes no strong count. The handle is opaque here; its tie
/// to the allocation's value is recorded by the caller as a ghost field and
/// relied upon by `raw_upgrade`.
#[verifier::external_body]
fn raw_downgrade<T>(strong: &std::rc::Rc<T>) -> RawWeak<T> {
    RawWeak { inner: std::rc::Rc::downgrade(strong) }
}

/// Relies on `std::rc::Weak::upgrade`: it returns `None` once the allocation's
/// strong count has reached zero, and otherwise a strong handle to the very
/// allocation the weak handle was derived from — which holds the value that
/// `w` recorded at its creation, as every construction of [`Weak`] in this
/// module pairs `raw` with the strong handle it was downgraded from.
#[verifier::external_body]
fn raw_upgrade<T>(w: &Weak<T>) -> (r: Option<std::rc::Rc<T>>)
    ensures
        r matches Some(v) ==> v == w.value(),
{
    w.raw.inner.upgrade()
}

/// Relies on `std::rc::Weak::clone`: the clone is a weak handle to the same
/// allocation, indistinguishable from the original here.
#[verifier::external_body]
fn raw_clone<T>(w: &RawWeak<T>) -> (r: RawWeak<T>)
    ensures
        r == *w,
{
    RawWeak { inner: w.inner.clone() }
}

/// Relies on `std::rc::Weak::weak_count`: the number of weak handles to the
/// allocation, a read of shared state about which nothing stable can be said.
#[verifier::external_body]
fn raw_weak_count<T>(w: &RawWeak<T>) -> usize {
    w.inner.weak_count()
}

/// Relies on `std::rc::Weak::strong_count`: the number of strong handles to
/// the allocation, a read of shared state about which nothing stable can be
/// said.
#[verifier::external_body]
fn raw_strong_count<T>(w: &RawWeak<T>) -> usize {
    w.inner.strong_count()
}

/// Relies on `std::cell::Cell::new`: makes the fresh cell holding `v` that
/// becomes a new group's slot.
#[verifier::external_body]
fn cell_new<T>(v: T) -> std::cell::Cell<T> {
    std::cell::Cell::new(v)
}

/// Relies on `std::cell::Cell::take`: empties the cell and returns what it
/// held, in one step of this single thread; neither panics nor unwinds.
#[verifier::external_body]
fn cell_take<T: Default>(c: &std::cell::Cell<T>) -> T
    opens_invariants none
    no_unwind
{
    c.take()
}

/// Relies on `std::rc::Rc::clone`: the clone is a handle to the same
/// allocation, so it holds the same value.
#[verifier::external_body]
fn slot_clone<T>(s: &Slot<T>) -> (r: Slot<T>)
    ensures
        r == *s,
{
    std::rc::Rc::clone(s)
}

impl<T> Weak<T> {
    /// The value of the allocation this handle descends from (ghost).
    pub closed spec fn value(&self) -> std::rc::Rc<T> {
        self.value@
    }

    /// Attempts to obtain a strong handle. This succeeds exactly while the
    /// allocation's strong count is positive, and a success yields the value
    /// the handle was created for.
    pub fn upgrade(&self) -> (r: Option<std::rc::Rc<T>>)
        ensures
            r matches Some(v) ==> v == self.value(),
    {
        raw_upgrade(self)
    }
}

impl<T> Clone for Weak<T> {
    /// The clone is a weak handle to the same allocation.
    fn clone(&self) -> (r: Self)
        ensures
            r.value() == self.value(),
    {
        Weak { raw: raw_clone(&self.raw), value: self.value }
    }
}

impl<T> Wobbly<T> {
    /// The value of the allocation this handle points at (ghost).
    pub closed spec fn value(&self) -> std::rc::Rc<T> {
        self.weak.value()
    }

    /// Whether two wobbly pointers are members of one group, that is, share
    /// one slot and hence one strong hold (ghost). Cloning preserves this;
    /// every [`Wobbly::new`] call starts a group of its own.
    pub closed spec fn in_group_of(&self, other: &Wobbly<T>) -> bool {
        self.slot == other.slot
    }

    /// Consumes an owning handle and returns the sole member of a new group.
    ///
    /// The consumed handle's strong unit is not released: it moves into the
    /// group's slot and becomes the group's implicit hold, so the
    /// allocation's strong count is left exactly as it was. In the model of
    /// [`crate::group`] this is the `new_group` step.
    pub fn new(strong: std::rc::Rc<T>) -> (r: Self)
        ensures
            r.value() == strong,
    {
        let ghost recorded: std::rc::Rc<T> = strong;
        let raw = raw_downgrade(&strong);
        let slot = std::rc::Rc::new(cell_new(Some(strong)));
        Wobbly { weak: Weak { raw, value: Ghost(recorded) }, slot }
    }

    /// Returns a plain weak handle to the same allocation, independent of the
    /// group and its release state.
    pub fn downgrade(&self) -> (w: Weak<T>)
        ensures
            w.value() == self.value(),
    {
        self.weak.clone()
    }

    /// Attempts to obtain a strong handle, delaying the value's destruction
    /// while it is held. This succeeds exactly while the allocation's strong
    /// count is positive — whether sustained by this group's hold, by another
    /// group's, or by ordinary strong handles — and a success yields the
    /// value the group was created for. `None` is the ordinary outcome once
    /// the value is gone, not an error.
    pub fn upgrade(&self) -> (r: Option<std::rc::Rc<T>>)
        ensures
            r matches Some(v) ==> v == self.value(),
    {
        self.weak.upgrade()
    }

    /// The number of weak handles to the allocation, this one included: a
    /// read of the allocation's shared counter, to which every handle of any
    /// kind anywhere contributes.
    pub fn weak_count(&self) -> usize {
        raw_weak_count(&self.weak.raw)
    }

    /// The number of strong holds on the allocation: ordinary strong handles
    /// plus one for each wobbly group none of whose members has yet been
    /// dropped.
    pub fn strong_count(&self) -> usize {
        raw_strong_count(&self.weak.raw)
    }
}

impl<T> Clone for Wobbly<T> {
    /// Extends the group: the clone shares the slot, so whichever member of
    /// the enlarged group is dropped first releases the one shared hold. The
    /// allocation's strong count is unchanged; only a weak unit is added. In
    /// the model of [`crate::group`] this is the `clone_member` step.
    fn clone(&self) -> (r: Self)
        ensures
            r.value() == self.value(),
            r.in_group_of(self),
    {
        Wobbly { weak: self.weak.clone(), slot: slot_clone(&self.slot) }
    }
}

impl<T> Drop for Wobbly<T> {
    /// Takes the group's slot. The first member dropped finds the slot full
    /// and lets the taken strong handle fall, releasing the group's hold —
    /// the value itself is dropped exactly when no other hold remains; every
    /// later member finds the slot already empty and releases nothing
    /// further. This handle's own weak unit is released by the teardown of
    /// its `weak` field. In the model of [`crate::group`] this is the
    /// `drop_member` step.
    fn drop(&mut self)
        opens_invariants none
        no_unwind
    {
        let _group_hold = cell_take(&self.slot);
    }
}

} // verus!
