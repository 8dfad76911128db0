//! Cross-thread wobbly pointers built on `std::sync`.
//!
//! A [`Wobbly<T>`](Wobbly) is mostly a non-owning handle to a heap value,
//! like `std::sync::Weak`: it can be [`upgrade`](Wobbly::upgrade)d to an
//! `Arc` while the value is alive, and [`downgrade`](Wobbly::downgrade)d to
//! a plain [`Weak`]. Unlike an ordinary weak handle, a *group* of `Wobbly`
//! pointers — one [`Wobbly::new`] call plus every clone descended from it —
//! together owns one strong hold on the value, released exactly once by the
//! *first* member of the group that is dropped; the remaining members then
//! degrade to ordinary weak handles. See [`crate::rc`] for the
//! single-threaded variant and for why releasing on the first drop is what
//! lets cycles of such pointers be reclaimed.
//!
//! The group's hold is the strong handle consumed by [`Wobbly::new`], moved
//! into a slot shared by the whole group; the slot is emptied under a lock,
//! so that when members are dropped concurrently on several threads, exactly
//! one of them takes the strong handle out and releases it — the slot's
//! one-way, one-time emptying is the `drop_member` step of the protocol
//! modelled in [`crate::group`], whatever the interleaving.
//!
//! `Wobbly<T>` can be sent to and shared with other threads exactly when
//! `std::sync::Weak<T>` can, that is, when `T` is `Send` and `Sync`.

use vstd::prelude::*;

verus! {

#[verifier::reject_recursive_types(T)]
#[verifier::external_type_specification]
#[verifier::external_body]
pub struct ExMutex<T: ?Sized>(std::sync::Mutex<T>);

/// Opaque holder for a `std::sync::Weak`, which the verifier cannot inspect.
#[verifier::external_body]
#[verifier::reject_recursive_types(T)]
struct RawWeak<T> {
    inner: std::sync::Weak<T>,
}

/// A non-owning handle to a heap value, as handed out by
/// [`Wobbly::downgrade`]. It never keeps the value alive; it carries a ghost
/// record of the strong handle it descends from, so that a successful
/// [`upgrade`](Weak::upgrade) is known to yield that very value.
#[verifier::reject_recursive_types(T)]
pub struct Weak<T> {
    raw: RawWeak<T>,
    value: Ghost<std::sync::Arc<T>>,
}

/// The shared slot that holds a group's one strong handle until the first
/// member is dropped.
type Slot<T> = std::sync::Arc<std::sync::Mutex<Option<std::sync::Arc<T>>>>;

/// A member of a group of wobbly pointers: a weak handle plus shared
/// ownership of the group's slot.
#[verifier::reject_recursive_types(T)]
pub struct Wobbly<T> {
    weak: Weak<T>,
    slot: Slot<T>,
}

/// Relies on `std::sync::Arc::downgrade`: returns a weak handle to the
/// argument's allocation and changes no strong count. The handle is opaque
/// here; its tie to the allocation's value is recorded by the caller as a
/// ghost field and relied upon by `raw_upgrade`.
#[verifier::external_body]
fn raw_downgrade<T>(strong: &std::sync::Arc<T>) -> RawWeak<T> {
    RawWeak { inner: std::sync::Arc::downgrade(strong) }
}

/// Relies on `std::sync::Weak::upgrade`: it returns `None` once the
/// allocation's strong count has reached zero, and otherwise a strong handle
/// to the very allocation the weak handle was derived from — which holds the
/// value that `w` recorded at its creation, as every construction of
/// [`Weak`] in this module pairs `raw` with the strong handle it was
/// downgraded from.
#[verifier::external_body]
fn raw_upgrade<T>(w: &Weak<T>) -> (r: Option<std::sync::Arc<T>>)
    ensures
        r matches Some(v) ==> v == w.value(),
{
    w.raw.inner.upgrade()
}

/// Relies on `std::sync::Weak::clone`: the clone is a weak handle to the
/// same allocation, indistinguishable from the original here.
#[verifier::external_body]
fn raw_clone<T>(w: &RawWeak<T>) -> (r: RawWeak<T>)
    ensures
        r == *w,
{
    RawWeak { inner: w.inner.clone() }
}

/// Relies on `std::sync::Weak::weak_count`: the number of weak handles to
/// the allocation, a racy read of shared state about which nothing stable
/// can be said.
#[verifier::external_body]
fn raw_weak_count<T>(w: &RawWeak<T>) -> usize {
    w.inner.weak_count()
}

/// Relies on `std::sync::Weak::strong_count`: the number of strong handles
/// to the allocation, a racy read of shared state about which nothing stable
/// can be said.
#[verifier::external_body]
fn raw_strong_count<T>(w: &RawWeak<T>) -> usize {
    w.inner.strong_count()
}

/// Relies on `std::sync::Mutex::new`: makes the fresh lock holding `v` that
/// becomes a new group's slot.
#[verifier::external_body]
fn mutex_new<T>(v: T) -> std::sync::Mutex<T> {
    std::sync::Mutex::new(v)
}

/// Relies on `std::sync::Mutex::lock` and `Option::take`: empties the slot
/// and returns what it held, as one atomic step with respect to every other
/// `lock` of the same slot — so of any number of racing takers, exactly one
/// receives the contents. A poisoned lock is taken over rather than
/// propagated (`PoisonError::into_inner`), and no user code runs while the
/// lock is held, so the call neither deadlocks, panics, nor unwinds.
#[verifier::external_body]
fn mutex_take<T>(m: &std::sync::Mutex<Option<T>>) -> Option<T>
    opens_invariants none
    no_unwind
{
    match m.lock() {
        Ok(mut guard) => guard.take(),
        Err(poisoned) => poisoned.into_inner().take(),
    }
}

/// Relies on `std::sync::Arc::clone`: the clone is a handle to the same
/// allocation, so it holds the same value.
#[verifier::external_body]
fn slot_clone<T>(s: &Slot<T>) -> (r: Slot<T>)
    ensures
        r == *s,
{
    std::sync::Arc::clone(s)
}

impl<T> Weak<T> {
    /// The value of the allocation this handle descends from (ghost).
    pub closed spec fn value(&self) -> std::sync::Arc<T> {
        self.value@
    }

    /// Attempts to obtain a strong handle. This succeeds exactly while the
    /// allocation's strong count is positive, and a success yields the value
    /// the handle was created for.
    pub fn upgrade(&self) -> (r: Option<std::sync::Arc<T>>)
        ensures
            r matches Some(v) ==> v == self.value(),
    {
        raw_upgrade(self)
    }
}

impl<T> Clone for Weak<T> {
    /// The clone is a weak handle to the same allocation.
    fn clone(&self) -> (r: Self)
        ensures
            r.value() == self.value(),
    {
        Weak { raw: raw_clone(&self.raw), value: self.value }
    }
}

impl<T> Wobbly<T> {
    /// The value of the allocation this handle points at (ghost).
    pub closed spec fn value(&self) -> std::sync::Arc<T> {
        self.weak.value()
    }

    /// Whether two wobbly pointers are members of one group, that is, share
    /// one slot and hence one strong hold (ghost). Cloning preserves this;
    /// every [`Wobbly::new`] call starts a group of its own.
    pub closed spec fn in_group_of(&self, other: &Wobbly<T>) -> bool {
        self.slot == other.slot
    }

    /// Consumes an owning handle and returns the sole member of a new group.
    ///
    /// The consumed handle's strong unit is not released: it moves into the
    /// group's slot and becomes the group's implicit hold, so the
    /// allocation's strong count is left exactly as it was. In the model of
    /// [`crate::group`] this is the `new_group` step.
    pub fn new(strong: std::sync::Arc<T>) -> (r: Self)
        ensures
            r.value() == strong,
    {
        let ghost recorded: std::sync::Arc<T> = strong;
        let raw = raw_downgrade(&strong);
        let slot = std::sync::Arc::new(mutex_new(Some(strong)));
        Wobbly { weak: Weak { raw, value: Ghost(recorded) }, slot }
    }

    /// Returns a plain weak handle to the same allocation, independent of
    /// the group and its release state.
    pub fn downgrade(&self) -> (w: Weak<T>)
        ensures
            w.value() == self.value(),
    {
        self.weak.clone()
    }

    /// Attempts to obtain a strong handle, delaying the value's destruction
    /// while it is held. This succeeds exactly while the allocation's strong
    /// count is positive — whether sustained by this group's hold, by
    /// another group's, or by ordinary strong handles — and a success yields
    /// the value the group was created for. `None` is the ordinary outcome
    /// once the value is gone, not an error.
    pub fn upgrade(&self) -> (r: Option<std::sync::Arc<T>>)
        ensures
            r matches Some(v) ==> v == self.value(),
    {
        self.weak.upgrade()
    }

    /// The number of weak handles to the allocation, this one included: a
    /// read of the allocation's shared counter, to which every handle of any
    /// kind on any thread contributes.
    pub fn weak_count(&self) -> usize {
        raw_weak_count(&self.weak.raw)
    }

    /// The number of strong holds on the allocation: ordinary strong handles
    /// plus one for each wobbly group none of whose members has yet been
    /// dropped.
    pub fn strong_count(&self) -> usize {
        raw_strong_count(&self.weak.raw)
    }
}

impl<T> Clone for Wobbly<T> {
    /// Extends the group: the clone shares the slot, so whichever member of
    /// the enlarged group is dropped first releases the one shared hold. The
    /// allocation's strong count is unchanged; only a weak unit is added. In
    /// the model of [`crate::group`] this is the `clone_member` step.
    fn clone(&self) -> (r: Self)
        ensures
            r.value() == self.value(),
            r.in_group_of(self),
    {
        Wobbly { weak: self.weak.clone(), slot: slot_clone(&self.slot) }
    }
}

impl<T> Drop for Wobbly<T> {
    /// Takes the group's slot. Of all the members of the group, on whatever
    /// threads they are dropped, exactly one — the first to win the slot's
    /// lock — finds the slot full and lets the taken strong handle fall,
    /// releasing the group's hold; the value itself is dropped exactly when
    /// no other hold remains. Every later member finds the slot already
    /// empty and releases nothing further. This handle's own weak unit is
    /// released by the teardown of its `weak` field. In the model of
    /// [`crate::group`] this is the `drop_member` step.
    fn drop(&mut self)
        opens_invariants none
        no_unwind
    {
        let _group_hold = mutex_take(&self.slot);
    }
}

} // verus!
