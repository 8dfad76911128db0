//! The group-release protocol shared by both wobbly-pointer variants.
//!
//! A group is the set of wobbly handles descended from one construction call
//! by cloning. Each group owns at most one strong unit on its allocation,
//! and the protocol releases that unit exactly once, at the first drop of a
//! group member. This module states the protocol over an explicit model of
//! one allocation — the strong handles held elsewhere, and the per-group
//! release state — and proves the laws the executable handles are built to
//! obey: construction and cloning leave the strong count unchanged, the
//! first drop of a group decrements it by exactly one, later drops of the
//! same group decrement nothing, other groups are unaffected, and under any
//! interleaving of drops each group releases exactly once.

use vstd::prelude::*;

verus! {

/// The release state of one group of wobbly handles.
pub struct Group {
    /// Members of the group not yet dropped.
    pub live: nat,
    /// Whether the group's one strong hold has already been released.
    pub released: bool,
}

/// One reference-counted allocation, as the wobbly groups see it.
pub struct Alloc {
    /// Strong holds other than the groups': ordinary owning handles.
    pub outside_strong: nat,
    /// Every wobbly group pointing at this allocation, in creation order.
    pub groups: Seq<Group>,
}

/// The strong units a group contributes: one until its first member is
/// dropped, none afterwards.
pub open spec fn hold(g: Group) -> nat {
    if g.released {
        0
    } else {
        1
    }
}

/// The strong units contributed by a sequence of groups.
pub open spec fn holds_sum(gs: Seq<Group>) -> nat
    decreases gs.len(),
{
    if gs.len() == 0 {
        0
    } else {
        holds_sum(gs.drop_last()) + hold(gs.last())
    }
}

/// The allocation's strong count: ordinary strong handles plus one unit for
/// each group whose hold is still unreleased.
pub open spec fn strong_count(a: Alloc) -> nat {
    a.outside_strong + holds_sum(a.groups)
}

/// The value is still allocated exactly while some strong hold remains.
pub open spec fn alive(a: Alloc) -> bool {
    strong_count(a) > 0
}

/// An upgrade of any weak or wobbly handle succeeds exactly while the strong
/// count is positive.
pub open spec fn upgrade_succeeds(a: Alloc) -> bool {
    strong_count(a) > 0
}

/// Construction of a wobbly handle: one ordinary strong handle is consumed,
/// and its unit becomes the implicit hold of a fresh group with one member.
pub open spec fn new_group(a: Alloc) -> Alloc
    recommends
        a.outside_strong > 0,
{
    Alloc {
        outside_strong: (a.outside_strong - 1) as nat,
        groups: a.groups.push(Group { live: 1, released: false }),
    }
}

/// Cloning a member of group `i`: the group grows by one member; no strong
/// unit and no release state changes.
pub open spec fn clone_member(a: Alloc, i: int) -> Alloc
    recommends
        0 <= i < a.groups.len(),
{
    Alloc {
        outside_strong: a.outside_strong,
        groups: a.groups.update(
            i,
            Group { live: a.groups[i].live + 1, released: a.groups[i].released },
        ),
    }
}

/// Dropping a member of group `i`: the member is gone, and the group's
/// release flag is read and cleared in one step — so the group's hold is
/// released exactly when this was the group's first drop.
pub open spec fn drop_member(a: Alloc, i: int) -> Alloc
    recommends
        0 <= i < a.groups.len(),
        a.groups[i].live > 0,
{
    Alloc {
        outside_strong: a.outside_strong,
        groups: a.groups.update(
            i,
            Group { live: (a.groups[i].live - 1) as nat, released: true },
        ),
    }
}

/// The state after dropping one member per entry of `trace`, first entry
/// first: an arbitrary interleaving of drops across all groups.
pub open spec fn run(a: Alloc, trace: Seq<int>) -> Alloc
    decreases trace.len(),
{
    if trace.len() == 0 {
        a
    } else {
        run(drop_member(a, trace[0]), trace.subrange(1, trace.len() as int))
    }
}

/// Whether the trace drops at least one member of group `i`.
pub open spec fn touches(trace: Seq<int>, i: int) -> bool
    decreases trace.len(),
{
    trace.len() > 0 && (trace[0] == i || touches(trace.subrange(1, trace.len() as int), i))
}

/// Whether every entry of the trace names a group of the allocation.
pub open spec fn trace_in_bounds(trace: Seq<int>, len: nat) -> bool
    decreases trace.len(),
{
    trace.len() == 0 || (0 <= trace[0] < len && trace_in_bounds(
        trace.subrange(1, trace.len() as int),
        len,
    ))
}

/// The number of groups among the first `n` whose first drop happens during
/// the trace: these are exactly the holds the trace releases.
pub open spec fn released_by(a: Alloc, trace: Seq<int>, n: int) -> nat
    decreases n,
{
    if n <= 0 {
        0
    } else {
        released_by(a, trace, n - 1) + (if !a.groups[n - 1].released && touches(trace, n - 1) {
            1nat
        } else {
            0nat
        })
    }
}

/// Replacing one group by one contributing the same hold leaves the total
/// contribution unchanged but for the difference at that index.
proof fn lemma_holds_sum_update(gs: Seq<Group>, i: int, g: Group)
    requires
        0 <= i < gs.len(),
    ensures
        holds_sum(gs.update(i, g)) + hold(gs[i]) == holds_sum(gs) + hold(g),
    decreases gs.len(),
{
    let updated = gs.update(i, g);
    if i == gs.len() - 1 {
        assert(updated.drop_last() =~= gs.drop_last());
    } else {
        assert(updated.drop_last() =~= gs.drop_last().update(i, g));
        lemma_holds_sum_update(gs.drop_last(), i, g);
    }
}

/// A sequence of groups contributes at least what any one of them does.
proof fn lemma_holds_sum_bound(gs: Seq<Group>, i: int)
    requires
        0 <= i < gs.len(),
    ensures
        holds_sum(gs) >= hold(gs[i]),
    decreases gs.len(),
{
    if i < gs.len() - 1 {
        lemma_holds_sum_bound(gs.drop_last(), i);
    }
}

/// Groups that have all released contribute nothing.
proof fn lemma_holds_sum_all_released(gs: Seq<Group>)
    requires
        forall|i: int| 0 <= i < gs.len() ==> gs[i].released,
    ensures
        holds_sum(gs) == 0,
    decreases gs.len(),
{
    if gs.len() > 0 {
        lemma_holds_sum_all_released(gs.drop_last());
    }
}

/// Constructing a wobbly handle from a strong handle leaves the strong count
/// exactly as it was: the consumed unit lives on as the new group's hold. An
/// upgrade through the fresh handle therefore succeeds.
pub proof fn lemma_new_group(a: Alloc)
    requires
        a.outside_strong > 0,
    ensures
        strong_count(new_group(a)) == strong_count(a),
        upgrade_succeeds(new_group(a)),
        new_group(a).groups.len() == a.groups.len() + 1,
        forall|j: int| 0 <= j < a.groups.len() ==> new_group(a).groups[j] == a.groups[j],
        !new_group(a).groups.last().released,
{
    let b = new_group(a);
    assert(b.groups.drop_last() =~= a.groups);
}

/// Cloning a member changes no strong unit and no release state, of its own
/// group or of any other.
pub proof fn lemma_clone_member(a: Alloc, i: int)
    requires
        0 <= i < a.groups.len(),
    ensures
        strong_count(clone_member(a, i)) == strong_count(a),
        clone_member(a, i).groups[i].released == a.groups[i].released,
        forall|j: int|
            0 <= j < a.groups.len() && j != i ==> clone_member(a, i).groups[j] == a.groups[j],
{
    lemma_holds_sum_update(
        a.groups,
        i,
        Group { live: a.groups[i].live + 1, released: a.groups[i].released },
    );
}

/// The state after `k` clones of a member of group `i`: a group of size
/// `k + 1` made, as every group is, by one construction and `k` clones.
pub open spec fn grow_group(a: Alloc, i: int, k: nat) -> Alloc
    recommends
        0 <= i < a.groups.len(),
    decreases k,
{
    if k == 0 {
        a
    } else {
        clone_member(grow_group(a, i, (k - 1) as nat), i)
    }
}

/// A group of any size holds exactly one strong unit: growing a group by
/// cloning adds members, never holds, and leaves its release state and
/// every other group exactly as they were.
pub proof fn lemma_grow_group(a: Alloc, i: int, k: nat)
    requires
        0 <= i < a.groups.len(),
    ensures
        grow_group(a, i, k).groups.len() == a.groups.len(),
        strong_count(grow_group(a, i, k)) == strong_count(a),
        grow_group(a, i, k).groups[i].live == a.groups[i].live + k,
        grow_group(a, i, k).groups[i].released == a.groups[i].released,
        forall|j: int|
            0 <= j < a.groups.len() && j != i ==> grow_group(a, i, k).groups[j] == a.groups[j],
    decreases k,
{
    if k > 0 {
        lemma_grow_group(a, i, (k - 1) as nat);
        lemma_clone_member(grow_group(a, i, (k - 1) as nat), i);
    }
}

/// Dropping a member decrements the strong count by exactly one when it is
/// the group's first drop, and by nothing when the group has already
/// released; either way the group is released afterwards, and every other
/// group is untouched.
pub proof fn lemma_drop_member(a: Alloc, i: int)
    requires
        0 <= i < a.groups.len(),
    ensures
        !a.groups[i].released ==> strong_count(drop_member(a, i)) + 1 == strong_count(a),
        a.groups[i].released ==> strong_count(drop_member(a, i)) == strong_count(a),
        drop_member(a, i).groups[i].released,
        forall|j: int|
            0 <= j < a.groups.len() && j != i ==> drop_member(a, i).groups[j] == a.groups[j],
{
    lemma_holds_sum_update(
        a.groups,
        i,
        Group { live: (a.groups[i].live - 1) as nat, released: true },
    );
}

/// While some group is still unreleased, its hold keeps the value alive, so
/// an upgrade of any handle to the allocation succeeds.
pub proof fn lemma_unreleased_group_keeps_alive(a: Alloc, i: int)
    requires
        0 <= i < a.groups.len(),
        !a.groups[i].released,
    ensures
        alive(a),
        upgrade_succeeds(a),
{
    lemma_holds_sum_bound(a.groups, i);
}

/// Once every group has released and no ordinary strong handle remains, the
/// value has been deallocated and every upgrade returns empty — however many
/// weak or wobbly handles still linger.
pub proof fn lemma_all_released_gone(a: Alloc)
    requires
        a.outside_strong == 0,
        forall|i: int| 0 <= i < a.groups.len() ==> a.groups[i].released,
    ensures
        !alive(a),
        !upgrade_succeeds(a),
{
    lemma_holds_sum_all_released(a.groups);
}

/// Dropping a member of group `h` first, then running a trace, releases the
/// same holds as the combined trace, counted over the first `n` groups.
proof fn lemma_released_by_step(a: Alloc, trace: Seq<int>, h: int, n: int)
    requires
        0 <= h < a.groups.len(),
        n <= a.groups.len(),
        trace.len() > 0,
        trace[0] == h,
    ensures
        released_by(a, trace, n) == released_by(
            drop_member(a, h),
            trace.subrange(1, trace.len() as int),
            n,
        ) + (if n > h && !a.groups[h].released {
            1nat
        } else {
            0nat
        }),
    decreases n,
{
    let rest = trace.subrange(1, trace.len() as int);
    let b = drop_member(a, h);
    if n > 0 {
        lemma_released_by_step(a, trace, h, n - 1);
        if n - 1 == h {
            assert(b.groups[h].released);
            assert(touches(trace, h));
        } else {
            assert(b.groups[n - 1] == a.groups[n - 1]);
            assert(touches(trace, n - 1) == touches(rest, n - 1));
        }
    }
}

/// The empty trace releases nothing.
proof fn lemma_released_by_empty(a: Alloc, trace: Seq<int>, n: int)
    requires
        trace.len() == 0,
        n <= a.groups.len(),
    ensures
        released_by(a, trace, n) == 0,
    decreases n,
{
    if n > 0 {
        lemma_released_by_empty(a, trace, n - 1);
    }
}

/// The exactly-once law, under any interleaving: a trace of member drops, in
/// any order and across any mix of groups, removes exactly one strong unit
/// for each group it touches for the first time — never two for one group,
/// and never none. Afterwards a group is released exactly if it was released
/// before or the trace dropped one of its members, and the strong handles
/// held outside the groups are untouched.
pub proof fn lemma_run_releases_exactly_once(a: Alloc, trace: Seq<int>)
    requires
        trace_in_bounds(trace, a.groups.len()),
    ensures
        run(a, trace).groups.len() == a.groups.len(),
        run(a, trace).outside_strong == a.outside_strong,
        strong_count(run(a, trace)) + released_by(a, trace, a.groups.len() as int)
            == strong_count(a),
        forall|j: int| #![trigger run(a, trace).groups[j]]
            0 <= j < a.groups.len() ==> run(a, trace).groups[j].released == (
            a.groups[j].released || touches(trace, j)),
    decreases trace.len(),
{
    let len = a.groups.len() as int;
    if trace.len() == 0 {
        lemma_released_by_empty(a, trace, len);
    } else {
        let h = trace[0];
        let rest = trace.subrange(1, trace.len() as int);
        let b = drop_member(a, h);
        assert(run(a, trace) == run(b, rest));
        assert(b.groups.len() == a.groups.len());
        lemma_drop_member(a, h);
        lemma_run_releases_exactly_once(b, rest);
        lemma_released_by_step(a, trace, h, len);
        assert forall|j: int| 0 <= j < len implies run(a, trace).groups[j].released == (
        a.groups[j].released || touches(trace, j)) by {
            assert(run(b, rest).groups[j].released == (b.groups[j].released || touches(rest, j)));
            if j == h {
                assert(touches(trace, j));
                assert(b.groups[j].released);
            } else {
                assert(b.groups[j] == a.groups[j]);
                assert(touches(trace, j) == touches(rest, j));
            }
        }
    }
}

/// End to end: when a trace drops a member of every group and no ordinary
/// strong handle remains, the value has been deallocated by the time the
/// trace is done, and every upgrade thereafter returns empty.
pub proof fn lemma_full_drop_deallocates(a: Alloc, trace: Seq<int>)
    requires
        trace_in_bounds(trace, a.groups.len()),
        a.outside_strong == 0,
        forall|i: int| 0 <= i < a.groups.len() ==> touches(trace, i),
    ensures
        !alive(run(a, trace)),
        !upgrade_succeeds(run(a, trace)),
{
    lemma_run_releases_exactly_once(a, trace);
    lemma_all_released_gone(run(a, trace));
}

/// Independence of groups: a trace that never touches group `i` leaves that
/// group's state — membership and hold alike — exactly as it was, whatever
/// it does to the other groups of the same allocation.
pub proof fn lemma_untouched_group_unchanged(a: Alloc, trace: Seq<int>, i: int)
    requires
        trace_in_bounds(trace, a.groups.len()),
        0 <= i < a.groups.len(),
        !touches(trace, i),
    ensures
        run(a, trace).groups[i] == a.groups[i],
    decreases trace.len(),
{
    if trace.len() > 0 {
        let rest = trace.subrange(1, trace.len() as int);
        lemma_untouched_group_unchanged(drop_member(a, trace[0]), rest, i);
    }
}

} // verus!
