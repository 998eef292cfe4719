//! The owner-count rule behind reference-counted sharing.
//!
//! [`crate::ProcessOwned`] and [`crate::ProcessOwnedMut`] free their value
//! exactly when the last owner releases it. This module states and proves
//! that rule over the history of one shared value: the sequence of handle
//! duplications and releases that the program performs on it. The stored
//! value's destructor runs exactly once, exactly at the release that brings
//! the owner count to zero — never earlier, never again, and not at all
//! while any owner is live.

use vstd::prelude::*;

verus! {

/// One step a program takes with the handles of a single shared value:
/// duplicating a live handle (`clone`), or releasing one (scope exit).
#[derive(Clone, Copy, Debug, PartialEq, Eq, Structural)]
pub enum HandleEvent {
    /// An existing live handle was cloned, adding one owner.
    Duplicate,
    /// A live handle went out of scope, removing one owner.
    Release,
}

/// The number of live owners after the given history, starting from the
/// single handle that the constructor returned.
pub open spec fn owners_after(events: Seq<HandleEvent>) -> int
    decreases events.len(),
{
    if events.len() == 0 {
        1
    } else {
        owners_after(events.drop_last()) + if events.last() is Duplicate {
            1int
        } else {
            -1int
        }
    }
}

/// A history is well formed when every step operates on a live handle:
/// cloning or releasing a handle needs at least one owner at that moment.
pub open spec fn wf_trace(events: Seq<HandleEvent>) -> bool {
    forall|i: int| 0 <= i < events.len() ==> owners_after(#[trigger] events.take(i)) >= 1
}

/// The shared value is freed at step `i` when that step releases the last
/// owner: the event is a release and the owner count afterwards is zero.
/// The value's destructor runs at exactly the steps this names.
pub open spec fn freed_at(events: Seq<HandleEvent>, i: int) -> bool {
    &&& 0 <= i < events.len()
    &&& events[i] is Release
    &&& owners_after(events.take(i + 1)) == 0
}

/// Each step moves the owner count by exactly one: up for a duplication,
/// down for a release.
proof fn lemma_owners_step(events: Seq<HandleEvent>, i: int)
    requires
        0 <= i < events.len(),
    ensures
        owners_after(events.take(i + 1)) == owners_after(events.take(i)) + if events[i] is Duplicate {
            1int
        } else {
            -1int
        },
{
    assert(events.take(i + 1).drop_last() =~= events.take(i));
    assert(events.take(i + 1).last() == events[i]);
}

/// In a well-formed history the owner count can reach zero only at the very
/// last step: every earlier point must leave at least one owner for the
/// steps that follow, so the destructor never runs while more of the
/// history remains.
pub proof fn lemma_no_free_before_end(events: Seq<HandleEvent>, i: int)
    requires
        wf_trace(events),
        freed_at(events, i),
    ensures
        i == events.len() - 1,
{
    if i < events.len() - 1 {
        assert(owners_after(events.take(i + 1)) >= 1);
    }
}

/// The destructor runs at most once: two steps that both free the value
/// are the same step.
pub proof fn lemma_destructor_at_most_once(events: Seq<HandleEvent>, i: int, j: int)
    requires
        wf_trace(events),
        freed_at(events, i),
        freed_at(events, j),
    ensures
        i == j,
{
    lemma_no_free_before_end(events, i);
    lemma_no_free_before_end(events, j);
}

/// While any owner is live at the end of a well-formed history, the value
/// was never freed: the destructor has not run early.
pub proof fn lemma_no_free_while_owned(events: Seq<HandleEvent>)
    requires
        wf_trace(events),
        owners_after(events) >= 1,
    ensures
        forall|i: int| !freed_at(events, i),
{
    assert forall|i: int| !freed_at(events, i) by {
        if freed_at(events, i) {
            lemma_no_free_before_end(events, i);
            assert(events.take(i + 1) =~= events);
        }
    }
}

/// The reference-count rule in full: when a well-formed history ends with
/// no owners left, the destructor ran exactly once, exactly at the final
/// release — never earlier, never more than once, never later within the
/// history.
pub proof fn lemma_destructor_runs_exactly_once(events: Seq<HandleEvent>)
    requires
        wf_trace(events),
        owners_after(events) == 0,
    ensures
        events.len() >= 1,
        freed_at(events, events.len() - 1),
        forall|i: int| i != events.len() - 1 ==> !freed_at(events, i),
{
    let last = events.len() - 1;
    assert(events.len() >= 1);
    lemma_owners_step(events, last);
    assert(events.take(last + 1) =~= events);
    assert(owners_after(events.take(last)) >= 1);
    assert(events[last] is Release);
    assert forall|i: int| i != last implies !freed_at(events, i) by {
        if freed_at(events, i) {
            lemma_no_free_before_end(events, i);
        }
    }
}

} // verus!
