//! What holds of every state and of every sequence of submissions.
//!
//! The laws speak of [`State`], the view of a [`crate::Pallet`]:
//! `Pallet::add_value` takes a pallet from `s` to `s.submit(who, value)` and
//! returns `s.outcome(value)`, so a law about `submit` and `run` is a law
//! about calls of `add_value` made in that order.

use crate::error::Error;
use crate::event::Event;
use crate::pallet::State;
use crate::total::amount;
use vstd::prelude::*;

verus! {

/// The sum of `values`.
pub open spec fn sum(values: Seq<u32>) -> nat
    decreases values.len(),
{
    if values.len() == 0 {
        0
    } else {
        sum(values.drop_last()) + values.last() as nat
    }
}

/// The values that `calls` carry, in order.
pub open spec fn values<A>(calls: Seq<(A, u32)>) -> Seq<u32> {
    Seq::new(calls.len(), |i: int| calls[i].1)
}

/// The totals that `events` announce, in order.
pub open spec fn new_totals<A>(events: Seq<Event<A>>) -> Seq<u32> {
    Seq::new(events.len(), |i: int| events[i].spec_new_total())
}

/// Every one of `calls`, made in order from `state`, is accepted.
pub open spec fn all_accepted<A>(state: State<A>, calls: Seq<(A, u32)>) -> bool {
    forall|i: int|
        0 <= i < calls.len() ==> state.run(calls.take(i)).accepts((#[trigger] calls[i]).1)
}

/// The values of those of `calls` that are accepted when `calls` are made in
/// order from `state`.
pub open spec fn accepted<A>(state: State<A>, calls: Seq<(A, u32)>) -> Seq<u32>
    decreases calls.len(),
{
    if calls.len() == 0 {
        Seq::empty()
    } else {
        let before = state.run(calls.drop_last());
        let earlier = accepted(state, calls.drop_last());
        if before.accepts(calls.last().1) {
            earlier.push(calls.last().1)
        } else {
            earlier
        }
    }
}

/// The stored total as read right after each accepted submission, when
/// `calls` are made in order from `state`.
pub open spec fn snapshots<A>(state: State<A>, calls: Seq<(A, u32)>) -> Seq<u32>
    decreases calls.len(),
{
    if calls.len() == 0 {
        Seq::empty()
    } else {
        let before = state.run(calls.drop_last());
        let earlier = snapshots(state, calls.drop_last());
        if before.accepts(calls.last().1) {
            earlier.push(before.submit(calls.last().0, calls.last().1).total.unwrap())
        } else {
            earlier
        }
    }
}

/// A value above the ceiling is rejected as too large, whatever the total is,
/// and the state, the total with it, stays as it was.
pub proof fn law_ceiling<A>(state: State<A>, who: A, value: u32)
    requires
        value > state.max_value,
    ensures
        state.outcome(value) == Err::<(), Error>(Error::ValueBiggerThanMax),
        state.submit(who, value) == state,
        state.submit(who, value).total == state.total,
{
}

/// The first submission within the ceiling is accepted and becomes the total.
pub proof fn law_first_write<A>(max_value: u32, who: A, value: u32)
    requires
        value <= max_value,
    ensures
        State::<A>::fresh(max_value).outcome(value) == Ok::<(), Error>(()),
        State::<A>::fresh(max_value).submit(who, value).total == Some(value),
{
}

/// A value within the ceiling whose sum with the total does not fit in `u32`
/// is rejected as an overflow, and the state stays as it was. Whatever the
/// value, such a sum is never stored: the total stays what it was.
pub proof fn law_overflow_guard<A>(state: State<A>, who: A, value: u32)
    requires
        state.total is Some,
        state.total.unwrap() + value > u32::MAX,
    ensures
        state.outcome(value) is Err,
        value <= state.max_value ==> state.outcome(value) == Err::<(), Error>(
            Error::StorageOverflow,
        ),
        state.submit(who, value) == state,
        state.submit(who, value).total == state.total,
{
}

/// Running `calls` and then one more submission is running them all.
pub proof fn law_run_step<A>(state: State<A>, calls: Seq<(A, u32)>, who: A, value: u32)
    ensures
        state.run(calls.push((who, value))) == state.run(calls).submit(who, value),
{
    let longer = calls.push((who, value));
    assert(longer.drop_last() == calls);
}

/// The total is the sum of what was accepted: after any submissions from any
/// state, the amount stored is the amount stored before plus the accepted
/// values, no total is stored only if none was stored and nothing was
/// accepted, and the ceiling is what it was.
pub proof fn law_total_is_sum_of_accepted<A>(state: State<A>, calls: Seq<(A, u32)>)
    ensures
        amount(state.run(calls).total) == amount(state.total) + sum(accepted(state, calls)),
        state.run(calls).total is None <==> (state.total is None
            && accepted(state, calls).len() == 0),
        state.run(calls).max_value == state.max_value,
    decreases calls.len(),
{
    if calls.len() > 0 {
        law_total_is_sum_of_accepted(state, calls.drop_last());
        let before = state.run(calls.drop_last());
        let earlier = accepted(state, calls.drop_last());
        if before.accepts(calls.last().1) {
            assert(earlier.push(calls.last().1).drop_last() == earlier);
        }
    }
}

/// No value above the ceiling is ever accepted.
pub proof fn law_accepted_within_ceiling<A>(state: State<A>, calls: Seq<(A, u32)>)
    ensures
        forall|i: int|
            0 <= i < accepted(state, calls).len() ==> (#[trigger] accepted(state, calls)[i])
                <= state.max_value,
    decreases calls.len(),
{
    if calls.len() > 0 {
        law_accepted_within_ceiling(state, calls.drop_last());
        law_total_is_sum_of_accepted(state, calls.drop_last());
    }
}

/// The total never decreases, and once stored it stays stored.
pub proof fn law_total_never_decreases<A>(state: State<A>, calls: Seq<(A, u32)>)
    ensures
        amount(state.run(calls).total) >= amount(state.total),
        state.total is Some ==> state.run(calls).total is Some,
{
    law_total_is_sum_of_accepted(state, calls);
}

/// Where every one of `calls` is accepted, the accepted values are the values
/// of `calls`.
pub proof fn law_all_accepted_values<A>(state: State<A>, calls: Seq<(A, u32)>)
    requires
        all_accepted(state, calls),
    ensures
        accepted(state, calls) == values(calls),
    decreases calls.len(),
{
    if calls.len() > 0 {
        let shorter = calls.drop_last();
        assert(all_accepted(state, shorter)) by {
            assert forall|i: int| 0 <= i < shorter.len() implies state.run(shorter.take(i)).accepts(
                (#[trigger] shorter[i]).1,
            ) by {
                assert(shorter.take(i) == calls.take(i));
            }
        }
        law_all_accepted_values(state, shorter);
    }
}

/// Accumulation: after submissions that were all accepted, made from a fresh
/// state, the total is the sum of their values, and no total is stored only
/// if there was no submission; so every value was within the ceiling and the
/// sum fits in `u32`.
pub proof fn law_accumulation<A>(max_value: u32, calls: Seq<(A, u32)>)
    requires
        all_accepted(State::<A>::fresh(max_value), calls),
    ensures
        sum(values(calls)) <= u32::MAX,
        calls.len() == 0 ==> State::<A>::fresh(max_value).run(calls).total is None,
        calls.len() > 0 ==> State::<A>::fresh(max_value).run(calls).total == Some(
            sum(values(calls)) as u32,
        ),
        forall|i: int| 0 <= i < calls.len() ==> (#[trigger] calls[i]).1 <= max_value,
{
    let fresh = State::<A>::fresh(max_value);
    law_all_accepted_values(fresh, calls);
    law_total_is_sum_of_accepted(fresh, calls);
    assert forall|i: int| 0 <= i < calls.len() implies (#[trigger] calls[i]).1 <= max_value by {
        law_total_is_sum_of_accepted(fresh, calls.take(i));
    }
}

/// Submissions from a fresh state whose values are each within the ceiling
/// and whose sum fits in `u32` are all accepted.
pub proof fn law_accepted_within_bounds<A>(max_value: u32, calls: Seq<(A, u32)>)
    requires
        forall|i: int| 0 <= i < calls.len() ==> (#[trigger] calls[i]).1 <= max_value,
        sum(values(calls)) <= u32::MAX,
    ensures
        all_accepted(State::<A>::fresh(max_value), calls),
    decreases calls.len(),
{
    let fresh = State::<A>::fresh(max_value);
    if calls.len() > 0 {
        let shorter = calls.drop_last();
        assert(values(calls).drop_last() == values(shorter));
        law_accepted_within_bounds(max_value, shorter);
        law_all_accepted_values(fresh, shorter);
        law_total_is_sum_of_accepted(fresh, shorter);
        assert forall|i: int| 0 <= i < calls.len() implies fresh.run(calls.take(i)).accepts(
            (#[trigger] calls[i]).1,
        ) by {
            if i < shorter.len() {
                assert(shorter.take(i) == calls.take(i));
                assert(shorter[i] == calls[i]);
            } else {
                assert(calls.take(i) == shorter);
            }
        }
    }
}

/// Notification order: the totals announced while `calls` run are, in order,
/// the totals read right after each accepted submission, one event for each,
/// and they follow what was announced before.
pub proof fn law_notifications_are_snapshots<A>(state: State<A>, calls: Seq<(A, u32)>)
    ensures
        new_totals(state.run(calls).events) == new_totals(state.events) + snapshots(state, calls),
        state.run(calls).events.len() == state.events.len() + accepted(state, calls).len(),
        snapshots(state, calls).len() == accepted(state, calls).len(),
    decreases calls.len(),
{
    if calls.len() > 0 {
        law_notifications_are_snapshots(state, calls.drop_last());
        let before = state.run(calls.drop_last());
        if before.accepts(calls.last().1) {
            let after = before.submit(calls.last().0, calls.last().1);
            assert(new_totals(after.events) == new_totals(before.events).push(
                after.total.unwrap(),
            ));
        }
    }
}

} // verus!
