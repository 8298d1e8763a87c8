use crate::error::Error;
use crate::event::Event;
use crate::total::{accepts, next_total, spec_next_total};
use vstd::prelude::*;

verus! {

/// What a [`Pallet`] stands for: its ceiling, the stored total and every
/// event announced so far, oldest first.
pub struct State<A> {
    /// The largest value that one submission may carry.
    pub max_value: u32,
    /// The stored total; `None` until the first accepted submission.
    pub total: Option<u32>,
    /// The events announced so far, in the order of the submissions.
    pub events: Seq<Event<A>>,
}

impl<A> State<A> {
    /// The state before any submission.
    pub open spec fn fresh(max_value: u32) -> Self {
        State { max_value, total: None, events: Seq::empty() }
    }

    /// Whether a submission of `value` would be accepted in this state.
    pub open spec fn accepts(self, value: u32) -> bool {
        accepts(self.max_value, self.total, value)
    }

    /// What a submission of `value` returns in this state.
    pub open spec fn outcome(self, value: u32) -> Result<(), Error> {
        match spec_next_total(self.max_value, self.total, value) {
            Ok(_) => Ok(()),
            Err(e) => Err(e),
        }
    }

    /// The state after `who` submits `value`: an accepted value replaces the
    /// total and appends one event; a rejected one leaves the state as it is.
    pub open spec fn submit(self, who: A, value: u32) -> Self {
        match spec_next_total(self.max_value, self.total, value) {
            Ok(new_total) => State {
                max_value: self.max_value,
                total: Some(new_total),
                events: self.events.push(Event::TotalUpdated(new_total, who)),
            },
            Err(_) => self,
        }
    }

    /// The state after the submissions `calls`, each a submitter and a value,
    /// made in order.
    pub open spec fn run(self, calls: Seq<(A, u32)>) -> Self
        decreases calls.len(),
    {
        if calls.len() == 0 {
            self
        } else {
            self.run(calls.drop_last()).submit(calls.last().0, calls.last().1)
        }
    }
}

/// The accumulator: one stored total, the ceiling on a single submission, and
/// the log of announced events.
pub struct Pallet<A> {
    max_value: u32,
    total: Option<u32>,
    events: Vec<Event<A>>,
}

impl<A> View for Pallet<A> {
    type V = State<A>;

    closed spec fn view(&self) -> State<A> {
        State { max_value: self.max_value, total: self.total, events: self.events@ }
    }
}

impl<A> Pallet<A> {
    /// A pallet that accepts values up to `max_value`, with no total stored
    /// and nothing announced.
    pub fn new(max_value: u32) -> (pallet: Self)
        ensures
            pallet@ == State::<A>::fresh(max_value),
    {
        Pallet { max_value, total: None, events: Vec::new() }
    }

    /// The ceiling on a single submission. It never changes.
    pub fn max_value(&self) -> (max_value: u32)
        ensures
            max_value == self@.max_value,
    {
        self.max_value
    }

    /// The stored total: `None` if no submission was accepted yet.
    pub fn total(&self) -> (total: Option<u32>)
        ensures
            total == self@.total,
    {
        self.total
    }

    /// The events announced so far, oldest first.
    pub fn events(&self) -> (events: &Vec<Event<A>>)
        ensures
            events@ == self@.events,
    {
        &self.events
    }

    /// Submits `value` on behalf of `who`, whose identity the caller has
    /// already established.
    ///
    /// A value above the ceiling is rejected before the total is looked at.
    /// Otherwise the value becomes the total if none was stored, or is added
    /// to it unless the sum would not fit in `u32`. An accepted submission
    /// stores the new total and then appends exactly one event that carries
    /// it; a rejected one changes nothing.
    pub fn add_value(&mut self, who: A, value: u32) -> (result: Result<(), Error>)
        ensures
            final(self)@ == old(self)@.submit(who, value),
            result == old(self)@.outcome(value),
            result is Ok <==> old(self)@.accepts(value),
            // The ceiling.
            value > old(self)@.max_value ==> (result == Err::<(), Error>(
                Error::ValueBiggerThanMax,
            ) && final(self)@ == old(self)@),
            // The first write.
            value <= old(self)@.max_value && old(self)@.total is None ==> (result is Ok
                && final(self)@.total == Some(value)),
            // Accumulation.
            old(self)@.total matches Some(current) ==> (value <= old(self)@.max_value
                && current + value <= u32::MAX ==> (result is Ok
                && final(self)@.total == Some((current + value) as u32))),
            // The overflow guard.
            old(self)@.total matches Some(current) ==> (value <= old(self)@.max_value
                && current + value > u32::MAX ==> (result == Err::<(), Error>(
                Error::StorageOverflow,
            ) && final(self)@ == old(self)@)),
            // One event for each accepted submission, none for a rejected one.
            result is Ok ==> (final(self)@.total matches Some(new_total)
                && final(self)@.events == old(self)@.events.push(
                Event::TotalUpdated(new_total, who),
            )),
            result is Err ==> final(self)@ == old(self)@,
            final(self)@.max_value == old(self)@.max_value,
    {
        match next_total(self.max_value, self.total, value) {
            Ok(new_total) => {
                self.total = Some(new_total);
                self.events.push(Event::TotalUpdated(new_total, who));
                Ok(())
            },
            Err(e) => Err(e),
        }
    }
}

} // verus!
