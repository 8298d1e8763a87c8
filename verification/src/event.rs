use vstd::prelude::*;

verus! {

/// What the pallet announces. `A` is the type of the submitter's identity.
#[derive(Debug, Clone, PartialEq, Eq)]
pub enum Event<A> {
    /// The total changed: the new total, and who submitted the value.
    TotalUpdated(u32, A),
}

impl<A> Event<A> {
    /// The total that the event announces.
    pub open spec fn spec_new_total(self) -> u32 {
        match self {
            Event::TotalUpdated(new_total, _) => new_total,
        }
    }

    /// The total that the event announces.
    pub fn new_total(&self) -> (n: u32)
        ensures
            n == self.spec_new_total(),
    {
        match self {
            Event::TotalUpdated(new_total, _) => *new_total,
        }
    }

    /// The identity that submitted the value.
    pub fn who(&self) -> (who: &A)
        ensures
            *self == Event::TotalUpdated(self.spec_new_total(), *who),
    {
        match self {
            Event::TotalUpdated(_, who) => who,
        }
    }
}

} // verus!
