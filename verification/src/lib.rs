//! A running total with a per-submission ceiling and overflow protection.
//!
//! Callers submit bounded unsigned values. Each accepted value is added to a
//! single stored total and announced by one event; a rejected value changes
//! nothing. [`next_total`] is the decision on its own, for hosts that keep the
//! total in storage of their own; [`Pallet`] owns the total and the event log.

pub mod error;
pub mod event;
pub mod laws;
pub mod pallet;
pub mod total;

pub use error::Error;
pub use event::Event;
pub use pallet::Pallet;
pub use total::next_total;
