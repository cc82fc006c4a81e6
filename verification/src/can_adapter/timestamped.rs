//! Values with the instant of their receipt.

use std::time::Instant;
use vstd::prelude::*;

verus! {

/// `std::time::Instant`: a point in time. Nothing is known of its value.
#[verifier::external_type_specification]
#[verifier::external_body]
pub struct ExInstant(Instant);

/// `Instant::now`: the current instant. Nothing is promised of it.
#[verifier::external_body]
fn current_instant() -> (now: Instant) {
    Instant::now()
}

/// A value together with the instant at which it was received or observed.
#[derive(Debug)]
pub struct Timestamped<T> {
    pub timestamp: Instant,
    pub value: T,
}

impl<T> Timestamped<T> {
    /// Pairs a value with an instant.
    pub fn new(timestamp: Instant, value: T) -> (stamped: Timestamped<T>)
        ensures
            stamped.timestamp == timestamp,
            stamped.value == value,
    {
        Timestamped { timestamp, value }
    }

    /// Pairs a value with the current instant.
    pub fn now(value: T) -> (stamped: Timestamped<T>)
        ensures
            stamped.value == value,
    {
        Timestamped { timestamp: current_instant(), value }
    }

    pub fn timestamp(&self) -> (timestamp: &Instant)
        ensures
            *timestamp == self.timestamp,
    {
        &self.timestamp
    }

    pub fn value(&self) -> (value: &T)
        ensures
            *value == self.value,
    {
        &self.value
    }
}

} // verus!
