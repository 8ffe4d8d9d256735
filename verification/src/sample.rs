//! An immutable timestamped value.

use vstd::prelude::*;

use crate::time::Timestamp;

verus! {

/// A value paired with the instant it was observed. The timestamp is
/// assigned exactly once, at construction, and a sample is never mutated.
#[derive(Debug)]
pub struct Sample<T> {
    pub timestamp: Timestamp,
    pub value: T,
}

impl<T> Sample<T> {
    /// Bind `value` to the current instant, read once from the host clock.
    pub fn new(value: T) -> (s: Sample<T>)
        ensures
            s.value == value,
    {
        Sample { timestamp: Timestamp::now(), value }
    }

    /// Bind `value` to the given instant.
    pub fn at(timestamp: Timestamp, value: T) -> (s: Sample<T>)
        ensures
            s.timestamp == timestamp,
            s.value == value,
    {
        Sample { timestamp, value }
    }
}

} // verus!
