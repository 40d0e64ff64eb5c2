//! Personal-data purpose and retention, as value types.
use vstd::prelude::*;
use std::time::Duration;

verus! {

/// Why personal data is processed.
#[derive(Debug, Clone, PartialEq, Eq)]
pub struct Purpose {
    pub description: String,
}

/// `<Duration as Clone>::clone`: a `Duration` is `Copy`, so its clone is the same value.
pub assume_specification[ <core::time::Duration as Clone>::clone ](d: &Duration) -> (r: Duration)
    ensures
        r == *d,
;

/// How long personal data may be kept.
#[derive(Debug, Clone, PartialEq, Eq)]
pub struct RetentionPeriod {
    pub duration: Duration,
}

} // verus!
