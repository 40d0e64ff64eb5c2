//! Reading a `std::time::Duration`: whole seconds and sub-second nanoseconds, and the
//! whole milliseconds they make.
use vstd::prelude::*;
use std::time::Duration;

verus! {

/// The whole seconds of a duration (`Duration::as_secs`).
pub uninterp spec fn duration_secs(d: Duration) -> u64;

/// The sub-second nanoseconds of a duration (`Duration::subsec_nanos`).
pub uninterp spec fn duration_nanos(d: Duration) -> u32;

/// `Duration::as_secs`: the whole seconds.
#[verifier::external_body]
pub fn secs_of(d: &Duration) -> (r: u64)
    ensures
        r == duration_secs(*d),
{
    d.as_secs()
}

/// `Duration::subsec_nanos`: the fractional part in nanoseconds, always below one second.
#[verifier::external_body]
pub fn nanos_of(d: &Duration) -> (r: u32)
    ensures
        r == duration_nanos(*d),
        r < 1_000_000_000,
{
    d.subsec_nanos()
}

/// The whole milliseconds of a duration.
pub open spec fn duration_ms(d: Duration) -> int {
    duration_secs(d) * 1000 + duration_nanos(d) / 1_000_000
}

/// The whole milliseconds of a duration, as `Duration::as_millis` computes them.
pub fn millis_of(d: &Duration) -> (r: u128)
    ensures
        r == duration_ms(*d),
{
    let s = secs_of(d) as u128;
    let n = nanos_of(d) as u128;
    assert(s * 1000 <= 18446744073709551615u128 * 1000) by (nonlinear_arith)
        requires
            s <= 18446744073709551615u128,
    ;
    s * 1000 + n / 1_000_000
}

} // verus!
