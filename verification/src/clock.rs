//! The game's notion of time: instants taken from the `instant` crate and
//! the lengths of time elapsed since them.
use vstd::prelude::*;

use std::time::Duration;

verus! {

#[verifier::external_type_specification]
#[verifier::external_body]
pub struct ExInstant(instant::Instant);

/// Calls `instant::Instant::now`. Nothing is claimed of the instant it
/// returns: it is read from the system clock.
#[verifier::external_body]
pub fn now() -> (r: instant::Instant) {
    instant::Instant::now()
}

/// Calls `Instant::elapsed`. Nothing is claimed: the time that has passed
/// depends on the clock.
#[verifier::external_body]
pub fn elapsed(since: &instant::Instant) -> (r: Duration) {
    since.elapsed()
}

/// Calls `Duration::as_nanos`. Nothing is claimed of the number, since
/// the duration is opaque here.
#[verifier::external_body]
pub fn as_nanos(d: &Duration) -> (r: u128) {
    d.as_nanos()
}

pub open spec fn nanos_per_milli() -> u128 {
    1_000_000
}

pub open spec fn nanos_per_second() -> u128 {
    1_000_000_000
}

/// Whole milliseconds in a number of nanoseconds (what `Duration::as_millis`
/// gives for that duration).
pub open spec fn whole_millis(nanos: u128) -> u128 {
    nanos / nanos_per_milli()
}

/// Whole seconds in a number of nanoseconds (what `Duration::as_secs` gives).
pub open spec fn whole_seconds(nanos: u128) -> u128 {
    nanos / nanos_per_second()
}

/// Nanoseconds elapsed since `since`.
pub fn nanos_since(since: &instant::Instant) -> (r: u128) {
    let d = elapsed(since);
    as_nanos(&d)
}

/// Whole milliseconds in `nanos`.
pub fn millis_of(nanos: u128) -> (r: u128)
    ensures
        r == whole_millis(nanos),
{
    nanos / 1_000_000
}

/// Whole seconds in `nanos`.
pub fn seconds_of(nanos: u128) -> (r: u128)
    ensures
        r == whole_seconds(nanos),
{
    nanos / 1_000_000_000
}

/// A whole-millisecond reading reaches `millis` exactly when `millis`
/// milliseconds' worth of nanoseconds have passed, and it never goes back
/// as more time passes.
pub proof fn lemma_whole_millis_threshold(nanos: u128, later: u128, millis: u128)
    requires
        nanos <= later,
    ensures
        (whole_millis(nanos) >= millis) == (nanos >= millis * nanos_per_milli()),
        whole_millis(nanos) <= whole_millis(later),
{
    assert((nanos / 1_000_000 >= millis) == (nanos >= millis * 1_000_000)) by (nonlinear_arith);
    assert(nanos <= later ==> nanos / 1_000_000 <= later / 1_000_000) by (nonlinear_arith);
}

/// A whole-second reading reaches `seconds` exactly when that many seconds'
/// worth of nanoseconds have passed, and it never goes back as more time
/// passes.
pub proof fn lemma_whole_seconds_threshold(nanos: u128, later: u128, seconds: u128)
    requires
        nanos <= later,
    ensures
        (whole_seconds(nanos) >= seconds) == (nanos >= seconds * nanos_per_second()),
        whole_seconds(nanos) <= whole_seconds(later),
{
    assert((nanos / 1_000_000_000 >= seconds) == (nanos >= seconds * 1_000_000_000))
        by (nonlinear_arith);
    assert(nanos <= later ==> nanos / 1_000_000_000 <= later / 1_000_000_000) by (nonlinear_arith);
}

} // verus!
