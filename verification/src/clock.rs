//! Time as plain numbers: instants and spans are microseconds in a `u64`.

use embassy_time::Duration;
use vstd::prelude::*;

verus! {

/// Latest instant the state machines accept. A run of the machine starts at zero, so it
/// comes after half a million years; the room above it keeps every schedule from
/// overflowing.
pub const LAST_INSTANT: u64 = 0xffff_ffff_0000_0000;

/// A span of `ms` milliseconds, in microseconds.
pub open spec fn us(ms: int) -> int {
    1000 * ms
}

/// `embassy_time::Duration::from_millis`, read back with `as_micros`. At a tick rate of one
/// megahertz, which is the one the crate is built with, a tick is a microsecond and neither
/// conversion rounds: the result is a thousand times the argument.
#[verifier::external_body]
pub(crate) fn micros(ms: u64) -> (span: u64)
    requires
        us(ms as int) <= u64::MAX,
    ensures
        span == us(ms as int),
{
    Duration::from_millis(ms).as_micros()
}

/// Law: spans add up, and a millisecond is a thousand microseconds.
pub proof fn spans_add_up(a: int, b: int)
    ensures
        us(a + b) == us(a) + us(b),
        us(a) - us(a - 1) == 1000,
        us(0) == 0,
{
}

} // verus!
