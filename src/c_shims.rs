//! Hooks that parts of the vendor stack expect the application to provide.
use vstd::prelude::*;

verus! {

/// `embassy_time::Instant`: a point in time as the time driver counts it.
#[verifier::external_type_specification]
#[verifier::external_body]
pub struct ExInstant(embassy_time::Instant);

/// Relies on `embassy_time::Instant::now`: reads the time driver; nothing is promised of the
/// value, which depends on when it is called.
pub assume_specification[ embassy_time::Instant::now ]() -> embassy_time::Instant;

/// Relies on `embassy_time::Instant::as_millis`: whole milliseconds since start-up, a
/// multiplication by one and a division; it does not panic.
pub assume_specification[ embassy_time::Instant::as_millis ](i: &embassy_time::Instant) -> u64;

/// Number of values of the 32-bit tick counter.
pub const TICK_WRAP: u64 = 0x1_0000_0000;

/// The HAL millisecond tick for a time in milliseconds: the low 32 bits, so it wraps at 2^32.
pub fn tick_from_millis(ms: u64) -> (r: u32)
    ensures
        r == ms % TICK_WRAP,
{
    (ms % TICK_WRAP) as u32
}

/// The millisecond tick that HAL utilities of the stack read: `tick_from_millis` of the
/// monotonic clock's reading, which any value may be.
#[allow(non_snake_case)]
pub fn HAL_GetTick() -> u32 {
    let ms = embassy_time::Instant::now().as_millis();
    tick_from_millis(ms)
}

} // verus!
