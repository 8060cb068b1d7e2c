//! Logic-level translation for a sysfs GPIO pin.
//!
//! A pin exported through sysfs can be configured active-low, in which case
//! the raw value written to or read from the pin is the inverse of its
//! logical level. The sysfs reads and writes themselves are device I/O and
//! stay with the caller; the inversion rule is decided here.

use vstd::prelude::*;

verus! {

/// The raw sysfs value that drives an output pin to the wanted logical
/// level: inverted exactly when the pin is configured active-low.
pub fn output_level(active_low: bool, logical_high: bool) -> (v: u8)
    ensures
        v == (if active_low != logical_high {
            1u8
        } else {
            0u8
        }),
{
    if active_low != logical_high {
        1
    } else {
        0
    }
}

/// The logical level an input pin reports for a raw sysfs value: a nonzero
/// raw value means high, inverted exactly when the pin is configured
/// active-low.
pub fn input_is_high(active_low: bool, raw: u8) -> (r: bool)
    ensures
        r == (if active_low {
            raw == 0
        } else {
            raw != 0
        }),
{
    if active_low {
        raw == 0
    } else {
        raw != 0
    }
}

} // verus!
