//! Wire codec for the parameter protocol's time values.
//!
//! The remote peer carries an hour or a minute as a small fraction of one
//! hundredth per unit. This module works on the fraction's scaled integer
//! form: the count of hundredths that rounding the wire fraction yields.
//! Encoding a valid unit value gives back the same count, and decoding
//! clamps every count into the valid unit range, so no out-of-range hour
//! or minute ever reaches the stored state or the wire.

use vstd::prelude::*;

verus! {

/// Clamp an integer into the inclusive range `[lo, hi]`.
pub open spec fn spec_clamp(v: int, lo: int, hi: int) -> int {
    if v < lo {
        lo
    } else if v > hi {
        hi
    } else {
        v
    }
}

/// Encode an hour as the scaled wire count, clamping into `[0, 23]` first.
pub fn hour_to_wire(hour: i32) -> (r: i32)
    ensures
        r == spec_clamp(hour as int, 0, 23),
        0 <= r <= 23,
{
    if hour < 0 {
        0
    } else if hour > 23 {
        23
    } else {
        hour
    }
}

/// Encode a minute as the scaled wire count, clamping into `[0, 59]` first.
pub fn minute_to_wire(minute: i32) -> (r: i32)
    ensures
        r == spec_clamp(minute as int, 0, 59),
        0 <= r <= 59,
{
    if minute < 0 {
        0
    } else if minute > 59 {
        59
    } else {
        minute
    }
}

/// Decode a received scaled wire count as an hour, clamping into `[0, 23]`.
/// Corrupted or out-of-range wire values are silently clamped, never
/// rejected: the codec has no error path.
pub fn wire_to_hour(scaled: i32) -> (r: i32)
    ensures
        r == spec_clamp(scaled as int, 0, 23),
        0 <= r <= 23,
{
    if scaled < 0 {
        0
    } else if scaled > 23 {
        23
    } else {
        scaled
    }
}

/// Decode a received scaled wire count as a minute, clamping into `[0, 59]`.
pub fn wire_to_minute(scaled: i32) -> (r: i32)
    ensures
        r == spec_clamp(scaled as int, 0, 59),
        0 <= r <= 59,
{
    if scaled < 0 {
        0
    } else if scaled > 59 {
        59
    } else {
        scaled
    }
}

/// Round trip: every valid hour survives encoding followed by decoding.
pub proof fn lemma_hour_round_trip(hour: int)
    requires
        0 <= hour <= 23,
    ensures
        spec_clamp(spec_clamp(hour, 0, 23), 0, 23) == hour,
{
}

/// Round trip: every valid minute survives encoding followed by decoding.
pub proof fn lemma_minute_round_trip(minute: int)
    requires
        0 <= minute <= 59,
    ensures
        spec_clamp(spec_clamp(minute, 0, 59), 0, 59) == minute,
{
}

/// Decoding never leaves the valid range, whatever count the wire carried.
pub proof fn lemma_decode_always_in_range(scaled: int)
    ensures
        0 <= spec_clamp(scaled, 0, 23) <= 23,
        0 <= spec_clamp(scaled, 0, 59) <= 59,
{
}

} // verus!
