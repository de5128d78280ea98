//! The flag bits of the features, and what it means for a mask to hold one.

use vstd::prelude::*;

verus! {

/// The empty mask.
pub const NONE: u32 = 0x00;

/// Raw samples as they are captured.
pub const RAW: u32 = 0x01;

/// A notice that the default output device has changed.
pub const DEFAULT_DEVICE_CHANGE: u32 = 0x02;

/// The mean of each raw buffer.
pub const MOVING_AVERAGE: u32 = 0x04;

/// Every flag that names a feature.
pub const ALL: u32 = 0x07;

/// Whether `flag` is the flag of exactly one feature.
pub open spec fn is_flag(flag: u32) -> bool {
    flag == RAW || flag == DEFAULT_DEVICE_CHANGE || flag == MOVING_AVERAGE
}

/// Whether `mask` and `flags` have a bit in common.
pub open spec fn holds(mask: u32, flags: u32) -> bool {
    mask & flags != 0
}

/// Whether every bit of `part` is a bit of `whole`.
pub open spec fn within(part: u32, whole: u32) -> bool {
    part & !whole == 0
}

/// A union holds a bit exactly when one of its sides does.
pub proof fn lemma_holds_union(a: u32, b: u32, flags: u32)
    ensures
        holds(a | b, flags) == (holds(a, flags) || holds(b, flags)),
{
    assert(((a | b) & flags != 0) == ((a & flags != 0) || (b & flags != 0))) by (bit_vector);
}

/// A union lies within a mask exactly when both of its sides do.
pub proof fn lemma_within_union(a: u32, b: u32, whole: u32)
    ensures
        within(a | b, whole) == (within(a, whole) && within(b, whole)),
{
    assert(((a | b) & !whole == 0) == ((a & !whole == 0) && (b & !whole == 0))) by (bit_vector);
}

/// For the flag of a single feature, to be held and to lie within a mask are
/// the same; distinct flags share no bit; the empty mask holds nothing and
/// lies within everything.
pub proof fn lemma_single_flags(mask: u32)
    ensures
        holds(mask, RAW) == within(RAW, mask),
        holds(mask, DEFAULT_DEVICE_CHANGE) == within(DEFAULT_DEVICE_CHANGE, mask),
        holds(mask, MOVING_AVERAGE) == within(MOVING_AVERAGE, mask),
        !holds(NONE, mask),
        !holds(mask, NONE),
        within(NONE, mask),
        within(mask, ALL) ==> (mask == NONE || holds(mask, RAW) || holds(mask, DEFAULT_DEVICE_CHANGE)
            || holds(mask, MOVING_AVERAGE)),
{
    assert((mask & 1u32 != 0) == (1u32 & !mask == 0)) by (bit_vector);
    assert((mask & 2u32 != 0) == (2u32 & !mask == 0)) by (bit_vector);
    assert((mask & 4u32 != 0) == (4u32 & !mask == 0)) by (bit_vector);
    assert(0u32 & mask == 0) by (bit_vector);
    assert(mask & 0u32 == 0) by (bit_vector);
    assert(0u32 & !mask == 0) by (bit_vector);
    assert(mask & !7u32 == 0 ==> (mask == 0 || mask & 1u32 != 0 || mask & 2u32 != 0 || mask & 4u32
        != 0)) by (bit_vector);
}

/// Which flags hold which: each flag holds itself and no other, and all of
/// them lie within `ALL`.
pub proof fn lemma_flags_distinct()
    ensures
        holds(RAW, RAW),
        !holds(RAW, DEFAULT_DEVICE_CHANGE),
        !holds(RAW, MOVING_AVERAGE),
        !holds(DEFAULT_DEVICE_CHANGE, RAW),
        holds(DEFAULT_DEVICE_CHANGE, DEFAULT_DEVICE_CHANGE),
        !holds(DEFAULT_DEVICE_CHANGE, MOVING_AVERAGE),
        !holds(MOVING_AVERAGE, RAW),
        !holds(MOVING_AVERAGE, DEFAULT_DEVICE_CHANGE),
        holds(MOVING_AVERAGE, MOVING_AVERAGE),
        within(RAW, ALL),
        within(DEFAULT_DEVICE_CHANGE, ALL),
        within(MOVING_AVERAGE, ALL),
        within(NONE, ALL),
{
    assert(1u32 & 1u32 != 0 && 1u32 & 2u32 == 0 && 1u32 & 4u32 == 0) by (bit_vector);
    assert(2u32 & 1u32 == 0 && 2u32 & 2u32 != 0 && 2u32 & 4u32 == 0) by (bit_vector);
    assert(4u32 & 1u32 == 0 && 4u32 & 2u32 == 0 && 4u32 & 4u32 != 0) by (bit_vector);
    assert(1u32 & !7u32 == 0 && 2u32 & !7u32 == 0 && 4u32 & !7u32 == 0 && 0u32 & !7u32 == 0)
        by (bit_vector);
}

} // verus!
