//! Conversions between the unsigned amounts of the node and the signed numbers of its callers.

use vstd::prelude::*;

verus! {

/// `value`, or `i64::MAX` where `value` is larger.
pub open spec fn clamped(value: int) -> int {
    if value <= i64::MAX {
        value
    } else {
        i64::MAX as int
    }
}

/// The signed number with the same 64 bits as `value`.
pub open spec fn signed(value: int) -> int {
    if value <= i64::MAX {
        value
    } else {
        value - 0x1_0000_0000_0000_0000
    }
}

/// `value` as a signed number, cut off at the largest one.
pub fn u64_to_i64(value: u64) -> (res: i64)
    ensures
        res == clamped(value as int),
{
    if value <= i64::MAX as u64 {
        value as i64
    } else {
        i64::MAX
    }
}

/// The same 64 bits, read as a signed number.
pub fn same_bits_i64(value: u64) -> (res: i64)
    ensures
        res == signed(value as int),
{
    proof {
        assert(value as i64 == if value <= 0x7fff_ffff_ffff_ffffu64 {
            value as int
        } else {
            value - 0x1_0000_0000_0000_0000
        }) by (bit_vector);
    }
    value as i64
}

/// The whole milliseconds in some nanoseconds, as far as they fit in 64 bits.
pub open spec fn millis(nanos: int) -> int {
    signed(nanos / 1_000_000 % 0x1_0000_0000_0000_0000)
}

/// The whole milliseconds in some nanoseconds, as far as they fit in 64 bits.
pub fn nanos_to_millis(nanos: u128) -> (res: i64)
    ensures
        res == millis(nanos as int),
{
    let whole: u128 = nanos / 1_000_000;
    proof {
        assert(whole as i64 == if whole % 0x1_0000_0000_0000_0000u128 <= 0x7fff_ffff_ffff_ffffu128 {
            (whole % 0x1_0000_0000_0000_0000u128) as int
        } else {
            whole % 0x1_0000_0000_0000_0000u128 - 0x1_0000_0000_0000_0000
        }) by (bit_vector);
    }
    whole as i64
}

/// The same 64 bits, read as an unsigned number.
pub fn same_bits_u64(value: i64) -> (res: u64)
    ensures
        res == value as int % 0x1_0000_0000_0000_0000,
{
    proof {
        assert(value as u64 == value as int % 0x1_0000_0000_0000_0000) by (bit_vector);
    }
    value as u64
}

/// The lowest 32 bits, read as an unsigned number.
pub fn low_bits_u32(value: i64) -> (res: u32)
    ensures
        res == value as int % 0x1_0000_0000,
{
    proof {
        assert(value as u32 == value as int % 0x1_0000_0000) by (bit_vector);
    }
    value as u32
}

/// A number that a signed one can hold is kept as it is, whichever way it is converted. A larger
/// one becomes the largest signed number, or the negative one that differs from it by two to the
/// power of 64.
pub proof fn law_amounts_that_fit_are_kept(value: u64)
    ensures
        value <= 0x7fff_ffff_ffff_ffff ==> clamped(value as int) == value && signed(value as int)
            == value,
        value > 0x7fff_ffff_ffff_ffff ==> clamped(value as int) == 0x7fff_ffff_ffff_ffff && signed(
            value as int,
        ) == value - 0x1_0000_0000_0000_0000,
{
}

/// A larger amount is never shown as a smaller one by the conversion that cuts off, and different
/// amounts never as the same by the one that keeps the bits.
pub proof fn law_conversions_keep_order_and_difference(a: u64, b: u64)
    ensures
        a <= b ==> clamped(a as int) <= clamped(b as int),
        a != b ==> signed(a as int) != signed(b as int),
{
}

/// Milliseconds that fit are the whole milliseconds: no more than the time that passed, and less
/// than one short of it. Any others differ from them by a multiple of two to the power of 64.
pub proof fn law_milliseconds_are_whole(nanos: u128)
    ensures
        nanos < 0x8000_0000_0000_0000 * 1_000_000 ==> millis(nanos as int) * 1_000_000 <= nanos
            < millis(nanos as int) * 1_000_000 + 1_000_000,
        (millis(nanos as int) - nanos as int / 1_000_000) % 0x1_0000_0000_0000_0000 == 0,
        -0x8000_0000_0000_0000 <= millis(nanos as int) < 0x8000_0000_0000_0000,
{
}

} // verus!
