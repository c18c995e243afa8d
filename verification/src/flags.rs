//! The status byte: one mask per flag, and what setting and testing a flag
//! mean.

use vstd::prelude::*;

verus! {

/// Set when bit 7 of the last result was 1.
pub const NEGATIVE: u8 = 0b1000_0000;

/// Set when the last addition or subtraction left the signed range.
pub const OVERFLOW: u8 = 0b0100_0000;

/// Set by a software break.
pub const BREAK: u8 = 0b0001_0000;

/// Selects decimal arithmetic.
pub const DECIMAL: u8 = 0b0000_1000;

/// Masks interrupt requests.
pub const INTERRUPT: u8 = 0b0000_0100;

/// Set when the last result was 0.
pub const ZERO: u8 = 0b0000_0010;

/// Carry out of bit 7, or the bit shifted out.
pub const CARRY: u8 = 0b0000_0001;

/// Whether the flag `mask` is set in `status`.
pub open spec fn flag(status: u8, mask: u8) -> bool {
    status & mask != 0
}

/// `status` with the flag `mask` set to `on` and every other bit as it was.
pub open spec fn with_flag(status: u8, mask: u8, on: bool) -> u8 {
    if on {
        status | mask
    } else {
        status & !mask
    }
}

/// `status` with Zero and Negative describing `value`.
pub open spec fn with_zn(status: u8, value: u8) -> u8 {
    with_flag(with_flag(status, ZERO, value == 0), NEGATIVE, value >= 0x80)
}

/// Whether `mask` selects exactly one bit of the status byte.
pub open spec fn single_bit(mask: u8) -> bool {
    mask == 0x01 || mask == 0x02 || mask == 0x04 || mask == 0x08 || mask == 0x10 || mask == 0x20
        || mask == 0x40 || mask == 0x80
}

/// Setting or clearing one flag makes that flag read as written and leaves
/// every other flag as it was.
pub proof fn lemma_with_flag(status: u8, mask: u8, on: bool, other: u8)
    by (bit_vector)
    requires
        single_bit(mask),
        single_bit(other),
    ensures
        flag(with_flag(status, mask, on), mask) == on,
        other != mask ==> flag(with_flag(status, mask, on), other) == flag(status, other),
{
}

/// Writing the value a flag already has changes nothing, and the last write
/// to a flag wins.
pub proof fn lemma_with_flag_idempotent(status: u8, mask: u8, on: bool, before: bool)
    by (bit_vector)
    requires
        single_bit(mask),
    ensures
        flag(status, mask) == on ==> with_flag(status, mask, on) == status,
        with_flag(with_flag(status, mask, before), mask, on) == with_flag(status, mask, on),
{
}

/// After Zero and Negative are applied for a result byte, Zero is set exactly
/// when the byte is 0, Negative exactly when its bit 7 is 1, and the other
/// flags are untouched.
pub proof fn lemma_with_zn(status: u8, value: u8, other: u8)
    by (bit_vector)
    requires
        single_bit(other),
    ensures
        flag(with_zn(status, value), ZERO) <==> value == 0,
        flag(with_zn(status, value), NEGATIVE) <==> value & 0x80 != 0,
        flag(with_zn(status, value), NEGATIVE) <==> value >= 0x80,
        other != ZERO && other != NEGATIVE ==> flag(with_zn(status, value), other) == flag(
            status,
            other,
        ),
{
}

} // verus!
