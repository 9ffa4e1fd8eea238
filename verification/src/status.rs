//! The processor's status register, and bytes and words taken apart.

use vstd::prelude::*;

verus! {

/// Carry.
pub const FLAG_CARRY: u8 = 0x01;

/// Zero.
pub const FLAG_ZERO: u8 = 0x02;

/// Interrupt disable.
pub const FLAG_INTERRUPT: u8 = 0x04;

/// Decimal mode. This processor keeps the bit and never reads it.
pub const FLAG_DECIMAL: u8 = 0x08;

/// Break.
pub const FLAG_BREAK: u8 = 0x10;

/// The bit without a meaning.
pub const FLAG_UNUSED: u8 = 0x20;

/// Overflow.
pub const FLAG_OVERFLOW: u8 = 0x40;

/// Negative.
pub const FLAG_NEGATIVE: u8 = 0x80;

/// A mask names one flag when it has exactly one bit.
pub open spec fn is_flag(mask: u8) -> bool {
    mask == FLAG_CARRY || mask == FLAG_ZERO || mask == FLAG_INTERRUPT || mask == FLAG_DECIMAL
        || mask == FLAG_BREAK || mask == FLAG_UNUSED || mask == FLAG_OVERFLOW || mask
        == FLAG_NEGATIVE
}

/// Whether a flag is set in a status byte.
pub open spec fn flag(status: u8, mask: u8) -> bool {
    status & mask != 0
}

/// A status byte with a flag set or cleared.
pub open spec fn with_flag(status: u8, mask: u8, on: bool) -> u8 {
    if on {
        status | mask
    } else {
        status & !mask
    }
}

/// A status byte after a result: Zero says the result is zero, Negative
/// that its top bit is set.
pub open spec fn with_zn(status: u8, value: u8) -> u8 {
    with_flag(with_flag(status, FLAG_ZERO, value == 0), FLAG_NEGATIVE, value >= 0x80)
}

/// A byte read as a signed number.
pub open spec fn signed(value: u8) -> int {
    if value >= 0x80 {
        value - 0x100
    } else {
        value as int
    }
}

/// The word with the given low and high byte.
pub open spec fn word(lo: u8, hi: u8) -> u16 {
    (hi * 0x100 + lo) as u16
}

/// The high byte of a word, which is also the number of its page.
pub open spec fn high_byte(w: u16) -> u8 {
    (w / 0x100) as u8
}

/// The low byte of a word.
pub open spec fn low_byte(w: u16) -> u8 {
    (w % 0x100) as u8
}

/// A branch displacement as the 16-bit number that, added to an address
/// with wrap-around, moves it forward or back by the signed byte.
pub open spec fn sign_extended(displacement: u8) -> u16 {
    if displacement >= 0x80 {
        (0xFF00 + displacement) as u16
    } else {
        displacement as u16
    }
}

/// Whether a flag is set in a status byte.
pub fn flag_set(status: u8, mask: u8) -> (on: bool)
    ensures
        on == flag(status, mask),
{
    status & mask != 0
}

/// Puts a word together from its low and high byte.
pub fn make_word(lo: u8, hi: u8) -> (w: u16)
    ensures
        w == word(lo, hi),
{
    assert((((hi as u16) << 8) | (lo as u16)) == (hi as u16) * 0x100 + (lo as u16))
        by (bit_vector);
    ((hi as u16) << 8) | (lo as u16)
}

/// The high byte of a word.
pub fn high_byte_of(w: u16) -> (hi: u8)
    ensures
        hi == high_byte(w),
{
    assert((w >> 8) == w / 0x100 && (w >> 8) < 0x100) by (bit_vector);
    (w >> 8) as u8
}

/// The low byte of a word.
pub fn low_byte_of(w: u16) -> (lo: u8)
    ensures
        lo == low_byte(w),
{
    assert((w & 0x00FF) == w % 0x100) by (bit_vector);
    (w & 0x00FF) as u8
}

/// Whether two addresses lie in different pages.
pub fn pages_differ(a: u16, b: u16) -> (differ: bool)
    ensures
        differ == (high_byte(a) != high_byte(b)),
{
    assert(((a & 0xFF00) != (b & 0xFF00)) == (a / 0x100 != b / 0x100)) by (bit_vector);
    (a & 0xFF00) != (b & 0xFF00)
}

/// Extends the sign of a displacement to 16 bits.
pub fn sign_extend(displacement: u8) -> (w: u16)
    ensures
        w == sign_extended(displacement),
{
    let d: u16 = displacement as u16;
    assert(d < 0x100 ==> ((d & 0x80 != 0) == (d >= 0x80)) && (d | 0xFF00) == 0xFF00 + d)
        by (bit_vector);
    if d & 0x80 != 0 {
        d | 0xFF00
    } else {
        d
    }
}

/// A flag reads back as it was written.
pub proof fn law_flag_reads_back(status: u8, mask: u8, on: bool)
    requires
        is_flag(mask),
    ensures
        flag(with_flag(status, mask, on), mask) == on,
{
    assert(mask != 0 ==> (status | mask) & mask != 0 && (status & !mask) & mask == 0)
        by (bit_vector);
}

/// Writing one flag leaves every other flag as it was.
pub proof fn law_flag_leaves_others(status: u8, mask: u8, on: bool, other: u8)
    requires
        is_flag(mask),
        is_flag(other),
        mask != other,
    ensures
        flag(with_flag(status, mask, on), other) == flag(status, other),
{
    assert(mask & other == 0 ==> ((status | mask) & other == status & other) && ((status & !mask)
        & other == status & other)) by (bit_vector);
    assert(mask & other == 0) by (bit_vector)
        requires
            is_flag(mask),
            is_flag(other),
            mask != other,
    ;
}

/// Adding a displacement to an address, with wrap-around, moves the
/// address by the signed byte.
pub proof fn law_displacement_is_signed(addr: u16, displacement: u8)
    ensures
        addr.wrapping_add(sign_extended(displacement)) == (addr + signed(displacement))
            % 0x10000,
{
}

/// A word is its two bytes.
pub proof fn law_word_is_its_bytes(w: u16, lo: u8, hi: u8)
    ensures
        word(low_byte(w), high_byte(w)) == w,
        low_byte(word(lo, hi)) == lo,
        high_byte(word(lo, hi)) == hi,
{
}

/// After a result, Zero says that it is zero and Negative that its top bit
/// is set; the other six flags are as they were.
pub proof fn law_zn_tells_the_result(status: u8, value: u8, other: u8)
    requires
        is_flag(other),
        other != FLAG_ZERO,
        other != FLAG_NEGATIVE,
    ensures
        flag(with_zn(status, value), FLAG_ZERO) == (value == 0),
        flag(with_zn(status, value), FLAG_NEGATIVE) == (value >= 0x80),
        flag(with_zn(status, value), FLAG_NEGATIVE) == (signed(value) < 0),
        flag(with_zn(status, value), other) == flag(status, other),
{
    let zero = with_flag(status, FLAG_ZERO, value == 0);
    law_flag_reads_back(status, FLAG_ZERO, value == 0);
    law_flag_reads_back(zero, FLAG_NEGATIVE, value >= 0x80);
    law_flag_leaves_others(zero, FLAG_NEGATIVE, value >= 0x80, FLAG_ZERO);
    law_flag_leaves_others(status, FLAG_ZERO, value == 0, other);
    law_flag_leaves_others(zero, FLAG_NEGATIVE, value >= 0x80, other);
}

/// A status byte is its eight flags: two bytes with the same flags are the
/// same byte.
pub proof fn law_status_is_its_flags(a: u8, b: u8)
    requires
        forall|mask: u8| is_flag(mask) ==> #[trigger] flag(a, mask) == flag(b, mask),
    ensures
        a == b,
{
    assert(flag(a, FLAG_CARRY) == flag(b, FLAG_CARRY));
    assert(flag(a, FLAG_ZERO) == flag(b, FLAG_ZERO));
    assert(flag(a, FLAG_INTERRUPT) == flag(b, FLAG_INTERRUPT));
    assert(flag(a, FLAG_DECIMAL) == flag(b, FLAG_DECIMAL));
    assert(flag(a, FLAG_BREAK) == flag(b, FLAG_BREAK));
    assert(flag(a, FLAG_UNUSED) == flag(b, FLAG_UNUSED));
    assert(flag(a, FLAG_OVERFLOW) == flag(b, FLAG_OVERFLOW));
    assert(flag(a, FLAG_NEGATIVE) == flag(b, FLAG_NEGATIVE));
    assert(a == b) by (bit_vector)
        requires
            (a & 0x01 != 0) == (b & 0x01 != 0),
            (a & 0x02 != 0) == (b & 0x02 != 0),
            (a & 0x04 != 0) == (b & 0x04 != 0),
            (a & 0x08 != 0) == (b & 0x08 != 0),
            (a & 0x10 != 0) == (b & 0x10 != 0),
            (a & 0x20 != 0) == (b & 0x20 != 0),
            (a & 0x40 != 0) == (b & 0x40 != 0),
            (a & 0x80 != 0) == (b & 0x80 != 0),
    ;
}

} // verus!
