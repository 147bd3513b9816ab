//! Sign extension and 32-bit two's-complement arithmetic, stated over the
//! integers.

use vstd::prelude::*;

verus! {

/// The value of a two's-complement number whose unsigned reading is
/// `value` and whose sign bit weighs `sign_weight`: for a number of `n` bits,
/// `sign_weight` is 2^(n-1).
pub open spec fn sign_extend(value: int, sign_weight: int) -> int
    recommends
        0 <= value < 2 * sign_weight,
{
    if value >= sign_weight {
        value - 2 * sign_weight
    } else {
        value
    }
}

/// The 32-bit word that is congruent to `value` modulo 2^32.
pub open spec fn wrap32(value: int) -> u32 {
    (value % 0x1_0000_0000) as u32
}

/// The two's-complement reading of a 32-bit word.
pub open spec fn signed(word: u32) -> int {
    if word < 0x8000_0000 {
        word as int
    } else {
        word as int - 0x1_0000_0000
    }
}

/// `word` shifted right by `amount` places, the vacated places filled with
/// copies of bit 31.
pub open spec fn shift_right_arithmetic(word: u32, amount: u32) -> u32
    recommends
        amount < 32,
{
    if word < 0x8000_0000 {
        word >> amount
    } else {
        (word >> amount) | !(0xFFFF_FFFFu32 >> amount)
    }
}

/// A cast from `u32` to `i32` keeps the bits.
proof fn lemma_signed_cast(word: u32)
    by (bit_vector)
    ensures
        (word as i32) as int == (if word < 0x8000_0000 {
            word as int
        } else {
            word as int - 0x1_0000_0000
        }),
{
}

/// A cast from `i32` to `u32` keeps the bits.
proof fn lemma_unsigned_cast(value: i32)
    by (bit_vector)
    ensures
        (value as u32) as int == (if value >= 0 {
            value as int
        } else {
            value as int + 0x1_0000_0000
        }),
{
}

/// The right shift of `i32` fills the vacated places with the sign bit.
proof fn lemma_shift_right_arithmetic(word: u32, amount: u32)
    by (bit_vector)
    requires
        amount < 32,
    ensures
        ((word as i32) >> amount) as u32 == (if word < 0x8000_0000 {
            word >> amount
        } else {
            (word >> amount) | !(0xFFFF_FFFFu32 >> amount)
        }),
{
}

/// `word` read as a signed number, by a cast.
pub fn to_signed(word: u32) -> (value: i32)
    ensures
        value == signed(word),
{
    proof {
        lemma_signed_cast(word);
    }
    word as i32
}

/// The 32-bit word that holds `value` in two's complement.
pub fn to_unsigned(value: i32) -> (word: u32)
    ensures
        word == wrap32(value as int),
        signed(word) == value,
{
    proof {
        lemma_unsigned_cast(value);
    }
    value as u32
}

/// `word` shifted right by `amount` places with its sign kept.
pub fn sra(word: u32, amount: u32) -> (shifted: u32)
    requires
        amount < 32,
    ensures
        shifted == shift_right_arithmetic(word, amount),
{
    proof {
        lemma_shift_right_arithmetic(word, amount);
    }
    ((word as i32) >> amount) as u32
}

} // verus!
