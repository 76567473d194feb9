//! The 32-bit value and its single bits.

use vstd::prelude::*;

verus! {

/// Whether bit `index` of `value` is set. Bit 0 is the least significant one,
/// bit 31 the most significant.
pub open spec fn bit_at(value: u32, index: u32) -> bool {
    (value >> index) & 1 == 1
}

/// `value` with bit `index` forced to `bit`.
pub open spec fn with_bit(value: u32, index: u32, bit: bool) -> u32 {
    if bit {
        value | (1u32 << index)
    } else {
        value & !(1u32 << index)
    }
}

/// Reading back the bit that `with_bit` wrote gives the written bit, and
/// every other bit is the one that `value` had.
pub proof fn lemma_with_bit_reads_back(value: u32, index: u32, bit: bool, other: u32)
    requires
        index < 32,
        other < 32,
    ensures
        bit_at(with_bit(value, index, bit), index) == bit,
        other != index ==> bit_at(with_bit(value, index, bit), other) == bit_at(value, other),
{
    assert(((value | (1u32 << index)) >> index) & 1 == 1 && ((value & !(1u32 << index)) >> index)
        & 1 == 0) by (bit_vector)
        requires
            index < 32,
    ;
    assert(other != index ==> ((value | (1u32 << index)) >> other) & 1 == (value >> other) & 1 && (
    (value & !(1u32 << index)) >> other) & 1 == (value >> other) & 1) by (bit_vector)
        requires
            index < 32,
            other < 32,
    ;
}

/// Setting a bit and reading it gives `true`, clearing it and reading it
/// gives `false`, and neither touches any other bit.
pub proof fn lemma_set_then_get(value: u32, index: u32)
    requires
        index < 32,
    ensures
        bit_at(with_bit(value, index, true), index),
        !bit_at(with_bit(value, index, false), index),
        forall|other: u32, bit: bool|
            other < 32 && other != index ==> bit_at(#[trigger] with_bit(value, index, bit), other)
                == #[trigger] bit_at(value, other),
{
    lemma_with_bit_reads_back(value, index, true, index);
    lemma_with_bit_reads_back(value, index, false, index);
    assert forall|other: u32, bit: bool| other < 32 && other != index implies bit_at(
        #[trigger] with_bit(value, index, bit),
        other,
    ) == #[trigger] bit_at(value, other) by {
        lemma_with_bit_reads_back(value, index, bit, other);
    }
}

/// Two values with the same thirty-two bits are the same value.
pub proof fn lemma_same_bits_same_value(left: u32, right: u32)
    requires
        forall|index: u32| index < 32 ==> bit_at(left, index) == bit_at(right, index),
    ensures
        left == right,
{
    assert(bit_at(left, 0) == bit_at(right, 0));
    assert(bit_at(left, 1) == bit_at(right, 1));
    assert(bit_at(left, 2) == bit_at(right, 2));
    assert(bit_at(left, 3) == bit_at(right, 3));
    assert(bit_at(left, 4) == bit_at(right, 4));
    assert(bit_at(left, 5) == bit_at(right, 5));
    assert(bit_at(left, 6) == bit_at(right, 6));
    assert(bit_at(left, 7) == bit_at(right, 7));
    assert(bit_at(left, 8) == bit_at(right, 8));
    assert(bit_at(left, 9) == bit_at(right, 9));
    assert(bit_at(left, 10) == bit_at(right, 10));
    assert(bit_at(left, 11) == bit_at(right, 11));
    assert(bit_at(left, 12) == bit_at(right, 12));
    assert(bit_at(left, 13) == bit_at(right, 13));
    assert(bit_at(left, 14) == bit_at(right, 14));
    assert(bit_at(left, 15) == bit_at(right, 15));
    assert(bit_at(left, 16) == bit_at(right, 16));
    assert(bit_at(left, 17) == bit_at(right, 17));
    assert(bit_at(left, 18) == bit_at(right, 18));
    assert(bit_at(left, 19) == bit_at(right, 19));
    assert(bit_at(left, 20) == bit_at(right, 20));
    assert(bit_at(left, 21) == bit_at(right, 21));
    assert(bit_at(left, 22) == bit_at(right, 22));
    assert(bit_at(left, 23) == bit_at(right, 23));
    assert(bit_at(left, 24) == bit_at(right, 24));
    assert(bit_at(left, 25) == bit_at(right, 25));
    assert(bit_at(left, 26) == bit_at(right, 26));
    assert(bit_at(left, 27) == bit_at(right, 27));
    assert(bit_at(left, 28) == bit_at(right, 28));
    assert(bit_at(left, 29) == bit_at(right, 29));
    assert(bit_at(left, 30) == bit_at(right, 30));
    assert(bit_at(left, 31) == bit_at(right, 31));
    assert(left == right) by (bit_vector)
        requires
            ((left >> 0u32) & 1 == 1) == ((right >> 0u32) & 1 == 1),
            ((left >> 1u32) & 1 == 1) == ((right >> 1u32) & 1 == 1),
            ((left >> 2u32) & 1 == 1) == ((right >> 2u32) & 1 == 1),
            ((left >> 3u32) & 1 == 1) == ((right >> 3u32) & 1 == 1),
            ((left >> 4u32) & 1 == 1) == ((right >> 4u32) & 1 == 1),
            ((left >> 5u32) & 1 == 1) == ((right >> 5u32) & 1 == 1),
            ((left >> 6u32) & 1 == 1) == ((right >> 6u32) & 1 == 1),
            ((left >> 7u32) & 1 == 1) == ((right >> 7u32) & 1 == 1),
            ((left >> 8u32) & 1 == 1) == ((right >> 8u32) & 1 == 1),
            ((left >> 9u32) & 1 == 1) == ((right >> 9u32) & 1 == 1),
            ((left >> 10u32) & 1 == 1) == ((right >> 10u32) & 1 == 1),
            ((left >> 11u32) & 1 == 1) == ((right >> 11u32) & 1 == 1),
            ((left >> 12u32) & 1 == 1) == ((right >> 12u32) & 1 == 1),
            ((left >> 13u32) & 1 == 1) == ((right >> 13u32) & 1 == 1),
            ((left >> 14u32) & 1 == 1) == ((right >> 14u32) & 1 == 1),
            ((left >> 15u32) & 1 == 1) == ((right >> 15u32) & 1 == 1),
            ((left >> 16u32) & 1 == 1) == ((right >> 16u32) & 1 == 1),
            ((left >> 17u32) & 1 == 1) == ((right >> 17u32) & 1 == 1),
            ((left >> 18u32) & 1 == 1) == ((right >> 18u32) & 1 == 1),
            ((left >> 19u32) & 1 == 1) == ((right >> 19u32) & 1 == 1),
            ((left >> 20u32) & 1 == 1) == ((right >> 20u32) & 1 == 1),
            ((left >> 21u32) & 1 == 1) == ((right >> 21u32) & 1 == 1),
            ((left >> 22u32) & 1 == 1) == ((right >> 22u32) & 1 == 1),
            ((left >> 23u32) & 1 == 1) == ((right >> 23u32) & 1 == 1),
            ((left >> 24u32) & 1 == 1) == ((right >> 24u32) & 1 == 1),
            ((left >> 25u32) & 1 == 1) == ((right >> 25u32) & 1 == 1),
            ((left >> 26u32) & 1 == 1) == ((right >> 26u32) & 1 == 1),
            ((left >> 27u32) & 1 == 1) == ((right >> 27u32) & 1 == 1),
            ((left >> 28u32) & 1 == 1) == ((right >> 28u32) & 1 == 1),
            ((left >> 29u32) & 1 == 1) == ((right >> 29u32) & 1 == 1),
            ((left >> 30u32) & 1 == 1) == ((right >> 30u32) & 1 == 1),
            ((left >> 31u32) & 1 == 1) == ((right >> 31u32) & 1 == 1),
    ;
}

/// Taking the complement twice gives the value back.
pub proof fn lemma_not_is_involution(value: u32)
    ensures
        !(!value) == value,
{
    assert(!(!value) == value) by (bit_vector);
}

/// The value shifted left by one place: every bit moves one place up, the
/// top bit is dropped and bit 0 becomes clear. Nothing comes round.
pub fn shift_left(value: u32) -> (shifted: u32)
    ensures
        shifted == value << 1u32,
        shifted == (value as nat * 2) % 0x1_0000_0000,
        !bit_at(shifted, 0),
        forall|index: u32|
            1 <= index < 32 ==> bit_at(shifted, index) == bit_at(value, (index - 1) as u32),
{
    let shifted = value << 1;
    proof {
        assert(value << 1u32 == (value as nat * 2) % 0x1_0000_0000 && ((value << 1u32) >> 0u32) & 1
            == 0) by (bit_vector);
        assert forall|index: u32| 1 <= index < 32 implies bit_at(shifted, index) == bit_at(
            value,
            (index - 1) as u32,
        ) by {
            let below = (index - 1) as u32;
            assert(((value << 1u32) >> index) & 1 == (value >> below) & 1) by (bit_vector)
                requires
                    1 <= index < 32,
                    below == index - 1,
            ;
        }
    }
    shifted
}

/// The value shifted right by one place: every bit moves one place down, bit
/// 0 is dropped and the top bit becomes clear.
pub fn shift_right(value: u32) -> (shifted: u32)
    ensures
        shifted == value >> 1u32,
        shifted == value / 2,
        !bit_at(shifted, 31),
        forall|index: u32|
            index < 31 ==> bit_at(shifted, index) == bit_at(value, (index + 1) as u32),
{
    let shifted = value >> 1;
    proof {
        assert(value >> 1u32 == value / 2 && ((value >> 1u32) >> 31u32) & 1 == 0) by (bit_vector);
        assert forall|index: u32| index < 31 implies bit_at(shifted, index) == bit_at(
            value,
            (index + 1) as u32,
        ) by {
            let above = (index + 1) as u32;
            assert(((value >> 1u32) >> index) & 1 == (value >> above) & 1) by (bit_vector)
                requires
                    index < 31,
                    above == index + 1,
            ;
        }
    }
    shifted
}

/// The one's complement of the value: every bit is turned over.
pub fn bitwise_not(value: u32) -> (flipped: u32)
    ensures
        flipped == !value,
        flipped == u32::MAX - value,
        forall|index: u32| index < 32 ==> bit_at(flipped, index) == !bit_at(value, index),
{
    let flipped = !value;
    proof {
        assert(!value == 0xffff_ffffu32 - value) by (bit_vector);
        assert forall|index: u32| index < 32 implies bit_at(flipped, index) == !bit_at(
            value,
            index,
        ) by {
            assert((((!value) >> index) & 1 == 1) == !((value >> index) & 1 == 1)) by (bit_vector)
                requires
                    index < 32,
            ;
        }
    }
    flipped
}

/// The two's complement of the value, which is the pattern of minus the
/// value where the pattern is read as a signed number. Zero and the lowest
/// signed number each stay as they are.
pub fn negate(value: u32) -> (negated: u32)
    ensures
        negated == (0x1_0000_0000 - value) % 0x1_0000_0000,
        negated as i32 as int == (if value as i32 == i32::MIN {
            i32::MIN as int
        } else {
            -(value as i32 as int)
        }),
{
    let negated = 0u32.wrapping_sub(value);
    proof {
        assert(negated as i32 as int == if value as i32 == i32::MIN {
            i32::MIN as int
        } else {
            -(value as i32 as int)
        }) by (bit_vector)
            requires
                negated == if value == 0 {
                    0u32
                } else {
                    (0x1_0000_0000 - value) as u32
                },
        ;
    }
    negated
}

} // verus!
