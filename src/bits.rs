//! Indexed access to the bits of a byte.
use vstd::prelude::*;

verus! {

/// Bit `index` (0 = least significant) of `b`.
pub open spec fn bit_of(b: u8, index: u8) -> bool {
    (b >> index) & 1u8 == 1u8
}

/// `b` with bit `index` set to `value` and every other bit kept.
pub open spec fn with_bit(b: u8, index: u8, value: bool) -> u8 {
    if value {
        b | (1u8 << index)
    } else {
        b & !(1u8 << index)
    }
}

/// Reads bit `index` of `input`.
pub fn get_bit(input: u8, index: u8) -> (r: bool)
    requires
        index < 8,
    ensures
        r == bit_of(input, index),
{
    proof {
        assert((input & (1u8 << index) != 0u8) == ((input >> index) & 1u8 == 1u8)) by (bit_vector)
            requires
                index < 8,
        ;
    }
    input & (1u8 << index) != 0
}

/// Sets bit `index` of `*input` to `value`, leaving the other bits alone.
pub fn set_bit(input: &mut u8, index: u8, value: bool)
    requires
        index < 8,
    ensures
        *final(input) == with_bit(*old(input), index, value),
        bit_of(*final(input), index) == value,
        forall|j: u8| j < 8 && j != index ==> bit_of(*final(input), j) == bit_of(*old(input), j),
{
    let x: u8 = 1u8 << index;
    if value {
        *input = *input | x;
    } else {
        *input = *input & !x;
    }
    proof {
        lemma_with_bit(*old(input), index, value);
    }
}

/// Setting one bit changes that bit only.
pub proof fn lemma_with_bit(b: u8, index: u8, value: bool)
    requires
        index < 8,
    ensures
        bit_of(with_bit(b, index, value), index) == value,
        forall|j: u8| j < 8 && j != index ==> bit_of(with_bit(b, index, value), j) == bit_of(b, j),
{
    assert(bit_of(b | (1u8 << index), index)) by (bit_vector)
        requires
            index < 8,
    ;
    assert(!bit_of(b & !(1u8 << index), index)) by (bit_vector)
        requires
            index < 8,
    ;
    assert(forall|j: u8| j < 8 && j != index ==> bit_of(b | (1u8 << index), j) == bit_of(b, j))
        by (bit_vector)
        requires
            index < 8,
    ;
    assert(forall|j: u8| j < 8 && j != index ==> bit_of(b & !(1u8 << index), j) == bit_of(b, j))
        by (bit_vector)
        requires
            index < 8,
    ;
}

} // verus!
