//! Flag words: setting and clearing single bits.
use vstd::prelude::*;

verus! {

/// The flag word `set` with `bit` switched on when `enable` holds, and
/// switched off otherwise.
pub open spec fn masked(set: u32, bit: u32, enable: bool) -> u32 {
    if enable {
        set | bit
    } else {
        set & !bit
    }
}

/// Whether every bit of `bit` is on in `set`.
pub open spec fn has_flag(set: u32, bit: u32) -> bool {
    set & bit == bit
}

/// Switches `bit` on in `set` when `enable` holds, and off otherwise.
pub fn mask(set: u32, bit: u32, enable: bool) -> (r: u32)
    ensures
        r == masked(set, bit, enable),
{
    if enable {
        set | bit
    } else {
        set & !bit
    }
}

/// After masking, `bit` is on exactly when it was enabled (for a nonzero
/// `bit`).
pub proof fn lemma_mask_sets_bit(set: u32, bit: u32, enable: bool)
    requires
        bit != 0,
    ensures
        has_flag(masked(set, bit, enable), bit) == enable,
{
    if enable {
        assert((set | bit) & bit == bit) by (bit_vector);
    } else {
        assert(bit != 0 ==> (set & !bit) & bit != bit) by (bit_vector);
    }
}

/// Masking `bit` leaves every bit outside of it as it was.
pub proof fn lemma_mask_keeps_others(set: u32, bit: u32, enable: bool, other: u32)
    requires
        bit & other == 0,
    ensures
        has_flag(masked(set, bit, enable), other) == has_flag(set, other),
        masked(set, bit, enable) & other == set & other,
{
    assert(bit & other == 0 ==> (set | bit) & other == set & other) by (bit_vector);
    assert(bit & other == 0 ==> (set & !bit) & other == set & other) by (bit_vector);
}

/// Masking the same bit twice is the same as masking it once with the
/// second setting: the last call wins.
pub proof fn lemma_mask_last_wins(set: u32, bit: u32, first: bool, second: bool)
    ensures
        masked(masked(set, bit, first), bit, second) == masked(set, bit, second),
{
    assert((set | bit) | bit == set | bit) by (bit_vector);
    assert((set & !bit) | bit == set | bit) by (bit_vector);
    assert((set | bit) & !bit == set & !bit) by (bit_vector);
    assert((set & !bit) & !bit == set & !bit) by (bit_vector);
}

/// Masking two disjoint bits gives the same word in either order.
pub proof fn lemma_mask_commutes(set: u32, a: u32, ea: bool, b: u32, eb: bool)
    requires
        a & b == 0,
    ensures
        masked(masked(set, a, ea), b, eb) == masked(masked(set, b, eb), a, ea),
{
    assert((set | a) | b == (set | b) | a) by (bit_vector);
    assert((set & !a) & !b == (set & !b) & !a) by (bit_vector);
    assert(a & b == 0 ==> (set | a) & !b == (set & !b) | a) by (bit_vector);
    assert(a & b == 0 ==> (set & !a) | b == (set | b) & !a) by (bit_vector);
}

/// Masking a bit that already has the requested setting changes nothing.
pub proof fn lemma_mask_noop(set: u32, bit: u32, enable: bool)
    requires
        enable ==> set & bit == bit,
        !enable ==> set & bit == 0,
    ensures
        masked(set, bit, enable) == set,
{
    assert(set & bit == bit ==> set | bit == set) by (bit_vector);
    assert(set & bit == 0 ==> set & !bit == set) by (bit_vector);
}

} // verus!
