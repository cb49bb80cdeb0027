//! Bit-twiddling helpers on 32-bit words.

use vstd::prelude::*;

verus! {

/// Whether bit `i` of `x` is set.
pub open spec fn bit_spec(x: u32, i: u32) -> bool {
    (x >> i) & 1u32 == 1u32
}

/// The low `n` bits set, for `n <= 32`.
pub open spec fn mask_spec(n: u32) -> u32 {
    if n >= 32 {
        0xffff_ffffu32
    } else {
        ((1u32 << n) - 1u32) as u32
    }
}

/// Number of set bits among the `n` lowest bits of `x`.
pub open spec fn ones_below(x: u32, n: nat) -> nat
    decreases n,
{
    if n == 0 {
        0
    } else {
        ones_below(x, (n - 1) as nat) + if bit_spec(x, (n - 1) as u32) { 1nat } else { 0nat }
    }
}

/// Clears bit `bit` of `x`.
pub fn bit_clr(x: u32, bit: u32) -> (r: u32)
    requires
        bit < 32,
    ensures
        r == x & !(1u32 << bit),
{
    x & !(1u32 << bit)
}

/// Sets bit `bit` of `x`.
pub fn bit_set(x: u32, bit: u32) -> (r: u32)
    requires
        bit < 32,
    ensures
        r == x | (1u32 << bit),
{
    x | (1u32 << bit)
}

/// Flips bit `bit` of `x`.
pub fn bit_not(x: u32, bit: u32) -> (r: u32)
    requires
        bit < 32,
    ensures
        r == x ^ (1u32 << bit),
{
    x ^ (1u32 << bit)
}

/// Whether bit `bit` of `x` is set.
pub fn bit_is_on(x: u32, bit: u32) -> (r: bool)
    requires
        bit < 32,
    ensures
        r == bit_spec(x, bit),
{
    let r = (x >> bit) & 1u32 != 0u32;
    assert(((x >> bit) & 1u32 != 0u32) == ((x >> bit) & 1u32 == 1u32)) by (bit_vector);
    r
}

/// Whether bit `bit` of `x` is clear.
pub fn bit_is_off(x: u32, bit: u32) -> (r: bool)
    requires
        bit < 32,
    ensures
        r == !bit_spec(x, bit),
{
    !bit_is_on(x, bit)
}

/// A word whose `nbits` lowest bits are set and the others clear.
pub fn bits_mask(nbits: u32) -> (r: u32)
    requires
        nbits <= 32,
    ensures
        r == mask_spec(nbits),
{
    if nbits == 32 {
        assert(!0u32 == 0xffff_ffffu32) by (bit_vector);
        return !0u32;
    }
    assert(1u32 << nbits >= 1u32) by (bit_vector)
        requires
            nbits < 32,
    ;
    (1u32 << nbits) - 1u32
}

/// The field `lb..=ub` of `x`, shifted down to bit 0.
pub fn bits_get(x: u32, lb: u32, ub: u32) -> (r: u32)
    requires
        lb <= ub,
        ub < 32,
    ensures
        r == (x >> lb) & mask_spec((ub - lb + 1) as u32),
{
    (x >> lb) & bits_mask(ub - lb + 1)
}

/// `x` with the field `lb..=ub` cleared.
pub fn bits_clr(x: u32, lb: u32, ub: u32) -> (r: u32)
    requires
        lb <= ub,
        ub < 32,
    ensures
        r == x & !(mask_spec((ub - lb + 1) as u32) << lb),
{
    let mask = bits_mask(ub - lb + 1);
    x & !(mask << lb)
}

/// `x` with the field `lb..=ub` replaced by `v`, which must fit the field.
pub fn bits_set(x: u32, lb: u32, ub: u32, v: u32) -> (r: u32)
    requires
        lb <= ub,
        ub < 32,
        mask_spec((ub - lb + 1) as u32) & v == v,
    ensures
        r == (x & !(mask_spec((ub - lb + 1) as u32) << lb)) | (v << lb),
{
    bits_clr(x, lb, ub) | (v << lb)
}

/// Whether the field `lb..=ub` of `x` equals `val`.
pub fn bits_eq(x: u32, lb: u32, ub: u32, val: u32) -> (r: bool)
    requires
        lb <= ub,
        ub < 32,
    ensures
        r == ((x >> lb) & mask_spec((ub - lb + 1) as u32) == val),
{
    bits_get(x, lb, ub) == val
}

/// Number of set bits in `x`.
pub fn bit_count(x: u32) -> (r: u32)
    ensures
        r as nat == ones_below(x, 32),
{
    let mut cnt: u32 = 0;
    let mut i: u32 = 0;
    while i < 32
        invariant
            i <= 32,
            cnt as nat == ones_below(x, i as nat),
            cnt <= i,
        decreases 32 - i,
    {
        if bit_is_on(x, i) {
            cnt = cnt + 1;
        }
        i = i + 1;
    }
    cnt
}

/// Bits set in `x` or in `y`.
pub fn bits_union(x: u32, y: u32) -> (r: u32)
    ensures
        r == x | y,
{
    x | y
}

/// Bits set in both `x` and `y`.
pub fn bits_intersect(x: u32, y: u32) -> (r: u32)
    ensures
        r == x & y,
{
    x & y
}

/// Every bit of `x` flipped.
pub fn bits_not(x: u32) -> (r: u32)
    ensures
        r == !x,
{
    !x
}

/// Bits set in `a` and clear in `b`.
pub fn bits_diff(a: u32, b: u32) -> (r: u32)
    ensures
        r == a & !b,
{
    bits_intersect(a, bits_not(b))
}

} // verus!
