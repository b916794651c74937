//! Bit-level helpers shared by the bus, the CPU and the picture unit, plus
//! the memory-mapped register addresses of the picture unit.

use vstd::prelude::*;

verus! {

pub const CONTROL: u16 = 0x2000;
pub const MASK: u16 = 0x2001;
pub const STATUS: u16 = 0x2002;
pub const OAM_ADDR: u16 = 0x2003;
pub const OAM_DATA: u16 = 0x2004;
pub const SCROLL: u16 = 0x2005;
pub const ADDR: u16 = 0x2006;
pub const DATA: u16 = 0x2007;
pub const OAM_DMA: u16 = 0x4014;
pub const INPUT: u16 = 0x4016;

/// Reduction of an unbounded integer into the 16-bit address space, the way
/// the address registers wrap.
pub open spec fn w16(v: int) -> u16 {
    (v % 0x10000) as u16
}

/// `w16` is the identity on values already in range, and adds one turn of
/// the space to small negative values.
pub proof fn lemma_w16(v: int)
    ensures
        0 <= v < 0x10000 ==> w16(v) == v,
        -0x10000 <= v < 0 ==> w16(v) == v + 0x10000,
        0x10000 <= v < 0x20000 ==> w16(v) == v - 0x10000,
{
    if 0 <= v < 0x10000 {
        assert(v % 0x10000 == v) by (nonlinear_arith)
            requires
                0 <= v < 0x10000,
        ;
    } else if -0x10000 <= v < 0 {
        assert(v % 0x10000 == v + 0x10000) by (nonlinear_arith)
            requires
                -0x10000 <= v < 0,
        ;
    } else if 0x10000 <= v < 0x20000 {
        assert(v % 0x10000 == v - 0x10000) by (nonlinear_arith)
            requires
                0x10000 <= v < 0x20000,
        ;
    }
}

/// Little-endian pairing of a low and a high byte.
pub open spec fn combine16(low: u8, high: u8) -> u16 {
    low as u16 | (high as u16) << 8
}

/// `combine16` seen arithmetically, with its byte projections.
pub proof fn lemma_combine16(low: u8, high: u8)
    by (bit_vector)
    ensures
        combine16(low, high) == low + 256 * high,
        combine16(low, high) & 0xFF == low,
        combine16(low, high) >> 8 == high,
{
}

/// Facts about single-bit masks that the flag and register code leans on.
pub proof fn lemma_bit_basics()
    by (bit_vector)
    ensures
        forall|x: u8, b: u8| b < 8 ==> #[trigger] (x >> b & 0x01) <= 1,
        forall|x: u16, b: u8| b < 16 ==> #[trigger] (x >> b & 0x0001) <= 1,
        forall|x: u8| (x & 1) <= 1,
        forall|x: u8, m: u8| #[trigger] (x & m) <= m,
        forall|x: u16| (x & 0xFF) < 256 && (x >> 8) < 256,
        (1u8 << 1 | 1u8) == 3,
{
}

// Little endian conversion
pub fn combine_low_high(low: u8, high: u8) -> (r: u16)
    ensures
        r == combine16(low, high),
{
    low as u16 | (high as u16) << 8
}

pub fn u8_or(a: u8, b: u8) -> (r: u8)
    ensures
        r == (a | b),
{
    a | b
}

pub fn u8_and(a: u8, b: u8) -> (r: u8)
    ensures
        r == (a & b),
{
    a & b
}

pub fn u8_xor(a: u8, b: u8) -> (r: u8)
    ensures
        r == (a ^ b),
{
    a ^ b
}

pub fn u8_shl(a: u8) -> (r: u8)
    ensures
        r == (a << 1),
{
    a << 1
}

pub fn u8_shr(a: u8) -> (r: u8)
    ensures
        r == (a >> 1),
{
    a >> 1
}

pub fn get_u8_bit(num: u8, bit: u8) -> (r: u8)
    requires
        bit < 8,
    ensures
        r == (num >> bit & 0x01),
        r <= 1,
{
    proof {
        lemma_bit_basics();
    }
    num >> bit & 0x01
}

pub fn get_u16_bit(num: u16, bit: u8) -> (r: u8)
    requires
        bit < 16,
    ensures
        r == ((num >> bit & 0x0001) as u8),
        r <= 1,
{
    proof {
        lemma_bit_basics();
    }
    (num >> bit & 0x0001) as u8
}

/// `num` with bit `bit` forced to `val`.
pub open spec fn spec_set_u8_bit(num: u8, bit: u8, val: u8) -> u8 {
    if val == 1 {
        num | (1u8 << bit)
    } else {
        num & ((1u8 << bit) ^ 0b11111111)
    }
}

pub fn set_u8_bit(num: u8, bit: u8, val: u8) -> (r: u8)
    requires
        bit < 8,
        val <= 1,
    ensures
        r == spec_set_u8_bit(num, bit, val),
{
    if val == 1 {
        num | (1u8 << bit)
    } else {
        num & ((1u8 << bit) ^ 0b11111111)
    }
}

/// The mask selecting the `k + 1` lowest bits, built the way the extraction
/// loop below builds it.
pub open spec fn low_mask(k: nat) -> u8
    decreases k,
{
    if k == 0 {
        1
    } else {
        low_mask((k - 1) as nat) << 1 | 1
    }
}

/// Bits `l` down to `r` of `num`, shifted down to the low end.
pub open spec fn spec_get_u8_bits(num: u8, l: u8, r: u8) -> u8 {
    (num >> r) & low_mask((l - r) as nat)
}

pub fn get_u8_bits(num: u8, l: u8, r: u8) -> (res: u8)
    requires
        r <= l,
        l < 8,
    ensures
        res == spec_get_u8_bits(num, l, r),
        res <= low_mask((l - r) as nat),
{
    proof {
        lemma_bit_basics();
    }
    let new_num = num >> r;
    let mut mask: u8 = 1;
    for n in 0..l - r
        invariant
            mask == low_mask(n as nat),
            l < 8,
    {
        mask = mask << 1;
        mask = mask | 1;
    }
    new_num & mask
}

} // verus!
