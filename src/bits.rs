//! Byte-level model of a register pair and of the flags byte.
use vstd::prelude::*;

verus! {

/// The sixteen-bit value whose more significant byte is `h` and less significant byte is `l`.
pub open spec fn pair_of(h: u8, l: u8) -> u16 {
    ((h as u16) << 8u16) | (l as u16)
}

/// The more significant byte of `v`.
pub open spec fn high_of(v: u16) -> u8 {
    (v >> 8u16) as u8
}

/// The less significant byte of `v`.
pub open spec fn low_of(v: u16) -> u8 {
    v as u8
}

/// `v` with its more significant byte replaced by `h`.
pub open spec fn with_high(v: u16, h: u8) -> u16 {
    pair_of(h, low_of(v))
}

/// `v` with its less significant byte replaced by `l`.
pub open spec fn with_low(v: u16, l: u8) -> u16 {
    pair_of(high_of(v), l)
}

/// Mask of the zero flag in the flags byte.
pub const ZERO_MASK: u8 = 0x80;

/// Mask of the add/subtract flag in the flags byte.
pub const ADDSUB_MASK: u8 = 0x40;

/// Mask of the half-carry flag in the flags byte.
pub const HALF_CARRY_MASK: u8 = 0x20;

/// Mask of the carry flag in the flags byte.
pub const CARRY_MASK: u8 = 0x10;

/// `m` is the mask of one of the four flags.
pub open spec fn is_flag_mask(m: u8) -> bool {
    m == ZERO_MASK || m == ADDSUB_MASK || m == HALF_CARRY_MASK || m == CARRY_MASK
}

/// Whether the flag with mask `m` is set in the flags byte `f`.
pub open spec fn flag_is_set(f: u8, m: u8) -> bool {
    f & m != 0
}

/// The flags byte `f` with the flag of mask `m` turned on.
pub open spec fn flag_on(f: u8, m: u8) -> u8 {
    f | m
}

/// The flags byte `f` with the flag of mask `m` turned off.
pub open spec fn flag_off(f: u8, m: u8) -> u8 {
    f & !m
}

/// The four unused bits at the bottom of the flags byte `f`.
pub open spec fn low_nibble(f: u8) -> u8 {
    f & 0x0f
}

/// Writing the full pair and reading it back gives the value written, and its
/// halves are the top and bottom eight bits of that value.
pub proof fn lemma_split_join(v: u16)
    ensures
        pair_of(high_of(v), low_of(v)) == v,
        high_of(v) == (v >> 8u16) as u8,
        low_of(v) == v as u8,
{
    assert((((v >> 8u16) as u8) as u16) << 8u16 | ((v as u8) as u16) == v) by (bit_vector);
}

/// Joining two bytes and splitting the result gives the same two bytes.
pub proof fn lemma_join_split(h: u8, l: u8)
    ensures
        high_of(pair_of(h, l)) == h,
        low_of(pair_of(h, l)) == l,
{
    assert((((((h as u16) << 8u16) | (l as u16)) >> 8u16) as u8) == h) by (bit_vector);
    assert(((((h as u16) << 8u16) | (l as u16)) as u8) == l) by (bit_vector);
}

/// Writing the high byte and then the low byte, in either order, leaves the pair
/// holding `h` above `l`, whatever it held before.
pub proof fn lemma_write_halves(v: u16, h: u8, l: u8)
    ensures
        with_low(with_high(v, h), l) == ((h as u16) << 8u16) | (l as u16),
        with_high(with_low(v, l), h) == ((h as u16) << 8u16) | (l as u16),
{
    lemma_join_split(h, low_of(v));
    lemma_join_split(high_of(v), l);
}

/// Writing one half of a pair sets that half and leaves the other unchanged.
pub proof fn lemma_halves_independent(v: u16, x: u8)
    ensures
        high_of(with_high(v, x)) == x,
        low_of(with_high(v, x)) == low_of(v),
        low_of(with_low(v, x)) == x,
        high_of(with_low(v, x)) == high_of(v),
{
    lemma_join_split(x, low_of(v));
    lemma_join_split(high_of(v), x);
}

proof fn lemma_mask_bits(f: u8, m: u8, n: u8) by (bit_vector)
    requires
        m == 0x80u8 || m == 0x40u8 || m == 0x20u8 || m == 0x10u8,
        n == 0x80u8 || n == 0x40u8 || n == 0x20u8 || n == 0x10u8,
        m != n,
    ensures
        (f | m) & m != 0,
        (f & !m) & m == 0,
        ((f | m) & n != 0) == (f & n != 0),
        ((f & !m) & n != 0) == (f & n != 0),
        (f | m) & 0x0fu8 == f & 0x0fu8,
        (f & !m) & 0x0fu8 == f & 0x0fu8,
        (f | m) | m == f | m,
        (f & !m) & !m == f & !m,
        (f | m) & !m == f & !m,
        (f & !m) | m == f | m,
{
}

/// Turning a flag on makes it read as set; turning it off makes it read as clear.
pub proof fn lemma_flag_set_get(f: u8, m: u8)
    requires
        is_flag_mask(m),
    ensures
        flag_is_set(flag_on(f, m), m),
        !flag_is_set(flag_off(f, m), m),
{
    let n: u8 = if m == ZERO_MASK { CARRY_MASK } else { ZERO_MASK };
    lemma_mask_bits(f, m, n);
}

/// Turning one flag on or off leaves every other flag and the unused low nibble
/// unchanged.
pub proof fn lemma_flag_independent(f: u8, m: u8, n: u8)
    requires
        is_flag_mask(m),
        is_flag_mask(n),
        m != n,
    ensures
        flag_is_set(flag_on(f, m), n) == flag_is_set(f, n),
        flag_is_set(flag_off(f, m), n) == flag_is_set(f, n),
        low_nibble(flag_on(f, m)) == low_nibble(f),
        low_nibble(flag_off(f, m)) == low_nibble(f),
{
    lemma_mask_bits(f, m, n);
}

/// Turning a flag on twice gives the same byte as turning it on once, and the
/// same holds of turning it off.
pub proof fn lemma_flag_idempotent(f: u8, m: u8)
    requires
        is_flag_mask(m),
    ensures
        flag_on(flag_on(f, m), m) == flag_on(f, m),
        flag_off(flag_off(f, m), m) == flag_off(f, m),
{
    let n: u8 = if m == ZERO_MASK { CARRY_MASK } else { ZERO_MASK };
    lemma_mask_bits(f, m, n);
}

} // verus!
