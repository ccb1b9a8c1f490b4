//! Single-bit and bit-range access on bytes, through the `bit_field` crate.
use bit_field::BitField;
use vstd::prelude::*;

verus! {

/// Mask with only bit `i` set.
pub open spec fn bit_mask(i: u8) -> u8 {
    1u8 << i
}

/// Whether bit `i` of `v` is one.
pub open spec fn bit_of(v: u8, i: u8) -> bool {
    v & bit_mask(i) != 0
}

/// `v` with bit `i` forced to `b`.
pub open spec fn with_bit(v: u8, i: u8, b: bool) -> u8 {
    if b {
        v | bit_mask(i)
    } else {
        v & !bit_mask(i)
    }
}

/// `v` with its low `n` bits replaced by `val`.
pub open spec fn with_low_bits(v: u8, n: u8, val: u8) -> u8 {
    ((v >> n) << n) | val
}

/// Relies on `BitField::get_bit` for `u8` (bit_field): `(v & (1 << i)) != 0`;
/// it asserts `i < 8`.
#[verifier::external_body]
pub(crate) fn get_bit(v: u8, i: usize) -> (r: bool)
    requires
        i < 8,
    ensures
        r == bit_of(v, i as u8),
{
    v.get_bit(i)
}

/// Relies on `BitField::set_bit` for `u8` (bit_field): ors in `1 << i` when
/// `b`, else ands with its complement; it asserts `i < 8`.
#[verifier::external_body]
pub(crate) fn set_bit(v: u8, i: usize, b: bool) -> (r: u8)
    requires
        i < 8,
    ensures
        r == with_bit(v, i as u8, b),
{
    let mut x = v;
    *x.set_bit(i, b)
}

/// Relies on `BitField::set_bits` for `u8` (bit_field) on the range `0..n`:
/// the low `n` bits are replaced by `val`, the others kept; it asserts that
/// the range lies in the byte and that `val` fits in it.
#[verifier::external_body]
pub(crate) fn set_low_bits(v: u8, n: usize, val: u8) -> (r: u8)
    requires
        1 <= n < 8,
        val < bit_mask(n as u8),
    ensures
        r == with_low_bits(v, n as u8, val),
{
    let mut x = v;
    *x.set_bits(0..n, val)
}

/// Big-endian pairing of two bytes into a word.
pub open spec fn pair16(hi: u8, lo: u8) -> u16 {
    ((hi as u16) << 8u16) | (lo as u16)
}

/// High byte of a word.
pub open spec fn hi8(v: u16) -> u8 {
    (v >> 8u16) as u8
}

/// Low byte of a word.
pub open spec fn lo8(v: u16) -> u8 {
    (v & 0xffu16) as u8
}

/// The word whose high byte is `hi` and low byte is `lo`.
pub fn from_be_bytes(hi: u8, lo: u8) -> (r: u16)
    ensures
        r == pair16(hi, lo),
        r == hi as int * 256 + lo as int,
        hi8(r) == hi,
        lo8(r) == lo,
{
    let r = ((hi as u16) << 8u16) | (lo as u16);
    assert(((hi as u16) << 8u16) | (lo as u16) == hi as u16 * 256 + lo as u16) by (bit_vector);
    assert(hi8(pair16(hi, lo)) == hi && lo8(pair16(hi, lo)) == lo) by (bit_vector);
    r
}

/// The high and low bytes of `v`.
pub fn to_be_bytes(v: u16) -> (r: (u8, u8))
    ensures
        r.0 == hi8(v),
        r.1 == lo8(v),
        pair16(r.0, r.1) == v,
        v == r.0 as int * 256 + r.1 as int,
{
    assert(pair16(hi8(v), lo8(v)) == v) by (bit_vector);
    assert(v == (v >> 8u16) * 256 + (v & 0xffu16) && (v >> 8u16) < 256 && (v & 0xffu16) < 256)
        by (bit_vector);
    ((v >> 8u16) as u8, (v & 0xffu16) as u8)
}

} // verus!
