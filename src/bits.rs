//! Fields of 32-bit control registers.
use vstd::prelude::*;

verus! {

/// The low `width` bits set.
pub open spec fn low_mask(width: u32) -> u32 {
    ((1u32 << width) - 1) as u32
}

/// The field of `width` bits starting at bit `lo`.
pub open spec fn field(v: u32, lo: u32, width: u32) -> u32 {
    (v >> lo) & low_mask(width)
}

/// The bits of `v` outside the field of `width` bits starting at bit `lo`.
pub open spec fn outside(v: u32, lo: u32, width: u32) -> u32 {
    v & !(low_mask(width) << lo)
}

/// `v` with `x`, cut to `width` bits, in the field starting at bit `lo`.
pub open spec fn with_field(v: u32, lo: u32, width: u32, x: u32) -> u32 {
    (v & !(low_mask(width) << lo)) | ((x & low_mask(width)) << lo)
}

/// `v` with bit `i` set to `b`.
pub open spec fn with_bit(v: u32, i: u32, b: bool) -> u32 {
    with_field(v, i, 1, if b { 1 } else { 0 })
}

/// Whether bit `i` of `v` is set.
pub open spec fn bit(v: u32, i: u32) -> bool {
    field(v, i, 1) == 1
}

/// A field fits in the word.
pub open spec fn field_fits(lo: u32, width: u32) -> bool {
    1 <= width < 32 && lo + width <= 32
}

/// Reads the field of `width` bits starting at bit `lo`.
pub fn get_field(v: u32, lo: u32, width: u32) -> (r: u32)
    requires
        field_fits(lo, width),
    ensures
        r == field(v, lo, width),
        r <= low_mask(width),
{
    assert((1u32 << width) >= 1) by (bit_vector)
        requires
            width < 32,
    ;
    let m: u32 = (1u32 << width) - 1;
    let r = (v >> lo) & m;
    assert(r <= m) by (bit_vector)
        requires
            r == (v >> lo) & m,
    ;
    r
}

/// Writes `x`, cut to `width` bits, into the field starting at bit `lo`,
/// keeping every other bit.
pub fn set_field(v: u32, lo: u32, width: u32, x: u32) -> (r: u32)
    requires
        field_fits(lo, width),
    ensures
        r == with_field(v, lo, width, x),
        field(r, lo, width) == x & low_mask(width),
        outside(r, lo, width) == outside(v, lo, width),
{
    assert((1u32 << width) >= 1) by (bit_vector)
        requires
            width < 32,
    ;
    let m: u32 = (1u32 << width) - 1;
    let r = (v & !(m << lo)) | ((x & m) << lo);
    assert(((r >> lo) & m) == (x & m) && (r & !(m << lo)) == (v & !(m << lo))) by (bit_vector)
        requires
            1 <= width < 32,
            lo + width <= 32,
            m == (1u32 << width) - 1,
            r == (v & !(m << lo)) | ((x & m) << lo),
    ;
    r
}

/// Reads bit `i`.
pub fn get_bit(v: u32, i: u32) -> (r: bool)
    requires
        i < 32,
    ensures
        r == bit(v, i),
{
    get_field(v, i, 1) == 1
}

/// Sets or clears bit `i`, keeping every other bit.
pub fn set_bit(v: u32, i: u32, b: bool) -> (r: u32)
    requires
        i < 32,
    ensures
        r == with_bit(v, i, b),
        bit(r, i) == b,
        outside(r, i, 1) == outside(v, i, 1),
{
    let r = set_field(v, i, 1, if b { 1 } else { 0 });
    assert(((1u32 << 1u32) - 1) as u32 == 1) by (bit_vector);
    assert(1u32 & 1u32 == 1 && 0u32 & 1u32 == 0) by (bit_vector);
    r
}

} // verus!
