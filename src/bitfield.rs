use vstd::prelude::*;

verus! {

// Generic bit-field access on the raw words that hold hardware registers and
// table entries. A field is given by its lowest bit `lo` and its width `w`; a
// flag is a field of width one, read as a `bool`.

/// The mask of `w` bits starting at bit `lo`.
pub open spec fn mask_u8(lo: u8, w: u8) -> u8 {
    (((1u8 << w) - 1u8) as u8) << lo
}

/// The `w` bits of `x` starting at bit `lo`, shifted down to bit 0.
pub open spec fn bits_u8(x: u8, lo: u8, w: u8) -> u8 {
    (x >> lo) & (((1u8 << w) - 1u8) as u8)
}

/// `x` with its `w` bits at `lo` replaced by the low `w` bits of `v`.
pub open spec fn with_bits_u8(x: u8, lo: u8, w: u8, v: u8) -> u8 {
    (x & !mask_u8(lo, w)) | ((v << lo) & mask_u8(lo, w))
}

/// Bit `b` of `x`.
pub open spec fn bit_u8(x: u8, b: u8) -> bool {
    (x >> b) & 1u8 == 1u8
}


/// A field written with `with_bits_u8` reads back as the low bits of the
/// written value, and no bit outside the field changes.
pub proof fn lemma_bits_u8(x: u8, lo: u8, w: u8, v: u8)
    by (bit_vector)
    requires
        1 <= w < 8,
        lo + w <= 8,
    ensures
        1u8 <= 1u8 << w,
        bits_u8(x, lo, w) < 1u8 << w,
        bits_u8(with_bits_u8(x, lo, w, v), lo, w) == bits_u8(v, 0, w),
        with_bits_u8(x, lo, w, v) & !mask_u8(lo, w) == x & !mask_u8(lo, w),
{
}


pub fn get_bits_u8(x: u8, lo: u8, w: u8) -> (r: u8)
    requires
        1 <= w < 8,
        lo + w <= 8,
    ensures
        r == bits_u8(x, lo, w),
        r < 1u8 << w,
{
    proof {
        lemma_bits_u8(x, lo, w, 0);
    }
    (x >> lo) & ((1u8 << w) - 1)
}

pub fn set_bits_u8(x: u8, lo: u8, w: u8, v: u8) -> (r: u8)
    requires
        1 <= w < 8,
        lo + w <= 8,
    ensures
        r == with_bits_u8(x, lo, w, v),
        bits_u8(r, lo, w) == bits_u8(v, 0, w),
        r & !mask_u8(lo, w) == x & !mask_u8(lo, w),
{
    proof {
        lemma_bits_u8(x, lo, w, v);
    }
    let m = ((1u8 << w) - 1) << lo;
    (x & !m) | ((v << lo) & m)
}

pub fn get_bit_u8(x: u8, b: u8) -> (r: bool)
    requires
        b < 8,
    ensures
        r == bit_u8(x, b),
{
    (x >> b) & 1 == 1
}


/// The mask of `w` bits starting at bit `lo`.
pub open spec fn mask_u16(lo: u16, w: u16) -> u16 {
    (((1u16 << w) - 1u16) as u16) << lo
}

/// The `w` bits of `x` starting at bit `lo`, shifted down to bit 0.
pub open spec fn bits_u16(x: u16, lo: u16, w: u16) -> u16 {
    (x >> lo) & (((1u16 << w) - 1u16) as u16)
}

/// `x` with its `w` bits at `lo` replaced by the low `w` bits of `v`.
pub open spec fn with_bits_u16(x: u16, lo: u16, w: u16, v: u16) -> u16 {
    (x & !mask_u16(lo, w)) | ((v << lo) & mask_u16(lo, w))
}

/// Bit `b` of `x`.
pub open spec fn bit_u16(x: u16, b: u16) -> bool {
    (x >> b) & 1u16 == 1u16
}

/// `x` with bit `b` set to `on`.
pub open spec fn with_bit_u16(x: u16, b: u16, on: bool) -> u16 {
    if on {
        x | (1u16 << b)
    } else {
        x & !(1u16 << b)
    }
}

/// A field written with `with_bits_u16` reads back as the low bits of the
/// written value, and no bit outside the field changes.
pub proof fn lemma_bits_u16(x: u16, lo: u16, w: u16, v: u16)
    by (bit_vector)
    requires
        1 <= w < 16,
        lo + w <= 16,
    ensures
        1u16 <= 1u16 << w,
        bits_u16(x, lo, w) < 1u16 << w,
        bits_u16(with_bits_u16(x, lo, w, v), lo, w) == bits_u16(v, 0, w),
        with_bits_u16(x, lo, w, v) & !mask_u16(lo, w) == x & !mask_u16(lo, w),
{
}

/// A flag written with `with_bit_u16` reads back as written, and no other
/// bit changes.
pub proof fn lemma_bit_u16(x: u16, b: u16, on: bool)
    by (bit_vector)
    requires
        b < 16,
    ensures
        bit_u16(with_bit_u16(x, b, on), b) == on,
        with_bit_u16(x, b, on) & !(1u16 << b) == x & !(1u16 << b),
{
}

pub fn get_bits_u16(x: u16, lo: u16, w: u16) -> (r: u16)
    requires
        1 <= w < 16,
        lo + w <= 16,
    ensures
        r == bits_u16(x, lo, w),
        r < 1u16 << w,
{
    proof {
        lemma_bits_u16(x, lo, w, 0);
    }
    (x >> lo) & ((1u16 << w) - 1)
}

pub fn set_bits_u16(x: u16, lo: u16, w: u16, v: u16) -> (r: u16)
    requires
        1 <= w < 16,
        lo + w <= 16,
    ensures
        r == with_bits_u16(x, lo, w, v),
        bits_u16(r, lo, w) == bits_u16(v, 0, w),
        r & !mask_u16(lo, w) == x & !mask_u16(lo, w),
{
    proof {
        lemma_bits_u16(x, lo, w, v);
    }
    let m = ((1u16 << w) - 1) << lo;
    (x & !m) | ((v << lo) & m)
}

pub fn get_bit_u16(x: u16, b: u16) -> (r: bool)
    requires
        b < 16,
    ensures
        r == bit_u16(x, b),
{
    (x >> b) & 1 == 1
}

pub fn set_bit_u16(x: u16, b: u16, on: bool) -> (r: u16)
    requires
        b < 16,
    ensures
        r == with_bit_u16(x, b, on),
        bit_u16(r, b) == on,
        r & !(1u16 << b) == x & !(1u16 << b),
{
    proof {
        lemma_bit_u16(x, b, on);
    }
    if on {
        x | (1u16 << b)
    } else {
        x & !(1u16 << b)
    }
}

/// The mask of `w` bits starting at bit `lo`.
pub open spec fn mask_u32(lo: u32, w: u32) -> u32 {
    (((1u32 << w) - 1u32) as u32) << lo
}

/// The `w` bits of `x` starting at bit `lo`, shifted down to bit 0.
pub open spec fn bits_u32(x: u32, lo: u32, w: u32) -> u32 {
    (x >> lo) & (((1u32 << w) - 1u32) as u32)
}

/// `x` with its `w` bits at `lo` replaced by the low `w` bits of `v`.
pub open spec fn with_bits_u32(x: u32, lo: u32, w: u32, v: u32) -> u32 {
    (x & !mask_u32(lo, w)) | ((v << lo) & mask_u32(lo, w))
}

/// Bit `b` of `x`.
pub open spec fn bit_u32(x: u32, b: u32) -> bool {
    (x >> b) & 1u32 == 1u32
}

/// `x` with bit `b` set to `on`.
pub open spec fn with_bit_u32(x: u32, b: u32, on: bool) -> u32 {
    if on {
        x | (1u32 << b)
    } else {
        x & !(1u32 << b)
    }
}

/// A field written with `with_bits_u32` reads back as the low bits of the
/// written value, and no bit outside the field changes.
pub proof fn lemma_bits_u32(x: u32, lo: u32, w: u32, v: u32)
    by (bit_vector)
    requires
        1 <= w < 32,
        lo + w <= 32,
    ensures
        1u32 <= 1u32 << w,
        bits_u32(x, lo, w) < 1u32 << w,
        bits_u32(with_bits_u32(x, lo, w, v), lo, w) == bits_u32(v, 0, w),
        with_bits_u32(x, lo, w, v) & !mask_u32(lo, w) == x & !mask_u32(lo, w),
{
}

/// A flag written with `with_bit_u32` reads back as written, and no other
/// bit changes.
pub proof fn lemma_bit_u32(x: u32, b: u32, on: bool)
    by (bit_vector)
    requires
        b < 32,
    ensures
        bit_u32(with_bit_u32(x, b, on), b) == on,
        with_bit_u32(x, b, on) & !(1u32 << b) == x & !(1u32 << b),
{
}

pub fn get_bits_u32(x: u32, lo: u32, w: u32) -> (r: u32)
    requires
        1 <= w < 32,
        lo + w <= 32,
    ensures
        r == bits_u32(x, lo, w),
        r < 1u32 << w,
{
    proof {
        lemma_bits_u32(x, lo, w, 0);
    }
    (x >> lo) & ((1u32 << w) - 1)
}

pub fn set_bits_u32(x: u32, lo: u32, w: u32, v: u32) -> (r: u32)
    requires
        1 <= w < 32,
        lo + w <= 32,
    ensures
        r == with_bits_u32(x, lo, w, v),
        bits_u32(r, lo, w) == bits_u32(v, 0, w),
        r & !mask_u32(lo, w) == x & !mask_u32(lo, w),
{
    proof {
        lemma_bits_u32(x, lo, w, v);
    }
    let m = ((1u32 << w) - 1) << lo;
    (x & !m) | ((v << lo) & m)
}

pub fn get_bit_u32(x: u32, b: u32) -> (r: bool)
    requires
        b < 32,
    ensures
        r == bit_u32(x, b),
{
    (x >> b) & 1 == 1
}

pub fn set_bit_u32(x: u32, b: u32, on: bool) -> (r: u32)
    requires
        b < 32,
    ensures
        r == with_bit_u32(x, b, on),
        bit_u32(r, b) == on,
        r & !(1u32 << b) == x & !(1u32 << b),
{
    proof {
        lemma_bit_u32(x, b, on);
    }
    if on {
        x | (1u32 << b)
    } else {
        x & !(1u32 << b)
    }
}

/// The mask of `w` bits starting at bit `lo`.
pub open spec fn mask_u64(lo: u64, w: u64) -> u64 {
    (((1u64 << w) - 1u64) as u64) << lo
}

/// The `w` bits of `x` starting at bit `lo`, shifted down to bit 0.
pub open spec fn bits_u64(x: u64, lo: u64, w: u64) -> u64 {
    (x >> lo) & (((1u64 << w) - 1u64) as u64)
}

/// `x` with its `w` bits at `lo` replaced by the low `w` bits of `v`.
pub open spec fn with_bits_u64(x: u64, lo: u64, w: u64, v: u64) -> u64 {
    (x & !mask_u64(lo, w)) | ((v << lo) & mask_u64(lo, w))
}

/// Bit `b` of `x`.
pub open spec fn bit_u64(x: u64, b: u64) -> bool {
    (x >> b) & 1u64 == 1u64
}

/// `x` with bit `b` set to `on`.
pub open spec fn with_bit_u64(x: u64, b: u64, on: bool) -> u64 {
    if on {
        x | (1u64 << b)
    } else {
        x & !(1u64 << b)
    }
}

/// A field written with `with_bits_u64` reads back as the low bits of the
/// written value, and no bit outside the field changes.
pub proof fn lemma_bits_u64(x: u64, lo: u64, w: u64, v: u64)
    by (bit_vector)
    requires
        1 <= w < 64,
        lo + w <= 64,
    ensures
        1u64 <= 1u64 << w,
        bits_u64(x, lo, w) < 1u64 << w,
        bits_u64(with_bits_u64(x, lo, w, v), lo, w) == bits_u64(v, 0, w),
        with_bits_u64(x, lo, w, v) & !mask_u64(lo, w) == x & !mask_u64(lo, w),
{
}

/// A flag written with `with_bit_u64` reads back as written, and no other
/// bit changes.
pub proof fn lemma_bit_u64(x: u64, b: u64, on: bool)
    by (bit_vector)
    requires
        b < 64,
    ensures
        bit_u64(with_bit_u64(x, b, on), b) == on,
        with_bit_u64(x, b, on) & !(1u64 << b) == x & !(1u64 << b),
{
}

pub fn get_bits_u64(x: u64, lo: u64, w: u64) -> (r: u64)
    requires
        1 <= w < 64,
        lo + w <= 64,
    ensures
        r == bits_u64(x, lo, w),
        r < 1u64 << w,
{
    proof {
        lemma_bits_u64(x, lo, w, 0);
    }
    (x >> lo) & ((1u64 << w) - 1)
}


pub fn get_bit_u64(x: u64, b: u64) -> (r: bool)
    requires
        b < 64,
    ensures
        r == bit_u64(x, b),
{
    (x >> b) & 1 == 1
}

pub fn set_bit_u64(x: u64, b: u64, on: bool) -> (r: u64)
    requires
        b < 64,
    ensures
        r == with_bit_u64(x, b, on),
        bit_u64(r, b) == on,
        r & !(1u64 << b) == x & !(1u64 << b),
{
    proof {
        lemma_bit_u64(x, b, on);
    }
    if on {
        x | (1u64 << b)
    } else {
        x & !(1u64 << b)
    }
}

/// The powers of two that field widths produce, for each word size.
pub proof fn lemma_small_shifts()
    by (bit_vector)
    ensures
        1u8 << 1u8 == 2u8,
        1u8 << 2u8 == 4u8,
        1u8 << 3u8 == 8u8,
        1u8 << 4u8 == 16u8,
        1u16 << 1u16 == 2u16,
        1u16 << 2u16 == 4u16,
        1u16 << 3u16 == 8u16,
        1u16 << 4u16 == 16u16,
        1u16 << 8u16 == 0x100u16,
        1u32 << 1u32 == 2u32,
        1u32 << 2u32 == 4u32,
        1u32 << 3u32 == 8u32,
        1u32 << 4u32 == 16u32,
        1u32 << 8u32 == 0x100u32,
        1u32 << 16u32 == 0x1_0000u32,
        1u64 << 1u64 == 2u64,
        1u64 << 2u64 == 4u64,
        1u64 << 3u64 == 8u64,
        1u64 << 4u64 == 16u64,
        1u64 << 8u64 == 0x100u64,
        1u64 << 16u64 == 0x1_0000u64,
        1u64 << 32u64 == 0x1_0000_0000u64,
{
}

} // verus!
