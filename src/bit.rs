//! Bit scans: the index of the lowest or highest set bit of a word.
use vstd::prelude::*;

verus! {

/// `k` is the index of the lowest set bit of `x`.
pub open spec fn is_lowest_set_bit_u64(x: u64, k: u64) -> bool {
    &&& k < 64
    &&& (x >> k) & 1u64 != 0
    &&& forall|j: u64| j < k ==> #[trigger] ((x >> j) & 1u64) == 0
}

/// `k` is the index of the highest set bit of `x`.
pub open spec fn is_highest_set_bit_u64(x: u64, k: u64) -> bool {
    &&& k < 64
    &&& (x >> k) & 1u64 != 0
    &&& forall|j: u64| k < j < 64 ==> #[trigger] ((x >> j) & 1u64) == 0
}

/// Index of the lowest set bit of `i`, or `None` where `i` is zero.
pub fn bsf_u64(i: u64) -> (r: Option<u64>)
    ensures
        (r is None) == (i == 0),
        r matches Some(k) ==> is_lowest_set_bit_u64(i, k),
{
    proof {
        vstd::std_specs::bits::axiom_u64_trailing_zeros(i);
    }
    if i == 0 {
        None
    } else {
        Some(i.trailing_zeros() as u64)
    }
}

/// Index of the highest set bit of `i`, or `None` where `i` is zero.
pub fn bsr_u64(i: u64) -> (r: Option<u64>)
    ensures
        (r is None) == (i == 0),
        r matches Some(k) ==> is_highest_set_bit_u64(i, k),
{
    proof {
        vstd::std_specs::bits::axiom_u64_leading_zeros(i);
    }
    if i == 0 {
        None
    } else {
        Some((63 - i.leading_zeros()) as u64)
    }
}

/// `k` is the index of the lowest set bit of `x`.
pub open spec fn is_lowest_set_bit_u32(x: u32, k: u32) -> bool {
    &&& k < 32
    &&& (x >> k) & 1u32 != 0
    &&& forall|j: u32| j < k ==> #[trigger] ((x >> j) & 1u32) == 0
}

/// `k` is the index of the highest set bit of `x`.
pub open spec fn is_highest_set_bit_u32(x: u32, k: u32) -> bool {
    &&& k < 32
    &&& (x >> k) & 1u32 != 0
    &&& forall|j: u32| k < j < 32 ==> #[trigger] ((x >> j) & 1u32) == 0
}

/// Index of the lowest set bit of `i`, or `None` where `i` is zero.
pub fn bsf_u32(i: u32) -> (r: Option<u32>)
    ensures
        (r is None) == (i == 0),
        r matches Some(k) ==> is_lowest_set_bit_u32(i, k),
{
    proof {
        vstd::std_specs::bits::axiom_u32_trailing_zeros(i);
    }
    if i == 0 {
        None
    } else {
        Some(i.trailing_zeros() as u32)
    }
}

/// Index of the highest set bit of `i`, or `None` where `i` is zero.
pub fn bsr_u32(i: u32) -> (r: Option<u32>)
    ensures
        (r is None) == (i == 0),
        r matches Some(k) ==> is_highest_set_bit_u32(i, k),
{
    proof {
        vstd::std_specs::bits::axiom_u32_leading_zeros(i);
    }
    if i == 0 {
        None
    } else {
        Some((31 - i.leading_zeros()) as u32)
    }
}

/// `k` is the index of the lowest set bit of `x`.
pub open spec fn is_lowest_set_bit_u16(x: u16, k: u16) -> bool {
    &&& k < 16
    &&& (x >> k) & 1u16 != 0
    &&& forall|j: u16| j < k ==> #[trigger] ((x >> j) & 1u16) == 0
}

/// `k` is the index of the highest set bit of `x`.
pub open spec fn is_highest_set_bit_u16(x: u16, k: u16) -> bool {
    &&& k < 16
    &&& (x >> k) & 1u16 != 0
    &&& forall|j: u16| k < j < 16 ==> #[trigger] ((x >> j) & 1u16) == 0
}

/// Index of the lowest set bit of `i`, or `None` where `i` is zero.
pub fn bsf_u16(i: u16) -> (r: Option<u16>)
    ensures
        (r is None) == (i == 0),
        r matches Some(k) ==> is_lowest_set_bit_u16(i, k),
{
    proof {
        vstd::std_specs::bits::axiom_u16_trailing_zeros(i);
    }
    if i == 0 {
        None
    } else {
        Some(i.trailing_zeros() as u16)
    }
}

/// Index of the highest set bit of `i`, or `None` where `i` is zero.
pub fn bsr_u16(i: u16) -> (r: Option<u16>)
    ensures
        (r is None) == (i == 0),
        r matches Some(k) ==> is_highest_set_bit_u16(i, k),
{
    proof {
        vstd::std_specs::bits::axiom_u16_leading_zeros(i);
    }
    if i == 0 {
        None
    } else {
        Some((15 - i.leading_zeros()) as u16)
    }
}

/// Index of the lowest set bit of the bit pattern of `i`, or `None` where
/// `i` is zero.
pub fn bsf_i64(i: i64) -> (r: Option<i64>)
    ensures
        (r is None) == (i as u64 == 0),
        r matches Some(k) ==> 0 <= k && is_lowest_set_bit_u64(i as u64, k as u64),
{
    match bsf_u64(i as u64) {
        Some(v) => Some(v as i64),
        None => None,
    }
}

/// Index of the highest set bit of the bit pattern of `i`, or `None` where
/// `i` is zero.
pub fn bsr_i64(i: i64) -> (r: Option<i64>)
    ensures
        (r is None) == (i as u64 == 0),
        r matches Some(k) ==> 0 <= k && is_highest_set_bit_u64(i as u64, k as u64),
{
    match bsr_u64(i as u64) {
        Some(v) => Some(v as i64),
        None => None,
    }
}

/// Index of the lowest set bit of the bit pattern of `i`, or `None` where
/// `i` is zero.
pub fn bsf_i32(i: i32) -> (r: Option<i32>)
    ensures
        (r is None) == (i as u32 == 0),
        r matches Some(k) ==> 0 <= k && is_lowest_set_bit_u32(i as u32, k as u32),
{
    match bsf_u32(i as u32) {
        Some(v) => Some(v as i32),
        None => None,
    }
}

/// Index of the highest set bit of the bit pattern of `i`, or `None` where
/// `i` is zero.
pub fn bsr_i32(i: i32) -> (r: Option<i32>)
    ensures
        (r is None) == (i as u32 == 0),
        r matches Some(k) ==> 0 <= k && is_highest_set_bit_u32(i as u32, k as u32),
{
    match bsr_u32(i as u32) {
        Some(v) => Some(v as i32),
        None => None,
    }
}

/// Index of the lowest set bit of the bit pattern of `i`, or `None` where
/// `i` is zero.
pub fn bsf_i16(i: i16) -> (r: Option<i16>)
    ensures
        (r is None) == (i as u16 == 0),
        r matches Some(k) ==> 0 <= k && is_lowest_set_bit_u16(i as u16, k as u16),
{
    match bsf_u16(i as u16) {
        Some(v) => Some(v as i16),
        None => None,
    }
}

/// Index of the highest set bit of the bit pattern of `i`, or `None` where
/// `i` is zero.
pub fn bsr_i16(i: i16) -> (r: Option<i16>)
    ensures
        (r is None) == (i as u16 == 0),
        r matches Some(k) ==> 0 <= k && is_highest_set_bit_u16(i as u16, k as u16),
{
    match bsr_u16(i as u16) {
        Some(v) => Some(v as i16),
        None => None,
    }
}

} // verus!
