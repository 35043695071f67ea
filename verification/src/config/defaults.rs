//! Values of fields that a configuration leaves out. Floating-point values are
//! double-precision bits.

use vstd::prelude::*;

verus! {

/// Bits of `1.0`.
pub const F64_ONE: u64 = 0x3ff0_0000_0000_0000;

/// Bits of `10000.0`.
pub const F64_TEN_THOUSAND: u64 = 0x40c3_8800_0000_0000;

/// Bits of `1e-6`.
pub const F64_MILLIONTH: u64 = 0x3eb0_c6f7_a0b5_ed8d;

pub fn default_one() -> (r: usize)
    ensures
        r == 1,
{
    1
}

pub fn default_one_f64() -> (r: u64)
    ensures
        r == F64_ONE,
{
    F64_ONE
}

pub fn default_rope_theta() -> (r: u64)
    ensures
        r == F64_TEN_THOUSAND,
{
    F64_TEN_THOUSAND
}

pub fn default_rms_eps() -> (r: u64)
    ensures
        r == F64_MILLIONTH,
{
    F64_MILLIONTH
}

pub fn default_partial_rotary() -> (r: u64)
    ensures
        r == F64_ONE,
{
    F64_ONE
}

pub fn default_conv_kernel() -> (r: usize)
    ensures
        r == 4,
{
    4
}

/// A count that may be null; null counts as zero.
pub fn null_to_zero(v: Option<usize>) -> (r: usize)
    ensures
        r == (match v {
            Some(x) => x,
            None => 0,
        }),
{
    match v {
        Some(x) => x,
        None => 0,
    }
}

/// A token id or window that may be null; null counts as zero.
pub fn nullable_u32(v: Option<u32>) -> (r: u32)
    ensures
        r == (match v {
            Some(x) => x,
            None => 0,
        }),
{
    match v {
        Some(x) => x,
        None => 0,
    }
}

} // verus!
