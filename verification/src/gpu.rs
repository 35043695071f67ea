//! Plain values that stand for device resources: addresses, kernel handles,
//! weights and the fixed set of activation buffers.
//!
//! Floating-point parameters are carried as IEEE-754 bit patterns (`u32` for
//! single precision, `u64` for double precision).

use vstd::prelude::*;

verus! {

/// Bit pattern of the single-precision number one.
pub const F32_ONE: u32 = 0x3f80_0000;

/// Bit pattern of the single-precision number `1e-6`.
pub const F32_1E_MINUS_6: u32 = 0x3586_37bd;

/// Bit pattern of single-precision positive infinity, the largest bit pattern
/// of a positive number.
pub const F32_INF: u32 = 0x7f80_0000;

/// Bit pattern of double-precision positive infinity.
pub const F64_INF: u64 = 0x7ff0_0000_0000_0000;

/// Whether the single-precision number with these bits is greater than zero.
///
/// Positive numbers are exactly the bit patterns after zero and up to infinity:
/// negative numbers have the top bit set and NaNs lie past infinity.
pub open spec fn f32_positive(bits: u32) -> bool {
    0 < bits <= F32_INF
}

/// Whether the double-precision number with these bits is greater than zero.
pub open spec fn f64_positive(bits: u64) -> bool {
    0 < bits <= F64_INF
}

pub fn is_f32_positive(bits: u32) -> (r: bool)
    ensures
        r == f32_positive(bits),
{
    0 < bits && bits <= F32_INF
}

pub fn is_f64_positive(bits: u64) -> (r: bool)
    ensures
        r == f64_positive(bits),
{
    0 < bits && bits <= F64_INF
}

/// An address in device memory.
#[derive(Clone, Copy, PartialEq, Eq, Structural, Debug)]
pub struct DevicePtr(pub u64);

impl DevicePtr {
    /// The address `bytes` past this one; addresses wrap at the end of the
    /// 64-bit address space.
    pub open spec fn at(self, bytes: int) -> DevicePtr {
        if self.0 + bytes > u64::MAX {
            DevicePtr((self.0 + bytes - 0x1_0000_0000_0000_0000) as u64)
        } else {
            DevicePtr((self.0 + bytes) as u64)
        }
    }

    pub fn offset(self, bytes: usize) -> (r: DevicePtr)
        ensures
            r == self.at(bytes as int),
    {
        DevicePtr(self.0.wrapping_add(bytes as u64))
    }

    /// Offsets count bytes from the address on, modulo the address space, and
    /// offsets of offsets add up.
    pub proof fn lemma_at(self, a: int, b: int)
        requires
            0 <= a,
            0 <= b,
            a + b <= u64::MAX,
        ensures
            self.at(a).0 == (self.0 + a) % 0x1_0000_0000_0000_0000,
            self.at(a).at(b) == self.at(a + b),
            self.at(0) == self,
            a != b ==> self.at(a) != self.at(b),
    {
    }

    pub fn null() -> (r: DevicePtr)
        ensures
            r == DevicePtr(0),
    {
        DevicePtr(0)
    }

    pub open spec fn spec_is_null(self) -> bool {
        self.0 == 0
    }

    #[verifier::when_used_as_spec(spec_is_null)]
    pub fn is_null(self) -> (r: bool)
        ensures
            r == self.spec_is_null(),
    {
        self.0 == 0
    }
}

/// A loaded kernel; handle zero means that the kernel is not available.
#[derive(Clone, Copy, PartialEq, Eq, Structural, Debug)]
pub struct KernelHandle(pub u64);

/// A dense BF16 weight (or norm vector).
#[derive(Clone, Copy, PartialEq, Eq, Structural, Debug)]
pub struct DenseWeight {
    pub weight: DevicePtr,
}

/// A 4-bit weight with per-block scales and a global scale (f32 bits).
#[derive(Clone, Copy, PartialEq, Eq, Structural, Debug)]
pub struct QuantizedWeight {
    pub weight: DevicePtr,
    pub weight_scale: DevicePtr,
    pub weight_scale_2: u32,
    pub input_scale: DevicePtr,
}

impl QuantizedWeight {
    pub open spec fn spec_null() -> QuantizedWeight {
        QuantizedWeight {
            weight: DevicePtr(0),
            weight_scale: DevicePtr(0),
            weight_scale_2: 0,
            input_scale: DevicePtr(0),
        }
    }

    /// The placeholder for an absent weight.
    #[verifier::when_used_as_spec(spec_null)]
    pub fn null() -> (r: QuantizedWeight)
        ensures
            r == QuantizedWeight::spec_null(),
    {
        QuantizedWeight {
            weight: DevicePtr(0),
            weight_scale: DevicePtr(0),
            weight_scale_2: 0,
            input_scale: DevicePtr(0),
        }
    }
}

/// An FP8 weight with row scales.
#[derive(Clone, Copy, PartialEq, Eq, Structural, Debug)]
pub struct Fp8Weight {
    pub weight: DevicePtr,
    pub row_scale: DevicePtr,
}

/// A weight in any of the supported formats.
#[derive(Clone, Copy, PartialEq, Eq, Structural, Debug)]
pub enum AnyWeight {
    Dense(DenseWeight),
    Nvfp4(QuantizedWeight),
    Fp8(Fp8Weight),
}

/// The three projections of one 4-bit expert.
#[derive(Clone, Copy, PartialEq, Eq, Structural, Debug)]
pub struct ExpertWeight {
    pub gate_proj: QuantizedWeight,
    pub up_proj: QuantizedWeight,
    pub down_proj: QuantizedWeight,
}

/// The three projections of one FP8 expert.
#[derive(Clone, Copy, PartialEq, Eq, Structural, Debug)]
pub struct Fp8ExpertWeight {
    pub gate_proj: Fp8Weight,
    pub up_proj: Fp8Weight,
    pub down_proj: Fp8Weight,
}

/// The three projections of one dense expert.
#[derive(Clone, Copy, PartialEq, Eq, Structural, Debug)]
pub struct DenseExpertWeight {
    pub gate_proj: DenseWeight,
    pub up_proj: DenseWeight,
    pub down_proj: DenseWeight,
}

/// Device tables with one entry per expert for one 4-bit projection.
#[derive(Clone, Copy, PartialEq, Eq, Structural, Debug)]
pub struct ExpertPtrTable {
    pub packed_ptrs: DevicePtr,
    pub scale_ptrs: DevicePtr,
    pub scale2_vals: DevicePtr,
}

/// Device tables with one entry per expert for one FP8 projection.
#[derive(Clone, Copy, PartialEq, Eq, Structural, Debug)]
pub struct Fp8ExpertPtrTable {
    pub weight_ptrs: DevicePtr,
    pub scale_ptrs: DevicePtr,
}

/// The activation buffers that every layer shares.
#[derive(Clone, Copy, PartialEq, Eq, Structural, Debug)]
pub struct Buffers {
    pub hidden_states: DevicePtr,
    pub residual: DevicePtr,
    pub norm_output: DevicePtr,
    pub qkv_output: DevicePtr,
    pub attn_output: DevicePtr,
    pub gate_logits: DevicePtr,
    pub scratch: DevicePtr,
    pub logits: DevicePtr,
    pub expert_gate_out: DevicePtr,
    pub expert_up_out: DevicePtr,
    pub expert_down_out: DevicePtr,
    pub moe_output: DevicePtr,
    pub ssm_qkvz: DevicePtr,
    pub ssm_deinterleaved: DevicePtr,
    pub ssm_conv_out_f32: DevicePtr,
    pub ssm_ba: DevicePtr,
    pub ssm_gates: DevicePtr,
    pub max_batch_tokens: usize,
    pub scratch_bytes: usize,
    pub moe_output_bytes: usize,
}

/// Device addresses of the uploaded attention metadata of one forward pass.
#[derive(Clone, Copy, PartialEq, Eq, Structural, Debug)]
pub struct AttnMetadataDev {
    pub positions: DevicePtr,
    pub positions_h: DevicePtr,
    pub positions_w: DevicePtr,
    pub slot: DevicePtr,
    pub seq_len: DevicePtr,
    pub block_table: DevicePtr,
    pub max_blocks_per_seq: u32,
    pub num_seqs: u32,
}

} // verus!
