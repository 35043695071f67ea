//! The routed experts of a prefill as grouped products over sorted rows.

use crate::context::ForwardContext;
use crate::gpu::{f32_positive, is_f32_positive, DevicePtr};
use crate::moe::routing::{max_m_tiles, worst_case_m_tiles};
use crate::moe::MoeLayer;
use crate::num::{ceil_div, div_ceil, imax, span};
use crate::plan::{enqueue, enqueue_timed, on, timed, Op, Step};
use vstd::prelude::*;

verus! {

/// Rows and extents of a grouped pass.
#[derive(Clone, Copy, PartialEq, Eq, Structural, Debug)]
pub struct RoutedRows {
    pub expert_input: DevicePtr,
    pub expert_offsets: DevicePtr,
    pub sorted_token_ids: DevicePtr,
    pub num_tokens: usize,
}

/// Tiles of 128 rows that cover as many rows as `tiles` tiles of 64.
pub open spec fn m128_tiles(tiles: u32) -> u32 {
    imax(ceil_div(tiles as int, 2), 1) as u32
}

/// The taller tiles hold as many rows.
pub proof fn lemma_m128_tiles(tiles: u32)
    ensures
        m128_tiles(tiles) * 128 >= tiles * 64,
        m128_tiles(tiles) >= 1,
{
}

impl MoeLayer {
    /// Rows after each token has been repeated for its experts.
    pub open spec fn expanded(cx: &ForwardContext, num_tokens: usize) -> u32 {
        ((num_tokens as u32) * cx.top_k()) as u32
    }

    /// Every extent and byte count of the grouped pass is representable, and
    /// there is an expert to spread the rows over.
    pub open spec fn routed_fits(cx: &ForwardContext, num_tokens: usize) -> bool {
        &&& cx.experts() > 0
        &&& num_tokens * cx.top_k() <= usize::MAX
        &&& (num_tokens as u32) * cx.top_k() <= u32::MAX
        &&& Self::expanded(cx, num_tokens) * cx.inter() <= u32::MAX
        &&& Self::expanded(cx, num_tokens) * cx.inter() * 2 <= usize::MAX
        &&& Self::expanded(cx, num_tokens) * cx.h() * 2 <= usize::MAX
    }

    /// Zeroed expert buffers.
    pub open spec fn routed_zero(
        cx: &ForwardContext,
        s: Seq<Step>,
        num_tokens: usize,
        stream: u64,
    ) -> Seq<Step> {
        let b = cx.buffers;
        let te = Self::expanded(cx, num_tokens);
        let gu = (te * cx.inter() * 2) as usize;
        let s = on(s, stream, Op::Memset(b.expert_gate_out, 0, gu));
        let s = on(s, stream, Op::Memset(b.expert_up_out, 0, gu));
        on(s, stream, Op::Memset(b.expert_down_out, 0, (te * cx.h() * 2) as usize))
    }

    /// Grouped gate and up products.
    pub open spec fn routed_gate_up(
        &self,
        cx: &ForwardContext,
        s: Seq<Step>,
        r: RoutedRows,
        stream: u64,
    ) -> Seq<Step> {
        let b = cx.buffers;
        let tiles = max_m_tiles(r.num_tokens, cx.top_k());
        if self.gate_ptrs_t is Some && self.up_ptrs_t is Some {
            let gp = self.gate_ptrs_t->0;
            let up = self.up_ptrs_t->0;
            on(
                s,
                stream,
                if self.nvfp4_gate_up_m128 && self.k.fused_gate_up_t_k64_m128.0 != 0 {
                    Op::MoeFusedGateUpM128(
                        self.k.fused_gate_up_t_k64_m128, r.expert_input, gp, up,
                        b.expert_gate_out, b.expert_up_out, r.expert_offsets, r.sorted_token_ids,
                        cx.experts(), cx.inter(), cx.h(), m128_tiles(tiles),
                    )
                } else {
                    Op::MoeFusedGateUpN128(
                        self.k.fused_gate_up_t_k64, r.expert_input, gp, up, b.expert_gate_out,
                        b.expert_up_out, r.expert_offsets, r.sorted_token_ids, cx.experts(),
                        cx.inter(), cx.h(), tiles,
                    )
                },
            )
        } else {
            let s1 = on(
                s,
                stream,
                Op::MoeGroupedGemm(
                    self.k.grouped_gemm, r.expert_input, self.gate_ptrs, b.expert_gate_out,
                    r.expert_offsets, r.sorted_token_ids, cx.experts(), cx.inter(), cx.h(), tiles,
                ),
            );
            on(
                s1,
                stream,
                Op::MoeGroupedGemm(
                    self.k.grouped_gemm, r.expert_input, self.up_ptrs, b.expert_up_out,
                    r.expert_offsets, r.sorted_token_ids, cx.experts(), cx.inter(), cx.h(), tiles,
                ),
            )
        }
    }

    /// Activation, its optional limit, and the grouped down product. The rows
    /// are already in expert order, so no row ids are passed.
    pub open spec fn routed_down(
        &self,
        cx: &ForwardContext,
        s: Seq<Step>,
        r: RoutedRows,
        stream: u64,
    ) -> Seq<Step> {
        let b = cx.buffers;
        let elems = (Self::expanded(cx, r.num_tokens) * cx.inter()) as u32;
        let tiles = max_m_tiles(r.num_tokens, cx.top_k());
        let s = on(
            s,
            stream,
            Op::SiluMul(
                self.k.act_mul, b.expert_gate_out, b.expert_up_out, b.expert_gate_out, elems,
            ),
        );
        let s = if f32_positive(self.swiglu_clamp) && self.k.clamp_bf16.0 != 0 {
            on(
                s,
                stream,
                Op::ClampBf16(self.k.clamp_bf16, b.expert_gate_out, self.swiglu_clamp, elems),
            )
        } else {
            s
        };
        on(
            s,
            stream,
            match self.down_ptrs_t {
                Some(dp) => Op::MoeGroupedGemmN128(
                    self.k.grouped_gemm_t_k64, b.expert_gate_out, dp, b.expert_down_out,
                    r.expert_offsets, DevicePtr(0), cx.experts(), cx.h(), cx.inter(), tiles,
                ),
                None => Op::MoeGroupedGemm(
                    self.k.grouped_gemm, b.expert_gate_out, self.down_ptrs, b.expert_down_out,
                    r.expert_offsets, DevicePtr(0), cx.experts(), cx.h(), cx.inter(), tiles,
                ),
            },
        )
    }

    /// The grouped pass: buffers zeroed, then gate and up, activation and down.
    pub open spec fn routed_plan(
        &self,
        cx: &ForwardContext,
        s: Seq<Step>,
        r: RoutedRows,
        stream: u64,
    ) -> Seq<Step> {
        let tiles = max_m_tiles(r.num_tokens, cx.top_k());
        let s = timed(s, cx.profile, stream);
        let s = Self::routed_zero(cx, s, r.num_tokens, stream);
        let s = if tiles > 0 {
            self.routed_gate_up(cx, s, r, stream)
        } else {
            s
        };
        let s = timed(s, cx.profile, stream);
        let s = if tiles > 0 {
            self.routed_down(cx, s, r, stream)
        } else {
            s
        };
        timed(s, cx.profile, stream)
    }

    fn plan_routed_gate_up(
        &self,
        cx: &ForwardContext,
        plan: &mut Vec<Step>,
        r: RoutedRows,
        stream: u64,
    )
        requires
            Self::routed_fits(cx, r.num_tokens),
        ensures
            final(plan)@ == self.routed_gate_up(cx, old(plan)@, r, stream),
    {
        let b = cx.buffers;
        let h: u32 = cx.config.hidden_size as u32;
        let inter: u32 = cx.config.moe_intermediate_size as u32;
        let ne: u32 = cx.config.num_experts as u32;
        let tiles: u32 = worst_case_m_tiles(r.num_tokens, cx.config.num_experts_per_tok as u32);
        if self.gate_ptrs_t.is_some() && self.up_ptrs_t.is_some() {
            let gp = self.gate_ptrs_t.unwrap();
            let up = self.up_ptrs_t.unwrap();
            if self.nvfp4_gate_up_m128 && self.k.fused_gate_up_t_k64_m128.0 != 0 {
                let half: u32 = div_ceil(tiles, 2);
                let tall: u32 = if half >= 1 {
                    half
                } else {
                    1
                };
                enqueue(
                    plan,
                    stream,
                    Op::MoeFusedGateUpM128(
                        self.k.fused_gate_up_t_k64_m128, r.expert_input, gp, up,
                        b.expert_gate_out, b.expert_up_out, r.expert_offsets, r.sorted_token_ids,
                        ne, inter, h, tall,
                    ),
                );
            } else {
                enqueue(
                    plan,
                    stream,
                    Op::MoeFusedGateUpN128(
                        self.k.fused_gate_up_t_k64, r.expert_input, gp, up, b.expert_gate_out,
                        b.expert_up_out, r.expert_offsets, r.sorted_token_ids, ne, inter, h,
                        tiles,
                    ),
                );
            }
        } else {
            enqueue(
                plan,
                stream,
                Op::MoeGroupedGemm(
                    self.k.grouped_gemm, r.expert_input, self.gate_ptrs, b.expert_gate_out,
                    r.expert_offsets, r.sorted_token_ids, ne, inter, h, tiles,
                ),
            );
            enqueue(
                plan,
                stream,
                Op::MoeGroupedGemm(
                    self.k.grouped_gemm, r.expert_input, self.up_ptrs, b.expert_up_out,
                    r.expert_offsets, r.sorted_token_ids, ne, inter, h, tiles,
                ),
            );
        }
    }

    fn plan_routed_down(
        &self,
        cx: &ForwardContext,
        plan: &mut Vec<Step>,
        r: RoutedRows,
        stream: u64,
    )
        requires
            Self::routed_fits(cx, r.num_tokens),
        ensures
            final(plan)@ == self.routed_down(cx, old(plan)@, r, stream),
    {
        let b = cx.buffers;
        let h: u32 = cx.config.hidden_size as u32;
        let inter: u32 = cx.config.moe_intermediate_size as u32;
        let ne: u32 = cx.config.num_experts as u32;
        let top_k: u32 = cx.config.num_experts_per_tok as u32;
        let tiles: u32 = worst_case_m_tiles(r.num_tokens, top_k);
        let te: u32 = r.num_tokens as u32 * top_k;
        let elems: u32 = te * inter;
        enqueue(
            plan,
            stream,
            Op::SiluMul(
                self.k.act_mul, b.expert_gate_out, b.expert_up_out, b.expert_gate_out, elems,
            ),
        );
        if is_f32_positive(self.swiglu_clamp) && self.k.clamp_bf16.0 != 0 {
            enqueue(
                plan,
                stream,
                Op::ClampBf16(self.k.clamp_bf16, b.expert_gate_out, self.swiglu_clamp, elems),
            );
        }
        match self.down_ptrs_t {
            Some(dp) => enqueue(
                plan,
                stream,
                Op::MoeGroupedGemmN128(
                    self.k.grouped_gemm_t_k64, b.expert_gate_out, dp, b.expert_down_out,
                    r.expert_offsets, DevicePtr(0), ne, h, inter, tiles,
                ),
            ),
            None => enqueue(
                plan,
                stream,
                Op::MoeGroupedGemm(
                    self.k.grouped_gemm, b.expert_gate_out, self.down_ptrs, b.expert_down_out,
                    r.expert_offsets, DevicePtr(0), ne, h, inter, tiles,
                ),
            ),
        }
    }

    pub(crate) fn plan_zero_experts(
        cx: &ForwardContext,
        plan: &mut Vec<Step>,
        num_tokens: usize,
        stream: u64,
    )
        requires
            Self::routed_fits(cx, num_tokens),
        ensures
            final(plan)@ == Self::routed_zero(cx, old(plan)@, num_tokens, stream),
    {
        let b = cx.buffers;
        let h: u32 = cx.config.hidden_size as u32;
        let inter: u32 = cx.config.moe_intermediate_size as u32;
        let te: u32 = num_tokens as u32 * cx.config.num_experts_per_tok as u32;
        let gu: usize = span(te as usize, inter as usize, 2);
        enqueue(plan, stream, Op::Memset(b.expert_gate_out, 0, gu));
        enqueue(plan, stream, Op::Memset(b.expert_up_out, 0, gu));
        enqueue(plan, stream, Op::Memset(b.expert_down_out, 0, span(te as usize, h as usize, 2)));
    }

    pub(crate) fn run_routed_grouped_gemm(
        &self,
        cx: &ForwardContext,
        plan: &mut Vec<Step>,
        r: RoutedRows,
        stream: u64,
    )
        requires
            Self::routed_fits(cx, r.num_tokens),
        ensures
            final(plan)@ == self.routed_plan(cx, old(plan)@, r, stream),
    {
        let tiles: u32 = worst_case_m_tiles(r.num_tokens, cx.config.num_experts_per_tok as u32);
        enqueue_timed(plan, cx.profile, stream);
        Self::plan_zero_experts(cx, plan, r.num_tokens, stream);
        if tiles > 0 {
            self.plan_routed_gate_up(cx, plan, r, stream);
        }
        enqueue_timed(plan, cx.profile, stream);
        if tiles > 0 {
            self.plan_routed_down(cx, plan, r, stream);
        }
        enqueue_timed(plan, cx.profile, stream);
    }
}

} // verus!
