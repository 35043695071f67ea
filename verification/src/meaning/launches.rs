//! What launches hand to their kernels, and what they cover.

use crate::gpu::KernelHandle;
use crate::num::lemma_ceil_div;
use crate::ops::{
    launch_fits, launch_of, moe_expert_gate_up_shared_batch2_launch,
    moe_expert_gate_up_shared_batch3_launch, moe_expert_silu_down_shared_batch2_launch,
    moe_expert_silu_down_shared_batch3_launch, moe_weighted_sum_blend_batch2_launch,
    moe_weighted_sum_blend_batch3_launch, Arg, LaunchView,
};
use crate::plan::Op;
use vstd::prelude::*;

verus! {

/// What a kernel is handed for an operation: its operands in the order in which
/// the operation names them, a table of experts by its three lists, a 4-bit
/// weight by its values, block scales and global scale.
pub open spec fn operands(op: Op) -> Seq<Arg> {
    match op {
        Op::MoeTopkSoftmax(_, logits, indices, weights, experts, top_k, normalize) => seq![
            Arg::Ptr(logits),
            Arg::Ptr(indices),
            Arg::Ptr(weights),
            Arg::U32(experts),
            Arg::U32(top_k),
            Arg::U32(if normalize { 1 } else { 0 }),
        ],
        Op::MoeTopkSigmoid(
            _, logits, bias, indices, weights, experts, top_k, normalize, scale,
            groups, kept,
        ) => seq![
            Arg::Ptr(logits),
            Arg::Ptr(bias),
            Arg::Ptr(indices),
            Arg::Ptr(weights),
            Arg::U32(experts),
            Arg::U32(top_k),
            Arg::U32(if normalize { 1 } else { 0 }),
            Arg::F32(scale),
            Arg::U32(groups),
            Arg::U32(kept),
        ],
        Op::TopkSigmoidRows(
            _, logits, bias, indices, weights, experts, top_k, normalize, scale, rows,
            groups, kept,
        ) => seq![
            Arg::Ptr(logits),
            Arg::Ptr(bias),
            Arg::Ptr(indices),
            Arg::Ptr(weights),
            Arg::U32(experts),
            Arg::U32(top_k),
            Arg::U32(if normalize { 1 } else { 0 }),
            Arg::F32(scale),
            Arg::U32(rows),
            Arg::U32(groups),
            Arg::U32(kept),
        ],
        Op::KdaGates(_, f, b, a, d, decay, beta, _, nk, nv, kd, bound) => seq![
            Arg::Ptr(f),
            Arg::Ptr(b),
            Arg::Ptr(a),
            Arg::Ptr(d),
            Arg::Ptr(decay),
            Arg::Ptr(beta),
            Arg::U32(nk),
            Arg::U32(nv),
            Arg::U32(kd),
            Arg::F32(bound),
        ],
        Op::KdaDecode(_, state, q, k, v, decay, beta, out, seqs, nk, nv, kd, vd) => seq![
            Arg::Ptr(state),
            Arg::Ptr(q),
            Arg::Ptr(k),
            Arg::Ptr(v),
            Arg::Ptr(decay),
            Arg::Ptr(beta),
            Arg::Ptr(out),
            Arg::U32(seqs),
            Arg::U32(nk),
            Arg::U32(nv),
            Arg::U32(kd),
            Arg::U32(vd),
        ],
        Op::KdaPrefill(
            _, state, q, k, v, decay, beta, out, seqs, rows, nk, nv, kd, vd, qs, vs,
            gs, bs,
        ) => seq![
            Arg::Ptr(state),
            Arg::Ptr(q),
            Arg::Ptr(k),
            Arg::Ptr(v),
            Arg::Ptr(decay),
            Arg::Ptr(beta),
            Arg::Ptr(out),
            Arg::U32(seqs),
            Arg::U32(rows),
            Arg::U32(nk),
            Arg::U32(nv),
            Arg::U32(kd),
            Arg::U32(vd),
            Arg::U32(qs),
            Arg::U32(vs),
            Arg::U32(gs),
            Arg::U32(bs),
        ],
        Op::MoeWeightedSumBlend(
            _, out, experts, weights, shared, input, gate, scale, h, top_k, k,
        ) => seq![
            Arg::Ptr(out),
            Arg::Ptr(experts),
            Arg::Ptr(weights),
            Arg::Ptr(shared),
            Arg::Ptr(input),
            Arg::Ptr(gate),
            Arg::F32(scale),
            Arg::U32(h),
            Arg::U32(top_k),
            Arg::U32(k),
        ],
        Op::MoeWeightedSumBlendBatch2(
            _, out, experts, weights, shared, input, gate, h, top_k, k,
        ) => seq![
            Arg::Ptr(out),
            Arg::Ptr(experts),
            Arg::Ptr(weights),
            Arg::Ptr(shared),
            Arg::Ptr(input),
            Arg::Ptr(gate),
            Arg::U32(h),
            Arg::U32(top_k),
            Arg::U32(k),
        ],
        Op::MoeGateUpSharedBatch2(
            _, x, g, go, u, uo, indices, sg, sgo, su, suo, n, k, top_k, _,
        ) => seq![
            Arg::Ptr(x),
            Arg::Ptr(g.packed_ptrs),
            Arg::Ptr(g.scale_ptrs),
            Arg::Ptr(g.scale2_vals),
            Arg::Ptr(go),
            Arg::Ptr(u.packed_ptrs),
            Arg::Ptr(u.scale_ptrs),
            Arg::Ptr(u.scale2_vals),
            Arg::Ptr(uo),
            Arg::Ptr(indices),
            Arg::Ptr(sg.weight),
            Arg::Ptr(sg.weight_scale),
            Arg::F32(sg.weight_scale_2),
            Arg::Ptr(sgo),
            Arg::Ptr(su.weight),
            Arg::Ptr(su.weight_scale),
            Arg::F32(su.weight_scale_2),
            Arg::Ptr(suo),
            Arg::U32(n),
            Arg::U32(k),
            Arg::U32(top_k),
        ],
        Op::MoeSiluDownSharedBatch2(
            _, g, u, d, out, indices, sg, su, sd, so, n, k, top_k, _,
        ) => seq![
            Arg::Ptr(g),
            Arg::Ptr(u),
            Arg::Ptr(d.packed_ptrs),
            Arg::Ptr(d.scale_ptrs),
            Arg::Ptr(d.scale2_vals),
            Arg::Ptr(out),
            Arg::Ptr(indices),
            Arg::Ptr(sg),
            Arg::Ptr(su),
            Arg::Ptr(sd.weight),
            Arg::Ptr(sd.weight_scale),
            Arg::F32(sd.weight_scale_2),
            Arg::Ptr(so),
            Arg::U32(n),
            Arg::U32(k),
            Arg::U32(top_k),
        ],
        Op::Relu2DownShared(
            _, _, up, d, out, indices, su, sd, so, n, inter, si, h, top_k,
        ) => seq![
            Arg::Ptr(up),
            Arg::Ptr(d.packed_ptrs),
            Arg::Ptr(d.scale_ptrs),
            Arg::Ptr(d.scale2_vals),
            Arg::Ptr(out),
            Arg::Ptr(indices),
            Arg::Ptr(su),
            Arg::Ptr(sd.weight),
            Arg::Ptr(sd.weight_scale),
            Arg::F32(sd.weight_scale_2),
            Arg::Ptr(so),
            Arg::U32(n),
            Arg::U32(inter),
            Arg::U32(si),
            Arg::U32(h),
            Arg::U32(top_k),
        ],
        Op::WeightedSumScale(_, out, experts, weights, shared, dim, top_k, scale) => seq![
            Arg::Ptr(out),
            Arg::Ptr(experts),
            Arg::Ptr(weights),
            Arg::Ptr(shared),
            Arg::U32(dim),
            Arg::U32(top_k),
            Arg::F32(scale),
        ],
        Op::Relu2Elementwise(_, p, n) => seq![
            Arg::Ptr(p),
            Arg::U32(n),
        ],
        Op::ClampBf16(_, p, limit, n) => seq![
            Arg::Ptr(p),
            Arg::F32(limit),
            Arg::U32(n),
        ],
        Op::ScaleInplace(_, p, n, factor) => seq![
            Arg::Ptr(p),
            Arg::U32(n),
            Arg::F32(factor),
        ],
        Op::HeadwiseGate(_, heads, gates, rows) => seq![
            Arg::Ptr(heads),
            Arg::Ptr(gates),
            Arg::U32(rows),
        ],
        Op::LingMlaPrefillAttn(_, q, k, v, out, rows, qh, kh, _, _, scale) => seq![
            Arg::Ptr(q),
            Arg::Ptr(k),
            Arg::Ptr(v),
            Arg::Ptr(out),
            Arg::U32(rows),
            Arg::U32(qh),
            Arg::U32(kh),
            Arg::F32(scale),
            Arg::U32(1),
        ],
        Op::SsmStateNorm(_, states, heads, _, kd, vd) => seq![
            Arg::Ptr(states),
            Arg::U32(heads),
            Arg::U32(kd),
            Arg::U32(vd),
        ],
        _ => Seq::empty(),
    }
}

/// The kernel of an operation whose geometry is fixed here.
pub open spec fn kernel_of(op: Op) -> Option<KernelHandle> {
    match op {
        Op::MoeTopkSoftmax(k, ..) => Some(k),
        Op::MoeTopkSigmoid(k, ..) => Some(k),
        Op::TopkSigmoidRows(k, ..) => Some(k),
        Op::KdaGates(k, ..) => Some(k),
        Op::KdaDecode(k, ..) => Some(k),
        Op::KdaPrefill(k, ..) => Some(k),
        Op::MoeWeightedSumBlend(k, ..) => Some(k),
        Op::MoeWeightedSumBlendBatch2(k, ..) => Some(k),
        Op::MoeGateUpSharedBatch2(k, ..) => Some(k),
        Op::MoeSiluDownSharedBatch2(k, ..) => Some(k),
        Op::Relu2DownShared(k, ..) => Some(k),
        Op::WeightedSumScale(k, ..) => Some(k),
        Op::Relu2Elementwise(k, ..) => Some(k),
        Op::ClampBf16(k, ..) => Some(k),
        Op::ScaleInplace(k, ..) => Some(k),
        Op::HeadwiseGate(k, ..) => Some(k),
        Op::LingMlaPrefillAttn(k, ..) => Some(k),
        Op::SsmStateNorm(k, ..) => Some(k),
        _ => None,
    }
}

/// Every fixed launch is of the kernel of its operation and hands it the
/// operands of the operation.
pub proof fn lemma_operands(op: Op)
    ensures
        launch_of(op) is Some <==> kernel_of(op) is Some,
        launch_of(op) matches Some(x) ==> Some(x.kernel) == kernel_of(op) && x.args =~= operands(
            op,
        ),
{
}

/// Threads along x reach `n` elements, and no further than into the last block.
pub open spec fn reaches(x: LaunchView, n: u32) -> bool {
    n <= x.grid.0 * x.block.0 < n + x.block.0
}

/// Blocks of eight outputs reach `n` outputs, and no further than the last one.
pub open spec fn reaches_outputs(x: LaunchView, n: u32) -> bool {
    n <= x.grid.0 * 8 < n + 8
}

/// Whether a launch has work for every element, row, head and selected expert of
/// an operation, and the shared memory that it needs.
pub open spec fn covers(op: Op, x: LaunchView) -> bool {
    &&& x.block.1 == 1 && x.block.2 == 1
    &&& match op {
        Op::MoeTopkSoftmax(..) => x.grid == (1u32, 1u32, 1u32) && x.block.0 == 256,
        Op::MoeTopkSigmoid(..) => x.grid == (1u32, 1u32, 1u32) && x.block.0 == 256,
        Op::TopkSigmoidRows(_, _, _, _, _, _, _, _, _, rows, ..) => x.grid == (1u32, rows, 1u32)
            && x.block.0 == 256,
        Op::KdaGates(_, _, _, _, _, _, _, rows, ..) => x.grid == (rows, 1u32, 1u32) && x.block.0
            == 256,
        Op::KdaDecode(_, _, _, _, _, _, _, _, seqs, _, nv, ..) => x.grid == (nv, seqs, 1u32)
            && x.block.0 == 128,
        Op::KdaPrefill(_, _, _, _, _, _, _, _, seqs, _, _, nv, kd, vd, ..) => x.grid == (
            nv,
            seqs,
            1u32,
        ) && x.block.0 == vd && x.shared_mem == (vd * kd + 3 * kd) * 4,
        Op::MoeWeightedSumBlend(_, _, _, _, _, _, _, _, h, ..) => reaches(x, h) && x.grid.1 == 1
            && x.grid.2 == 1 && x.block.0 == 256,
        Op::MoeWeightedSumBlendBatch2(_, _, _, _, _, _, _, h, ..) => reaches(x, h) && x.grid.1 == 2
            && x.grid.2 == 1 && x.block.0 == 256,
        Op::MoeGateUpSharedBatch2(_, _, _, _, _, _, _, _, _, _, _, n, _, top_k, block) =>
        reaches_outputs(x, n) && x.grid.1 == 2 * (top_k + 1) && x.grid.2 == 2 && x.block.0 == block,
        Op::MoeSiluDownSharedBatch2(_, _, _, _, _, _, _, _, _, _, n, _, top_k, block) =>
        reaches_outputs(x, n) && x.grid.1 == 2 * (top_k + 1) && x.grid.2 == 1 && x.block.0 == block,
        Op::Relu2DownShared(_, widest, _, _, _, _, _, _, _, _, inter, shared, _, top_k) => {
            &&& reaches_outputs(x, widest)
            &&& x.grid.1 == top_k + 1 && x.grid.2 == 1 && x.block.0 == 128
            &&& x.shared_mem >= inter * 4 && x.shared_mem >= shared * 4
            &&& x.shared_mem == inter * 4 || x.shared_mem == shared * 4
        },
        Op::WeightedSumScale(_, _, _, _, _, dim, ..) => reaches(x, dim) && x.grid.1 == 1
            && x.grid.2 == 1 && x.block.0 == 256,
        Op::Relu2Elementwise(_, _, n) => reaches(x, n) && x.grid.1 == 1 && x.grid.2 == 1
            && x.block.0 == 256,
        Op::ClampBf16(_, _, _, n) => reaches(x, n) && x.grid.1 == 1 && x.grid.2 == 1 && x.block.0
            == 256,
        Op::ScaleInplace(_, _, n, _) => reaches(x, n) && x.grid.1 == 1 && x.grid.2 == 1
            && x.block.0 == 256,
        Op::HeadwiseGate(_, _, _, rows) => x.grid == (rows, 1u32, 1u32) && x.block.0 == 128,
        Op::LingMlaPrefillAttn(_, _, _, _, _, rows, heads, _, hd, vd, _) => {
            &&& x.grid.0 == heads && x.grid.2 == 1 && x.block.0 == 256
            &&& rows <= x.grid.1 * 16 < rows + 16
            &&& x.shared_mem == rows * (hd + vd) * 2
        },
        Op::SsmStateNorm(_, _, heads, layers, _, vd) => x.grid == (heads, layers, 1u32)
            && x.block.0 == vd,
        _ => false,
    }
}

/// Every fixed launch covers its operation.
pub proof fn lemma_covers(op: Op)
    requires
        launch_fits(op),
    ensures
        launch_of(op) matches Some(x) ==> covers(op, x),
{
    match op {
        Op::MoeWeightedSumBlend(_, _, _, _, _, _, _, _, h, ..) => lemma_ceil_div(h as int, 256),
        Op::MoeWeightedSumBlendBatch2(_, _, _, _, _, _, _, h, ..) => lemma_ceil_div(h as int, 256),
        Op::MoeGateUpSharedBatch2(_, _, _, _, _, _, _, _, _, _, _, n, ..) => lemma_ceil_div(
            n as int,
            8,
        ),
        Op::MoeSiluDownSharedBatch2(_, _, _, _, _, _, _, _, _, _, n, ..) => lemma_ceil_div(
            n as int,
            8,
        ),
        Op::Relu2DownShared(_, widest, ..) => lemma_ceil_div(widest as int, 8),
        Op::WeightedSumScale(_, _, _, _, _, dim, ..) => lemma_ceil_div(dim as int, 256),
        Op::Relu2Elementwise(_, _, n) => lemma_ceil_div(n as int, 256),
        Op::ClampBf16(_, _, _, n) => lemma_ceil_div(n as int, 256),
        Op::ScaleInplace(_, _, n, _) => lemma_ceil_div(n as int, 256),
        Op::KdaPrefill(_, _, _, _, _, _, _, _, _, _, _, _, kd, vd, ..) => {
            assert(vd * kd + 3 * kd >= 0) by (nonlinear_arith)
                requires
                    vd >= 0,
                    kd >= 0,
            ;
        },
        Op::LingMlaPrefillAttn(_, _, _, _, _, rows, _, _, hd, vd, _) => {
            assert(rows * (hd + vd) >= 0) by (nonlinear_arith)
                requires
                    rows >= 0,
                    hd >= 0,
                    vd >= 0,
            ;
        },
        _ => {},
    }
}

/// Three tokens at once are handed over as two are, on the same operands, and
/// take one and a half times the blocks.
pub proof fn lemma_three_like_two(op: Op, kernel: KernelHandle)
    requires
        op is MoeGateUpSharedBatch2 || op is MoeSiluDownSharedBatch2
            || op is MoeWeightedSumBlendBatch2,
        op matches Op::MoeGateUpSharedBatch2(_, _, _, _, _, _, _, _, _, _, _, _, _, top_k, _) ==> 3
            * (top_k + 1) <= u32::MAX,
        op matches Op::MoeSiluDownSharedBatch2(_, _, _, _, _, _, _, _, _, _, _, _, top_k, _) ==> 3
            * (top_k + 1) <= u32::MAX,
    ensures
        ({
            let two = launch_of(op)->0;
            let three = match op {
                Op::MoeGateUpSharedBatch2(
                    _, x, g, go, u, uo, i, sg, sgo, su, suo, n, k, top_k, _,
                ) => moe_expert_gate_up_shared_batch3_launch(
                    kernel, x, g, go, u, uo, i, sg, sgo, su, suo, n, k, top_k,
                ),
                Op::MoeSiluDownSharedBatch2(
                    _, g, u, d, out, i, sg, su, sd, so, n, k, top_k, _,
                ) => moe_expert_silu_down_shared_batch3_launch(
                    kernel, g, u, d, out, i, sg, su, sd, so, n, k, top_k,
                ),
                Op::MoeWeightedSumBlendBatch2(_, out, e, w, s, x, g, h, top_k, k) =>
                moe_weighted_sum_blend_batch3_launch(kernel, out, e, w, s, x, g, h, top_k, k),
                _ => two,
            };
            &&& three.kernel == kernel
            &&& three.args =~= two.args
            &&& three.grid.0 == two.grid.0
            &&& three.grid.1 * 2 == two.grid.1 * 3
            &&& three.grid.2 == two.grid.2
            &&& three.shared_mem == two.shared_mem
        }),
{
}

} // verus!
