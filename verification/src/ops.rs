//! Launch geometry: grid, block, shared memory and arguments of kernels.

use crate::gpu::{DevicePtr, ExpertPtrTable, KernelHandle, QuantizedWeight};
use crate::num::{ceil_div, div_ceil, imax, lemma_ceil_div};
use crate::plan::Op;
use vstd::prelude::*;

verus! {

/// An argument of a kernel.
#[derive(Clone, Copy, PartialEq, Eq, Structural, Debug)]
pub enum Arg {
    Ptr(DevicePtr),
    U32(u32),
    /// Single-precision bits.
    F32(u32),
}

/// A kernel launch.
pub struct Launch {
    pub kernel: KernelHandle,
    pub grid: (u32, u32, u32),
    pub block: (u32, u32, u32),
    /// Dynamic shared memory in bytes.
    pub shared_mem: u32,
    pub args: Vec<Arg>,
}

/// What a launch does.
pub struct LaunchView {
    pub kernel: KernelHandle,
    pub grid: (u32, u32, u32),
    pub block: (u32, u32, u32),
    pub shared_mem: u32,
    pub args: Seq<Arg>,
}

impl View for Launch {
    type V = LaunchView;

    open spec fn view(&self) -> LaunchView {
        LaunchView {
            kernel: self.kernel,
            grid: self.grid,
            block: self.block,
            shared_mem: self.shared_mem,
            args: self.args@,
        }
    }
}

/// Why an operation cannot be launched.
#[derive(Clone, Copy, PartialEq, Eq, Structural, Debug)]
pub enum LaunchError {
    /// Its kernel is not loaded.
    MissingKernel,
}

/// Threads of a launch along x, over all blocks.
pub open spec fn threads_x(l: LaunchView) -> int {
    l.grid.0 * l.block.0
}

pub open spec fn moe_topk_softmax_launch(
    kernel: KernelHandle,
    gate_logits: DevicePtr,
    expert_indices: DevicePtr,
    expert_weights: DevicePtr,
    num_experts: u32,
    top_k: u32,
    normalize: bool,
) -> LaunchView {
    LaunchView {
        kernel,
        grid: (1, 1, 1),
        block: (256, 1, 1),
        shared_mem: 0,
        args: seq![
            Arg::Ptr(gate_logits),
            Arg::Ptr(expert_indices),
            Arg::Ptr(expert_weights),
            Arg::U32(num_experts),
            Arg::U32(top_k),
            Arg::U32(if normalize { 1 } else { 0 }),
        ],
    }
}

/// Selects the experts of one row by softmax.
pub fn moe_topk_softmax(
    kernel: KernelHandle,
    gate_logits: DevicePtr,
    expert_indices: DevicePtr,
    expert_weights: DevicePtr,
    num_experts: u32,
    top_k: u32,
    normalize: bool,
) -> (r: Launch)
    ensures
        r@ == moe_topk_softmax_launch(
            kernel, gate_logits, expert_indices, expert_weights, num_experts, top_k, normalize,
        ),
{
    let mut args: Vec<Arg> = Vec::new();
    args.push(Arg::Ptr(gate_logits));
    args.push(Arg::Ptr(expert_indices));
    args.push(Arg::Ptr(expert_weights));
    args.push(Arg::U32(num_experts));
    args.push(Arg::U32(top_k));
    args.push(Arg::U32(if normalize { 1 } else { 0 }));
    proof {
        assert(
            args@ =~= moe_topk_softmax_launch(
                kernel, gate_logits, expert_indices, expert_weights, num_experts, top_k, normalize,
            ).args
        );
    }
    Launch {
        kernel,
        grid: (1, 1, 1),
        block: (256, 1, 1),
        shared_mem: 0,
        args,
    }
}

pub open spec fn moe_topk_sigmoid_launch(
    kernel: KernelHandle,
    gate_logits: DevicePtr,
    bias: DevicePtr,
    expert_indices: DevicePtr,
    expert_weights: DevicePtr,
    num_experts: u32,
    top_k: u32,
    normalize: bool,
    scaling_factor: u32,
    n_group: u32,
    topk_group: u32,
) -> LaunchView {
    LaunchView {
        kernel,
        grid: (1, 1, 1),
        block: (256, 1, 1),
        shared_mem: 0,
        args: seq![
            Arg::Ptr(gate_logits),
            Arg::Ptr(bias),
            Arg::Ptr(expert_indices),
            Arg::Ptr(expert_weights),
            Arg::U32(num_experts),
            Arg::U32(top_k),
            Arg::U32(if normalize { 1 } else { 0 }),
            Arg::F32(scaling_factor),
            Arg::U32(n_group),
            Arg::U32(topk_group),
        ],
    }
}

/// Selects the experts of one row by sigmoid. The bias only affects the
/// selection. Only models that select this way load the kernel, so that it is
/// missing is found when it is needed.
pub fn moe_topk_sigmoid(
    kernel: KernelHandle,
    gate_logits: DevicePtr,
    bias: DevicePtr,
    expert_indices: DevicePtr,
    expert_weights: DevicePtr,
    num_experts: u32,
    top_k: u32,
    normalize: bool,
    scaling_factor: u32,
    n_group: u32,
    topk_group: u32,
) -> (r: Result<Launch, LaunchError>)
    ensures
        match r {
            Ok(l) => kernel.0 != 0 && l@ == moe_topk_sigmoid_launch(
                kernel, gate_logits, bias, expert_indices, expert_weights, num_experts, top_k,
                normalize, scaling_factor, n_group, topk_group,
            ),
            Err(LaunchError::MissingKernel) => kernel.0 == 0,
        },
{
    if kernel.0 == 0 {
        return Err(LaunchError::MissingKernel);
    }
    let mut args: Vec<Arg> = Vec::new();
    args.push(Arg::Ptr(gate_logits));
    args.push(Arg::Ptr(bias));
    args.push(Arg::Ptr(expert_indices));
    args.push(Arg::Ptr(expert_weights));
    args.push(Arg::U32(num_experts));
    args.push(Arg::U32(top_k));
    args.push(Arg::U32(if normalize { 1 } else { 0 }));
    args.push(Arg::F32(scaling_factor));
    args.push(Arg::U32(n_group));
    args.push(Arg::U32(topk_group));
    proof {
        assert(
            args@ =~= moe_topk_sigmoid_launch(
                kernel, gate_logits, bias, expert_indices, expert_weights, num_experts, top_k,
                normalize, scaling_factor, n_group, topk_group,
            ).args
        );
    }
    Ok(Launch { kernel, grid: (1, 1, 1), block: (256, 1, 1), shared_mem: 0, args })
}

pub open spec fn topk_sigmoid_rows_launch(
    kernel: KernelHandle,
    gate_logits: DevicePtr,
    bias: DevicePtr,
    expert_indices: DevicePtr,
    expert_weights: DevicePtr,
    num_experts: u32,
    top_k: u32,
    normalize: bool,
    scaling_factor: u32,
    rows: u32,
    n_group: u32,
    topk_group: u32,
) -> LaunchView {
    LaunchView {
        kernel,
        grid: (1, rows, 1),
        block: (256, 1, 1),
        shared_mem: 0,
        args: seq![
            Arg::Ptr(gate_logits),
            Arg::Ptr(bias),
            Arg::Ptr(expert_indices),
            Arg::Ptr(expert_weights),
            Arg::U32(num_experts),
            Arg::U32(top_k),
            Arg::U32(if normalize { 1 } else { 0 }),
            Arg::F32(scaling_factor),
            Arg::U32(rows),
            Arg::U32(n_group),
            Arg::U32(topk_group),
        ],
    }
}

/// Selects the experts of several rows by sigmoid, one block per row.
pub fn topk_sigmoid_rows(
    kernel: KernelHandle,
    gate_logits: DevicePtr,
    bias: DevicePtr,
    expert_indices: DevicePtr,
    expert_weights: DevicePtr,
    num_experts: u32,
    top_k: u32,
    normalize: bool,
    scaling_factor: u32,
    rows: u32,
    n_group: u32,
    topk_group: u32,
) -> (r: Launch)
    ensures
        r@ == topk_sigmoid_rows_launch(
            kernel, gate_logits, bias, expert_indices, expert_weights, num_experts, top_k,
            normalize, scaling_factor, rows, n_group, topk_group,
        ),
{
    let mut args: Vec<Arg> = Vec::new();
    args.push(Arg::Ptr(gate_logits));
    args.push(Arg::Ptr(bias));
    args.push(Arg::Ptr(expert_indices));
    args.push(Arg::Ptr(expert_weights));
    args.push(Arg::U32(num_experts));
    args.push(Arg::U32(top_k));
    args.push(Arg::U32(if normalize { 1 } else { 0 }));
    args.push(Arg::F32(scaling_factor));
    args.push(Arg::U32(rows));
    args.push(Arg::U32(n_group));
    args.push(Arg::U32(topk_group));
    proof {
        assert(
            args@ =~= topk_sigmoid_rows_launch(
                kernel, gate_logits, bias, expert_indices, expert_weights, num_experts, top_k,
                normalize, scaling_factor, rows, n_group, topk_group,
            ).args
        );
    }
    Launch {
        kernel,
        grid: (1, rows, 1),
        block: (256, 1, 1),
        shared_mem: 0,
        args,
    }
}

pub open spec fn kda_gates_launch(
    kernel: KernelHandle,
    f_raw: DevicePtr,
    b_raw: DevicePtr,
    a_log: DevicePtr,
    dt_bias: DevicePtr,
    log_decay: DevicePtr,
    beta: DevicePtr,
    num_tokens: u32,
    nk: u32,
    nv: u32,
    kd: u32,
    lower_bound: u32,
) -> LaunchView {
    LaunchView {
        kernel,
        grid: (num_tokens, 1, 1),
        block: (256, 1, 1),
        shared_mem: 0,
        args: seq![
            Arg::Ptr(f_raw),
            Arg::Ptr(b_raw),
            Arg::Ptr(a_log),
            Arg::Ptr(dt_bias),
            Arg::Ptr(log_decay),
            Arg::Ptr(beta),
            Arg::U32(nk),
            Arg::U32(nv),
            Arg::U32(kd),
            Arg::F32(lower_bound),
        ],
    }
}

/// Turns raw projections into log decays and betas, one block per row.
pub fn kda_gates(
    kernel: KernelHandle,
    f_raw: DevicePtr,
    b_raw: DevicePtr,
    a_log: DevicePtr,
    dt_bias: DevicePtr,
    log_decay: DevicePtr,
    beta: DevicePtr,
    num_tokens: u32,
    nk: u32,
    nv: u32,
    kd: u32,
    lower_bound: u32,
) -> (r: Launch)
    ensures
        r@ == kda_gates_launch(
            kernel, f_raw, b_raw, a_log, dt_bias, log_decay, beta, num_tokens, nk, nv, kd,
            lower_bound,
        ),
{
    let mut args: Vec<Arg> = Vec::new();
    args.push(Arg::Ptr(f_raw));
    args.push(Arg::Ptr(b_raw));
    args.push(Arg::Ptr(a_log));
    args.push(Arg::Ptr(dt_bias));
    args.push(Arg::Ptr(log_decay));
    args.push(Arg::Ptr(beta));
    args.push(Arg::U32(nk));
    args.push(Arg::U32(nv));
    args.push(Arg::U32(kd));
    args.push(Arg::F32(lower_bound));
    proof {
        assert(
            args@ =~= kda_gates_launch(
                kernel, f_raw, b_raw, a_log, dt_bias, log_decay, beta, num_tokens, nk, nv, kd,
                lower_bound,
            ).args
        );
    }
    Launch {
        kernel,
        grid: (num_tokens, 1, 1),
        block: (256, 1, 1),
        shared_mem: 0,
        args,
    }
}

pub open spec fn kda_decode_launch(
    kernel: KernelHandle,
    h_state: DevicePtr,
    query: DevicePtr,
    key: DevicePtr,
    value: DevicePtr,
    log_decay: DevicePtr,
    beta: DevicePtr,
    output: DevicePtr,
    batch_size: u32,
    nk: u32,
    nv: u32,
    kd: u32,
    vd: u32,
) -> LaunchView {
    LaunchView {
        kernel,
        grid: (nv, batch_size, 1),
        block: (128, 1, 1),
        shared_mem: 0,
        args: seq![
            Arg::Ptr(h_state),
            Arg::Ptr(query),
            Arg::Ptr(key),
            Arg::Ptr(value),
            Arg::Ptr(log_decay),
            Arg::Ptr(beta),
            Arg::Ptr(output),
            Arg::U32(batch_size),
            Arg::U32(nk),
            Arg::U32(nv),
            Arg::U32(kd),
            Arg::U32(vd),
        ],
    }
}

/// One step of the recurrence with per-channel decay, one block per value head
/// and sequence. The state is `[batch, nv, vd, kd]`.
pub fn kda_decode(
    kernel: KernelHandle,
    h_state: DevicePtr,
    query: DevicePtr,
    key: DevicePtr,
    value: DevicePtr,
    log_decay: DevicePtr,
    beta: DevicePtr,
    output: DevicePtr,
    batch_size: u32,
    nk: u32,
    nv: u32,
    kd: u32,
    vd: u32,
) -> (r: Launch)
    ensures
        r@ == kda_decode_launch(
            kernel, h_state, query, key, value, log_decay, beta, output, batch_size, nk, nv, kd, vd,
        ),
{
    let mut args: Vec<Arg> = Vec::new();
    args.push(Arg::Ptr(h_state));
    args.push(Arg::Ptr(query));
    args.push(Arg::Ptr(key));
    args.push(Arg::Ptr(value));
    args.push(Arg::Ptr(log_decay));
    args.push(Arg::Ptr(beta));
    args.push(Arg::Ptr(output));
    args.push(Arg::U32(batch_size));
    args.push(Arg::U32(nk));
    args.push(Arg::U32(nv));
    args.push(Arg::U32(kd));
    args.push(Arg::U32(vd));
    proof {
        assert(
            args@ =~= kda_decode_launch(
                kernel, h_state, query, key, value, log_decay, beta, output, batch_size, nk, nv, kd,
                vd,
            ).args
        );
    }
    Launch {
        kernel,
        grid: (nv, batch_size, 1),
        block: (128, 1, 1),
        shared_mem: 0,
        args,
    }
}

pub open spec fn kda_prefill_launch(
    kernel: KernelHandle,
    h_state: DevicePtr,
    query: DevicePtr,
    key: DevicePtr,
    value: DevicePtr,
    log_decay: DevicePtr,
    beta: DevicePtr,
    output: DevicePtr,
    batch_size: u32,
    seq_len: u32,
    nk: u32,
    nv: u32,
    kd: u32,
    vd: u32,
    qk_stride: u32,
    v_stride: u32,
    g_stride: u32,
    b_stride: u32,
) -> LaunchView {
    LaunchView {
        kernel,
        grid: (nv, batch_size, 1),
        block: (vd, 1, 1),
        shared_mem: ((vd * kd + 3 * kd) * 4) as u32,
        args: seq![
            Arg::Ptr(h_state),
            Arg::Ptr(query),
            Arg::Ptr(key),
            Arg::Ptr(value),
            Arg::Ptr(log_decay),
            Arg::Ptr(beta),
            Arg::Ptr(output),
            Arg::U32(batch_size),
            Arg::U32(seq_len),
            Arg::U32(nk),
            Arg::U32(nv),
            Arg::U32(kd),
            Arg::U32(vd),
            Arg::U32(qk_stride),
            Arg::U32(v_stride),
            Arg::U32(g_stride),
            Arg::U32(b_stride),
        ],
    }
}

/// The recurrence with per-channel decay over several rows. The state of a
/// head and three rows of key channels are kept in shared memory.
pub fn kda_prefill(
    kernel: KernelHandle,
    h_state: DevicePtr,
    query: DevicePtr,
    key: DevicePtr,
    value: DevicePtr,
    log_decay: DevicePtr,
    beta: DevicePtr,
    output: DevicePtr,
    batch_size: u32,
    seq_len: u32,
    nk: u32,
    nv: u32,
    kd: u32,
    vd: u32,
    qk_stride: u32,
    v_stride: u32,
    g_stride: u32,
    b_stride: u32,
) -> (r: Launch)
    requires
        (vd * kd + 3 * kd) * 4 <= u32::MAX,
    ensures
        r@ == kda_prefill_launch(
            kernel, h_state, query, key, value, log_decay, beta, output, batch_size, seq_len, nk,
            nv, kd, vd, qk_stride, v_stride, g_stride, b_stride,
        ),
{
    proof {
        assert(vd * kd >= 0) by (nonlinear_arith)
            requires
                vd >= 0,
                kd >= 0,
        ;
    }
    let mut args: Vec<Arg> = Vec::new();
    args.push(Arg::Ptr(h_state));
    args.push(Arg::Ptr(query));
    args.push(Arg::Ptr(key));
    args.push(Arg::Ptr(value));
    args.push(Arg::Ptr(log_decay));
    args.push(Arg::Ptr(beta));
    args.push(Arg::Ptr(output));
    args.push(Arg::U32(batch_size));
    args.push(Arg::U32(seq_len));
    args.push(Arg::U32(nk));
    args.push(Arg::U32(nv));
    args.push(Arg::U32(kd));
    args.push(Arg::U32(vd));
    args.push(Arg::U32(qk_stride));
    args.push(Arg::U32(v_stride));
    args.push(Arg::U32(g_stride));
    args.push(Arg::U32(b_stride));
    proof {
        assert(
            args@ =~= kda_prefill_launch(
                kernel, h_state, query, key, value, log_decay, beta, output, batch_size, seq_len,
                nk, nv, kd, vd, qk_stride, v_stride, g_stride, b_stride,
            ).args
        );
    }
    Launch {
        kernel,
        grid: (nv, batch_size, 1),
        block: (vd, 1, 1),
        shared_mem: (vd * kd + 3 * kd) * 4,
        args,
    }
}

pub open spec fn moe_weighted_sum_blend_launch(
    kernel: KernelHandle,
    output: DevicePtr,
    expert_out: DevicePtr,
    expert_weights: DevicePtr,
    shared_out: DevicePtr,
    input: DevicePtr,
    gate_weight: DevicePtr,
    routed_scale: u32,
    hidden: u32,
    top_k: u32,
    k: u32,
) -> LaunchView {
    LaunchView {
        kernel,
        grid: (ceil_div(hidden as int, 256) as u32, 1, 1),
        block: (256, 1, 1),
        shared_mem: 0,
        args: seq![
            Arg::Ptr(output),
            Arg::Ptr(expert_out),
            Arg::Ptr(expert_weights),
            Arg::Ptr(shared_out),
            Arg::Ptr(input),
            Arg::Ptr(gate_weight),
            Arg::F32(routed_scale),
            Arg::U32(hidden),
            Arg::U32(top_k),
            Arg::U32(k),
        ],
    }
}

/// Weighted sum of the expert rows, plus the shared row times the sigmoid of
/// its gate.
pub fn moe_weighted_sum_blend(
    kernel: KernelHandle,
    output: DevicePtr,
    expert_out: DevicePtr,
    expert_weights: DevicePtr,
    shared_out: DevicePtr,
    input: DevicePtr,
    gate_weight: DevicePtr,
    routed_scale: u32,
    hidden: u32,
    top_k: u32,
    k: u32,
) -> (r: Launch)
    ensures
        r@ == moe_weighted_sum_blend_launch(
            kernel, output, expert_out, expert_weights, shared_out, input, gate_weight,
            routed_scale, hidden, top_k, k,
        ),
{
    let mut args: Vec<Arg> = Vec::new();
    args.push(Arg::Ptr(output));
    args.push(Arg::Ptr(expert_out));
    args.push(Arg::Ptr(expert_weights));
    args.push(Arg::Ptr(shared_out));
    args.push(Arg::Ptr(input));
    args.push(Arg::Ptr(gate_weight));
    args.push(Arg::F32(routed_scale));
    args.push(Arg::U32(hidden));
    args.push(Arg::U32(top_k));
    args.push(Arg::U32(k));
    proof {
        assert(
            args@ =~= moe_weighted_sum_blend_launch(
                kernel, output, expert_out, expert_weights, shared_out, input, gate_weight,
                routed_scale, hidden, top_k, k,
            ).args
        );
    }
    Launch {
        kernel,
        grid: (div_ceil(hidden, 256), 1, 1),
        block: (256, 1, 1),
        shared_mem: 0,
        args,
    }
}

pub open spec fn moe_weighted_sum_blend_batch2_launch(
    kernel: KernelHandle,
    output: DevicePtr,
    expert_out: DevicePtr,
    expert_weights: DevicePtr,
    shared_out: DevicePtr,
    input: DevicePtr,
    gate_weight: DevicePtr,
    hidden: u32,
    top_k: u32,
    k: u32,
) -> LaunchView {
    LaunchView {
        kernel,
        grid: (ceil_div(hidden as int, 256) as u32, 2, 1),
        block: (256, 1, 1),
        shared_mem: 0,
        args: seq![
            Arg::Ptr(output),
            Arg::Ptr(expert_out),
            Arg::Ptr(expert_weights),
            Arg::Ptr(shared_out),
            Arg::Ptr(input),
            Arg::Ptr(gate_weight),
            Arg::U32(hidden),
            Arg::U32(top_k),
            Arg::U32(k),
        ],
    }
}

/// As `moe_weighted_sum_blend`, for two rows.
pub fn moe_weighted_sum_blend_batch2(
    kernel: KernelHandle,
    output: DevicePtr,
    expert_out: DevicePtr,
    expert_weights: DevicePtr,
    shared_out: DevicePtr,
    input: DevicePtr,
    gate_weight: DevicePtr,
    hidden: u32,
    top_k: u32,
    k: u32,
) -> (r: Launch)
    ensures
        r@ == moe_weighted_sum_blend_batch2_launch(
            kernel, output, expert_out, expert_weights, shared_out, input, gate_weight, hidden,
            top_k, k,
        ),
{
    let mut args: Vec<Arg> = Vec::new();
    args.push(Arg::Ptr(output));
    args.push(Arg::Ptr(expert_out));
    args.push(Arg::Ptr(expert_weights));
    args.push(Arg::Ptr(shared_out));
    args.push(Arg::Ptr(input));
    args.push(Arg::Ptr(gate_weight));
    args.push(Arg::U32(hidden));
    args.push(Arg::U32(top_k));
    args.push(Arg::U32(k));
    proof {
        assert(
            args@ =~= moe_weighted_sum_blend_batch2_launch(
                kernel, output, expert_out, expert_weights, shared_out, input, gate_weight, hidden,
                top_k, k,
            ).args
        );
    }
    Launch {
        kernel,
        grid: (div_ceil(hidden, 256), 2, 1),
        block: (256, 1, 1),
        shared_mem: 0,
        args,
    }
}

pub open spec fn moe_weighted_sum_blend_batch3_launch(
    kernel: KernelHandle,
    output: DevicePtr,
    expert_out: DevicePtr,
    expert_weights: DevicePtr,
    shared_out: DevicePtr,
    input: DevicePtr,
    gate_weight: DevicePtr,
    hidden: u32,
    top_k: u32,
    k: u32,
) -> LaunchView {
    LaunchView {
        kernel,
        grid: (ceil_div(hidden as int, 256) as u32, 3, 1),
        block: (256, 1, 1),
        shared_mem: 0,
        args: seq![
            Arg::Ptr(output),
            Arg::Ptr(expert_out),
            Arg::Ptr(expert_weights),
            Arg::Ptr(shared_out),
            Arg::Ptr(input),
            Arg::Ptr(gate_weight),
            Arg::U32(hidden),
            Arg::U32(top_k),
            Arg::U32(k),
        ],
    }
}

/// As `moe_weighted_sum_blend`, for three rows.
pub fn moe_weighted_sum_blend_batch3(
    kernel: KernelHandle,
    output: DevicePtr,
    expert_out: DevicePtr,
    expert_weights: DevicePtr,
    shared_out: DevicePtr,
    input: DevicePtr,
    gate_weight: DevicePtr,
    hidden: u32,
    top_k: u32,
    k: u32,
) -> (r: Launch)
    ensures
        r@ == moe_weighted_sum_blend_batch3_launch(
            kernel, output, expert_out, expert_weights, shared_out, input, gate_weight, hidden,
            top_k, k,
        ),
{
    let mut args: Vec<Arg> = Vec::new();
    args.push(Arg::Ptr(output));
    args.push(Arg::Ptr(expert_out));
    args.push(Arg::Ptr(expert_weights));
    args.push(Arg::Ptr(shared_out));
    args.push(Arg::Ptr(input));
    args.push(Arg::Ptr(gate_weight));
    args.push(Arg::U32(hidden));
    args.push(Arg::U32(top_k));
    args.push(Arg::U32(k));
    proof {
        assert(
            args@ =~= moe_weighted_sum_blend_batch3_launch(
                kernel, output, expert_out, expert_weights, shared_out, input, gate_weight, hidden,
                top_k, k,
            ).args
        );
    }
    Launch {
        kernel,
        grid: (div_ceil(hidden, 256), 3, 1),
        block: (256, 1, 1),
        shared_mem: 0,
        args,
    }
}

pub open spec fn moe_expert_gate_up_shared_batch2_launch(
    kernel: KernelHandle,
    input: DevicePtr,
    gate_ptrs: ExpertPtrTable,
    gate_out: DevicePtr,
    up_ptrs: ExpertPtrTable,
    up_out: DevicePtr,
    expert_indices: DevicePtr,
    sh_gate: QuantizedWeight,
    sh_gate_out: DevicePtr,
    sh_up: QuantizedWeight,
    sh_up_out: DevicePtr,
    n: u32,
    k: u32,
    top_k: u32,
    block_size: u32,
) -> LaunchView {
    LaunchView {
        kernel,
        grid: (ceil_div(n as int, 8) as u32, (2 * (top_k + 1)) as u32, 2),
        block: (block_size, 1, 1),
        shared_mem: 0,
        args: seq![
            Arg::Ptr(input),
            Arg::Ptr(gate_ptrs.packed_ptrs),
            Arg::Ptr(gate_ptrs.scale_ptrs),
            Arg::Ptr(gate_ptrs.scale2_vals),
            Arg::Ptr(gate_out),
            Arg::Ptr(up_ptrs.packed_ptrs),
            Arg::Ptr(up_ptrs.scale_ptrs),
            Arg::Ptr(up_ptrs.scale2_vals),
            Arg::Ptr(up_out),
            Arg::Ptr(expert_indices),
            Arg::Ptr(sh_gate.weight),
            Arg::Ptr(sh_gate.weight_scale),
            Arg::F32(sh_gate.weight_scale_2),
            Arg::Ptr(sh_gate_out),
            Arg::Ptr(sh_up.weight),
            Arg::Ptr(sh_up.weight_scale),
            Arg::F32(sh_up.weight_scale_2),
            Arg::Ptr(sh_up_out),
            Arg::U32(n),
            Arg::U32(k),
            Arg::U32(top_k),
        ],
    }
}

/// Gate and up products of the routed experts and of the shared one, for two
/// rows.
pub fn moe_expert_gate_up_shared_batch2(
    kernel: KernelHandle,
    input: DevicePtr,
    gate_ptrs: ExpertPtrTable,
    gate_out: DevicePtr,
    up_ptrs: ExpertPtrTable,
    up_out: DevicePtr,
    expert_indices: DevicePtr,
    sh_gate: QuantizedWeight,
    sh_gate_out: DevicePtr,
    sh_up: QuantizedWeight,
    sh_up_out: DevicePtr,
    n: u32,
    k: u32,
    top_k: u32,
    block_size: u32,
) -> (r: Launch)
    requires
        2 * (top_k + 1) <= u32::MAX,
    ensures
        r@ == moe_expert_gate_up_shared_batch2_launch(
            kernel, input, gate_ptrs, gate_out, up_ptrs, up_out, expert_indices, sh_gate,
            sh_gate_out, sh_up, sh_up_out, n, k, top_k, block_size,
        ),
{
    let mut args: Vec<Arg> = Vec::new();
    args.push(Arg::Ptr(input));
    args.push(Arg::Ptr(gate_ptrs.packed_ptrs));
    args.push(Arg::Ptr(gate_ptrs.scale_ptrs));
    args.push(Arg::Ptr(gate_ptrs.scale2_vals));
    args.push(Arg::Ptr(gate_out));
    args.push(Arg::Ptr(up_ptrs.packed_ptrs));
    args.push(Arg::Ptr(up_ptrs.scale_ptrs));
    args.push(Arg::Ptr(up_ptrs.scale2_vals));
    args.push(Arg::Ptr(up_out));
    args.push(Arg::Ptr(expert_indices));
    args.push(Arg::Ptr(sh_gate.weight));
    args.push(Arg::Ptr(sh_gate.weight_scale));
    args.push(Arg::F32(sh_gate.weight_scale_2));
    args.push(Arg::Ptr(sh_gate_out));
    args.push(Arg::Ptr(sh_up.weight));
    args.push(Arg::Ptr(sh_up.weight_scale));
    args.push(Arg::F32(sh_up.weight_scale_2));
    args.push(Arg::Ptr(sh_up_out));
    args.push(Arg::U32(n));
    args.push(Arg::U32(k));
    args.push(Arg::U32(top_k));
    proof {
        assert(
            args@ =~= moe_expert_gate_up_shared_batch2_launch(
                kernel, input, gate_ptrs, gate_out, up_ptrs, up_out, expert_indices, sh_gate,
                sh_gate_out, sh_up, sh_up_out, n, k, top_k, block_size,
            ).args
        );
    }
    Launch {
        kernel,
        grid: (div_ceil(n, 8), 2 * (top_k + 1), 2),
        block: (block_size, 1, 1),
        shared_mem: 0,
        args,
    }
}

pub open spec fn moe_expert_silu_down_shared_batch2_launch(
    kernel: KernelHandle,
    gate_out: DevicePtr,
    up_out: DevicePtr,
    down_ptrs: ExpertPtrTable,
    output: DevicePtr,
    expert_indices: DevicePtr,
    sh_gate_in: DevicePtr,
    sh_up_in: DevicePtr,
    sh_down: QuantizedWeight,
    sh_down_out: DevicePtr,
    n: u32,
    k: u32,
    top_k: u32,
    block_size: u32,
) -> LaunchView {
    LaunchView {
        kernel,
        grid: (ceil_div(n as int, 8) as u32, (2 * (top_k + 1)) as u32, 1),
        block: (block_size, 1, 1),
        shared_mem: 0,
        args: seq![
            Arg::Ptr(gate_out),
            Arg::Ptr(up_out),
            Arg::Ptr(down_ptrs.packed_ptrs),
            Arg::Ptr(down_ptrs.scale_ptrs),
            Arg::Ptr(down_ptrs.scale2_vals),
            Arg::Ptr(output),
            Arg::Ptr(expert_indices),
            Arg::Ptr(sh_gate_in),
            Arg::Ptr(sh_up_in),
            Arg::Ptr(sh_down.weight),
            Arg::Ptr(sh_down.weight_scale),
            Arg::F32(sh_down.weight_scale_2),
            Arg::Ptr(sh_down_out),
            Arg::U32(n),
            Arg::U32(k),
            Arg::U32(top_k),
        ],
    }
}

/// Activation and down products of the routed experts and of the shared one,
/// for two rows.
pub fn moe_expert_silu_down_shared_batch2(
    kernel: KernelHandle,
    gate_out: DevicePtr,
    up_out: DevicePtr,
    down_ptrs: ExpertPtrTable,
    output: DevicePtr,
    expert_indices: DevicePtr,
    sh_gate_in: DevicePtr,
    sh_up_in: DevicePtr,
    sh_down: QuantizedWeight,
    sh_down_out: DevicePtr,
    n: u32,
    k: u32,
    top_k: u32,
    block_size: u32,
) -> (r: Launch)
    requires
        2 * (top_k + 1) <= u32::MAX,
    ensures
        r@ == moe_expert_silu_down_shared_batch2_launch(
            kernel, gate_out, up_out, down_ptrs, output, expert_indices, sh_gate_in, sh_up_in,
            sh_down, sh_down_out, n, k, top_k, block_size,
        ),
{
    let mut args: Vec<Arg> = Vec::new();
    args.push(Arg::Ptr(gate_out));
    args.push(Arg::Ptr(up_out));
    args.push(Arg::Ptr(down_ptrs.packed_ptrs));
    args.push(Arg::Ptr(down_ptrs.scale_ptrs));
    args.push(Arg::Ptr(down_ptrs.scale2_vals));
    args.push(Arg::Ptr(output));
    args.push(Arg::Ptr(expert_indices));
    args.push(Arg::Ptr(sh_gate_in));
    args.push(Arg::Ptr(sh_up_in));
    args.push(Arg::Ptr(sh_down.weight));
    args.push(Arg::Ptr(sh_down.weight_scale));
    args.push(Arg::F32(sh_down.weight_scale_2));
    args.push(Arg::Ptr(sh_down_out));
    args.push(Arg::U32(n));
    args.push(Arg::U32(k));
    args.push(Arg::U32(top_k));
    proof {
        assert(
            args@ =~= moe_expert_silu_down_shared_batch2_launch(
                kernel, gate_out, up_out, down_ptrs, output, expert_indices, sh_gate_in, sh_up_in,
                sh_down, sh_down_out, n, k, top_k, block_size,
            ).args
        );
    }
    Launch {
        kernel,
        grid: (div_ceil(n, 8), 2 * (top_k + 1), 1),
        block: (block_size, 1, 1),
        shared_mem: 0,
        args,
    }
}

pub open spec fn moe_expert_gate_up_shared_batch3_launch(
    kernel: KernelHandle,
    input: DevicePtr,
    gate_ptrs: ExpertPtrTable,
    gate_out: DevicePtr,
    up_ptrs: ExpertPtrTable,
    up_out: DevicePtr,
    expert_indices: DevicePtr,
    sh_gate: QuantizedWeight,
    sh_gate_out: DevicePtr,
    sh_up: QuantizedWeight,
    sh_up_out: DevicePtr,
    n: u32,
    k: u32,
    top_k: u32,
) -> LaunchView {
    LaunchView {
        kernel,
        grid: (ceil_div(n as int, 8) as u32, (3 * (top_k + 1)) as u32, 2),
        block: (128, 1, 1),
        shared_mem: 0,
        args: seq![
            Arg::Ptr(input),
            Arg::Ptr(gate_ptrs.packed_ptrs),
            Arg::Ptr(gate_ptrs.scale_ptrs),
            Arg::Ptr(gate_ptrs.scale2_vals),
            Arg::Ptr(gate_out),
            Arg::Ptr(up_ptrs.packed_ptrs),
            Arg::Ptr(up_ptrs.scale_ptrs),
            Arg::Ptr(up_ptrs.scale2_vals),
            Arg::Ptr(up_out),
            Arg::Ptr(expert_indices),
            Arg::Ptr(sh_gate.weight),
            Arg::Ptr(sh_gate.weight_scale),
            Arg::F32(sh_gate.weight_scale_2),
            Arg::Ptr(sh_gate_out),
            Arg::Ptr(sh_up.weight),
            Arg::Ptr(sh_up.weight_scale),
            Arg::F32(sh_up.weight_scale_2),
            Arg::Ptr(sh_up_out),
            Arg::U32(n),
            Arg::U32(k),
            Arg::U32(top_k),
        ],
    }
}

/// Gate and up products of the routed experts and of the shared one, for three
/// rows.
pub fn moe_expert_gate_up_shared_batch3(
    kernel: KernelHandle,
    input: DevicePtr,
    gate_ptrs: ExpertPtrTable,
    gate_out: DevicePtr,
    up_ptrs: ExpertPtrTable,
    up_out: DevicePtr,
    expert_indices: DevicePtr,
    sh_gate: QuantizedWeight,
    sh_gate_out: DevicePtr,
    sh_up: QuantizedWeight,
    sh_up_out: DevicePtr,
    n: u32,
    k: u32,
    top_k: u32,
) -> (r: Launch)
    requires
        3 * (top_k + 1) <= u32::MAX,
    ensures
        r@ == moe_expert_gate_up_shared_batch3_launch(
            kernel, input, gate_ptrs, gate_out, up_ptrs, up_out, expert_indices, sh_gate,
            sh_gate_out, sh_up, sh_up_out, n, k, top_k,
        ),
{
    let mut args: Vec<Arg> = Vec::new();
    args.push(Arg::Ptr(input));
    args.push(Arg::Ptr(gate_ptrs.packed_ptrs));
    args.push(Arg::Ptr(gate_ptrs.scale_ptrs));
    args.push(Arg::Ptr(gate_ptrs.scale2_vals));
    args.push(Arg::Ptr(gate_out));
    args.push(Arg::Ptr(up_ptrs.packed_ptrs));
    args.push(Arg::Ptr(up_ptrs.scale_ptrs));
    args.push(Arg::Ptr(up_ptrs.scale2_vals));
    args.push(Arg::Ptr(up_out));
    args.push(Arg::Ptr(expert_indices));
    args.push(Arg::Ptr(sh_gate.weight));
    args.push(Arg::Ptr(sh_gate.weight_scale));
    args.push(Arg::F32(sh_gate.weight_scale_2));
    args.push(Arg::Ptr(sh_gate_out));
    args.push(Arg::Ptr(sh_up.weight));
    args.push(Arg::Ptr(sh_up.weight_scale));
    args.push(Arg::F32(sh_up.weight_scale_2));
    args.push(Arg::Ptr(sh_up_out));
    args.push(Arg::U32(n));
    args.push(Arg::U32(k));
    args.push(Arg::U32(top_k));
    proof {
        assert(
            args@ =~= moe_expert_gate_up_shared_batch3_launch(
                kernel, input, gate_ptrs, gate_out, up_ptrs, up_out, expert_indices, sh_gate,
                sh_gate_out, sh_up, sh_up_out, n, k, top_k,
            ).args
        );
    }
    Launch {
        kernel,
        grid: (div_ceil(n, 8), 3 * (top_k + 1), 2),
        block: (128, 1, 1),
        shared_mem: 0,
        args,
    }
}

pub open spec fn moe_expert_silu_down_shared_batch3_launch(
    kernel: KernelHandle,
    gate_out: DevicePtr,
    up_out: DevicePtr,
    down_ptrs: ExpertPtrTable,
    output: DevicePtr,
    expert_indices: DevicePtr,
    sh_gate_in: DevicePtr,
    sh_up_in: DevicePtr,
    sh_down: QuantizedWeight,
    sh_down_out: DevicePtr,
    n: u32,
    k: u32,
    top_k: u32,
) -> LaunchView {
    LaunchView {
        kernel,
        grid: (ceil_div(n as int, 8) as u32, (3 * (top_k + 1)) as u32, 1),
        block: (128, 1, 1),
        shared_mem: 0,
        args: seq![
            Arg::Ptr(gate_out),
            Arg::Ptr(up_out),
            Arg::Ptr(down_ptrs.packed_ptrs),
            Arg::Ptr(down_ptrs.scale_ptrs),
            Arg::Ptr(down_ptrs.scale2_vals),
            Arg::Ptr(output),
            Arg::Ptr(expert_indices),
            Arg::Ptr(sh_gate_in),
            Arg::Ptr(sh_up_in),
            Arg::Ptr(sh_down.weight),
            Arg::Ptr(sh_down.weight_scale),
            Arg::F32(sh_down.weight_scale_2),
            Arg::Ptr(sh_down_out),
            Arg::U32(n),
            Arg::U32(k),
            Arg::U32(top_k),
        ],
    }
}

/// Activation and down products of the routed experts and of the shared one,
/// for three rows.
pub fn moe_expert_silu_down_shared_batch3(
    kernel: KernelHandle,
    gate_out: DevicePtr,
    up_out: DevicePtr,
    down_ptrs: ExpertPtrTable,
    output: DevicePtr,
    expert_indices: DevicePtr,
    sh_gate_in: DevicePtr,
    sh_up_in: DevicePtr,
    sh_down: QuantizedWeight,
    sh_down_out: DevicePtr,
    n: u32,
    k: u32,
    top_k: u32,
) -> (r: Launch)
    requires
        3 * (top_k + 1) <= u32::MAX,
    ensures
        r@ == moe_expert_silu_down_shared_batch3_launch(
            kernel, gate_out, up_out, down_ptrs, output, expert_indices, sh_gate_in, sh_up_in,
            sh_down, sh_down_out, n, k, top_k,
        ),
{
    let mut args: Vec<Arg> = Vec::new();
    args.push(Arg::Ptr(gate_out));
    args.push(Arg::Ptr(up_out));
    args.push(Arg::Ptr(down_ptrs.packed_ptrs));
    args.push(Arg::Ptr(down_ptrs.scale_ptrs));
    args.push(Arg::Ptr(down_ptrs.scale2_vals));
    args.push(Arg::Ptr(output));
    args.push(Arg::Ptr(expert_indices));
    args.push(Arg::Ptr(sh_gate_in));
    args.push(Arg::Ptr(sh_up_in));
    args.push(Arg::Ptr(sh_down.weight));
    args.push(Arg::Ptr(sh_down.weight_scale));
    args.push(Arg::F32(sh_down.weight_scale_2));
    args.push(Arg::Ptr(sh_down_out));
    args.push(Arg::U32(n));
    args.push(Arg::U32(k));
    args.push(Arg::U32(top_k));
    proof {
        assert(
            args@ =~= moe_expert_silu_down_shared_batch3_launch(
                kernel, gate_out, up_out, down_ptrs, output, expert_indices, sh_gate_in, sh_up_in,
                sh_down, sh_down_out, n, k, top_k,
            ).args
        );
    }
    Launch {
        kernel,
        grid: (div_ceil(n, 8), 3 * (top_k + 1), 1),
        block: (128, 1, 1),
        shared_mem: 0,
        args,
    }
}

pub open spec fn relu2_down_shared_launch(
    kernel: KernelHandle,
    widest: u32,
    expert_up: DevicePtr,
    down_ptrs: ExpertPtrTable,
    expert_out: DevicePtr,
    expert_indices: DevicePtr,
    shared_up: DevicePtr,
    sh_down: QuantizedWeight,
    shared_out: DevicePtr,
    expert_n: u32,
    inter: u32,
    shared_inter: u32,
    hidden: u32,
    top_k: u32,
) -> LaunchView {
    LaunchView {
        kernel,
        grid: (ceil_div(widest as int, 8) as u32, (top_k + 1) as u32, 1),
        block: (128, 1, 1),
        shared_mem: (imax(shared_inter as int, inter as int) * 4) as u32,
        args: seq![
            Arg::Ptr(expert_up),
            Arg::Ptr(down_ptrs.packed_ptrs),
            Arg::Ptr(down_ptrs.scale_ptrs),
            Arg::Ptr(down_ptrs.scale2_vals),
            Arg::Ptr(expert_out),
            Arg::Ptr(expert_indices),
            Arg::Ptr(shared_up),
            Arg::Ptr(sh_down.weight),
            Arg::Ptr(sh_down.weight_scale),
            Arg::F32(sh_down.weight_scale_2),
            Arg::Ptr(shared_out),
            Arg::U32(expert_n),
            Arg::U32(inter),
            Arg::U32(shared_inter),
            Arg::U32(hidden),
            Arg::U32(top_k),
        ],
    }
}

/// Squared ReLU and down products of the routed experts and of the shared one.
/// Shared memory holds the wider of the two inputs.
pub fn relu2_down_shared(
    kernel: KernelHandle,
    widest: u32,
    expert_up: DevicePtr,
    down_ptrs: ExpertPtrTable,
    expert_out: DevicePtr,
    expert_indices: DevicePtr,
    shared_up: DevicePtr,
    sh_down: QuantizedWeight,
    shared_out: DevicePtr,
    expert_n: u32,
    inter: u32,
    shared_inter: u32,
    hidden: u32,
    top_k: u32,
) -> (r: Launch)
    requires
        top_k < u32::MAX,
        shared_inter * 4 <= u32::MAX,
        inter * 4 <= u32::MAX,
    ensures
        r@ == relu2_down_shared_launch(
            kernel, widest, expert_up, down_ptrs, expert_out, expert_indices, shared_up, sh_down,
            shared_out, expert_n, inter, shared_inter, hidden, top_k,
        ),
{
    let widest_in: u32 = if shared_inter >= inter {
        shared_inter
    } else {
        inter
    };
    let mut args: Vec<Arg> = Vec::new();
    args.push(Arg::Ptr(expert_up));
    args.push(Arg::Ptr(down_ptrs.packed_ptrs));
    args.push(Arg::Ptr(down_ptrs.scale_ptrs));
    args.push(Arg::Ptr(down_ptrs.scale2_vals));
    args.push(Arg::Ptr(expert_out));
    args.push(Arg::Ptr(expert_indices));
    args.push(Arg::Ptr(shared_up));
    args.push(Arg::Ptr(sh_down.weight));
    args.push(Arg::Ptr(sh_down.weight_scale));
    args.push(Arg::F32(sh_down.weight_scale_2));
    args.push(Arg::Ptr(shared_out));
    args.push(Arg::U32(expert_n));
    args.push(Arg::U32(inter));
    args.push(Arg::U32(shared_inter));
    args.push(Arg::U32(hidden));
    args.push(Arg::U32(top_k));
    proof {
        assert(
            args@ =~= relu2_down_shared_launch(
                kernel, widest, expert_up, down_ptrs, expert_out, expert_indices, shared_up,
                sh_down, shared_out, expert_n, inter, shared_inter, hidden, top_k,
            ).args
        );
    }
    Launch {
        kernel,
        grid: (div_ceil(widest, 8), top_k + 1, 1),
        block: (128, 1, 1),
        shared_mem: widest_in * 4,
        args,
    }
}

pub open spec fn weighted_sum_scale_launch(
    kernel: KernelHandle,
    output: DevicePtr,
    expert_out: DevicePtr,
    expert_weights: DevicePtr,
    shared_out: DevicePtr,
    dim: u32,
    top_k: u32,
    scale: u32,
) -> LaunchView {
    LaunchView {
        kernel,
        grid: (ceil_div(dim as int, 256) as u32, 1, 1),
        block: (256, 1, 1),
        shared_mem: 0,
        args: seq![
            Arg::Ptr(output),
            Arg::Ptr(expert_out),
            Arg::Ptr(expert_weights),
            Arg::Ptr(shared_out),
            Arg::U32(dim),
            Arg::U32(top_k),
            Arg::F32(scale),
        ],
    }
}

/// Weighted sum of the expert rows, plus the shared row.
pub fn weighted_sum_scale(
    kernel: KernelHandle,
    output: DevicePtr,
    expert_out: DevicePtr,
    expert_weights: DevicePtr,
    shared_out: DevicePtr,
    dim: u32,
    top_k: u32,
    scale: u32,
) -> (r: Launch)
    ensures
        r@ == weighted_sum_scale_launch(
            kernel, output, expert_out, expert_weights, shared_out, dim, top_k, scale,
        ),
{
    let mut args: Vec<Arg> = Vec::new();
    args.push(Arg::Ptr(output));
    args.push(Arg::Ptr(expert_out));
    args.push(Arg::Ptr(expert_weights));
    args.push(Arg::Ptr(shared_out));
    args.push(Arg::U32(dim));
    args.push(Arg::U32(top_k));
    args.push(Arg::F32(scale));
    proof {
        assert(
            args@ =~= weighted_sum_scale_launch(
                kernel, output, expert_out, expert_weights, shared_out, dim, top_k, scale,
            ).args
        );
    }
    Launch {
        kernel,
        grid: (div_ceil(dim, 256), 1, 1),
        block: (256, 1, 1),
        shared_mem: 0,
        args,
    }
}

pub open spec fn relu2_elementwise_launch(
    kernel: KernelHandle,
    buffer: DevicePtr,
    elements: u32,
) -> LaunchView {
    LaunchView {
        kernel,
        grid: (ceil_div(elements as int, 256) as u32, 1, 1),
        block: (256, 1, 1),
        shared_mem: 0,
        args: seq![
            Arg::Ptr(buffer),
            Arg::U32(elements),
        ],
    }
}

/// Squared ReLU in place.
pub fn relu2_elementwise(
    kernel: KernelHandle,
    buffer: DevicePtr,
    elements: u32,
) -> (r: Launch)
    ensures
        r@ == relu2_elementwise_launch(kernel, buffer, elements),
{
    let mut args: Vec<Arg> = Vec::new();
    args.push(Arg::Ptr(buffer));
    args.push(Arg::U32(elements));
    proof {
        assert(args@ =~= relu2_elementwise_launch(kernel, buffer, elements).args);
    }
    Launch {
        kernel,
        grid: (div_ceil(elements, 256), 1, 1),
        block: (256, 1, 1),
        shared_mem: 0,
        args,
    }
}

pub open spec fn clamp_bf16_launch(
    kernel: KernelHandle,
    buffer: DevicePtr,
    limit: u32,
    elements: u32,
) -> LaunchView {
    LaunchView {
        kernel,
        grid: (ceil_div(elements as int, 256) as u32, 1, 1),
        block: (256, 1, 1),
        shared_mem: 0,
        args: seq![
            Arg::Ptr(buffer),
            Arg::F32(limit),
            Arg::U32(elements),
        ],
    }
}

/// Clamps in place.
pub fn clamp_bf16(
    kernel: KernelHandle,
    buffer: DevicePtr,
    limit: u32,
    elements: u32,
) -> (r: Launch)
    ensures
        r@ == clamp_bf16_launch(kernel, buffer, limit, elements),
{
    let mut args: Vec<Arg> = Vec::new();
    args.push(Arg::Ptr(buffer));
    args.push(Arg::F32(limit));
    args.push(Arg::U32(elements));
    proof {
        assert(args@ =~= clamp_bf16_launch(kernel, buffer, limit, elements).args);
    }
    Launch {
        kernel,
        grid: (div_ceil(elements, 256), 1, 1),
        block: (256, 1, 1),
        shared_mem: 0,
        args,
    }
}

pub open spec fn scale_inplace_launch(
    kernel: KernelHandle,
    buffer: DevicePtr,
    elements: u32,
    factor: u32,
) -> LaunchView {
    LaunchView {
        kernel,
        grid: (ceil_div(elements as int, 256) as u32, 1, 1),
        block: (256, 1, 1),
        shared_mem: 0,
        args: seq![
            Arg::Ptr(buffer),
            Arg::U32(elements),
            Arg::F32(factor),
        ],
    }
}

/// Scales in place.
pub fn scale_inplace(
    kernel: KernelHandle,
    buffer: DevicePtr,
    elements: u32,
    factor: u32,
) -> (r: Launch)
    ensures
        r@ == scale_inplace_launch(kernel, buffer, elements, factor),
{
    let mut args: Vec<Arg> = Vec::new();
    args.push(Arg::Ptr(buffer));
    args.push(Arg::U32(elements));
    args.push(Arg::F32(factor));
    proof {
        assert(args@ =~= scale_inplace_launch(kernel, buffer, elements, factor).args);
    }
    Launch {
        kernel,
        grid: (div_ceil(elements, 256), 1, 1),
        block: (256, 1, 1),
        shared_mem: 0,
        args,
    }
}

pub open spec fn headwise_gate_launch(
    kernel: KernelHandle,
    heads: DevicePtr,
    gates: DevicePtr,
    rows: u32,
) -> LaunchView {
    LaunchView {
        kernel,
        grid: (rows, 1, 1),
        block: (128, 1, 1),
        shared_mem: 0,
        args: seq![
            Arg::Ptr(heads),
            Arg::Ptr(gates),
            Arg::U32(rows),
        ],
    }
}

/// Scales each head by the sigmoid of its gate, one block per row.
pub fn headwise_gate(
    kernel: KernelHandle,
    heads: DevicePtr,
    gates: DevicePtr,
    rows: u32,
) -> (r: Launch)
    ensures
        r@ == headwise_gate_launch(kernel, heads, gates, rows),
{
    let mut args: Vec<Arg> = Vec::new();
    args.push(Arg::Ptr(heads));
    args.push(Arg::Ptr(gates));
    args.push(Arg::U32(rows));
    proof {
        assert(args@ =~= headwise_gate_launch(kernel, heads, gates, rows).args);
    }
    Launch {
        kernel,
        grid: (rows, 1, 1),
        block: (128, 1, 1),
        shared_mem: 0,
        args,
    }
}

pub open spec fn ling_mla_prefill_attn_launch(
    kernel: KernelHandle,
    q: DevicePtr,
    key: DevicePtr,
    value: DevicePtr,
    output: DevicePtr,
    rows: u32,
    q_heads: u32,
    kv_heads: u32,
    head_dim: u32,
    v_dim: u32,
    scale: u32,
) -> LaunchView {
    LaunchView {
        kernel,
        grid: (q_heads, ((rows + 15) / 16) as u32, 1),
        block: (256, 1, 1),
        shared_mem: (rows * (head_dim + v_dim) * 2) as u32,
        args: seq![
            Arg::Ptr(q),
            Arg::Ptr(key),
            Arg::Ptr(value),
            Arg::Ptr(output),
            Arg::U32(rows),
            Arg::U32(q_heads),
            Arg::U32(kv_heads),
            Arg::F32(scale),
            Arg::U32(1),
        ],
    }
}

/// Causal attention over all rows, one block per head and 16 rows. Shared
/// memory holds the keys and values of all rows.
pub fn ling_mla_prefill_attn(
    kernel: KernelHandle,
    q: DevicePtr,
    key: DevicePtr,
    value: DevicePtr,
    output: DevicePtr,
    rows: u32,
    q_heads: u32,
    kv_heads: u32,
    head_dim: u32,
    v_dim: u32,
    scale: u32,
) -> (r: Launch)
    requires
        rows + 15 <= u32::MAX,
        head_dim + v_dim <= u32::MAX,
        rows * (head_dim + v_dim) * 2 <= u32::MAX,
    ensures
        r@ == ling_mla_prefill_attn_launch(
            kernel, q, key, value, output, rows, q_heads, kv_heads, head_dim, v_dim, scale,
        ),
{
    proof {
        assert(rows * (head_dim + v_dim) >= 0) by (nonlinear_arith)
            requires
                rows >= 0,
                head_dim + v_dim >= 0,
        ;
    }
    let mut args: Vec<Arg> = Vec::new();
    args.push(Arg::Ptr(q));
    args.push(Arg::Ptr(key));
    args.push(Arg::Ptr(value));
    args.push(Arg::Ptr(output));
    args.push(Arg::U32(rows));
    args.push(Arg::U32(q_heads));
    args.push(Arg::U32(kv_heads));
    args.push(Arg::F32(scale));
    args.push(Arg::U32(1));
    proof {
        assert(
            args@ =~= ling_mla_prefill_attn_launch(
                kernel, q, key, value, output, rows, q_heads, kv_heads, head_dim, v_dim, scale,
            ).args
        );
    }
    Launch {
        kernel,
        grid: (q_heads, (rows + 15) / 16, 1),
        block: (256, 1, 1),
        shared_mem: rows * (head_dim + v_dim) * 2,
        args,
    }
}

pub open spec fn ssm_state_norm_launch(
    kernel: KernelHandle,
    state_ptrs: DevicePtr,
    heads: u32,
    layers: u32,
    key_dim: u32,
    value_dim: u32,
) -> LaunchView {
    LaunchView {
        kernel,
        grid: (heads, layers, 1),
        block: (value_dim, 1, 1),
        shared_mem: 0,
        args: seq![
            Arg::Ptr(state_ptrs),
            Arg::U32(heads),
            Arg::U32(key_dim),
            Arg::U32(value_dim),
        ],
    }
}

/// Normalizes the recurrent states, one block per head and layer.
pub fn ssm_state_norm(
    kernel: KernelHandle,
    state_ptrs: DevicePtr,
    heads: u32,
    layers: u32,
    key_dim: u32,
    value_dim: u32,
) -> (r: Launch)
    ensures
        r@ == ssm_state_norm_launch(kernel, state_ptrs, heads, layers, key_dim, value_dim),
{
    let mut args: Vec<Arg> = Vec::new();
    args.push(Arg::Ptr(state_ptrs));
    args.push(Arg::U32(heads));
    args.push(Arg::U32(key_dim));
    args.push(Arg::U32(value_dim));
    proof {
        assert(
            args@ =~= ssm_state_norm_launch(
                kernel, state_ptrs, heads, layers, key_dim, value_dim,
            ).args
        );
    }
    Launch {
        kernel,
        grid: (heads, layers, 1),
        block: (value_dim, 1, 1),
        shared_mem: 0,
        args,
    }
}

/// The launch of an operation whose geometry is fixed here.
pub open spec fn launch_of(op: Op) -> Option<LaunchView> {
    match op {
        Op::MoeTopkSoftmax(
            kernel, gate_logits, expert_indices, expert_weights, num_experts, top_k, normalize,
        ) => Some(
            moe_topk_softmax_launch(
                kernel, gate_logits, expert_indices, expert_weights, num_experts, top_k, normalize,
            ),
        ),
        Op::MoeTopkSigmoid(
            kernel, gate_logits, bias, expert_indices, expert_weights, num_experts, top_k,
            normalize, scaling_factor, n_group, topk_group,
        ) => Some(
            moe_topk_sigmoid_launch(
                kernel, gate_logits, bias, expert_indices, expert_weights, num_experts, top_k,
                normalize, scaling_factor, n_group, topk_group,
            ),
        ),
        Op::TopkSigmoidRows(
            kernel, gate_logits, bias, expert_indices, expert_weights, num_experts, top_k,
            normalize, scaling_factor, rows, n_group, topk_group,
        ) => Some(
            topk_sigmoid_rows_launch(
                kernel, gate_logits, bias, expert_indices, expert_weights, num_experts, top_k,
                normalize, scaling_factor, rows, n_group, topk_group,
            ),
        ),
        Op::KdaGates(
            kernel, f_raw, b_raw, a_log, dt_bias, log_decay, beta, num_tokens, nk, nv, kd,
            lower_bound,
        ) => Some(
            kda_gates_launch(
                kernel, f_raw, b_raw, a_log, dt_bias, log_decay, beta, num_tokens, nk, nv, kd,
                lower_bound,
            ),
        ),
        Op::KdaDecode(
            kernel, h_state, query, key, value, log_decay, beta, output, batch_size, nk, nv, kd, vd,
        ) => Some(
            kda_decode_launch(
                kernel, h_state, query, key, value, log_decay, beta, output, batch_size, nk, nv, kd,
                vd,
            ),
        ),
        Op::KdaPrefill(
            kernel, h_state, query, key, value, log_decay, beta, output, batch_size, seq_len, nk,
            nv, kd, vd, qk_stride, v_stride, g_stride, b_stride,
        ) => Some(
            kda_prefill_launch(
                kernel, h_state, query, key, value, log_decay, beta, output, batch_size, seq_len,
                nk, nv, kd, vd, qk_stride, v_stride, g_stride, b_stride,
            ),
        ),
        Op::MoeWeightedSumBlend(
            kernel, output, expert_out, expert_weights, shared_out, input, gate_weight,
            routed_scale, hidden, top_k, k,
        ) => Some(
            moe_weighted_sum_blend_launch(
                kernel, output, expert_out, expert_weights, shared_out, input, gate_weight,
                routed_scale, hidden, top_k, k,
            ),
        ),
        Op::MoeWeightedSumBlendBatch2(
            kernel, output, expert_out, expert_weights, shared_out, input, gate_weight, hidden,
            top_k, k,
        ) => Some(
            moe_weighted_sum_blend_batch2_launch(
                kernel, output, expert_out, expert_weights, shared_out, input, gate_weight, hidden,
                top_k, k,
            ),
        ),
        Op::MoeGateUpSharedBatch2(
            kernel, input, gate_ptrs, gate_out, up_ptrs, up_out, expert_indices, sh_gate,
            sh_gate_out, sh_up, sh_up_out, n, k, top_k, block_size,
        ) => Some(
            moe_expert_gate_up_shared_batch2_launch(
                kernel, input, gate_ptrs, gate_out, up_ptrs, up_out, expert_indices, sh_gate,
                sh_gate_out, sh_up, sh_up_out, n, k, top_k, block_size,
            ),
        ),
        Op::MoeSiluDownSharedBatch2(
            kernel, gate_out, up_out, down_ptrs, output, expert_indices, sh_gate_in, sh_up_in,
            sh_down, sh_down_out, n, k, top_k, block_size,
        ) => Some(
            moe_expert_silu_down_shared_batch2_launch(
                kernel, gate_out, up_out, down_ptrs, output, expert_indices, sh_gate_in, sh_up_in,
                sh_down, sh_down_out, n, k, top_k, block_size,
            ),
        ),
        Op::Relu2DownShared(
            kernel, widest, expert_up, down_ptrs, expert_out, expert_indices, shared_up, sh_down,
            shared_out, expert_n, inter, shared_inter, hidden, top_k,
        ) => Some(
            relu2_down_shared_launch(
                kernel, widest, expert_up, down_ptrs, expert_out, expert_indices, shared_up,
                sh_down, shared_out, expert_n, inter, shared_inter, hidden, top_k,
            ),
        ),
        Op::WeightedSumScale(
            kernel, output, expert_out, expert_weights, shared_out, dim, top_k, scale,
        ) => Some(
            weighted_sum_scale_launch(
                kernel, output, expert_out, expert_weights, shared_out, dim, top_k, scale,
            ),
        ),
        Op::Relu2Elementwise(kernel, buffer, elements) => Some(
            relu2_elementwise_launch(kernel, buffer, elements),
        ),
        Op::ClampBf16(kernel, buffer, limit, elements) => Some(
            clamp_bf16_launch(kernel, buffer, limit, elements),
        ),
        Op::ScaleInplace(kernel, buffer, elements, factor) => Some(
            scale_inplace_launch(kernel, buffer, elements, factor),
        ),
        Op::HeadwiseGate(kernel, heads, gates, rows) => Some(
            headwise_gate_launch(kernel, heads, gates, rows),
        ),
        Op::LingMlaPrefillAttn(
            kernel, q, key, value, output, rows, q_heads, kv_heads, head_dim, v_dim, scale,
        ) => Some(
            ling_mla_prefill_attn_launch(
                kernel, q, key, value, output, rows, q_heads, kv_heads, head_dim, v_dim, scale,
            ),
        ),
        Op::SsmStateNorm(kernel, state_ptrs, heads, layers, key_dim, value_dim) => Some(
            ssm_state_norm_launch(kernel, state_ptrs, heads, layers, key_dim, value_dim),
        ),
        _ => None,
    }
}

/// The grid and the shared memory of an operation are representable.
pub open spec fn launch_fits(op: Op) -> bool {
    match op {
        Op::KdaPrefill(
            _, _, _, _, _, _, _, _, _, _, _, _, kd, vd, _, _, _, _,
        ) => (vd * kd + 3 * kd) * 4 <= u32::MAX,
        Op::MoeGateUpSharedBatch2(
            _, _, _, _, _, _, _, _, _, _, _, _, _, top_k, _,
        ) => 2 * (top_k + 1) <= u32::MAX,
        Op::MoeSiluDownSharedBatch2(
            _, _, _, _, _, _, _, _, _, _, _, _, top_k, _,
        ) => 2 * (top_k + 1) <= u32::MAX,
        Op::Relu2DownShared(
            _, _, _, _, _, _, _, _, _, _, inter, shared_inter, _, top_k,
        ) => top_k < u32::MAX && shared_inter * 4 <= u32::MAX && inter * 4 <= u32::MAX,
        Op::LingMlaPrefillAttn(
            _, _, _, _, _, rows, _, _, head_dim, v_dim, _,
        ) => rows + 15 <= u32::MAX && head_dim + v_dim <= u32::MAX
            && rows * (head_dim + v_dim) * 2 <= u32::MAX,
        _ => true,
    }
}

/// Whether the shared memory and the grid of an operation's launch are
/// representable.
pub fn fits(op: Op) -> (r: bool)
    ensures
        r == launch_fits(op),
{
    let max: u128 = 0xffff_ffff;
    match op {
        Op::KdaPrefill(_, _, _, _, _, _, _, _, _, _, _, _, kd, vd, _, _, _, _) => {
            proof {
                assert(0 <= vd * kd <= 0xffff_ffff * 0xffff_ffff) by (nonlinear_arith)
                    requires
                        0 <= vd <= 0xffff_ffff,
                        0 <= kd <= 0xffff_ffff,
                ;
            }
            (vd as u128 * kd as u128 + 3 * kd as u128) * 4 <= max
        },
        Op::MoeGateUpSharedBatch2(_, _, _, _, _, _, _, _, _, _, _, _, _, top_k, _) => 2 * (
        top_k as u128 + 1) <= max,
        Op::MoeSiluDownSharedBatch2(_, _, _, _, _, _, _, _, _, _, _, _, top_k, _) => 2 * (
        top_k as u128 + 1) <= max,
        Op::Relu2DownShared(_, _, _, _, _, _, _, _, _, _, inter, shared_inter, _, top_k) => top_k
            < u32::MAX && shared_inter as u128 * 4 <= max && inter as u128 * 4 <= max,
        Op::LingMlaPrefillAttn(_, _, _, _, _, rows, _, _, head_dim, v_dim, _) => {
            let width: u128 = head_dim as u128 + v_dim as u128;
            proof {
                assert(0 <= rows * (head_dim + v_dim) <= 0xffff_ffff * 0x1_ffff_fffe)
                    by (nonlinear_arith)
                    requires
                        0 <= rows <= 0xffff_ffff,
                        0 <= head_dim + v_dim <= 0x1_ffff_fffe,
                ;
            }
            rows as u128 + 15 <= max && width <= max && rows as u128 * width * 2 <= max
        },
        _ => true,
    }
}

/// Whether an operation is refused because its kernel is not loaded.
pub open spec fn launch_refused(op: Op) -> bool {
    match op {
        Op::MoeTopkSigmoid(kernel, _, _, _, _, _, _, _, _, _, _) => kernel.0 == 0,
        _ => false,
    }
}

/// The launch of an operation, where its geometry is fixed here.
pub fn geometry(op: Op) -> (r: Result<Option<Launch>, LaunchError>)
    requires
        launch_fits(op),
    ensures
        match r {
            Ok(Some(l)) => !launch_refused(op) && launch_of(op) == Some(l@),
            Ok(None) => !launch_refused(op) && launch_of(op) is None,
            Err(LaunchError::MissingKernel) => launch_refused(op),
        },
{
    let launch: Option<Launch> = match op {
        Op::MoeTopkSoftmax(
            kernel, gate_logits, expert_indices, expert_weights, num_experts, top_k, normalize,
        ) => Some(
            moe_topk_softmax(
                kernel, gate_logits, expert_indices, expert_weights, num_experts, top_k, normalize,
            ),
        ),
        Op::MoeTopkSigmoid(
            kernel, gate_logits, bias, expert_indices, expert_weights, num_experts, top_k,
            normalize, scaling_factor, n_group, topk_group,
        ) => match moe_topk_sigmoid(
            kernel, gate_logits, bias, expert_indices, expert_weights, num_experts, top_k,
            normalize, scaling_factor, n_group, topk_group,
        ) {
            Ok(l) => Some(l),
            Err(e) => {
                return Err(e);
            },
        },
        Op::TopkSigmoidRows(
            kernel, gate_logits, bias, expert_indices, expert_weights, num_experts, top_k,
            normalize, scaling_factor, rows, n_group, topk_group,
        ) => Some(
            topk_sigmoid_rows(
                kernel, gate_logits, bias, expert_indices, expert_weights, num_experts, top_k,
                normalize, scaling_factor, rows, n_group, topk_group,
            ),
        ),
        Op::KdaGates(
            kernel, f_raw, b_raw, a_log, dt_bias, log_decay, beta, num_tokens, nk, nv, kd,
            lower_bound,
        ) => Some(
            kda_gates(
                kernel, f_raw, b_raw, a_log, dt_bias, log_decay, beta, num_tokens, nk, nv, kd,
                lower_bound,
            ),
        ),
        Op::KdaDecode(
            kernel, h_state, query, key, value, log_decay, beta, output, batch_size, nk, nv, kd, vd,
        ) => Some(
            kda_decode(
                kernel, h_state, query, key, value, log_decay, beta, output, batch_size, nk, nv, kd,
                vd,
            ),
        ),
        Op::KdaPrefill(
            kernel, h_state, query, key, value, log_decay, beta, output, batch_size, seq_len, nk,
            nv, kd, vd, qk_stride, v_stride, g_stride, b_stride,
        ) => Some(
            kda_prefill(
                kernel, h_state, query, key, value, log_decay, beta, output, batch_size, seq_len,
                nk, nv, kd, vd, qk_stride, v_stride, g_stride, b_stride,
            ),
        ),
        Op::MoeWeightedSumBlend(
            kernel, output, expert_out, expert_weights, shared_out, input, gate_weight,
            routed_scale, hidden, top_k, k,
        ) => Some(
            moe_weighted_sum_blend(
                kernel, output, expert_out, expert_weights, shared_out, input, gate_weight,
                routed_scale, hidden, top_k, k,
            ),
        ),
        Op::MoeWeightedSumBlendBatch2(
            kernel, output, expert_out, expert_weights, shared_out, input, gate_weight, hidden,
            top_k, k,
        ) => Some(
            moe_weighted_sum_blend_batch2(
                kernel, output, expert_out, expert_weights, shared_out, input, gate_weight, hidden,
                top_k, k,
            ),
        ),
        Op::MoeGateUpSharedBatch2(
            kernel, input, gate_ptrs, gate_out, up_ptrs, up_out, expert_indices, sh_gate,
            sh_gate_out, sh_up, sh_up_out, n, k, top_k, block_size,
        ) => Some(
            moe_expert_gate_up_shared_batch2(
                kernel, input, gate_ptrs, gate_out, up_ptrs, up_out, expert_indices, sh_gate,
                sh_gate_out, sh_up, sh_up_out, n, k, top_k, block_size,
            ),
        ),
        Op::MoeSiluDownSharedBatch2(
            kernel, gate_out, up_out, down_ptrs, output, expert_indices, sh_gate_in, sh_up_in,
            sh_down, sh_down_out, n, k, top_k, block_size,
        ) => Some(
            moe_expert_silu_down_shared_batch2(
                kernel, gate_out, up_out, down_ptrs, output, expert_indices, sh_gate_in, sh_up_in,
                sh_down, sh_down_out, n, k, top_k, block_size,
            ),
        ),
        Op::Relu2DownShared(
            kernel, widest, expert_up, down_ptrs, expert_out, expert_indices, shared_up, sh_down,
            shared_out, expert_n, inter, shared_inter, hidden, top_k,
        ) => Some(
            relu2_down_shared(
                kernel, widest, expert_up, down_ptrs, expert_out, expert_indices, shared_up,
                sh_down, shared_out, expert_n, inter, shared_inter, hidden, top_k,
            ),
        ),
        Op::WeightedSumScale(
            kernel, output, expert_out, expert_weights, shared_out, dim, top_k, scale,
        ) => Some(
            weighted_sum_scale(
                kernel, output, expert_out, expert_weights, shared_out, dim, top_k, scale,
            ),
        ),
        Op::Relu2Elementwise(kernel, buffer, elements) => Some(
            relu2_elementwise(kernel, buffer, elements),
        ),
        Op::ClampBf16(kernel, buffer, limit, elements) => Some(
            clamp_bf16(kernel, buffer, limit, elements),
        ),
        Op::ScaleInplace(kernel, buffer, elements, factor) => Some(
            scale_inplace(kernel, buffer, elements, factor),
        ),
        Op::HeadwiseGate(kernel, heads, gates, rows) => Some(
            headwise_gate(kernel, heads, gates, rows),
        ),
        Op::LingMlaPrefillAttn(
            kernel, q, key, value, output, rows, q_heads, kv_heads, head_dim, v_dim, scale,
        ) => Some(
            ling_mla_prefill_attn(
                kernel, q, key, value, output, rows, q_heads, kv_heads, head_dim, v_dim, scale,
            ),
        ),
        Op::SsmStateNorm(kernel, state_ptrs, heads, layers, key_dim, value_dim) => Some(
            ssm_state_norm(kernel, state_ptrs, heads, layers, key_dim, value_dim),
        ),
        _ => None,
    };
    Ok(launch)
}

/// Element-wise launches have a thread for every element, and less than one
/// block too many.
pub proof fn lemma_elementwise_covers(kernel: KernelHandle, buffer: DevicePtr, elements: u32)
    ensures
        elements <= threads_x(relu2_elementwise_launch(kernel, buffer, elements)) < elements + 256,
{
    lemma_ceil_div(elements as int, 256);
}

/// The shared memory of the recurrence holds the state of one head and three
/// rows of key channels in single precision.
pub proof fn lemma_kda_prefill_shared_mem(
    kernel: KernelHandle,
    ptrs: Seq<DevicePtr>,
    batch: u32,
    rows: u32,
    nk: u32,
    nv: u32,
    kd: u32,
    vd: u32,
    strides: Seq<u32>,
)
    requires
        (vd * kd + 3 * kd) * 4 <= u32::MAX,
    ensures
        kda_prefill_launch(
            kernel,
            ptrs[0],
            ptrs[1],
            ptrs[2],
            ptrs[3],
            ptrs[4],
            ptrs[5],
            ptrs[6],
            batch,
            rows,
            nk,
            nv,
            kd,
            vd,
            strides[0],
            strides[1],
            strides[2],
            strides[3],
        ).shared_mem == vd * kd * 4 + 3 * kd * 4,
{
    assert(vd * kd >= 0) by (nonlinear_arith)
        requires
            vd >= 0,
            kd >= 0,
    ;
}

} // verus!
