//! Launch plans: what a layer enqueues on the device, in order.
//!
//! The planners of this crate decide which kernels run, on which buffers, with
//! which extents. They return a list of steps; whoever owns the device walks
//! the list and performs them.

use crate::gpu::{
    AnyWeight, DenseWeight, DevicePtr, ExpertPtrTable, Fp8ExpertPtrTable, Fp8Weight, KernelHandle,
    QuantizedWeight,
};
use vstd::prelude::*;

verus! {

/// One unit of work on the device. The fields stand in the order in which the
/// operation takes them: first the kernel, then inputs, weights and outputs,
/// then extents and scalar parameters.
#[derive(Clone, Copy, PartialEq, Eq, Structural, Debug)]
pub enum Op {
    /// Wait until everything enqueued so far has run.
    Synchronize,
    /// Fill (destination, byte value, byte count).
    Memset(DevicePtr, u8, usize),
    /// Clear a block of the paged cache in every layer.
    ZeroKvBlock(u32),
    /// Device-to-device copy (source, destination, byte count).
    CopyD2d(DevicePtr, DevicePtr, usize),
    /// Sum a buffer over all ranks (buffer, byte count), ordered with the stream.
    AllReduceAsync(DevicePtr, usize),
    /// Copy from the program's host bytes to the device; (first byte, byte count, destination).
    Upload(usize, usize, DevicePtr),
    /// Make the device current on the calling thread.
    BindThread,
    /// Zero the recurrent states of a slot; (slot).
    ZeroSlot(usize),
    /// Bring the recurrent states of a slot back to their start; (slot).
    ResetSlot(usize),
    /// Record an event.
    RecordEvent(u64),
    /// Make the stream wait for an event.
    WaitEvent(u64),
    // Dense, 4-bit and 8-bit matrix products.
    /// (kernel, x, weight, out, n, k)
    DenseGemv(KernelHandle, DevicePtr, DenseWeight, DevicePtr, u32, u32),
    /// (kernel, x, weight, out, m, n, k)
    DenseGemm(KernelHandle, DevicePtr, DenseWeight, DevicePtr, u32, u32, u32),
    /// Tensor-core variant; (kernel, x, weight, out, m, n, k).
    DenseGemmTc(KernelHandle, DevicePtr, DenseWeight, DevicePtr, u32, u32, u32),
    /// (kernel, x, weight, out, n, k)
    W4a16Gemv(KernelHandle, DevicePtr, QuantizedWeight, DevicePtr, u32, u32),
    /// Two rows; (kernel, x, weight, out, n, k).
    W4a16GemvBatch2(KernelHandle, DevicePtr, QuantizedWeight, DevicePtr, u32, u32),
    /// (kernel, x, weight, out, m, n, k)
    W4a16Gemm(KernelHandle, DevicePtr, QuantizedWeight, DevicePtr, u32, u32, u32),
    /// Transposed weight; (kernel, x, weight, out, m, n, k).
    W4a16GemmN128(KernelHandle, DevicePtr, QuantizedWeight, DevicePtr, u32, u32, u32),
    /// Transposed weight, tall tiles; (kernel, x, weight, out, m, n, k).
    W4a16GemmN128M128(KernelHandle, DevicePtr, QuantizedWeight, DevicePtr, u32, u32, u32),
    /// (kernel, x, weight, row scales, out, n, k)
    W8a16Gemv(KernelHandle, DevicePtr, DevicePtr, DevicePtr, DevicePtr, u32, u32),
    /// (kernel, x, weight, row scales, out, m, n, k)
    W8a16Gemm(KernelHandle, DevicePtr, DevicePtr, DevicePtr, DevicePtr, u32, u32, u32),
    /// (kernel, x, weight, out, m, n, k)
    Fp8GemmN128(KernelHandle, DevicePtr, DevicePtr, DevicePtr, u32, u32, u32),
    /// Tall tiles; (kernel, x, weight, out, m, n, k).
    Fp8GemmN128M128(KernelHandle, DevicePtr, DevicePtr, DevicePtr, u32, u32, u32),
    /// The product that fits the weight's format; (x, weight, out, n, k).
    AnyGemv(DevicePtr, AnyWeight, DevicePtr, u32, u32),
    // Norms and element-wise operations.
    /// (kernel, x, weight, out, rows, dim, eps)
    RmsNorm(KernelHandle, DevicePtr, DenseWeight, DevicePtr, u32, u32, u32),
    /// Norm that also saves the residual; (kernel, hidden, weight, out, residual, rows, dim, eps).
    RmsNormResidual(KernelHandle, DevicePtr, DenseWeight, DevicePtr, DevicePtr, u32, u32, u32),
    /// `dst += src`; (kernel, dst, src, elements).
    ResidualAdd(KernelHandle, DevicePtr, DevicePtr, u32),
    /// (kernel, hidden, addend, weight, out, residual, rows, dim, eps)
    ResidualAddRmsNorm(
        KernelHandle,
        DevicePtr,
        DevicePtr,
        DenseWeight,
        DevicePtr,
        DevicePtr,
        u32,
        u32,
        u32,
    ),
    /// `out = act(gate) * up`; (kernel, gate, up, out, elements).
    SiluMul(KernelHandle, DevicePtr, DevicePtr, DevicePtr, u32),
    /// `out = silu(gate) * up`; (kernel, gate, up, out, elements).
    MoeSiluMul(KernelHandle, DevicePtr, DevicePtr, DevicePtr, u32),
    /// Clamp to plus or minus a limit; (kernel, buffer, limit, elements).
    ClampBf16(KernelHandle, DevicePtr, u32, u32),
    /// Scale in place; (kernel, buffer, elements, factor).
    ScaleInplace(KernelHandle, DevicePtr, u32, u32),
    // Mixture-of-experts routing.
    /// The router's own view of the layer input; (input, rows, dim, out).
    RouterInput(DevicePtr, u32, u32, DevicePtr),
    /// (kernel, logits, indices, weights, experts, top_k, normalize)
    MoeTopkSoftmax(KernelHandle, DevicePtr, DevicePtr, DevicePtr, u32, u32, bool),
    /// (kernel, logits, indices, weights, experts, top_k, normalize, rows)
    MoeTopkSoftmaxBatched(KernelHandle, DevicePtr, DevicePtr, DevicePtr, u32, u32, bool, u32),
    /// (kernel, logits, bias, indices, weights, experts, top_k, normalize, scale, n_group,
    /// topk_group)
    MoeTopkSigmoid(
        KernelHandle,
        DevicePtr,
        DevicePtr,
        DevicePtr,
        DevicePtr,
        u32,
        u32,
        bool,
        u32,
        u32,
        u32,
    ),
    /// (kernel, logits, bias, indices, weights, experts, top_k, normalize, scale, rows, n_group,
    /// topk_group)
    MoeTopkSigmoidBatched(
        KernelHandle,
        DevicePtr,
        DevicePtr,
        DevicePtr,
        DevicePtr,
        u32,
        u32,
        bool,
        u32,
        u32,
        u32,
        u32,
    ),
    /// (kernel, indices, sorted tokens, sorted experts, offsets, token positions, expanded rows,
    /// experts, top_k)
    MoeSortByExpert(
        KernelHandle,
        DevicePtr,
        DevicePtr,
        DevicePtr,
        DevicePtr,
        DevicePtr,
        u32,
        u32,
        u32,
    ),
    // Mixture-of-experts projections.
    /// (kernel, x, gate table, gate out, up table, up out, indices, shared gate, shared gate out,
    /// shared up, shared up out, n, k, top_k)
    MoeGateUpShared(
        KernelHandle,
        DevicePtr,
        ExpertPtrTable,
        DevicePtr,
        ExpertPtrTable,
        DevicePtr,
        DevicePtr,
        QuantizedWeight,
        DevicePtr,
        QuantizedWeight,
        DevicePtr,
        u32,
        u32,
        u32,
    ),
    /// As `MoeGateUpShared`, on transposed weights.
    MoeGateUpSharedT(
        KernelHandle,
        DevicePtr,
        ExpertPtrTable,
        DevicePtr,
        ExpertPtrTable,
        DevicePtr,
        DevicePtr,
        QuantizedWeight,
        DevicePtr,
        QuantizedWeight,
        DevicePtr,
        u32,
        u32,
        u32,
    ),
    /// As `MoeGateUpShared`, for two tokens; the last field is the block size.
    MoeGateUpSharedBatch2(
        KernelHandle,
        DevicePtr,
        ExpertPtrTable,
        DevicePtr,
        ExpertPtrTable,
        DevicePtr,
        DevicePtr,
        QuantizedWeight,
        DevicePtr,
        QuantizedWeight,
        DevicePtr,
        u32,
        u32,
        u32,
        u32,
    ),
    /// As `MoeGateUpShared`, for two tokens on transposed weights.
    MoeGateUpSharedBatch2T(
        KernelHandle,
        DevicePtr,
        ExpertPtrTable,
        DevicePtr,
        ExpertPtrTable,
        DevicePtr,
        DevicePtr,
        QuantizedWeight,
        DevicePtr,
        QuantizedWeight,
        DevicePtr,
        u32,
        u32,
        u32,
    ),
    /// As `MoeGateUpShared`, on FP8 weights.
    MoeGateUpSharedFp8(
        KernelHandle,
        DevicePtr,
        Fp8ExpertPtrTable,
        DevicePtr,
        Fp8ExpertPtrTable,
        DevicePtr,
        DevicePtr,
        Fp8Weight,
        DevicePtr,
        Fp8Weight,
        DevicePtr,
        u32,
        u32,
        u32,
    ),
    /// As `MoeGateUpSharedFp8`, for two tokens.
    MoeGateUpSharedFp8Batch2(
        KernelHandle,
        DevicePtr,
        Fp8ExpertPtrTable,
        DevicePtr,
        Fp8ExpertPtrTable,
        DevicePtr,
        DevicePtr,
        Fp8Weight,
        DevicePtr,
        Fp8Weight,
        DevicePtr,
        u32,
        u32,
        u32,
    ),
    /// (kernel, gate, up, down table, out, indices, shared gate, shared up, shared down,
    /// shared out, n, k, top_k)
    MoeSiluDownShared(
        KernelHandle,
        DevicePtr,
        DevicePtr,
        ExpertPtrTable,
        DevicePtr,
        DevicePtr,
        DevicePtr,
        DevicePtr,
        QuantizedWeight,
        DevicePtr,
        u32,
        u32,
        u32,
    ),
    /// As `MoeSiluDownShared`, on transposed weights.
    MoeSiluDownSharedT(
        KernelHandle,
        DevicePtr,
        DevicePtr,
        ExpertPtrTable,
        DevicePtr,
        DevicePtr,
        DevicePtr,
        DevicePtr,
        QuantizedWeight,
        DevicePtr,
        u32,
        u32,
        u32,
    ),
    /// As `MoeSiluDownShared`, for two tokens; the last field is the block size.
    MoeSiluDownSharedBatch2(
        KernelHandle,
        DevicePtr,
        DevicePtr,
        ExpertPtrTable,
        DevicePtr,
        DevicePtr,
        DevicePtr,
        DevicePtr,
        QuantizedWeight,
        DevicePtr,
        u32,
        u32,
        u32,
        u32,
    ),
    /// As `MoeSiluDownShared`, for two tokens on transposed weights.
    MoeSiluDownSharedBatch2T(
        KernelHandle,
        DevicePtr,
        DevicePtr,
        ExpertPtrTable,
        DevicePtr,
        DevicePtr,
        DevicePtr,
        DevicePtr,
        QuantizedWeight,
        DevicePtr,
        u32,
        u32,
        u32,
    ),
    /// As `MoeSiluDownShared`, on FP8 weights.
    MoeSiluDownSharedFp8(
        KernelHandle,
        DevicePtr,
        DevicePtr,
        Fp8ExpertPtrTable,
        DevicePtr,
        DevicePtr,
        DevicePtr,
        DevicePtr,
        Fp8Weight,
        DevicePtr,
        u32,
        u32,
        u32,
    ),
    /// As `MoeSiluDownSharedFp8`, for two tokens.
    MoeSiluDownSharedFp8Batch2(
        KernelHandle,
        DevicePtr,
        DevicePtr,
        Fp8ExpertPtrTable,
        DevicePtr,
        DevicePtr,
        DevicePtr,
        DevicePtr,
        Fp8Weight,
        DevicePtr,
        u32,
        u32,
        u32,
    ),
    /// (kernel, out, expert outputs, weights, shared output, input, shared gate, routed scale,
    /// hidden, top_k, k)
    MoeWeightedSumBlend(
        KernelHandle,
        DevicePtr,
        DevicePtr,
        DevicePtr,
        DevicePtr,
        DevicePtr,
        DevicePtr,
        u32,
        u32,
        u32,
        u32,
    ),
    /// (kernel, out, expert outputs, weights, shared output, input, shared gate, hidden, top_k, k)
    MoeWeightedSumBlendBatch2(
        KernelHandle,
        DevicePtr,
        DevicePtr,
        DevicePtr,
        DevicePtr,
        DevicePtr,
        DevicePtr,
        u32,
        u32,
        u32,
    ),
    /// `out += sigmoid(input . gate) * shared`; (kernel, out, shared, input, gate, hidden, rows).
    MoeBatchedBlend(KernelHandle, DevicePtr, DevicePtr, DevicePtr, DevicePtr, u32, u32),
    /// (kernel, x, table, out, offsets, sorted tokens, experts, n, k, row tiles)
    MoeGroupedGemm(
        KernelHandle,
        DevicePtr,
        ExpertPtrTable,
        DevicePtr,
        DevicePtr,
        DevicePtr,
        u32,
        u32,
        u32,
        u32,
    ),
    /// As `MoeGroupedGemm`, on transposed weights.
    MoeGroupedGemmN128(
        KernelHandle,
        DevicePtr,
        ExpertPtrTable,
        DevicePtr,
        DevicePtr,
        DevicePtr,
        u32,
        u32,
        u32,
        u32,
    ),
    /// (kernel, x, gate table, up table, gate out, up out, offsets, sorted tokens, experts, n, k,
    /// tiles of 64 rows)
    MoeFusedGateUpN128(
        KernelHandle,
        DevicePtr,
        ExpertPtrTable,
        ExpertPtrTable,
        DevicePtr,
        DevicePtr,
        DevicePtr,
        DevicePtr,
        u32,
        u32,
        u32,
        u32,
    ),
    /// As `MoeFusedGateUpN128`, with tiles of 128 rows.
    MoeFusedGateUpM128(
        KernelHandle,
        DevicePtr,
        ExpertPtrTable,
        ExpertPtrTable,
        DevicePtr,
        DevicePtr,
        DevicePtr,
        DevicePtr,
        u32,
        u32,
        u32,
        u32,
    ),
    /// (kernel, x, table, out, offsets, sorted tokens, experts, n, k, row tiles)
    MoeFp8GroupedGemm(
        KernelHandle,
        DevicePtr,
        Fp8ExpertPtrTable,
        DevicePtr,
        DevicePtr,
        DevicePtr,
        u32,
        u32,
        u32,
        u32,
    ),
    /// (kernel, expert outputs, out, token positions, weights, dim, rows, top_k)
    MoeUnpermuteReduce(KernelHandle, DevicePtr, DevicePtr, DevicePtr, DevicePtr, u32, u32, u32),
    /// Transpose the down projections into the layer's scratch tables.
    MoeTransposeDown,
    /// (kernel, x, table, out, indices, n, k, top_k, input stride)
    MoeExpertGemv(
        KernelHandle,
        DevicePtr,
        ExpertPtrTable,
        DevicePtr,
        DevicePtr,
        u32,
        u32,
        u32,
        u32,
    ),
    /// (kernel, widest output, expert up, down table, expert out, indices, shared up, shared down,
    /// shared out, expert n, inter, shared inter, hidden, top_k)
    Relu2DownShared(
        KernelHandle,
        u32,
        DevicePtr,
        ExpertPtrTable,
        DevicePtr,
        DevicePtr,
        DevicePtr,
        QuantizedWeight,
        DevicePtr,
        u32,
        u32,
        u32,
        u32,
        u32,
    ),
    /// (kernel, out, expert outputs, weights, shared output, dim, top_k, scale)
    WeightedSumScale(KernelHandle, DevicePtr, DevicePtr, DevicePtr, DevicePtr, u32, u32, u32),
    /// (kernel, buffer, elements)
    Relu2Elementwise(KernelHandle, DevicePtr, u32),
    /// (kernel, logits, bias, indices, weights, experts, top_k, normalize, scale, rows, n_group,
    /// topk_group)
    TopkSigmoidRows(
        KernelHandle,
        DevicePtr,
        DevicePtr,
        DevicePtr,
        DevicePtr,
        u32,
        u32,
        bool,
        u32,
        u32,
        u32,
        u32,
    ),
    // Latent attention.
    /// One product per head; (kernel, x, weights, out, n, k, heads, input stride, output stride).
    MlaBatchedGemv(KernelHandle, DevicePtr, DevicePtr, DevicePtr, u32, u32, u32, u32, u32),
    /// (kernel, q, absorbed q, q rope, heads, head dim, nope, rope, latent, cache dim)
    MlaQRopeScatter(KernelHandle, DevicePtr, DevicePtr, DevicePtr, u32, u32, u32, u32, u32, u32),
    /// (kernel, q rope, absorbed q, heads, rope, latent, cache dim)
    MlaQRopeWriteback(KernelHandle, DevicePtr, DevicePtr, u32, u32, u32, u32),
    /// (kernel, latent kv, k rope, k entry, v entry, latent, rope, cache dim)
    MlaCacheAssemble(
        KernelHandle,
        DevicePtr,
        DevicePtr,
        DevicePtr,
        DevicePtr,
        u32,
        u32,
        u32,
    ),
    /// (kernel, q, k, positions, rows, q heads, k heads, head dim, rotary dim, inverse
    /// frequencies, theta)
    RopeYarn(
        KernelHandle,
        DevicePtr,
        DevicePtr,
        DevicePtr,
        u32,
        u32,
        u32,
        u32,
        u32,
        DevicePtr,
        u32,
    ),
    /// Store rows into the paged cache; (attention layer, k, v, slots, rows, heads, head dim,
    /// block size, k stride, v stride, inside a graph capture).
    WriteKvCache(usize, DevicePtr, DevicePtr, DevicePtr, u32, u32, u32, u32, u32, u32, bool),
    /// (kernel, q, k pool, v pool, out, block table, sequence lengths, blocks per sequence,
    /// sequences, q heads, kv heads, head dim, block size, scale, q stride, window)
    PagedDecodeAttn(
        KernelHandle,
        DevicePtr,
        DevicePtr,
        DevicePtr,
        DevicePtr,
        DevicePtr,
        DevicePtr,
        u32,
        u32,
        u32,
        u32,
        u32,
        u32,
        u32,
        u32,
        u32,
    ),
    /// Scale each head by the sigmoid of its gate; (kernel, heads, gates, rows).
    HeadwiseGate(KernelHandle, DevicePtr, DevicePtr, u32),
    /// (kernel, q, q rope, rows, heads, head dim, nope, rope, row stride)
    MlaQRopeExtractBatched(KernelHandle, DevicePtr, DevicePtr, u32, u32, u32, u32, u32, u32),
    /// (kernel, q rope, q, rows, heads, head dim, nope, rope, row stride)
    MlaQRopeWritebackBatched(KernelHandle, DevicePtr, DevicePtr, u32, u32, u32, u32, u32, u32),
    /// (kernel, latent kv, k rope, k rows, v rows, rows, latent, rope, cache dim)
    MlaCacheAssembleBatched(
        KernelHandle,
        DevicePtr,
        DevicePtr,
        DevicePtr,
        DevicePtr,
        u32,
        u32,
        u32,
        u32,
    ),
    /// (kernel, expanded kv, k rope, k rows, v rows, rows, heads, nope, v dim, rope, head dim,
    /// row stride)
    MlaKvAssembleBatched(
        KernelHandle,
        DevicePtr,
        DevicePtr,
        DevicePtr,
        DevicePtr,
        u32,
        u32,
        u32,
        u32,
        u32,
        u32,
        u32,
    ),
    /// (kernel, q, k, v, out, rows, q heads, kv heads, head dim, v dim, scale)
    LingMlaPrefillAttn(
        KernelHandle,
        DevicePtr,
        DevicePtr,
        DevicePtr,
        DevicePtr,
        u32,
        u32,
        u32,
        u32,
        u32,
        u32,
    ),
    /// (kernel, q, k, v, out, rows, sequences, q heads, kv heads, head dim, scale, causal, window)
    PrefillAttention64(
        KernelHandle,
        DevicePtr,
        DevicePtr,
        DevicePtr,
        DevicePtr,
        u32,
        u32,
        u32,
        u32,
        u32,
        u32,
        bool,
        u32,
    ),
    /// (kernel, q, k, v, out, rows, sequences, q heads, kv heads, head dim, scale, causal, window)
    PrefillAttention(
        KernelHandle,
        DevicePtr,
        DevicePtr,
        DevicePtr,
        DevicePtr,
        u32,
        u32,
        u32,
        u32,
        u32,
        u32,
        bool,
        u32,
    ),
    // Linear attention.
    /// (kernel, in, out, rows, key heads, key dim, value heads per key head, value dim)
    DeinterleaveQkvz(KernelHandle, DevicePtr, DevicePtr, u32, u32, u32, u32, u32),
    /// (kernel, x, weight, out, n, k, key heads, key dim, value heads per key head, value dim)
    W4a16GemvQkvz(
        KernelHandle,
        DevicePtr,
        QuantizedWeight,
        DevicePtr,
        u32,
        u32,
        u32,
        u32,
        u32,
        u32,
    ),
    /// (kernel, x, weight, a_log, dt_bias, gates, betas, n, k, value heads per key head)
    DenseGemvBaGates(
        KernelHandle,
        DevicePtr,
        DenseWeight,
        DevicePtr,
        DevicePtr,
        DevicePtr,
        DevicePtr,
        u32,
        u32,
        u32,
    ),
    /// (kernel, x, weight, a_log, dt_bias, gates, rows, n, k, x stride, gate stride, value heads,
    /// value heads per key head)
    DenseGemmBaGatesPrefill(
        KernelHandle,
        DevicePtr,
        DenseWeight,
        DevicePtr,
        DevicePtr,
        DevicePtr,
        u32,
        u32,
        u32,
        u32,
        u32,
        u32,
        u32,
    ),
    /// (kernel, conv state, x, weight, out, channels, taps, sequences, q and k channels, key dim,
    /// eps)
    Conv1dUpdateL2norm(
        KernelHandle,
        DevicePtr,
        DevicePtr,
        DenseWeight,
        DevicePtr,
        u32,
        u32,
        u32,
        u32,
        u32,
        u32,
    ),
    /// (kernel, conv state, x, weight, bias, out, channels, taps, rows, x stride, out stride)
    Conv1dUpdatePrefill(
        KernelHandle,
        DevicePtr,
        DevicePtr,
        DenseWeight,
        DevicePtr,
        DevicePtr,
        u32,
        u32,
        u32,
        u32,
        u32,
    ),
    /// (kernel, buffer, heads, dim, eps, rows, row stride)
    L2Norm(KernelHandle, DevicePtr, u32, u32, u32, u32, u32),
    /// (kernel, state, q, k, v, gates, betas, out, sequences, key heads, value heads, key dim,
    /// value dim)
    GdnDecode(
        KernelHandle,
        DevicePtr,
        DevicePtr,
        DevicePtr,
        DevicePtr,
        DevicePtr,
        DevicePtr,
        DevicePtr,
        u32,
        u32,
        u32,
        u32,
        u32,
    ),
    /// (kernel, x, z, weight, out, rows, dim, x stride, eps, z stride)
    GatedRmsNorm(
        KernelHandle,
        DevicePtr,
        DevicePtr,
        DenseWeight,
        DevicePtr,
        u32,
        u32,
        u32,
        u32,
        u32,
    ),
    /// (kernel, x, z, weight, out, heads, dim, eps, rows, x stride, z stride)
    GatedRmsNormPrefill(
        KernelHandle,
        DevicePtr,
        DevicePtr,
        DenseWeight,
        DevicePtr,
        u32,
        u32,
        u32,
        u32,
        u32,
        u32,
    ),
    /// (kernel, f, b, a_log, dt_bias, log decay, beta, rows, key heads, value heads, key dim,
    /// lower bound)
    KdaGates(
        KernelHandle,
        DevicePtr,
        DevicePtr,
        DevicePtr,
        DevicePtr,
        DevicePtr,
        DevicePtr,
        u32,
        u32,
        u32,
        u32,
        u32,
    ),
    /// (kernel, state, q, k, v, log decay, beta, out, sequences, key heads, value heads, key dim,
    /// value dim)
    KdaDecode(
        KernelHandle,
        DevicePtr,
        DevicePtr,
        DevicePtr,
        DevicePtr,
        DevicePtr,
        DevicePtr,
        DevicePtr,
        u32,
        u32,
        u32,
        u32,
        u32,
    ),
    /// (kernel, state, q, k, v, log decay, beta, out, sequences, rows, key heads, value heads,
    /// key dim, value dim, q and k stride, v stride, decay stride, beta stride)
    KdaPrefill(
        KernelHandle,
        DevicePtr,
        DevicePtr,
        DevicePtr,
        DevicePtr,
        DevicePtr,
        DevicePtr,
        DevicePtr,
        u32,
        u32,
        u32,
        u32,
        u32,
        u32,
        u32,
        u32,
        u32,
        u32,
    ),
    /// (kernel, state, q, k, v, gates, betas, out, sequences, rows, key heads, value heads,
    /// key dim, value dim, q and k stride, v stride, gate stride)
    GdnPrefillPersistent(
        KernelHandle,
        DevicePtr,
        DevicePtr,
        DevicePtr,
        DevicePtr,
        DevicePtr,
        DevicePtr,
        DevicePtr,
        u32,
        u32,
        u32,
        u32,
        u32,
        u32,
        u32,
        u32,
        u32,
    ),
    /// As `GdnPrefillPersistent`, with four column splits.
    GdnPrefillSplit4(
        KernelHandle,
        DevicePtr,
        DevicePtr,
        DevicePtr,
        DevicePtr,
        DevicePtr,
        DevicePtr,
        DevicePtr,
        u32,
        u32,
        u32,
        u32,
        u32,
        u32,
        u32,
        u32,
        u32,
    ),
    /// As `GdnPrefillPersistent`; the last field is the shared memory in bytes.
    GdnPrefillPersistentSmem(
        KernelHandle,
        DevicePtr,
        DevicePtr,
        DevicePtr,
        DevicePtr,
        DevicePtr,
        DevicePtr,
        DevicePtr,
        u32,
        u32,
        u32,
        u32,
        u32,
        u32,
        u32,
        u32,
        u32,
        u32,
    ),
    /// As `GdnPrefillPersistent`, with a table of states, one per sequence.
    GdnPrefillPersistentBatched(
        KernelHandle,
        DevicePtr,
        DevicePtr,
        DevicePtr,
        DevicePtr,
        DevicePtr,
        DevicePtr,
        DevicePtr,
        u32,
        u32,
        u32,
        u32,
        u32,
        u32,
        u32,
        u32,
        u32,
    ),
    /// As `GdnPrefillSplit4`, with a table of states, one per sequence.
    GdnPrefillSplit4Batched(
        KernelHandle,
        DevicePtr,
        DevicePtr,
        DevicePtr,
        DevicePtr,
        DevicePtr,
        DevicePtr,
        DevicePtr,
        u32,
        u32,
        u32,
        u32,
        u32,
        u32,
        u32,
        u32,
        u32,
    ),
    /// As `GdnPrefillPersistentSmem`, with a table of states, one per sequence.
    GdnPrefillPersistentSmemBatched(
        KernelHandle,
        DevicePtr,
        DevicePtr,
        DevicePtr,
        DevicePtr,
        DevicePtr,
        DevicePtr,
        DevicePtr,
        u32,
        u32,
        u32,
        u32,
        u32,
        u32,
        u32,
        u32,
        u32,
        u32,
    ),
    /// Input projection of a linear-attention prefill; (x, out, rows, projection size, hidden,
    /// key heads, key dim, value heads per key head, value dim).
    PrefillQkvzProj(DevicePtr, DevicePtr, u32, usize, usize, usize, usize, usize, usize),
    /// Recurrence of a linear-attention prefill; (state, q, k, v, gates, out, rows, key heads,
    /// value heads, key dim, value dim, channels).
    PrefillGdnRecurrence(
        DevicePtr,
        DevicePtr,
        DevicePtr,
        DevicePtr,
        DevicePtr,
        DevicePtr,
        u32,
        usize,
        usize,
        usize,
        usize,
        usize,
    ),
    /// Output projection of a linear-attention prefill; (x, out, rows, hidden, value channels).
    PrefillOutProj(DevicePtr, DevicePtr, u32, usize, usize),
    /// The layer's feed-forward part on one row; (x, out).
    FfnForward(DevicePtr, DevicePtr),
    /// The layer's feed-forward part on several rows; (x, rows).
    FfnForwardPrefill(DevicePtr, usize),
    // Model level.
    /// Zero every activation buffer.
    ZeroAll,
    /// Embedding row of one token; (token, out).
    Embed(u32, DevicePtr),
    /// (kernel, token ids, table, out, rows, hidden)
    BatchedEmbed(KernelHandle, DevicePtr, DevicePtr, DevicePtr, u32, u32),
    /// Scale embedding rows, for models that ask for it; (rows buffer, rows).
    ScaleEmbeddings(DevicePtr, usize),
    /// Logits of one row; (row).
    LmHead(DevicePtr),
    /// (kernel, logits, out, vocabulary)
    Argmax(KernelHandle, DevicePtr, DevicePtr, u32),
    /// (kernel, slots, block table, first position, positions, block size)
    FillSlots(KernelHandle, DevicePtr, DevicePtr, u32, u32, u32),
    /// (kernel, state pointers, heads, layers, key dim, value dim)
    SsmStateNorm(KernelHandle, DevicePtr, u32, u32, u32, u32),
    /// One layer on one row; (layer, hidden, residual, position).
    LayerDecode(usize, DevicePtr, DevicePtr, usize),
    /// One layer on several rows; (layer, hidden, residual, rows, first position, first row that
    /// writes the cache).
    LayerPrefill(usize, DevicePtr, DevicePtr, usize, usize, usize),
    /// Input half of a linear-attention layer; (layer, hidden, residual, rows, first position,
    /// first row that writes the cache, first row in the recurrence buffers).
    LayerPhase1(usize, DevicePtr, DevicePtr, usize, usize, usize, usize),
    /// Recurrence of a linear-attention layer over all buffered rows; (layer).
    LayerRecurrence(usize),
    /// Output half of a linear-attention layer; (layer, hidden, residual, rows, first row in the
    /// recurrence buffers).
    LayerPhase3(usize, DevicePtr, DevicePtr, usize, usize),
    /// Save a layer's output for the block drafter; (layer, row).
    CaptureDecode(usize, usize),
    /// Save a layer's output rows for the block drafter; (layer, first slot, rows).
    CapturePrefill(usize, usize, usize),
    /// Normalize the recurrent states of the sequence.
    NormalizeSsmStates,
    /// Begin capturing a graph.
    BeginCapture,
    /// End the capture; what was captured has not run yet.
    EndCapture,
    /// Run a captured graph.
    LaunchGraph(u64),
}

/// One step of a plan.
#[derive(Clone, Copy, PartialEq, Eq, Structural, Debug)]
pub enum Step {
    /// Enqueue an operation on a stream.
    On(u64, Op),
    /// Sum a buffer over all ranks (buffer, byte count) before going on.
    AllReduce(DevicePtr, usize),
}

/// `s` followed by one operation on `stream`.
pub open spec fn on(s: Seq<Step>, stream: u64, op: Op) -> Seq<Step> {
    s.push(Step::On(stream, op))
}

/// `s` followed by one operation and a wait for it.
pub open spec fn on_synced(s: Seq<Step>, stream: u64, op: Op) -> Seq<Step> {
    on(on(s, stream, op), stream, Op::Synchronize)
}

/// `s`, with a wait when the pass is being timed.
pub open spec fn timed(s: Seq<Step>, profile: bool, stream: u64) -> Seq<Step> {
    if profile {
        on(s, stream, Op::Synchronize)
    } else {
        s
    }
}

/// `s`, followed by the sum over all ranks when there are several: the blocking
/// form inside a graph capture, the stream-ordered form otherwise.
pub open spec fn reduced(
    s: Seq<Step>,
    is_ep: bool,
    graph_capture: bool,
    buf: DevicePtr,
    bytes: int,
    stream: u64,
) -> Seq<Step> {
    if !is_ep {
        s
    } else if graph_capture {
        s.push(Step::AllReduce(buf, bytes as usize))
    } else {
        on(s, stream, Op::AllReduceAsync(buf, bytes as usize))
    }
}

/// How many steps of a plan have a property.
pub open spec fn steps_with(s: Seq<Step>, p: spec_fn(Step) -> bool) -> nat
    decreases s.len(),
{
    if s.len() == 0 {
        0
    } else {
        steps_with(s.drop_last(), p) + if p(s.last()) {
            1nat
        } else {
            0nat
        }
    }
}

/// One step more counts once, when it has the property.
pub broadcast proof fn lemma_one_more(s: Seq<Step>, x: Step, p: spec_fn(Step) -> bool)
    ensures
        #[trigger] steps_with(s.push(x), p) == steps_with(s, p) + if p(x) {
            1nat
        } else {
            0nat
        },
{
    assert(s.push(x).drop_last() =~= s);
}

pub fn enqueue(plan: &mut Vec<Step>, stream: u64, op: Op)
    ensures
        final(plan)@ == on(old(plan)@, stream, op),
{
    plan.push(Step::On(stream, op));
}

pub fn enqueue_synced(plan: &mut Vec<Step>, stream: u64, op: Op)
    ensures
        final(plan)@ == on_synced(old(plan)@, stream, op),
{
    plan.push(Step::On(stream, op));
    plan.push(Step::On(stream, Op::Synchronize));
}

pub fn enqueue_timed(plan: &mut Vec<Step>, profile: bool, stream: u64)
    ensures
        final(plan)@ == timed(old(plan)@, profile, stream),
{
    if profile {
        plan.push(Step::On(stream, Op::Synchronize));
    }
}

pub fn enqueue_reduce(
    plan: &mut Vec<Step>,
    is_ep: bool,
    graph_capture: bool,
    buf: DevicePtr,
    bytes: usize,
    stream: u64,
)
    ensures
        final(plan)@ == reduced(old(plan)@, is_ep, graph_capture, buf, bytes as int, stream),
{
    if is_ep {
        if graph_capture {
            plan.push(Step::AllReduce(buf, bytes));
        } else {
            plan.push(Step::On(stream, Op::AllReduceAsync(buf, bytes)));
        }
    }
}

/// The state of a recurrent layer.
#[derive(Clone, Copy, PartialEq, Eq, Structural, Debug)]
pub struct SsmState {
    pub h_state: DevicePtr,
    pub conv_state: DevicePtr,
}

/// Buffers that hold all rows of a prompt between the two halves of a
/// linear-attention prefill.
#[derive(Clone, Copy, PartialEq, Eq, Structural, Debug)]
pub struct GdnPrefillBuffers {
    pub qkv: DevicePtr,
    pub gate_beta: DevicePtr,
    pub output: DevicePtr,
    pub z: DevicePtr,
    pub total_len: usize,
}

/// Steps together with the host bytes that they upload.
pub struct Program {
    pub steps: Vec<Step>,
    pub staging: Vec<u8>,
}

/// What a program does.
pub struct ProgramView {
    pub steps: Seq<Step>,
    pub staging: Seq<u8>,
}

impl ProgramView {
    pub open spec fn empty() -> ProgramView {
        ProgramView { steps: Seq::empty(), staging: Seq::empty() }
    }

    /// Followed by one operation.
    pub open spec fn run(self, stream: u64, op: Op) -> ProgramView {
        ProgramView { steps: on(self.steps, stream, op), staging: self.staging }
    }

    /// Followed by a wait when `profile` is set.
    pub open spec fn timed(self, profile: bool, stream: u64) -> ProgramView {
        ProgramView { steps: timed(self.steps, profile, stream), staging: self.staging }
    }

    /// Followed by a copy of `bytes` to the device.
    pub open spec fn upload(self, stream: u64, bytes: Seq<u8>, dst: DevicePtr) -> ProgramView {
        ProgramView {
            steps: on(
                self.steps,
                stream,
                Op::Upload(self.staging.len() as usize, bytes.len() as usize, dst),
            ),
            staging: self.staging + bytes,
        }
    }
}

impl View for Program {
    type V = ProgramView;

    open spec fn view(&self) -> ProgramView {
        ProgramView { steps: self.steps@, staging: self.staging@ }
    }
}

impl Program {
    pub fn new() -> (r: Program)
        ensures
            r@ == ProgramView::empty(),
    {
        Program { steps: Vec::new(), staging: Vec::new() }
    }

    pub fn run(&mut self, stream: u64, op: Op)
        ensures
            final(self)@ == old(self)@.run(stream, op),
    {
        self.steps.push(Step::On(stream, op));
    }

    pub fn timed(&mut self, profile: bool, stream: u64)
        ensures
            final(self)@ == old(self)@.timed(profile, stream),
    {
        enqueue_timed(&mut self.steps, profile, stream);
    }

    pub fn upload(&mut self, stream: u64, bytes: &[u8], dst: DevicePtr)
        ensures
            final(self)@ == old(self)@.upload(stream, bytes@, dst),
    {
        self.steps.push(Step::On(stream, Op::Upload(self.staging.len(), bytes.len(), dst)));
        self.staging.extend_from_slice(bytes);
        proof {
            assert(self.staging@ =~= old(self).staging@ + bytes@);
        }
    }
}

} // verus!
