//! What each operation does to memory, one by one.

use crate::gpu::{
    AnyWeight, DenseWeight, DevicePtr, ExpertPtrTable, Fp8ExpertPtrTable, Fp8Weight, KernelHandle,
    QuantizedWeight,
};
use crate::meaning::{binary, product, unary, Choice, Content, Layout, Memory, Rule, Weight};
use crate::plan::{Op, Step};
use vstd::prelude::*;

verus! {

impl Layout {
    pub broadcast proof fn lemma_synchronize(
        self,
        m: Memory,
        stream: u64,
    )
        ensures
            #[trigger] self.after_step(
                m,
                Step::On(
                    stream,
                    Op::Synchronize,
                ),
            ) == ({
                m
            }),
    {
        reveal(Layout::after_step);
    }

    pub broadcast proof fn lemma_record_event(
        self,
        m: Memory,
        stream: u64,
        unused0: u64,
    )
        ensures
            #[trigger] self.after_step(
                m,
                Step::On(
                    stream,
                    Op::RecordEvent(unused0),
                ),
            ) == ({
                m
            }),
    {
        reveal(Layout::after_step);
    }

    pub broadcast proof fn lemma_wait_event(
        self,
        m: Memory,
        stream: u64,
        unused0: u64,
    )
        ensures
            #[trigger] self.after_step(
                m,
                Step::On(
                    stream,
                    Op::WaitEvent(unused0),
                ),
            ) == ({
                m
            }),
    {
        reveal(Layout::after_step);
    }

    pub broadcast proof fn lemma_begin_capture(
        self,
        m: Memory,
        stream: u64,
    )
        ensures
            #[trigger] self.after_step(
                m,
                Step::On(
                    stream,
                    Op::BeginCapture,
                ),
            ) == ({
                m
            }),
    {
        reveal(Layout::after_step);
    }

    pub broadcast proof fn lemma_end_capture(
        self,
        m: Memory,
        stream: u64,
    )
        ensures
            #[trigger] self.after_step(
                m,
                Step::On(
                    stream,
                    Op::EndCapture,
                ),
            ) == ({
                m
            }),
    {
        reveal(Layout::after_step);
    }

    pub broadcast proof fn lemma_capture_decode(
        self,
        m: Memory,
        stream: u64,
        unused0: usize,
        unused1: usize,
    )
        ensures
            #[trigger] self.after_step(
                m,
                Step::On(
                    stream,
                    Op::CaptureDecode(unused0, unused1),
                ),
            ) == ({
                m
            }),
    {
        reveal(Layout::after_step);
    }

    pub broadcast proof fn lemma_capture_prefill(
        self,
        m: Memory,
        stream: u64,
        unused0: usize,
        unused1: usize,
        unused2: usize,
    )
        ensures
            #[trigger] self.after_step(
                m,
                Step::On(
                    stream,
                    Op::CapturePrefill(unused0, unused1, unused2),
                ),
            ) == ({
                m
            }),
    {
        reveal(Layout::after_step);
    }

    pub broadcast proof fn lemma_normalize_ssm_states(
        self,
        m: Memory,
        stream: u64,
    )
        ensures
            #[trigger] self.after_step(
                m,
                Step::On(
                    stream,
                    Op::NormalizeSsmStates,
                ),
            ) == ({
                m
            }),
    {
        reveal(Layout::after_step);
    }

    pub broadcast proof fn lemma_embed(
        self,
        m: Memory,
        stream: u64,
        token: u32,
        out: DevicePtr,
    )
        ensures
            #[trigger] self.after_step(
                m,
                Step::On(
                    stream,
                    Op::Embed(token, out),
                ),
            ) == ({
                self.write(
                m,
                out,
                Content::Of(Rule::TokenRow(token), Seq::empty()),
            )
            }),
    {
        reveal(Layout::after_step);
    }

    pub broadcast proof fn lemma_batched_embed(
        self,
        m: Memory,
        stream: u64,
        kernel: KernelHandle,
        ids: DevicePtr,
        table: DevicePtr,
        out: DevicePtr,
        rows: u32,
        h: u32,
    )
        ensures
            #[trigger] self.after_step(
                m,
                Step::On(
                    stream,
                    Op::BatchedEmbed(kernel, ids, table, out, rows, h),
                ),
            ) == ({
                self.write(
                m,
                out,
                unary(Rule::TokenRows(table, rows, h), self.read(m, ids)),
            )
            }),
    {
        reveal(Layout::after_step);
    }

    pub broadcast proof fn lemma_scale_embeddings(
        self,
        m: Memory,
        stream: u64,
        p: DevicePtr,
        rows: usize,
    )
        ensures
            #[trigger] self.after_step(
                m,
                Step::On(
                    stream,
                    Op::ScaleEmbeddings(p, rows),
                ),
            ) == ({
                self.write(
                m,
                p,
                unary(Rule::ScaledRows(rows), self.read(m, p)),
            )
            }),
    {
        reveal(Layout::after_step);
    }

    pub broadcast proof fn lemma_argmax(
        self,
        m: Memory,
        stream: u64,
        kernel: KernelHandle,
        x: DevicePtr,
        out: DevicePtr,
        n: u32,
    )
        ensures
            #[trigger] self.after_step(
                m,
                Step::On(
                    stream,
                    Op::Argmax(kernel, x, out, n),
                ),
            ) == ({
                self.write(
                m,
                out,
                unary(Rule::Best(n), self.read(m, x)),
            )
            }),
    {
        reveal(Layout::after_step);
    }

    pub broadcast proof fn lemma_fill_slots(
        self,
        m: Memory,
        stream: u64,
        kernel: KernelHandle,
        slots: DevicePtr,
        table: DevicePtr,
        first: u32,
        count: u32,
        bs: u32,
    )
        ensures
            #[trigger] self.after_step(
                m,
                Step::On(
                    stream,
                    Op::FillSlots(kernel, slots, table, first, count, bs),
                ),
            ) == ({
                self.write(
                m,
                slots,
                unary(Rule::SlotsOf(first, count, bs), self.read(m, table)),
            )
            }),
    {
        reveal(Layout::after_step);
    }

    pub broadcast proof fn lemma_lm_head(
        self,
        m: Memory,
        stream: u64,
        x: DevicePtr,
    )
        ensures
            #[trigger] self.after_step(
                m,
                Step::On(
                    stream,
                    Op::LmHead(x),
                ),
            ) == ({
                self.write(m, self.logits, unary(Rule::Logits, self.read(m, x)))
            }),
    {
        reveal(Layout::after_step);
    }

    pub broadcast proof fn lemma_layer_decode(
        self,
        m: Memory,
        stream: u64,
        i: usize,
        hidden: DevicePtr,
        residual: DevicePtr,
        position: usize,
    )
        ensures
            #[trigger] self.after_step(
                m,
                Step::On(
                    stream,
                    Op::LayerDecode(i, hidden, residual, position),
                ),
            ) == ({
                let h = self.read(m, hidden);
                let r = self.read(m, residual);
                self.write(
                    self.write(m, hidden, binary(Rule::LayerHidden(i, position), h, r)),
                    residual,
                    binary(Rule::LayerResidual(i, position), h, r),
                )
            }),
    {
        reveal(Layout::after_step);
    }

    pub broadcast proof fn lemma_layer_prefill(
        self,
        m: Memory,
        stream: u64,
        i: usize,
        hidden: DevicePtr,
        residual: DevicePtr,
        rows: usize,
        start: usize,
        write: usize,
    )
        ensures
            #[trigger] self.after_step(
                m,
                Step::On(
                    stream,
                    Op::LayerPrefill(i, hidden, residual, rows, start, write),
                ),
            ) == ({
                let h = self.read(m, hidden);
                let r = self.read(m, residual);
                self.write(
                    self.write(m, hidden, binary(Rule::RowsHidden(i, rows, start, write), h, r)),
                    residual,
                    binary(Rule::RowsResidual(i, rows, start, write), h, r),
                )
            }),
    {
        reveal(Layout::after_step);
    }

    pub broadcast proof fn lemma_memset(
        self,
        m: Memory,
        stream: u64,
        p: DevicePtr,
        v: u8,
        n: usize,
    )
        ensures
            #[trigger] self.after_step(
                m,
                Step::On(
                    stream,
                    Op::Memset(p, v, n),
                ),
            ) == ({
                self.write(m, p, Content::Of(Rule::Filled(v, n), Seq::empty()))
            }),
    {
        reveal(Layout::after_step);
    }

    pub broadcast proof fn lemma_copy_d2d(
        self,
        m: Memory,
        stream: u64,
        x: DevicePtr,
        out: DevicePtr,
        n: usize,
    )
        ensures
            #[trigger] self.after_step(
                m,
                Step::On(
                    stream,
                    Op::CopyD2d(x, out, n),
                ),
            ) == ({
                self.write(
                m,
                out,
                unary(Rule::First(n), self.read(m, x)),
            )
            }),
    {
        reveal(Layout::after_step);
    }

    pub broadcast proof fn lemma_all_reduce_async(
        self,
        m: Memory,
        stream: u64,
        p: DevicePtr,
        n: usize,
    )
        ensures
            #[trigger] self.after_step(
                m,
                Step::On(
                    stream,
                    Op::AllReduceAsync(p, n),
                ),
            ) == ({
                self.write(
                m,
                p,
                unary(Rule::OverRanks(n), self.read(m, p)),
            )
            }),
    {
        reveal(Layout::after_step);
    }

    pub broadcast proof fn lemma_upload(
        self,
        m: Memory,
        stream: u64,
        first: usize,
        count: usize,
        out: DevicePtr,
    )
        ensures
            #[trigger] self.after_step(
                m,
                Step::On(
                    stream,
                    Op::Upload(first, count, out),
                ),
            ) == ({
                self.write(
                m,
                out,
                Content::Bytes(self.staging.subrange(first as int, first + count)),
            )
            }),
    {
        reveal(Layout::after_step);
    }

    pub broadcast proof fn lemma_dense_gemv(
        self,
        m: Memory,
        stream: u64,
        kernel: KernelHandle,
        x: DevicePtr,
        w: DenseWeight,
        out: DevicePtr,
        n: u32,
        k: u32,
    )
        ensures
            #[trigger] self.after_step(
                m,
                Step::On(
                    stream,
                    Op::DenseGemv(kernel, x, w, out, n, k),
                ),
            ) == ({
                self.write(
                m,
                out,
                product(self.read(m, x), Weight::Dense(w), 1, n, k),
            )
            }),
    {
        reveal(Layout::after_step);
    }

    pub broadcast proof fn lemma_dense_gemm(
        self,
        m: Memory,
        stream: u64,
        kernel: KernelHandle,
        x: DevicePtr,
        w: DenseWeight,
        out: DevicePtr,
        r: u32,
        n: u32,
        k: u32,
    )
        ensures
            #[trigger] self.after_step(
                m,
                Step::On(
                    stream,
                    Op::DenseGemm(kernel, x, w, out, r, n, k),
                ),
            ) == ({
                self.write(
                m,
                out,
                product(self.read(m, x), Weight::Dense(w), r, n, k),
            )
            }),
    {
        reveal(Layout::after_step);
    }

    pub broadcast proof fn lemma_dense_gemm_tc(
        self,
        m: Memory,
        stream: u64,
        kernel: KernelHandle,
        x: DevicePtr,
        w: DenseWeight,
        out: DevicePtr,
        r: u32,
        n: u32,
        k: u32,
    )
        ensures
            #[trigger] self.after_step(
                m,
                Step::On(
                    stream,
                    Op::DenseGemmTc(kernel, x, w, out, r, n, k),
                ),
            ) == ({
                self.write(
                m,
                out,
                product(self.read(m, x), Weight::Dense(w), r, n, k),
            )
            }),
    {
        reveal(Layout::after_step);
    }

    pub broadcast proof fn lemma_w4a16_gemv(
        self,
        m: Memory,
        stream: u64,
        kernel: KernelHandle,
        x: DevicePtr,
        w: QuantizedWeight,
        out: DevicePtr,
        n: u32,
        k: u32,
    )
        ensures
            #[trigger] self.after_step(
                m,
                Step::On(
                    stream,
                    Op::W4a16Gemv(kernel, x, w, out, n, k),
                ),
            ) == ({
                self.write(
                m,
                out,
                product(self.read(m, x), Weight::Nvfp4(w), 1, n, k),
            )
            }),
    {
        reveal(Layout::after_step);
    }

    pub broadcast proof fn lemma_w4a16_gemv_batch2(
        self,
        m: Memory,
        stream: u64,
        kernel: KernelHandle,
        x: DevicePtr,
        w: QuantizedWeight,
        out: DevicePtr,
        n: u32,
        k: u32,
    )
        ensures
            #[trigger] self.after_step(
                m,
                Step::On(
                    stream,
                    Op::W4a16GemvBatch2(kernel, x, w, out, n, k),
                ),
            ) == ({
                self.write(
                m,
                out,
                product(self.read(m, x), Weight::Nvfp4(w), 2, n, k),
            )
            }),
    {
        reveal(Layout::after_step);
    }

    pub broadcast proof fn lemma_w4a16_gemm(
        self,
        m: Memory,
        stream: u64,
        kernel: KernelHandle,
        x: DevicePtr,
        w: QuantizedWeight,
        out: DevicePtr,
        r: u32,
        n: u32,
        k: u32,
    )
        ensures
            #[trigger] self.after_step(
                m,
                Step::On(
                    stream,
                    Op::W4a16Gemm(kernel, x, w, out, r, n, k),
                ),
            ) == ({
                self.write(
                m,
                out,
                product(self.read(m, x), Weight::Nvfp4(w), r, n, k),
            )
            }),
    {
        reveal(Layout::after_step);
    }

    pub broadcast proof fn lemma_w4a16_gemm_n128(
        self,
        m: Memory,
        stream: u64,
        kernel: KernelHandle,
        x: DevicePtr,
        w: QuantizedWeight,
        out: DevicePtr,
        r: u32,
        n: u32,
        k: u32,
    )
        ensures
            #[trigger] self.after_step(
                m,
                Step::On(
                    stream,
                    Op::W4a16GemmN128(kernel, x, w, out, r, n, k),
                ),
            ) == ({
                self.write(
                m,
                out,
                product(self.read(m, x), Weight::Nvfp4T(w), r, n, k),
            )
            }),
    {
        reveal(Layout::after_step);
    }

    pub broadcast proof fn lemma_w4a16_gemm_n128_m128(
        self,
        m: Memory,
        stream: u64,
        kernel: KernelHandle,
        x: DevicePtr,
        w: QuantizedWeight,
        out: DevicePtr,
        r: u32,
        n: u32,
        k: u32,
    )
        ensures
            #[trigger] self.after_step(
                m,
                Step::On(
                    stream,
                    Op::W4a16GemmN128M128(kernel, x, w, out, r, n, k),
                ),
            ) == ({
                self.write(
                m,
                out,
                product(self.read(m, x), Weight::Nvfp4T(w), r, n, k),
            )
            }),
    {
        reveal(Layout::after_step);
    }

    pub broadcast proof fn lemma_w8a16_gemv(
        self,
        m: Memory,
        stream: u64,
        kernel: KernelHandle,
        x: DevicePtr,
        w: DevicePtr,
        scales: DevicePtr,
        out: DevicePtr,
        n: u32,
        k: u32,
    )
        ensures
            #[trigger] self.after_step(
                m,
                Step::On(
                    stream,
                    Op::W8a16Gemv(kernel, x, w, scales, out, n, k),
                ),
            ) == ({
                self.write(
                m,
                out,
                product(self.read(m, x), Weight::RowScaled(w, scales), 1, n, k),
            )
            }),
    {
        reveal(Layout::after_step);
    }

    pub broadcast proof fn lemma_w8a16_gemm(
        self,
        m: Memory,
        stream: u64,
        kernel: KernelHandle,
        x: DevicePtr,
        w: DevicePtr,
        scales: DevicePtr,
        out: DevicePtr,
        r: u32,
        n: u32,
        k: u32,
    )
        ensures
            #[trigger] self.after_step(
                m,
                Step::On(
                    stream,
                    Op::W8a16Gemm(kernel, x, w, scales, out, r, n, k),
                ),
            ) == ({
                self.write(
                m,
                out,
                product(self.read(m, x), Weight::RowScaled(w, scales), r, n, k),
            )
            }),
    {
        reveal(Layout::after_step);
    }

    pub broadcast proof fn lemma_fp8_gemm_n128(
        self,
        m: Memory,
        stream: u64,
        kernel: KernelHandle,
        x: DevicePtr,
        w: DevicePtr,
        out: DevicePtr,
        r: u32,
        n: u32,
        k: u32,
    )
        ensures
            #[trigger] self.after_step(
                m,
                Step::On(
                    stream,
                    Op::Fp8GemmN128(kernel, x, w, out, r, n, k),
                ),
            ) == ({
                self.write(
                m,
                out,
                product(self.read(m, x), Weight::Fp8(w), r, n, k),
            )
            }),
    {
        reveal(Layout::after_step);
    }

    pub broadcast proof fn lemma_fp8_gemm_n128_m128(
        self,
        m: Memory,
        stream: u64,
        kernel: KernelHandle,
        x: DevicePtr,
        w: DevicePtr,
        out: DevicePtr,
        r: u32,
        n: u32,
        k: u32,
    )
        ensures
            #[trigger] self.after_step(
                m,
                Step::On(
                    stream,
                    Op::Fp8GemmN128M128(kernel, x, w, out, r, n, k),
                ),
            ) == ({
                self.write(
                m,
                out,
                product(self.read(m, x), Weight::Fp8(w), r, n, k),
            )
            }),
    {
        reveal(Layout::after_step);
    }

    pub broadcast proof fn lemma_any_gemv(
        self,
        m: Memory,
        stream: u64,
        x: DevicePtr,
        w: AnyWeight,
        out: DevicePtr,
        n: u32,
        k: u32,
    )
        ensures
            #[trigger] self.after_step(
                m,
                Step::On(
                    stream,
                    Op::AnyGemv(x, w, out, n, k),
                ),
            ) == ({
                self.write(
                m,
                out,
                product(self.read(m, x), Weight::Any(w), 1, n, k),
            )
            }),
    {
        reveal(Layout::after_step);
    }

    pub broadcast proof fn lemma_rms_norm(
        self,
        m: Memory,
        stream: u64,
        kernel: KernelHandle,
        x: DevicePtr,
        w: DenseWeight,
        out: DevicePtr,
        rows: u32,
        dim: u32,
        eps: u32,
    )
        ensures
            #[trigger] self.after_step(
                m,
                Step::On(
                    stream,
                    Op::RmsNorm(kernel, x, w, out, rows, dim, eps),
                ),
            ) == ({
                self.write(
                m,
                out,
                unary(Rule::Norm(w, rows, dim, eps), self.read(m, x)),
            )
            }),
    {
        reveal(Layout::after_step);
    }

    pub broadcast proof fn lemma_rms_norm_residual(
        self,
        m: Memory,
        stream: u64,
        kernel: KernelHandle,
        x: DevicePtr,
        w: DenseWeight,
        out: DevicePtr,
        residual: DevicePtr,
        rows: u32,
        dim: u32,
        eps: u32,
    )
        ensures
            #[trigger] self.after_step(
                m,
                Step::On(
                    stream,
                    Op::RmsNormResidual(kernel, x, w, out, residual, rows, dim, eps),
                ),
            ) == ({
                let v = self.read(m, x);
                self.write(
                    self.write(m, residual, v),
                    out,
                    unary(Rule::Norm(w, rows, dim, eps), v),
                )
            }),
    {
        reveal(Layout::after_step);
    }

    pub broadcast proof fn lemma_residual_add(
        self,
        m: Memory,
        stream: u64,
        kernel: KernelHandle,
        x: DevicePtr,
        y: DevicePtr,
        n: u32,
    )
        ensures
            #[trigger] self.after_step(
                m,
                Step::On(
                    stream,
                    Op::ResidualAdd(kernel, x, y, n),
                ),
            ) == ({
                self.write(
                m,
                x,
                binary(Rule::Add(n), self.read(m, x), self.read(m, y)),
            )
            }),
    {
        reveal(Layout::after_step);
    }

    pub broadcast proof fn lemma_residual_add_rms_norm(
        self,
        m: Memory,
        stream: u64,
        kernel: KernelHandle,
        x: DevicePtr,
        y: DevicePtr,
        w: DenseWeight,
        out: DevicePtr,
        residual: DevicePtr,
        rows: u32,
        dim: u32,
        eps: u32,
    )
        ensures
            #[trigger] self.after_step(
                m,
                Step::On(
                    stream,
                    Op::ResidualAddRmsNorm(kernel, x, y, w, out, residual, rows, dim, eps),
                ),
            ) == ({
                let v = binary(Rule::Add((rows * dim) as u32), self.read(m, x), self.read(m, y));
                self.write(
                    self.write(self.write(m, x, v), residual, v),
                    out,
                    unary(Rule::Norm(w, rows, dim, eps), v),
                )
            }),
    {
        reveal(Layout::after_step);
    }

    pub broadcast proof fn lemma_silu_mul(
        self,
        m: Memory,
        stream: u64,
        kernel: KernelHandle,
        g: DevicePtr,
        u: DevicePtr,
        out: DevicePtr,
        n: u32,
    )
        ensures
            #[trigger] self.after_step(
                m,
                Step::On(
                    stream,
                    Op::SiluMul(kernel, g, u, out, n),
                ),
            ) == ({
                self.write(
                m,
                out,
                binary(Rule::Activate(n), self.read(m, g), self.read(m, u)),
            )
            }),
    {
        reveal(Layout::after_step);
    }

    pub broadcast proof fn lemma_moe_silu_mul(
        self,
        m: Memory,
        stream: u64,
        kernel: KernelHandle,
        g: DevicePtr,
        u: DevicePtr,
        out: DevicePtr,
        n: u32,
    )
        ensures
            #[trigger] self.after_step(
                m,
                Step::On(
                    stream,
                    Op::MoeSiluMul(kernel, g, u, out, n),
                ),
            ) == ({
                self.write(
                m,
                out,
                binary(Rule::Activate(n), self.read(m, g), self.read(m, u)),
            )
            }),
    {
        reveal(Layout::after_step);
    }

    pub broadcast proof fn lemma_clamp_bf16(
        self,
        m: Memory,
        stream: u64,
        kernel: KernelHandle,
        p: DevicePtr,
        limit: u32,
        n: u32,
    )
        ensures
            #[trigger] self.after_step(
                m,
                Step::On(
                    stream,
                    Op::ClampBf16(kernel, p, limit, n),
                ),
            ) == ({
                self.write(
                m,
                p,
                unary(Rule::Clamp(limit, n), self.read(m, p)),
            )
            }),
    {
        reveal(Layout::after_step);
    }

    pub broadcast proof fn lemma_router_input(
        self,
        m: Memory,
        stream: u64,
        x: DevicePtr,
        rows: u32,
        dim: u32,
        out: DevicePtr,
    )
        ensures
            #[trigger] self.after_step(
                m,
                Step::On(
                    stream,
                    Op::RouterInput(x, rows, dim, out),
                ),
            ) == ({
                self.write(
                m,
                out,
                unary(Rule::RouterView(rows, dim), self.read(m, x)),
            )
            }),
    {
        reveal(Layout::after_step);
    }

    pub broadcast proof fn lemma_moe_topk_softmax(
        self,
        m: Memory,
        stream: u64,
        kernel: KernelHandle,
        logits: DevicePtr,
        indices: DevicePtr,
        weights: DevicePtr,
        experts: u32,
        top_k: u32,
        normalize: bool,
    )
        ensures
            #[trigger] self.after_step(
                m,
                Step::On(
                    stream,
                    Op::MoeTopkSoftmax(
                        kernel, logits, indices, weights, experts, top_k, normalize,
                    ),
                ),
            ) == ({
                self.choose_experts(
                m,
                logits,
                indices,
                weights,
                Choice {
                    bias: None,
                    rows: 1,
                    experts,
                    top_k,
                    normalize,
                    scale: 0,
                    n_group: 0,
                    topk_group: 0,
                },
            )
            }),
    {
        reveal(Layout::after_step);
    }

    pub broadcast proof fn lemma_moe_topk_softmax_batched(
        self,
        m: Memory,
        stream: u64,
        kernel: KernelHandle,
        logits: DevicePtr,
        indices: DevicePtr,
        weights: DevicePtr,
        experts: u32,
        top_k: u32,
        normalize: bool,
        rows: u32,
    )
        ensures
            #[trigger] self.after_step(
                m,
                Step::On(
                    stream,
                    Op::MoeTopkSoftmaxBatched(
                        kernel, logits, indices, weights, experts, top_k, normalize,
                        rows,
                    ),
                ),
            ) == ({
                self.choose_experts(
                m,
                logits,
                indices,
                weights,
                Choice {
                    bias: None,
                    rows,
                    experts,
                    top_k,
                    normalize,
                    scale: 0,
                    n_group: 0,
                    topk_group: 0,
                },
            )
            }),
    {
        reveal(Layout::after_step);
    }

    pub broadcast proof fn lemma_moe_topk_sigmoid(
        self,
        m: Memory,
        stream: u64,
        kernel: KernelHandle,
        logits: DevicePtr,
        bias: DevicePtr,
        indices: DevicePtr,
        weights: DevicePtr,
        experts: u32,
        top_k: u32,
        normalize: bool,
        scale: u32,
        n_group: u32,
        topk_group: u32,
    )
        ensures
            #[trigger] self.after_step(
                m,
                Step::On(
                    stream,
                    Op::MoeTopkSigmoid(
                        kernel, logits, bias, indices, weights, experts, top_k,
                        normalize, scale, n_group, topk_group,
                    ),
                ),
            ) == ({
                self.choose_experts(
                m,
                logits,
                indices,
                weights,
                Choice {
                    bias: Some(bias),
                    rows: 1,
                    experts,
                    top_k,
                    normalize,
                    scale,
                    n_group,
                    topk_group,
                },
            )
            }),
    {
        reveal(Layout::after_step);
    }

    pub broadcast proof fn lemma_moe_topk_sigmoid_batched(
        self,
        m: Memory,
        stream: u64,
        kernel: KernelHandle,
        logits: DevicePtr,
        bias: DevicePtr,
        indices: DevicePtr,
        weights: DevicePtr,
        experts: u32,
        top_k: u32,
        normalize: bool,
        scale: u32,
        rows: u32,
        n_group: u32,
        topk_group: u32,
    )
        ensures
            #[trigger] self.after_step(
                m,
                Step::On(
                    stream,
                    Op::MoeTopkSigmoidBatched(
                        kernel, logits, bias, indices, weights, experts, top_k,
                        normalize, scale, rows, n_group, topk_group,
                    ),
                ),
            ) == ({
                self.choose_experts(
                m,
                logits,
                indices,
                weights,
                Choice {
                    bias: Some(bias),
                    rows,
                    experts,
                    top_k,
                    normalize,
                    scale,
                    n_group,
                    topk_group,
                },
            )
            }),
    {
        reveal(Layout::after_step);
    }

    pub broadcast proof fn lemma_topk_sigmoid_rows(
        self,
        m: Memory,
        stream: u64,
        kernel: KernelHandle,
        logits: DevicePtr,
        bias: DevicePtr,
        indices: DevicePtr,
        weights: DevicePtr,
        experts: u32,
        top_k: u32,
        normalize: bool,
        scale: u32,
        rows: u32,
        n_group: u32,
        topk_group: u32,
    )
        ensures
            #[trigger] self.after_step(
                m,
                Step::On(
                    stream,
                    Op::TopkSigmoidRows(
                        kernel, logits, bias, indices, weights, experts, top_k,
                        normalize, scale, rows, n_group, topk_group,
                    ),
                ),
            ) == ({
                self.choose_experts(
                m,
                logits,
                indices,
                weights,
                Choice {
                    bias: Some(bias),
                    rows,
                    experts,
                    top_k,
                    normalize,
                    scale,
                    n_group,
                    topk_group,
                },
            )
            }),
    {
        reveal(Layout::after_step);
    }

    pub broadcast proof fn lemma_moe_sort_by_expert(
        self,
        m: Memory,
        stream: u64,
        kernel: KernelHandle,
        indices: DevicePtr,
        tokens: DevicePtr,
        ids: DevicePtr,
        offsets: DevicePtr,
        positions: DevicePtr,
        rows: u32,
        experts: u32,
        top_k: u32,
    )
        ensures
            #[trigger] self.after_step(
                m,
                Step::On(
                    stream,
                    Op::MoeSortByExpert(
                        kernel, indices, tokens, ids, offsets, positions, rows,
                        experts, top_k,
                    ),
                ),
            ) == ({
                let v = self.read(m, indices);
                let m = self.write(m, tokens, unary(Rule::Sorted(0, rows, experts, top_k), v));
                let m = self.write(m, ids, unary(Rule::Sorted(1, rows, experts, top_k), v));
                let m = self.write(m, offsets, unary(Rule::Sorted(2, rows, experts, top_k), v));
                self.write(m, positions, unary(Rule::Sorted(3, rows, experts, top_k), v))
            }),
    {
        reveal(Layout::after_step);
    }

    pub broadcast proof fn lemma_moe_gate_up_shared(
        self,
        m: Memory,
        stream: u64,
        kernel: KernelHandle,
        x: DevicePtr,
        g: ExpertPtrTable,
        go: DevicePtr,
        u: ExpertPtrTable,
        uo: DevicePtr,
        i: DevicePtr,
        sg: QuantizedWeight,
        sgo: DevicePtr,
        su: QuantizedWeight,
        suo: DevicePtr,
        n: u32,
        k: u32,
        t: u32,
    )
        ensures
            #[trigger] self.after_step(
                m,
                Step::On(
                    stream,
                    Op::MoeGateUpShared(
                        kernel, x, g, go, u, uo, i, sg, sgo, su, suo, n, k, t,
                    ),
                ),
            ) == ({
                self.gate_up(
                m,
                x,
                (Weight::Experts(g), Weight::Experts(u)),
                (go, uo),
                i,
                (Weight::Nvfp4(sg), Weight::Nvfp4(su)),
                (sgo, suo),
                1,
                (n, k, t),
            )
            }),
    {
        reveal(Layout::after_step);
    }

    pub broadcast proof fn lemma_moe_gate_up_shared_t(
        self,
        m: Memory,
        stream: u64,
        kernel: KernelHandle,
        x: DevicePtr,
        g: ExpertPtrTable,
        go: DevicePtr,
        u: ExpertPtrTable,
        uo: DevicePtr,
        i: DevicePtr,
        sg: QuantizedWeight,
        sgo: DevicePtr,
        su: QuantizedWeight,
        suo: DevicePtr,
        n: u32,
        k: u32,
        t: u32,
    )
        ensures
            #[trigger] self.after_step(
                m,
                Step::On(
                    stream,
                    Op::MoeGateUpSharedT(
                        kernel, x, g, go, u, uo, i, sg, sgo, su, suo, n, k, t,
                    ),
                ),
            ) == ({
                self.gate_up(
                m,
                x,
                (Weight::ExpertsT(g), Weight::ExpertsT(u)),
                (go, uo),
                i,
                (Weight::Nvfp4T(sg), Weight::Nvfp4T(su)),
                (sgo, suo),
                1,
                (n, k, t),
            )
            }),
    {
        reveal(Layout::after_step);
    }

    pub broadcast proof fn lemma_moe_gate_up_shared_fp8(
        self,
        m: Memory,
        stream: u64,
        kernel: KernelHandle,
        x: DevicePtr,
        g: Fp8ExpertPtrTable,
        go: DevicePtr,
        u: Fp8ExpertPtrTable,
        uo: DevicePtr,
        i: DevicePtr,
        sg: Fp8Weight,
        sgo: DevicePtr,
        su: Fp8Weight,
        suo: DevicePtr,
        n: u32,
        k: u32,
        t: u32,
    )
        ensures
            #[trigger] self.after_step(
                m,
                Step::On(
                    stream,
                    Op::MoeGateUpSharedFp8(
                        kernel, x, g, go, u, uo, i, sg, sgo, su, suo, n, k, t,
                    ),
                ),
            ) == ({
                self.gate_up(
                m,
                x,
                (Weight::Fp8Experts(g), Weight::Fp8Experts(u)),
                (go, uo),
                i,
                (
                    Weight::RowScaled(sg.weight, sg.row_scale),
                    Weight::RowScaled(su.weight, su.row_scale),
                ),
                (sgo, suo),
                1,
                (n, k, t),
            )
            }),
    {
        reveal(Layout::after_step);
    }

    pub broadcast proof fn lemma_moe_gate_up_shared_batch2(
        self,
        m: Memory,
        stream: u64,
        kernel: KernelHandle,
        x: DevicePtr,
        g: ExpertPtrTable,
        go: DevicePtr,
        u: ExpertPtrTable,
        uo: DevicePtr,
        i: DevicePtr,
        sg: QuantizedWeight,
        sgo: DevicePtr,
        su: QuantizedWeight,
        suo: DevicePtr,
        n: u32,
        k: u32,
        t: u32,
        unused0: u32,
    )
        ensures
            #[trigger] self.after_step(
                m,
                Step::On(
                    stream,
                    Op::MoeGateUpSharedBatch2(
                        kernel, x, g, go, u, uo, i, sg, sgo, su, suo, n, k, t, unused0,
                    ),
                ),
            ) == ({
                self.gate_up(
                m,
                x,
                (Weight::Experts(g), Weight::Experts(u)),
                (go, uo),
                i,
                (Weight::Nvfp4(sg), Weight::Nvfp4(su)),
                (sgo, suo),
                2,
                (n, k, t),
            )
            }),
    {
        reveal(Layout::after_step);
    }

    pub broadcast proof fn lemma_moe_gate_up_shared_batch2_t(
        self,
        m: Memory,
        stream: u64,
        kernel: KernelHandle,
        x: DevicePtr,
        g: ExpertPtrTable,
        go: DevicePtr,
        u: ExpertPtrTable,
        uo: DevicePtr,
        i: DevicePtr,
        sg: QuantizedWeight,
        sgo: DevicePtr,
        su: QuantizedWeight,
        suo: DevicePtr,
        n: u32,
        k: u32,
        t: u32,
    )
        ensures
            #[trigger] self.after_step(
                m,
                Step::On(
                    stream,
                    Op::MoeGateUpSharedBatch2T(
                        kernel, x, g, go, u, uo, i, sg, sgo, su, suo, n, k, t,
                    ),
                ),
            ) == ({
                self.gate_up(
                m,
                x,
                (Weight::ExpertsT(g), Weight::ExpertsT(u)),
                (go, uo),
                i,
                (Weight::Nvfp4T(sg), Weight::Nvfp4T(su)),
                (sgo, suo),
                2,
                (n, k, t),
            )
            }),
    {
        reveal(Layout::after_step);
    }

    pub broadcast proof fn lemma_moe_gate_up_shared_fp8_batch2(
        self,
        m: Memory,
        stream: u64,
        kernel: KernelHandle,
        x: DevicePtr,
        g: Fp8ExpertPtrTable,
        go: DevicePtr,
        u: Fp8ExpertPtrTable,
        uo: DevicePtr,
        i: DevicePtr,
        sg: Fp8Weight,
        sgo: DevicePtr,
        su: Fp8Weight,
        suo: DevicePtr,
        n: u32,
        k: u32,
        t: u32,
    )
        ensures
            #[trigger] self.after_step(
                m,
                Step::On(
                    stream,
                    Op::MoeGateUpSharedFp8Batch2(
                        kernel, x, g, go, u, uo, i, sg, sgo, su, suo, n, k, t,
                    ),
                ),
            ) == ({
                self.gate_up(
                m,
                x,
                (Weight::Fp8Experts(g), Weight::Fp8Experts(u)),
                (go, uo),
                i,
                (
                    Weight::RowScaled(sg.weight, sg.row_scale),
                    Weight::RowScaled(su.weight, su.row_scale),
                ),
                (sgo, suo),
                2,
                (n, k, t),
            )
            }),
    {
        reveal(Layout::after_step);
    }

    pub broadcast proof fn lemma_moe_silu_down_shared(
        self,
        m: Memory,
        stream: u64,
        kernel: KernelHandle,
        g: DevicePtr,
        u: DevicePtr,
        d: ExpertPtrTable,
        out: DevicePtr,
        i: DevicePtr,
        sg: DevicePtr,
        su: DevicePtr,
        sd: QuantizedWeight,
        so: DevicePtr,
        n: u32,
        k: u32,
        t: u32,
    )
        ensures
            #[trigger] self.after_step(
                m,
                Step::On(
                    stream,
                    Op::MoeSiluDownShared(
                        kernel, g, u, d, out, i, sg, su, sd, so, n, k, t,
                    ),
                ),
            ) == ({
                self.silu_down(
                m,
                (g, u),
                Weight::Experts(d),
                out,
                i,
                (sg, su),
                Weight::Nvfp4(sd),
                so,
                1,
                (n, k, t),
            )
            }),
    {
        reveal(Layout::after_step);
    }

    pub broadcast proof fn lemma_moe_silu_down_shared_t(
        self,
        m: Memory,
        stream: u64,
        kernel: KernelHandle,
        g: DevicePtr,
        u: DevicePtr,
        d: ExpertPtrTable,
        out: DevicePtr,
        i: DevicePtr,
        sg: DevicePtr,
        su: DevicePtr,
        sd: QuantizedWeight,
        so: DevicePtr,
        n: u32,
        k: u32,
        t: u32,
    )
        ensures
            #[trigger] self.after_step(
                m,
                Step::On(
                    stream,
                    Op::MoeSiluDownSharedT(
                        kernel, g, u, d, out, i, sg, su, sd, so, n, k, t,
                    ),
                ),
            ) == ({
                self.silu_down(
                m,
                (g, u),
                Weight::ExpertsT(d),
                out,
                i,
                (sg, su),
                Weight::Nvfp4T(sd),
                so,
                1,
                (n, k, t),
            )
            }),
    {
        reveal(Layout::after_step);
    }

    pub broadcast proof fn lemma_moe_silu_down_shared_fp8(
        self,
        m: Memory,
        stream: u64,
        kernel: KernelHandle,
        g: DevicePtr,
        u: DevicePtr,
        d: Fp8ExpertPtrTable,
        out: DevicePtr,
        i: DevicePtr,
        sg: DevicePtr,
        su: DevicePtr,
        sd: Fp8Weight,
        so: DevicePtr,
        n: u32,
        k: u32,
        t: u32,
    )
        ensures
            #[trigger] self.after_step(
                m,
                Step::On(
                    stream,
                    Op::MoeSiluDownSharedFp8(
                        kernel, g, u, d, out, i, sg, su, sd, so, n, k, t,
                    ),
                ),
            ) == ({
                self.silu_down(
                m,
                (g, u),
                Weight::Fp8Experts(d),
                out,
                i,
                (sg, su),
                Weight::RowScaled(sd.weight, sd.row_scale),
                so,
                1,
                (n, k, t),
            )
            }),
    {
        reveal(Layout::after_step);
    }

    pub broadcast proof fn lemma_moe_silu_down_shared_batch2(
        self,
        m: Memory,
        stream: u64,
        kernel: KernelHandle,
        g: DevicePtr,
        u: DevicePtr,
        d: ExpertPtrTable,
        out: DevicePtr,
        i: DevicePtr,
        sg: DevicePtr,
        su: DevicePtr,
        sd: QuantizedWeight,
        so: DevicePtr,
        n: u32,
        k: u32,
        t: u32,
        unused0: u32,
    )
        ensures
            #[trigger] self.after_step(
                m,
                Step::On(
                    stream,
                    Op::MoeSiluDownSharedBatch2(
                        kernel, g, u, d, out, i, sg, su, sd, so, n, k, t, unused0,
                    ),
                ),
            ) == ({
                self.silu_down(
                m,
                (g, u),
                Weight::Experts(d),
                out,
                i,
                (sg, su),
                Weight::Nvfp4(sd),
                so,
                2,
                (n, k, t),
            )
            }),
    {
        reveal(Layout::after_step);
    }

    pub broadcast proof fn lemma_moe_silu_down_shared_batch2_t(
        self,
        m: Memory,
        stream: u64,
        kernel: KernelHandle,
        g: DevicePtr,
        u: DevicePtr,
        d: ExpertPtrTable,
        out: DevicePtr,
        i: DevicePtr,
        sg: DevicePtr,
        su: DevicePtr,
        sd: QuantizedWeight,
        so: DevicePtr,
        n: u32,
        k: u32,
        t: u32,
    )
        ensures
            #[trigger] self.after_step(
                m,
                Step::On(
                    stream,
                    Op::MoeSiluDownSharedBatch2T(
                        kernel, g, u, d, out, i, sg, su, sd, so, n, k, t,
                    ),
                ),
            ) == ({
                self.silu_down(
                m,
                (g, u),
                Weight::ExpertsT(d),
                out,
                i,
                (sg, su),
                Weight::Nvfp4T(sd),
                so,
                2,
                (n, k, t),
            )
            }),
    {
        reveal(Layout::after_step);
    }

    pub broadcast proof fn lemma_moe_silu_down_shared_fp8_batch2(
        self,
        m: Memory,
        stream: u64,
        kernel: KernelHandle,
        g: DevicePtr,
        u: DevicePtr,
        d: Fp8ExpertPtrTable,
        out: DevicePtr,
        i: DevicePtr,
        sg: DevicePtr,
        su: DevicePtr,
        sd: Fp8Weight,
        so: DevicePtr,
        n: u32,
        k: u32,
        t: u32,
    )
        ensures
            #[trigger] self.after_step(
                m,
                Step::On(
                    stream,
                    Op::MoeSiluDownSharedFp8Batch2(
                        kernel, g, u, d, out, i, sg, su, sd, so, n, k, t,
                    ),
                ),
            ) == ({
                self.silu_down(
                m,
                (g, u),
                Weight::Fp8Experts(d),
                out,
                i,
                (sg, su),
                Weight::RowScaled(sd.weight, sd.row_scale),
                so,
                2,
                (n, k, t),
            )
            }),
    {
        reveal(Layout::after_step);
    }

    pub broadcast proof fn lemma_moe_weighted_sum_blend(
        self,
        m: Memory,
        stream: u64,
        kernel: KernelHandle,
        out: DevicePtr,
        x: DevicePtr,
        w: DevicePtr,
        shared: DevicePtr,
        input: DevicePtr,
        g: DevicePtr,
        scale: u32,
        h: u32,
        t: u32,
        k: u32,
    )
        ensures
            #[trigger] self.after_step(
                m,
                Step::On(
                    stream,
                    Op::MoeWeightedSumBlend(
                        kernel, out, x, w, shared, input, g, scale, h, t, k,
                    ),
                ),
            ) == ({
                self.write(
                m,
                out,
                Content::Of(
                    Rule::Blend(g, scale, h, t, k),
                    seq![
                        self.read(m, x), self.read(m, w), self.read(m, shared), self.read(m, input),
                    ],
                ),
            )
            }),
    {
        reveal(Layout::after_step);
    }

    pub broadcast proof fn lemma_moe_weighted_sum_blend_batch2(
        self,
        m: Memory,
        stream: u64,
        kernel: KernelHandle,
        out: DevicePtr,
        x: DevicePtr,
        w: DevicePtr,
        shared: DevicePtr,
        input: DevicePtr,
        g: DevicePtr,
        h: u32,
        t: u32,
        k: u32,
    )
        ensures
            #[trigger] self.after_step(
                m,
                Step::On(
                    stream,
                    Op::MoeWeightedSumBlendBatch2(
                        kernel, out, x, w, shared, input, g, h, t, k,
                    ),
                ),
            ) == ({
                self.write(
                m,
                out,
                Content::Of(
                    Rule::Blend(g, 0, h, t, k),
                    seq![
                        self.read(m, x), self.read(m, w), self.read(m, shared), self.read(m, input),
                    ],
                ),
            )
            }),
    {
        reveal(Layout::after_step);
    }

    pub broadcast proof fn lemma_moe_batched_blend(
        self,
        m: Memory,
        stream: u64,
        kernel: KernelHandle,
        out: DevicePtr,
        shared: DevicePtr,
        input: DevicePtr,
        g: DevicePtr,
        h: u32,
        rows: u32,
    )
        ensures
            #[trigger] self.after_step(
                m,
                Step::On(
                    stream,
                    Op::MoeBatchedBlend(kernel, out, shared, input, g, h, rows),
                ),
            ) == ({
                self.write(
                m,
                out,
                Content::Of(
                    Rule::AddShared(g, h, rows),
                    seq![self.read(m, out), self.read(m, shared), self.read(m, input)],
                ),
            )
            }),
    {
        reveal(Layout::after_step);
    }

    pub broadcast proof fn lemma_moe_grouped_gemm(
        self,
        m: Memory,
        stream: u64,
        kernel: KernelHandle,
        x: DevicePtr,
        w: ExpertPtrTable,
        out: DevicePtr,
        offsets: DevicePtr,
        order: DevicePtr,
        e: u32,
        n: u32,
        k: u32,
        unused0: u32,
    )
        ensures
            #[trigger] self.after_step(
                m,
                Step::On(
                    stream,
                    Op::MoeGroupedGemm(
                        kernel, x, w, out, offsets, order, e, n, k, unused0,
                    ),
                ),
            ) == ({
                self.grouped(
                m, x, Weight::Experts(w), out, offsets, order, (e, n, k),
            )
            }),
    {
        reveal(Layout::after_step);
    }

    pub broadcast proof fn lemma_moe_grouped_gemm_n128(
        self,
        m: Memory,
        stream: u64,
        kernel: KernelHandle,
        x: DevicePtr,
        w: ExpertPtrTable,
        out: DevicePtr,
        offsets: DevicePtr,
        order: DevicePtr,
        e: u32,
        n: u32,
        k: u32,
        unused0: u32,
    )
        ensures
            #[trigger] self.after_step(
                m,
                Step::On(
                    stream,
                    Op::MoeGroupedGemmN128(
                        kernel, x, w, out, offsets, order, e, n, k, unused0,
                    ),
                ),
            ) == ({
                self.grouped(
                m, x, Weight::ExpertsT(w), out, offsets, order, (e, n, k),
            )
            }),
    {
        reveal(Layout::after_step);
    }

    pub broadcast proof fn lemma_moe_fp8_grouped_gemm(
        self,
        m: Memory,
        stream: u64,
        kernel: KernelHandle,
        x: DevicePtr,
        w: Fp8ExpertPtrTable,
        out: DevicePtr,
        offsets: DevicePtr,
        order: DevicePtr,
        e: u32,
        n: u32,
        k: u32,
        unused0: u32,
    )
        ensures
            #[trigger] self.after_step(
                m,
                Step::On(
                    stream,
                    Op::MoeFp8GroupedGemm(
                        kernel, x, w, out, offsets, order, e, n, k, unused0,
                    ),
                ),
            ) == ({
                self.grouped(
                m, x, Weight::Fp8Experts(w), out, offsets, order, (e, n, k),
            )
            }),
    {
        reveal(Layout::after_step);
    }

    pub broadcast proof fn lemma_moe_fused_gate_up_n128(
        self,
        m: Memory,
        stream: u64,
        kernel: KernelHandle,
        x: DevicePtr,
        g: ExpertPtrTable,
        u: ExpertPtrTable,
        go: DevicePtr,
        uo: DevicePtr,
        offsets: DevicePtr,
        order: DevicePtr,
        e: u32,
        n: u32,
        k: u32,
        unused0: u32,
    )
        ensures
            #[trigger] self.after_step(
                m,
                Step::On(
                    stream,
                    Op::MoeFusedGateUpN128(
                        kernel, x, g, u, go, uo, offsets, order, e, n, k, unused0,
                    ),
                ),
            ) == ({
                let a = self.grouped(m, x, Weight::ExpertsT(g), go, offsets, order, (e, n, k));
                let v = self.grouped(m, x, Weight::ExpertsT(u), uo, offsets, order, (e, n, k));
                self.write(a, uo, self.read(v, uo))
            }),
    {
        reveal(Layout::after_step);
    }

    pub broadcast proof fn lemma_moe_fused_gate_up_m128(
        self,
        m: Memory,
        stream: u64,
        kernel: KernelHandle,
        x: DevicePtr,
        g: ExpertPtrTable,
        u: ExpertPtrTable,
        go: DevicePtr,
        uo: DevicePtr,
        offsets: DevicePtr,
        order: DevicePtr,
        e: u32,
        n: u32,
        k: u32,
        unused0: u32,
    )
        ensures
            #[trigger] self.after_step(
                m,
                Step::On(
                    stream,
                    Op::MoeFusedGateUpM128(
                        kernel, x, g, u, go, uo, offsets, order, e, n, k, unused0,
                    ),
                ),
            ) == ({
                let a = self.grouped(m, x, Weight::ExpertsT(g), go, offsets, order, (e, n, k));
                let v = self.grouped(m, x, Weight::ExpertsT(u), uo, offsets, order, (e, n, k));
                self.write(a, uo, self.read(v, uo))
            }),
    {
        reveal(Layout::after_step);
    }

    pub broadcast proof fn lemma_moe_unpermute_reduce(
        self,
        m: Memory,
        stream: u64,
        kernel: KernelHandle,
        x: DevicePtr,
        out: DevicePtr,
        positions: DevicePtr,
        shares: DevicePtr,
        h: u32,
        rows: u32,
        t: u32,
    )
        ensures
            #[trigger] self.after_step(
                m,
                Step::On(
                    stream,
                    Op::MoeUnpermuteReduce(kernel, x, out, positions, shares, h, rows, t),
                ),
            ) == ({
                self.write(
                m,
                out,
                Content::Of(
                    Rule::Gathered(h, rows, t),
                    seq![self.read(m, x), self.read(m, positions), self.read(m, shares)],
                ),
            )
            }),
    {
        reveal(Layout::after_step);
    }

    pub broadcast proof fn lemma_moe_transpose_down(
        self,
        m: Memory,
        stream: u64,
    )
        ensures
            #[trigger] self.after_step(
                m,
                Step::On(
                    stream,
                    Op::MoeTransposeDown,
                ),
            ) == ({
                m
            }),
    {
        reveal(Layout::after_step);
    }

    pub broadcast proof fn lemma_moe_expert_gemv(
        self,
        m: Memory,
        stream: u64,
        kernel: KernelHandle,
        x: DevicePtr,
        w: ExpertPtrTable,
        out: DevicePtr,
        indices: DevicePtr,
        n: u32,
        k: u32,
        t: u32,
        stride: u32,
    )
        ensures
            #[trigger] self.after_step(
                m,
                Step::On(
                    stream,
                    Op::MoeExpertGemv(kernel, x, w, out, indices, n, k, t, stride),
                ),
            ) == ({
                self.write(
                m,
                out,
                binary(
                    Rule::ByExpertRow(Weight::Experts(w), n, k, t, stride),
                    self.read(m, x),
                    self.read(m, indices),
                ),
            )
            }),
    {
        reveal(Layout::after_step);
    }

    pub broadcast proof fn lemma_relu2_down_shared(
        self,
        m: Memory,
        stream: u64,
        kernel: KernelHandle,
        unused0: u32,
        up: DevicePtr,
        d: ExpertPtrTable,
        out: DevicePtr,
        i: DevicePtr,
        su: DevicePtr,
        sd: QuantizedWeight,
        so: DevicePtr,
        n: u32,
        k: u32,
        sk: u32,
        h: u32,
        t: u32,
    )
        ensures
            #[trigger] self.after_step(
                m,
                Step::On(
                    stream,
                    Op::Relu2DownShared(
                        kernel, unused0, up, d, out, i, su, sd, so, n, k, sk, h, t,
                    ),
                ),
            ) == ({
                let a = unary(Rule::Relu2, self.read(m, up));
                let s = unary(Rule::Relu2, self.read(m, su));
                let idx = self.read(m, i);
                let m = self.write(
                    m,
                    out,
                    binary(Rule::ByExpert(Weight::Experts(d), n, k, t), a, idx),
                );
                self.write(m, so, product(s, Weight::Nvfp4(sd), 1, h, sk))
            }),
    {
        reveal(Layout::after_step);
    }

    pub broadcast proof fn lemma_weighted_sum_scale(
        self,
        m: Memory,
        stream: u64,
        kernel: KernelHandle,
        out: DevicePtr,
        x: DevicePtr,
        w: DevicePtr,
        shared: DevicePtr,
        h: u32,
        t: u32,
        scale: u32,
    )
        ensures
            #[trigger] self.after_step(
                m,
                Step::On(
                    stream,
                    Op::WeightedSumScale(kernel, out, x, w, shared, h, t, scale),
                ),
            ) == ({
                self.write(
                m,
                out,
                Content::Of(
                    Rule::WeightedSum(h, t, scale),
                    seq![self.read(m, x), self.read(m, w), self.read(m, shared)],
                ),
            )
            }),
    {
        reveal(Layout::after_step);
    }

    pub broadcast proof fn lemma_relu2_elementwise(
        self,
        m: Memory,
        stream: u64,
        kernel: KernelHandle,
        p: DevicePtr,
        n: u32,
    )
        ensures
            #[trigger] self.after_step(
                m,
                Step::On(
                    stream,
                    Op::Relu2Elementwise(kernel, p, n),
                ),
            ) == ({
                self.write(
                m,
                p,
                unary(Rule::Relu2All(n), self.read(m, p)),
            )
            }),
    {
        reveal(Layout::after_step);
    }

    pub broadcast proof fn lemma_mla_batched_gemv(
        self,
        m: Memory,
        stream: u64,
        kernel: KernelHandle,
        x: DevicePtr,
        w: DevicePtr,
        out: DevicePtr,
        n: u32,
        k: u32,
        heads: u32,
        from: u32,
        to: u32,
    )
        ensures
            #[trigger] self.after_step(
                m,
                Step::On(
                    stream,
                    Op::MlaBatchedGemv(kernel, x, w, out, n, k, heads, from, to),
                ),
            ) == ({
                self.write(
                m,
                out,
                unary(Rule::PerHead(w, n, k, heads, from, to), self.read(m, x)),
            )
            }),
    {
        reveal(Layout::after_step);
    }

    pub broadcast proof fn lemma_mla_q_rope_scatter(
        self,
        m: Memory,
        stream: u64,
        kernel: KernelHandle,
        q: DevicePtr,
        absorbed: DevicePtr,
        part: DevicePtr,
        heads: u32,
        hd: u32,
        nope: u32,
        rope: u32,
        latent: u32,
        cd: u32,
    )
        ensures
            #[trigger] self.after_step(
                m,
                Step::On(
                    stream,
                    Op::MlaQRopeScatter(
                        kernel, q, absorbed, part, heads, hd, nope, rope, latent, cd,
                    ),
                ),
            ) == ({
                let v = unary(
                    Rule::RopePart(1, heads, hd, nope, rope, (heads * hd) as u32),
                    self.read(m, q),
                );
                let w = binary(
                    Rule::WithRope(1, heads, latent, rope, cd, (heads * cd) as u32),
                    self.read(m, absorbed),
                    v,
                );
                self.write(self.write(m, part, v), absorbed, w)
            }),
    {
        reveal(Layout::after_step);
    }

    pub broadcast proof fn lemma_mla_q_rope_writeback(
        self,
        m: Memory,
        stream: u64,
        kernel: KernelHandle,
        part: DevicePtr,
        absorbed: DevicePtr,
        heads: u32,
        rope: u32,
        latent: u32,
        cd: u32,
    )
        ensures
            #[trigger] self.after_step(
                m,
                Step::On(
                    stream,
                    Op::MlaQRopeWriteback(kernel, part, absorbed, heads, rope, latent, cd),
                ),
            ) == ({
                self.write(
                m,
                absorbed,
                binary(
                    Rule::WithRope(1, heads, latent, rope, cd, (heads * cd) as u32),
                    self.read(m, absorbed),
                    self.read(m, part),
                ),
            )
            }),
    {
        reveal(Layout::after_step);
    }

    pub broadcast proof fn lemma_mla_q_rope_extract_batched(
        self,
        m: Memory,
        stream: u64,
        kernel: KernelHandle,
        q: DevicePtr,
        part: DevicePtr,
        rows: u32,
        heads: u32,
        hd: u32,
        nope: u32,
        rope: u32,
        stride: u32,
    )
        ensures
            #[trigger] self.after_step(
                m,
                Step::On(
                    stream,
                    Op::MlaQRopeExtractBatched(
                        kernel, q, part, rows, heads, hd, nope, rope, stride,
                    ),
                ),
            ) == ({
                self.write(
                m,
                part,
                unary(Rule::RopePart(rows, heads, hd, nope, rope, stride), self.read(m, q)),
            )
            }),
    {
        reveal(Layout::after_step);
    }

    pub broadcast proof fn lemma_mla_q_rope_writeback_batched(
        self,
        m: Memory,
        stream: u64,
        kernel: KernelHandle,
        part: DevicePtr,
        q: DevicePtr,
        rows: u32,
        heads: u32,
        hd: u32,
        nope: u32,
        rope: u32,
        stride: u32,
    )
        ensures
            #[trigger] self.after_step(
                m,
                Step::On(
                    stream,
                    Op::MlaQRopeWritebackBatched(
                        kernel, part, q, rows, heads, hd, nope, rope, stride,
                    ),
                ),
            ) == ({
                self.write(
                m,
                q,
                binary(
                    Rule::WithRope(rows, heads, nope, rope, hd, stride),
                    self.read(m, q),
                    self.read(m, part),
                ),
            )
            }),
    {
        reveal(Layout::after_step);
    }

    pub broadcast proof fn lemma_rope_yarn(
        self,
        m: Memory,
        stream: u64,
        kernel: KernelHandle,
        q: DevicePtr,
        k: DevicePtr,
        positions: DevicePtr,
        rows: u32,
        qh: u32,
        kh: u32,
        hd: u32,
        rd: u32,
        freq: DevicePtr,
        theta: u32,
    )
        ensures
            #[trigger] self.after_step(
                m,
                Step::On(
                    stream,
                    Op::RopeYarn(
                        kernel, q, k, positions, rows, qh, kh, hd, rd, freq, theta,
                    ),
                ),
            ) == ({
                let p = self.read(m, positions);
                let a = binary(Rule::Rotated(rows, qh, hd, rd, freq, theta), self.read(m, q), p);
                let b = binary(Rule::Rotated(rows, kh, hd, rd, freq, theta), self.read(m, k), p);
                self.write(self.write(m, q, a), k, b)
            }),
    {
        reveal(Layout::after_step);
    }

    pub broadcast proof fn lemma_mla_cache_assemble(
        self,
        m: Memory,
        stream: u64,
        kernel: KernelHandle,
        kv: DevicePtr,
        part: DevicePtr,
        k: DevicePtr,
        v: DevicePtr,
        latent: u32,
        rope: u32,
        cd: u32,
    )
        ensures
            #[trigger] self.after_step(
                m,
                Step::On(
                    stream,
                    Op::MlaCacheAssemble(kernel, kv, part, k, v, latent, rope, cd),
                ),
            ) == ({
                let a = self.read(m, kv);
                self.write(
                    self.write(
                        m,
                        k,
                        binary(Rule::CacheKey(1, latent, rope, cd), a, self.read(m, part)),
                    ),
                    v,
                    unary(Rule::CacheValue(1, latent, rope, cd), a),
                )
            }),
    {
        reveal(Layout::after_step);
    }

    pub broadcast proof fn lemma_mla_cache_assemble_batched(
        self,
        m: Memory,
        stream: u64,
        kernel: KernelHandle,
        kv: DevicePtr,
        part: DevicePtr,
        k: DevicePtr,
        v: DevicePtr,
        rows: u32,
        latent: u32,
        rope: u32,
        cd: u32,
    )
        ensures
            #[trigger] self.after_step(
                m,
                Step::On(
                    stream,
                    Op::MlaCacheAssembleBatched(
                        kernel, kv, part, k, v, rows, latent, rope, cd,
                    ),
                ),
            ) == ({
                let a = self.read(m, kv);
                self.write(
                    self.write(
                        m,
                        k,
                        binary(Rule::CacheKey(rows, latent, rope, cd), a, self.read(m, part)),
                    ),
                    v,
                    unary(Rule::CacheValue(rows, latent, rope, cd), a),
                )
            }),
    {
        reveal(Layout::after_step);
    }

    pub broadcast proof fn lemma_mla_kv_assemble_batched(
        self,
        m: Memory,
        stream: u64,
        kernel: KernelHandle,
        kv: DevicePtr,
        part: DevicePtr,
        k: DevicePtr,
        v: DevicePtr,
        rows: u32,
        heads: u32,
        nope: u32,
        vd: u32,
        rope: u32,
        hd: u32,
        stride: u32,
    )
        ensures
            #[trigger] self.after_step(
                m,
                Step::On(
                    stream,
                    Op::MlaKvAssembleBatched(
                        kernel, kv, part, k, v, rows, heads, nope, vd, rope, hd,
                        stride,
                    ),
                ),
            ) == ({
                let a = self.read(m, kv);
                self.write(
                    self.write(
                        m,
                        k,
                        binary(
                            Rule::HeadKeys(rows, heads, nope, vd, rope, hd, stride),
                            a,
                            self.read(m, part),
                        ),
                    ),
                    v,
                    unary(Rule::HeadValues(rows, heads, nope, vd, rope, hd, stride), a),
                )
            }),
    {
        reveal(Layout::after_step);
    }

    pub broadcast proof fn lemma_write_kv_cache(
        self,
        m: Memory,
        stream: u64,
        layer: usize,
        k: DevicePtr,
        v: DevicePtr,
        slots: DevicePtr,
        rows: u32,
        heads: u32,
        dim: u32,
        bs: u32,
        ks: u32,
        vs: u32,
        unused0: bool,
    )
        ensures
            #[trigger] self.after_step(
                m,
                Step::On(
                    stream,
                    Op::WriteKvCache(
                        layer, k, v, slots, rows, heads, dim, bs, ks, vs, unused0,
                    ),
                ),
            ) == ({
                let kp = (self.key_pool)(layer);
                let vp = (self.value_pool)(layer);
                let s = self.read(m, slots);
                let a = Content::Of(
                    Rule::Stored(rows, heads, dim, bs, ks),
                    seq![self.read(m, kp), self.read(m, k), s],
                );
                let b = Content::Of(
                    Rule::Stored(rows, heads, dim, bs, vs),
                    seq![self.read(m, vp), self.read(m, v), s],
                );
                self.write(self.write(m, kp, a), vp, b)
            }),
    {
        reveal(Layout::after_step);
    }

    pub broadcast proof fn lemma_paged_decode_attn(
        self,
        m: Memory,
        stream: u64,
        kernel: KernelHandle,
        q: DevicePtr,
        k: DevicePtr,
        v: DevicePtr,
        out: DevicePtr,
        table: DevicePtr,
        lens: DevicePtr,
        blocks: u32,
        seqs: u32,
        qh: u32,
        kh: u32,
        hd: u32,
        bs: u32,
        scale: u32,
        stride: u32,
        window: u32,
    )
        ensures
            #[trigger] self.after_step(
                m,
                Step::On(
                    stream,
                    Op::PagedDecodeAttn(
                        kernel, q, k, v, out, table, lens, blocks, seqs, qh, kh, hd,
                        bs, scale, stride, window,
                    ),
                ),
            ) == ({
                self.write(
                m,
                out,
                Content::Of(
                    Rule::AttendPaged(blocks, seqs, qh, kh, hd, bs, scale, stride, window),
                    seq![
                        self.read(m, q),
                        self.read(m, k),
                        self.read(m, v),
                        self.read(m, table),
                        self.read(m, lens),
                    ],
                ),
            )
            }),
    {
        reveal(Layout::after_step);
    }

    pub broadcast proof fn lemma_ling_mla_prefill_attn(
        self,
        m: Memory,
        stream: u64,
        kernel: KernelHandle,
        q: DevicePtr,
        k: DevicePtr,
        v: DevicePtr,
        out: DevicePtr,
        rows: u32,
        qh: u32,
        kh: u32,
        hd: u32,
        vd: u32,
        scale: u32,
    )
        ensures
            #[trigger] self.after_step(
                m,
                Step::On(
                    stream,
                    Op::LingMlaPrefillAttn(
                        kernel, q, k, v, out, rows, qh, kh, hd, vd, scale,
                    ),
                ),
            ) == ({
                self.write(
                m,
                out,
                Content::Of(
                    Rule::Attend(rows, 1, qh, kh, hd, vd, scale, 0),
                    seq![self.read(m, q), self.read(m, k), self.read(m, v)],
                ),
            )
            }),
    {
        reveal(Layout::after_step);
    }

    pub broadcast proof fn lemma_prefill_attention64(
        self,
        m: Memory,
        stream: u64,
        kernel: KernelHandle,
        q: DevicePtr,
        k: DevicePtr,
        v: DevicePtr,
        out: DevicePtr,
        rows: u32,
        seqs: u32,
        qh: u32,
        kh: u32,
        hd: u32,
        scale: u32,
        causal: bool,
        window: u32,
    )
        ensures
            #[trigger] self.after_step(
                m,
                Step::On(
                    stream,
                    Op::PrefillAttention64(
                        kernel, q, k, v, out, rows, seqs, qh, kh, hd, scale, causal,
                        window,
                    ),
                ),
            ) == ({
                if causal {
                self.write(
                    m,
                    out,
                    Content::Of(
                        Rule::Attend(rows, seqs, qh, kh, hd, hd, scale, window),
                        seq![self.read(m, q), self.read(m, k), self.read(m, v)],
                    ),
                )
            } else {
                Map::empty()
            }
            }),
    {
        reveal(Layout::after_step);
    }

    pub broadcast proof fn lemma_prefill_attention(
        self,
        m: Memory,
        stream: u64,
        kernel: KernelHandle,
        q: DevicePtr,
        k: DevicePtr,
        v: DevicePtr,
        out: DevicePtr,
        rows: u32,
        seqs: u32,
        qh: u32,
        kh: u32,
        hd: u32,
        scale: u32,
        causal: bool,
        window: u32,
    )
        ensures
            #[trigger] self.after_step(
                m,
                Step::On(
                    stream,
                    Op::PrefillAttention(
                        kernel, q, k, v, out, rows, seqs, qh, kh, hd, scale, causal,
                        window,
                    ),
                ),
            ) == ({
                if causal {
                self.write(
                    m,
                    out,
                    Content::Of(
                        Rule::Attend(rows, seqs, qh, kh, hd, hd, scale, window),
                        seq![self.read(m, q), self.read(m, k), self.read(m, v)],
                    ),
                )
            } else {
                Map::empty()
            }
            }),
    {
        reveal(Layout::after_step);
    }

    pub broadcast proof fn lemma_headwise_gate(
        self,
        m: Memory,
        stream: u64,
        kernel: KernelHandle,
        x: DevicePtr,
        g: DevicePtr,
        rows: u32,
    )
        ensures
            #[trigger] self.after_step(
                m,
                Step::On(
                    stream,
                    Op::HeadwiseGate(kernel, x, g, rows),
                ),
            ) == ({
                self.write(
                m,
                x,
                binary(Rule::HeadGate(rows), self.read(m, x), self.read(m, g)),
            )
            }),
    {
        reveal(Layout::after_step);
    }

    pub broadcast proof fn lemma_deinterleave_qkvz(
        self,
        m: Memory,
        stream: u64,
        kernel: KernelHandle,
        x: DevicePtr,
        out: DevicePtr,
        rows: u32,
        nk: u32,
        kd: u32,
        vpg: u32,
        vd: u32,
    )
        ensures
            #[trigger] self.after_step(
                m,
                Step::On(
                    stream,
                    Op::DeinterleaveQkvz(kernel, x, out, rows, nk, kd, vpg, vd),
                ),
            ) == ({
                self.write(
                m,
                out,
                unary(Rule::Sequential(rows, nk, kd, vpg, vd), self.read(m, x)),
            )
            }),
    {
        reveal(Layout::after_step);
    }

    pub broadcast proof fn lemma_w4a16_gemv_qkvz(
        self,
        m: Memory,
        stream: u64,
        kernel: KernelHandle,
        x: DevicePtr,
        w: QuantizedWeight,
        out: DevicePtr,
        n: u32,
        k: u32,
        nk: u32,
        kd: u32,
        vpg: u32,
        vd: u32,
    )
        ensures
            #[trigger] self.after_step(
                m,
                Step::On(
                    stream,
                    Op::W4a16GemvQkvz(kernel, x, w, out, n, k, nk, kd, vpg, vd),
                ),
            ) == ({
                self.write(
                m,
                out,
                unary(
                    Rule::Sequential(1, nk, kd, vpg, vd),
                    product(self.read(m, x), Weight::Nvfp4(w), 1, n, k),
                ),
            )
            }),
    {
        reveal(Layout::after_step);
    }

    pub broadcast proof fn lemma_dense_gemv_ba_gates(
        self,
        m: Memory,
        stream: u64,
        kernel: KernelHandle,
        x: DevicePtr,
        w: DenseWeight,
        a: DevicePtr,
        d: DevicePtr,
        gates: DevicePtr,
        betas: DevicePtr,
        n: u32,
        k: u32,
        vpg: u32,
    )
        ensures
            #[trigger] self.after_step(
                m,
                Step::On(
                    stream,
                    Op::DenseGemvBaGates(kernel, x, w, a, d, gates, betas, n, k, vpg),
                ),
            ) == ({
                let v = self.read(m, x);
                self.write(
                    self.write(m, gates, unary(Rule::ScalarDecay(w, a, d, 1, n, k, vpg), v)),
                    betas,
                    unary(Rule::ScalarBeta(w, a, d, 1, n, k, vpg), v),
                )
            }),
    {
        reveal(Layout::after_step);
    }

    pub broadcast proof fn lemma_dense_gemm_ba_gates_prefill(
        self,
        m: Memory,
        stream: u64,
        kernel: KernelHandle,
        x: DevicePtr,
        w: DenseWeight,
        a: DevicePtr,
        d: DevicePtr,
        out: DevicePtr,
        rows: u32,
        n: u32,
        k: u32,
        xs: u32,
        os: u32,
        nv: u32,
        vpg: u32,
    )
        ensures
            #[trigger] self.after_step(
                m,
                Step::On(
                    stream,
                    Op::DenseGemmBaGatesPrefill(
                        kernel, x, w, a, d, out, rows, n, k, xs, os, nv, vpg,
                    ),
                ),
            ) == ({
                self.write(
                m,
                out,
                unary(Rule::ScalarGates(w, a, d, rows, n, k, xs, os, nv, vpg), self.read(m, x)),
            )
            }),
    {
        reveal(Layout::after_step);
    }

    pub broadcast proof fn lemma_conv1d_update_l2norm(
        self,
        m: Memory,
        stream: u64,
        kernel: KernelHandle,
        state: DevicePtr,
        x: DevicePtr,
        w: DenseWeight,
        out: DevicePtr,
        channels: u32,
        taps: u32,
        seqs: u32,
        qk: u32,
        kd: u32,
        eps: u32,
    )
        ensures
            #[trigger] self.after_step(
                m,
                Step::On(
                    stream,
                    Op::Conv1dUpdateL2norm(
                        kernel, state, x, w, out, channels, taps, seqs, qk, kd, eps,
                    ),
                ),
            ) == ({
                let v = self.read(m, x);
                let s = self.read(m, state);
                self.write(
                    self.write(
                        m,
                        out,
                        unary(
                            Rule::UnitHeads(qk, kd, eps, seqs, channels),
                            binary(Rule::Conv(w, channels, taps, seqs), v, s),
                        ),
                    ),
                    state,
                    binary(Rule::ConvState(w, channels, taps, seqs), v, s),
                )
            }),
    {
        reveal(Layout::after_step);
    }

    pub broadcast proof fn lemma_conv1d_update_prefill(
        self,
        m: Memory,
        stream: u64,
        kernel: KernelHandle,
        state: DevicePtr,
        x: DevicePtr,
        w: DenseWeight,
        bias: DevicePtr,
        out: DevicePtr,
        channels: u32,
        taps: u32,
        rows: u32,
        xs: u32,
        os: u32,
    )
        ensures
            #[trigger] self.after_step(
                m,
                Step::On(
                    stream,
                    Op::Conv1dUpdatePrefill(
                        kernel, state, x, w, bias, out, channels, taps, rows, xs, os,
                    ),
                ),
            ) == ({
                let v = self.read(m, x);
                let s = self.read(m, state);
                self.write(
                    self.write(
                        m,
                        out,
                        binary(Rule::ConvRows(w, bias, channels, taps, rows, xs, os), v, s),
                    ),
                    state,
                    binary(Rule::ConvRowsState(w, bias, channels, taps, rows, xs, os), v, s),
                )
            }),
    {
        reveal(Layout::after_step);
    }

    pub broadcast proof fn lemma_l2_norm(
        self,
        m: Memory,
        stream: u64,
        kernel: KernelHandle,
        p: DevicePtr,
        heads: u32,
        dim: u32,
        eps: u32,
        rows: u32,
        stride: u32,
    )
        ensures
            #[trigger] self.after_step(
                m,
                Step::On(
                    stream,
                    Op::L2Norm(kernel, p, heads, dim, eps, rows, stride),
                ),
            ) == ({
                self.write(
                m,
                p,
                unary(Rule::UnitHeads(heads, dim, eps, rows, stride), self.read(m, p)),
            )
            }),
    {
        reveal(Layout::after_step);
    }

    pub broadcast proof fn lemma_gdn_decode(
        self,
        m: Memory,
        stream: u64,
        kernel: KernelHandle,
        state: DevicePtr,
        q: DevicePtr,
        k: DevicePtr,
        v: DevicePtr,
        g: DevicePtr,
        b: DevicePtr,
        out: DevicePtr,
        seqs: u32,
        nk: u32,
        nv: u32,
        kd: u32,
        vd: u32,
    )
        ensures
            #[trigger] self.after_step(
                m,
                Step::On(
                    stream,
                    Op::GdnDecode(kernel, state, q, k, v, g, b, out, seqs, nk, nv, kd, vd),
                ),
            ) == ({
                self.recur(
                m, state, (q, k, v), (g, b), out, (seqs, nk, nv, kd, vd),
            )
            }),
    {
        reveal(Layout::after_step);
    }

    pub broadcast proof fn lemma_kda_decode(
        self,
        m: Memory,
        stream: u64,
        kernel: KernelHandle,
        state: DevicePtr,
        q: DevicePtr,
        k: DevicePtr,
        v: DevicePtr,
        g: DevicePtr,
        b: DevicePtr,
        out: DevicePtr,
        seqs: u32,
        nk: u32,
        nv: u32,
        kd: u32,
        vd: u32,
    )
        ensures
            #[trigger] self.after_step(
                m,
                Step::On(
                    stream,
                    Op::KdaDecode(kernel, state, q, k, v, g, b, out, seqs, nk, nv, kd, vd),
                ),
            ) == ({
                self.recur(
                m, state, (q, k, v), (g, b), out, (seqs, nk, nv, kd, vd),
            )
            }),
    {
        reveal(Layout::after_step);
    }

    pub broadcast proof fn lemma_gated_rms_norm(
        self,
        m: Memory,
        stream: u64,
        kernel: KernelHandle,
        x: DevicePtr,
        z: DevicePtr,
        w: DenseWeight,
        out: DevicePtr,
        heads: u32,
        dim: u32,
        xs: u32,
        eps: u32,
        zs: u32,
    )
        ensures
            #[trigger] self.after_step(
                m,
                Step::On(
                    stream,
                    Op::GatedRmsNorm(kernel, x, z, w, out, heads, dim, xs, eps, zs),
                ),
            ) == ({
                self.write(
                m,
                out,
                binary(
                    Rule::GatedNorm(w, 1, heads, dim, eps, xs, zs),
                    self.read(m, x),
                    self.read(m, z),
                ),
            )
            }),
    {
        reveal(Layout::after_step);
    }

    pub broadcast proof fn lemma_gated_rms_norm_prefill(
        self,
        m: Memory,
        stream: u64,
        kernel: KernelHandle,
        x: DevicePtr,
        z: DevicePtr,
        w: DenseWeight,
        out: DevicePtr,
        heads: u32,
        dim: u32,
        eps: u32,
        rows: u32,
        xs: u32,
        zs: u32,
    )
        ensures
            #[trigger] self.after_step(
                m,
                Step::On(
                    stream,
                    Op::GatedRmsNormPrefill(
                        kernel, x, z, w, out, heads, dim, eps, rows, xs, zs,
                    ),
                ),
            ) == ({
                self.write(
                m,
                out,
                binary(
                    Rule::GatedNorm(w, rows, heads, dim, eps, xs, zs),
                    self.read(m, x),
                    self.read(m, z),
                ),
            )
            }),
    {
        reveal(Layout::after_step);
    }

    pub broadcast proof fn lemma_kda_gates(
        self,
        m: Memory,
        stream: u64,
        kernel: KernelHandle,
        f: DevicePtr,
        b: DevicePtr,
        a: DevicePtr,
        d: DevicePtr,
        decay: DevicePtr,
        beta: DevicePtr,
        rows: u32,
        nk: u32,
        nv: u32,
        kd: u32,
        bound: u32,
    )
        ensures
            #[trigger] self.after_step(
                m,
                Step::On(
                    stream,
                    Op::KdaGates(kernel, f, b, a, d, decay, beta, rows, nk, nv, kd, bound),
                ),
            ) == ({
                let x = self.read(m, f);
                let y = self.read(m, b);
                self.write(
                    self.write(
                        m,
                        decay,
                        unary(Rule::ChannelDecay(a, d, rows, nk, nv, kd, bound), x),
                    ),
                    beta,
                    unary(Rule::ChannelBeta(a, d, rows, nk, nv, kd, bound), y),
                )
            }),
    {
        reveal(Layout::after_step);
    }

    pub broadcast proof fn lemma_prefill_qkvz_proj(
        self,
        m: Memory,
        stream: u64,
        x: DevicePtr,
        out: DevicePtr,
        rows: u32,
        size: usize,
        h: usize,
        nk: usize,
        kd: usize,
        vpg: usize,
        vd: usize,
    )
        ensures
            #[trigger] self.after_step(
                m,
                Step::On(
                    stream,
                    Op::PrefillQkvzProj(x, out, rows, size, h, nk, kd, vpg, vd),
                ),
            ) == ({
                self.write(
                m,
                out,
                unary(Rule::LayerProjection(rows, size, h, nk, kd, vpg, vd), self.read(m, x)),
            )
            }),
    {
        reveal(Layout::after_step);
    }

    pub broadcast proof fn lemma_prefill_out_proj(
        self,
        m: Memory,
        stream: u64,
        x: DevicePtr,
        out: DevicePtr,
        rows: u32,
        h: usize,
        dim: usize,
    )
        ensures
            #[trigger] self.after_step(
                m,
                Step::On(
                    stream,
                    Op::PrefillOutProj(x, out, rows, h, dim),
                ),
            ) == ({
                self.write(
                m,
                out,
                unary(Rule::LayerOutput(rows, h, dim), self.read(m, x)),
            )
            }),
    {
        reveal(Layout::after_step);
    }

    pub broadcast proof fn lemma_prefill_gdn_recurrence(
        self,
        m: Memory,
        stream: u64,
        state: DevicePtr,
        q: DevicePtr,
        k: DevicePtr,
        v: DevicePtr,
        gates: DevicePtr,
        out: DevicePtr,
        rows: u32,
        nk: usize,
        nv: usize,
        kd: usize,
        vd: usize,
        c: usize,
    )
        ensures
            #[trigger] self.after_step(
                m,
                Step::On(
                    stream,
                    Op::PrefillGdnRecurrence(
                        state, q, k, v, gates, out, rows, nk, nv, kd, vd, c,
                    ),
                ),
            ) == ({
                let args = seq![
                    self.read(m, state),
                    self.read(m, q),
                    self.read(m, k),
                    self.read(m, v),
                    self.read(m, gates),
                ];
                let m = self.write(
                    m,
                    out,
                    Content::Of(Rule::LayerRecur(rows, nk, nv, kd, vd, c), args),
                );
                self.write(
                    m,
                    state,
                    Content::Of(Rule::LayerRecurState(rows, nk, nv, kd, vd, c), args),
                )
            }),
    {
        reveal(Layout::after_step);
    }

    pub broadcast proof fn lemma_kda_prefill(
        self,
        m: Memory,
        stream: u64,
        kernel: KernelHandle,
        state: DevicePtr,
        q: DevicePtr,
        k: DevicePtr,
        v: DevicePtr,
        g: DevicePtr,
        b: DevicePtr,
        out: DevicePtr,
        seqs: u32,
        rows: u32,
        nk: u32,
        nv: u32,
        kd: u32,
        vd: u32,
        qs: u32,
        vs: u32,
        gs: u32,
        bs: u32,
    )
        ensures
            #[trigger] self.after_step(
                m,
                Step::On(
                    stream,
                    Op::KdaPrefill(
                        kernel, state, q, k, v, g, b, out, seqs, rows, nk, nv, kd, vd,
                        qs, vs, gs, bs,
                    ),
                ),
            ) == ({
                self.recur_rows(
                m, state, (q, k, v), (g, b), out, (seqs, rows, nk, nv, kd, vd), (qs, vs, gs, bs),
            )
            }),
    {
        reveal(Layout::after_step);
    }

    pub broadcast proof fn lemma_gdn_prefill_persistent(
        self,
        m: Memory,
        stream: u64,
        kernel: KernelHandle,
        state: DevicePtr,
        q: DevicePtr,
        k: DevicePtr,
        v: DevicePtr,
        g: DevicePtr,
        b: DevicePtr,
        out: DevicePtr,
        seqs: u32,
        rows: u32,
        nk: u32,
        nv: u32,
        kd: u32,
        vd: u32,
        qs: u32,
        vs: u32,
        gs: u32,
    )
        ensures
            #[trigger] self.after_step(
                m,
                Step::On(
                    stream,
                    Op::GdnPrefillPersistent(
                        kernel, state, q, k, v, g, b, out, seqs, rows, nk, nv, kd, vd,
                        qs, vs, gs,
                    ),
                ),
            ) == ({
                self.recur_rows(
                m, state, (q, k, v), (g, b), out, (seqs, rows, nk, nv, kd, vd), (qs, vs, gs, gs),
            )
            }),
    {
        reveal(Layout::after_step);
    }

    pub broadcast proof fn lemma_gdn_prefill_split4(
        self,
        m: Memory,
        stream: u64,
        kernel: KernelHandle,
        state: DevicePtr,
        q: DevicePtr,
        k: DevicePtr,
        v: DevicePtr,
        g: DevicePtr,
        b: DevicePtr,
        out: DevicePtr,
        seqs: u32,
        rows: u32,
        nk: u32,
        nv: u32,
        kd: u32,
        vd: u32,
        qs: u32,
        vs: u32,
        gs: u32,
    )
        ensures
            #[trigger] self.after_step(
                m,
                Step::On(
                    stream,
                    Op::GdnPrefillSplit4(
                        kernel, state, q, k, v, g, b, out, seqs, rows, nk, nv, kd, vd,
                        qs, vs, gs,
                    ),
                ),
            ) == ({
                self.recur_rows(
                m, state, (q, k, v), (g, b), out, (seqs, rows, nk, nv, kd, vd), (qs, vs, gs, gs),
            )
            }),
    {
        reveal(Layout::after_step);
    }

    pub broadcast proof fn lemma_gdn_prefill_persistent_smem(
        self,
        m: Memory,
        stream: u64,
        kernel: KernelHandle,
        state: DevicePtr,
        q: DevicePtr,
        k: DevicePtr,
        v: DevicePtr,
        g: DevicePtr,
        b: DevicePtr,
        out: DevicePtr,
        seqs: u32,
        rows: u32,
        nk: u32,
        nv: u32,
        kd: u32,
        vd: u32,
        qs: u32,
        vs: u32,
        gs: u32,
        unused0: u32,
    )
        ensures
            #[trigger] self.after_step(
                m,
                Step::On(
                    stream,
                    Op::GdnPrefillPersistentSmem(
                        kernel, state, q, k, v, g, b, out, seqs, rows, nk, nv, kd, vd,
                        qs, vs, gs, unused0,
                    ),
                ),
            ) == ({
                self.recur_rows(
                m, state, (q, k, v), (g, b), out, (seqs, rows, nk, nv, kd, vd), (qs, vs, gs, gs),
            )
            }),
    {
        reveal(Layout::after_step);
    }

    pub broadcast proof fn lemma_ffn_forward(
        self,
        m: Memory,
        stream: u64,
        x: DevicePtr,
        out: DevicePtr,
    )
        ensures
            #[trigger] self.after_step(
                m,
                Step::On(
                    stream,
                    Op::FfnForward(x, out),
                ),
            ) == ({
                self.write(
                m,
                out,
                unary(Rule::FeedForward(1), self.read(m, x)),
            )
            }),
    {
        reveal(Layout::after_step);
    }

    pub broadcast proof fn lemma_ffn_forward_prefill(
        self,
        m: Memory,
        stream: u64,
        x: DevicePtr,
        rows: usize,
    )
        ensures
            #[trigger] self.after_step(
                m,
                Step::On(
                    stream,
                    Op::FfnForwardPrefill(x, rows),
                ),
            ) == ({
                self.write(
                m,
                self.rows_out,
                unary(Rule::FeedForward(rows), self.read(m, x)),
            )
            }),
    {
        reveal(Layout::after_step);
    }

    pub broadcast proof fn lemma_all_reduce(
        self,
        m: Memory,
        p: DevicePtr,
        n: usize,
    )
        ensures
            #[trigger] self.after_step(m, Step::AllReduce(p, n)) == self.write(
                m,
                p,
                unary(Rule::OverRanks(n), self.read(m, p)),
            ),
    {
        reveal(Layout::after_step);
    }
}

pub broadcast group group_steps {
    Layout::lemma_synchronize,
    Layout::lemma_record_event,
    Layout::lemma_wait_event,
    Layout::lemma_begin_capture,
    Layout::lemma_end_capture,
    Layout::lemma_capture_decode,
    Layout::lemma_capture_prefill,
    Layout::lemma_normalize_ssm_states,
    Layout::lemma_embed,
    Layout::lemma_batched_embed,
    Layout::lemma_scale_embeddings,
    Layout::lemma_argmax,
    Layout::lemma_fill_slots,
    Layout::lemma_lm_head,
    Layout::lemma_layer_decode,
    Layout::lemma_layer_prefill,
    Layout::lemma_memset,
    Layout::lemma_copy_d2d,
    Layout::lemma_all_reduce_async,
    Layout::lemma_upload,
    Layout::lemma_dense_gemv,
    Layout::lemma_dense_gemm,
    Layout::lemma_dense_gemm_tc,
    Layout::lemma_w4a16_gemv,
    Layout::lemma_w4a16_gemv_batch2,
    Layout::lemma_w4a16_gemm,
    Layout::lemma_w4a16_gemm_n128,
    Layout::lemma_w4a16_gemm_n128_m128,
    Layout::lemma_w8a16_gemv,
    Layout::lemma_w8a16_gemm,
    Layout::lemma_fp8_gemm_n128,
    Layout::lemma_fp8_gemm_n128_m128,
    Layout::lemma_any_gemv,
    Layout::lemma_rms_norm,
    Layout::lemma_rms_norm_residual,
    Layout::lemma_residual_add,
    Layout::lemma_residual_add_rms_norm,
    Layout::lemma_silu_mul,
    Layout::lemma_moe_silu_mul,
    Layout::lemma_clamp_bf16,
    Layout::lemma_router_input,
    Layout::lemma_moe_topk_softmax,
    Layout::lemma_moe_topk_softmax_batched,
    Layout::lemma_moe_topk_sigmoid,
    Layout::lemma_moe_topk_sigmoid_batched,
    Layout::lemma_topk_sigmoid_rows,
    Layout::lemma_moe_sort_by_expert,
    Layout::lemma_moe_gate_up_shared,
    Layout::lemma_moe_gate_up_shared_t,
    Layout::lemma_moe_gate_up_shared_fp8,
    Layout::lemma_moe_gate_up_shared_batch2,
    Layout::lemma_moe_gate_up_shared_batch2_t,
    Layout::lemma_moe_gate_up_shared_fp8_batch2,
    Layout::lemma_moe_silu_down_shared,
    Layout::lemma_moe_silu_down_shared_t,
    Layout::lemma_moe_silu_down_shared_fp8,
    Layout::lemma_moe_silu_down_shared_batch2,
    Layout::lemma_moe_silu_down_shared_batch2_t,
    Layout::lemma_moe_silu_down_shared_fp8_batch2,
    Layout::lemma_moe_weighted_sum_blend,
    Layout::lemma_moe_weighted_sum_blend_batch2,
    Layout::lemma_moe_batched_blend,
    Layout::lemma_moe_grouped_gemm,
    Layout::lemma_moe_grouped_gemm_n128,
    Layout::lemma_moe_fp8_grouped_gemm,
    Layout::lemma_moe_fused_gate_up_n128,
    Layout::lemma_moe_fused_gate_up_m128,
    Layout::lemma_moe_unpermute_reduce,
    Layout::lemma_moe_transpose_down,
    Layout::lemma_moe_expert_gemv,
    Layout::lemma_relu2_down_shared,
    Layout::lemma_weighted_sum_scale,
    Layout::lemma_relu2_elementwise,
    Layout::lemma_mla_batched_gemv,
    Layout::lemma_mla_q_rope_scatter,
    Layout::lemma_mla_q_rope_writeback,
    Layout::lemma_mla_q_rope_extract_batched,
    Layout::lemma_mla_q_rope_writeback_batched,
    Layout::lemma_rope_yarn,
    Layout::lemma_mla_cache_assemble,
    Layout::lemma_mla_cache_assemble_batched,
    Layout::lemma_mla_kv_assemble_batched,
    Layout::lemma_write_kv_cache,
    Layout::lemma_paged_decode_attn,
    Layout::lemma_ling_mla_prefill_attn,
    Layout::lemma_prefill_attention64,
    Layout::lemma_prefill_attention,
    Layout::lemma_headwise_gate,
    Layout::lemma_deinterleave_qkvz,
    Layout::lemma_w4a16_gemv_qkvz,
    Layout::lemma_dense_gemv_ba_gates,
    Layout::lemma_dense_gemm_ba_gates_prefill,
    Layout::lemma_conv1d_update_l2norm,
    Layout::lemma_conv1d_update_prefill,
    Layout::lemma_l2_norm,
    Layout::lemma_gdn_decode,
    Layout::lemma_kda_decode,
    Layout::lemma_gated_rms_norm,
    Layout::lemma_gated_rms_norm_prefill,
    Layout::lemma_kda_gates,
    Layout::lemma_prefill_qkvz_proj,
    Layout::lemma_prefill_out_proj,
    Layout::lemma_prefill_gdn_recurrence,
    Layout::lemma_kda_prefill,
    Layout::lemma_gdn_prefill_persistent,
    Layout::lemma_gdn_prefill_split4,
    Layout::lemma_gdn_prefill_persistent_smem,
    Layout::lemma_ffn_forward,
    Layout::lemma_ffn_forward_prefill,
    Layout::lemma_all_reduce,
}

} // verus!
