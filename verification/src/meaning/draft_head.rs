//! What the plans of the drafting head compute.

use crate::context::ForwardContext;
use crate::gpu::DevicePtr;
use crate::meaning::{
    binary, group_after, product, unary, Choice, Content, Layout, Memory, Rule, Weight,
};
use crate::mtp_head::{MtpExpert, MtpHead};
use crate::plan::{Op, Step};
use vstd::prelude::*;

verus! {

impl MtpExpert {
    /// Activation of gate and up products.
    pub open spec fn activated(self, x: Content, inter: u32, h: u32) -> Content {
        binary(
            Rule::Activate(inter),
            product(x, Weight::Any(self.gate), 1, inter, h),
            product(x, Weight::Any(self.up), 1, inter, h),
        )
    }

    /// What an expert makes of a row.
    pub open spec fn applied(self, x: Content, inter: u32, h: u32) -> Content {
        product(self.activated(x, inter, h), Weight::Any(self.down), 1, h, inter)
    }
}

impl MtpHead {
    /// A dense feed-forward part applies its own weights: gate and up, activation
    /// of both, down.
    pub proof fn lemma_dense(
        &self,
        l: Layout,
        m: Memory,
        cx: &ForwardContext,
        input: DevicePtr,
        stream: u64,
    )
        requires
            l.holds(
                seq![
                    input,
                    cx.buffers.expert_gate_out,
                    cx.buffers.expert_up_out,
                    cx.buffers.moe_output,
                ],
            ),
        ensures
            ({
                let inter = if cx.config.intermediate_size > 0 {
                    cx.config.intermediate_size as u32
                } else {
                    cx.config.moe_intermediate_size as u32
                };
                l.after(m, self.dense_plan(cx, input, stream))[cx.buffers.moe_output]
                    == (self.dense_ffn->0).applied(m[input], inter, cx.h())
            }),
    {
        broadcast use group_after;

        let ps = seq![
            input,
            cx.buffers.expert_gate_out,
            cx.buffers.expert_up_out,
            cx.buffers.moe_output,
        ];
        l.lemma_rank(ps);
        assert(ps[0] == input && ps[1] == cx.buffers.expert_gate_out);
        assert(ps[2] == cx.buffers.expert_up_out && ps[3] == cx.buffers.moe_output);
        let t = self.dense_plan(cx, input, stream);
        assert(t =~= Seq::<Step>::empty().push(t[0]).push(t[1]).push(t[2]).push(t[3]));
    }

    /// Experts are selected by the softmax of the router's product.
    pub proof fn lemma_selection(
        &self,
        l: Layout,
        m: Memory,
        cx: &ForwardContext,
        input: DevicePtr,
        stream: u64,
    )
        requires
            l.holds(
                seq![
                    input,
                    cx.buffers.gate_logits,
                    cx.buffers.scratch,
                    cx.buffers.scratch.at(cx.top_k() * 4),
                ],
            ),
        ensures
            ({
                let after = l.after(m, self.select_plan(cx, input, stream));
                let logits = product(
                    m[input],
                    Weight::Dense(self.moe_gate),
                    1,
                    cx.experts(),
                    cx.h(),
                );
                let c = Choice {
                    bias: None,
                    rows: 1,
                    experts: cx.experts(),
                    top_k: cx.top_k(),
                    normalize: cx.config.norm_topk_prob,
                    scale: 0,
                    n_group: 0,
                    topk_group: 0,
                };
                let t = self.select_plan(cx, input, stream);
                &&& after[cx.buffers.scratch] == unary(Rule::Chosen(c), logits)
                &&& after[cx.buffers.scratch.at(cx.top_k() * 4)] == unary(Rule::Shares(c), logits)
                &&& t.last() == Step::On(stream, Op::Synchronize)
            }),
    {
        broadcast use group_after;

        let ps = seq![
            input,
            cx.buffers.gate_logits,
            cx.buffers.scratch,
            cx.buffers.scratch.at(cx.top_k() * 4),
        ];
        l.lemma_rank(ps);
        assert(ps[0] == input && ps[1] == cx.buffers.gate_logits);
        assert(ps[2] == cx.buffers.scratch && ps[3] == cx.buffers.scratch.at(cx.top_k() * 4));
        let t = self.select_plan(cx, input, stream);
        assert(t =~= Seq::<Step>::empty().push(t[0]).push(t[1]).push(t[2]));
    }

    /// Where slot `i` of the selected experts keeps its gate, up and down
    /// products.
    pub open spec fn gate_slot(cx: &ForwardContext, i: int) -> DevicePtr {
        cx.buffers.expert_gate_out.at(i * cx.inter() * 2)
    }

    pub open spec fn up_slot(cx: &ForwardContext, i: int) -> DevicePtr {
        cx.buffers.expert_up_out.at(i * cx.inter() * 2)
    }

    pub open spec fn down_slot(cx: &ForwardContext, i: int) -> DevicePtr {
        cx.buffers.expert_down_out.at(i * cx.h() * 2)
    }

    /// The slots are apart from each other and from the input.
    pub open spec fn slots_apart(l: Layout, cx: &ForwardContext, input: DevicePtr) -> bool {
        let n = cx.top_k() as int;
        &&& (l.home)(input) == (input, 0int)
        &&& forall|i: int|
            #![trigger Self::gate_slot(cx, i)]
            #![trigger Self::up_slot(cx, i)]
            #![trigger Self::down_slot(cx, i)]
            0 <= i < n ==> {
                let (g, u, d) = (
                    Self::gate_slot(cx, i),
                    Self::up_slot(cx, i),
                    Self::down_slot(cx, i),
                );
                &&& (l.home)(g) == (g, 0int)
                &&& (l.home)(u) == (u, 0int)
                &&& (l.home)(d) == (d, 0int)
                &&& g != input && u != input && d != input
            }
        &&& forall|i: int, j: int|
            #![trigger Self::gate_slot(cx, i), Self::gate_slot(cx, j)]
            #![trigger Self::up_slot(cx, i), Self::up_slot(cx, j)]
            #![trigger Self::down_slot(cx, i), Self::down_slot(cx, j)]
            0 <= i < n && 0 <= j < n && i != j ==> {
                &&& Self::gate_slot(cx, i) != Self::gate_slot(cx, j)
                &&& Self::up_slot(cx, i) != Self::up_slot(cx, j)
                &&& Self::down_slot(cx, i) != Self::down_slot(cx, j)
            }
        &&& forall|i: int, j: int|
            #![trigger Self::gate_slot(cx, i), Self::up_slot(cx, j)]
            #![trigger Self::gate_slot(cx, i), Self::down_slot(cx, j)]
            #![trigger Self::down_slot(cx, i), Self::up_slot(cx, j)]
            0 <= i < n && 0 <= j < n ==> {
                &&& Self::gate_slot(cx, i) != Self::up_slot(cx, j)
                &&& Self::gate_slot(cx, i) != Self::down_slot(cx, j)
                &&& Self::down_slot(cx, i) != Self::up_slot(cx, j)
            }
    }

    proof fn lemma_gate_up(
        &self,
        l: Layout,
        m: Memory,
        cx: &ForwardContext,
        ids: Seq<u32>,
        input: DevicePtr,
        n: nat,
        stream: u64,
    )
        requires
            n <= cx.top_k(),
            Self::slots_apart(l, cx, input),
        ensures
            ({
                let after = l.after(m, self.gate_up_slots(cx, ids, input, n, stream));
                let x = m[input];
                &&& after[input] == x
                &&& forall|i: int|
                    #![trigger Self::gate_slot(cx, i)]
                    #![trigger Self::up_slot(cx, i)]
                    0 <= i < n ==> {
                        let e = self.moe_experts@[ids[i] as int];
                        &&& after[Self::gate_slot(cx, i)] == product(
                            x,
                            Weight::Any(e.gate),
                            1,
                            cx.inter(),
                            cx.h(),
                        )
                        &&& after[Self::up_slot(cx, i)] == product(
                            x,
                            Weight::Any(e.up),
                            1,
                            cx.inter(),
                            cx.h(),
                        )
                    }
            }),
        decreases n,
    {
        broadcast use group_after;

        if n > 0 {
            self.lemma_gate_up(l, m, cx, ids, input, (n - 1) as nat, stream);
            let (g, u) = (Self::gate_slot(cx, n - 1), Self::up_slot(cx, n - 1));
            let before = l.after(m, self.gate_up_slots(cx, ids, input, (n - 1) as nat, stream));
            let after = l.after(m, self.gate_up_slots(cx, ids, input, n, stream));
            let e = self.moe_experts@[ids[n - 1] as int];
            assert(after == before.insert(
                g,
                product(m[input], Weight::Any(e.gate), 1, cx.inter(), cx.h()),
            ).insert(u, product(m[input], Weight::Any(e.up), 1, cx.inter(), cx.h())));
            assert forall|i: int|
                #![trigger Self::gate_slot(cx, i)]
                #![trigger Self::up_slot(cx, i)]
                0 <= i < n - 1 implies after[Self::gate_slot(cx, i)] == before[Self::gate_slot(
                cx,
                i,
            )] && after[Self::up_slot(cx, i)] == before[Self::up_slot(cx, i)] by {
                assert(Self::gate_slot(cx, i) != g && Self::up_slot(cx, i) != u);
                assert(Self::gate_slot(cx, i) != u && Self::up_slot(cx, i) != g);
            }
        }
    }

    proof fn lemma_silu(
        &self,
        l: Layout,
        m: Memory,
        cx: &ForwardContext,
        s: Seq<Step>,
        input: DevicePtr,
        n: nat,
        stream: u64,
    )
        requires
            n <= cx.top_k(),
            Self::slots_apart(l, cx, input),
        ensures
            ({
                let base = l.after(m, s);
                let after = l.after(m, self.silu_slots(cx, s, n, stream));
                &&& after[input] == base[input]
                &&& forall|i: int|
                    #![trigger Self::gate_slot(cx, i)]
                    #![trigger Self::up_slot(cx, i)]
                    0 <= i < cx.top_k() ==> {
                        let (g, u) = (Self::gate_slot(cx, i), Self::up_slot(cx, i));
                        &&& after[u] == base[u]
                        &&& after[g] == if i < n {
                            binary(Rule::Activate(cx.inter()), base[g], base[u])
                        } else {
                            base[g]
                        }
                    }
            }),
        decreases n,
    {
        broadcast use group_after;

        if n > 0 {
            self.lemma_silu(l, m, cx, s, input, (n - 1) as nat, stream);
            let (g, u) = (Self::gate_slot(cx, n - 1), Self::up_slot(cx, n - 1));
            let before = l.after(m, self.silu_slots(cx, s, (n - 1) as nat, stream));
            let after = l.after(m, self.silu_slots(cx, s, n, stream));
            assert(after == before.insert(
                g,
                binary(Rule::Activate(cx.inter()), before[g], before[u]),
            ));
            assert forall|i: int|
                #![trigger Self::gate_slot(cx, i)]
                #![trigger Self::up_slot(cx, i)]
                0 <= i < cx.top_k() && i != n - 1 implies after[Self::gate_slot(cx, i)]
                == before[Self::gate_slot(cx, i)] && after[Self::up_slot(cx, i)]
                == before[Self::up_slot(cx, i)] by {
                assert(Self::gate_slot(cx, i) != g && g != Self::up_slot(cx, i));
            }
            assert(g != u);
        }
    }

    proof fn lemma_down(
        &self,
        l: Layout,
        m: Memory,
        cx: &ForwardContext,
        s: Seq<Step>,
        ids: Seq<u32>,
        input: DevicePtr,
        n: nat,
        stream: u64,
    )
        requires
            n <= cx.top_k(),
            Self::slots_apart(l, cx, input),
        ensures
            ({
                let base = l.after(m, s);
                let after = l.after(m, self.down_slots(cx, s, ids, n, stream));
                &&& after[input] == base[input]
                &&& forall|i: int|
                    #![trigger Self::gate_slot(cx, i)]
                    #![trigger Self::down_slot(cx, i)]
                    0 <= i < cx.top_k() ==> {
                        let (g, d) = (Self::gate_slot(cx, i), Self::down_slot(cx, i));
                        &&& after[g] == base[g]
                        &&& i < n ==> after[d] == product(
                            base[g],
                            Weight::Any(self.moe_experts@[ids[i] as int].down),
                            1,
                            cx.h(),
                            cx.inter(),
                        )
                    }
            }),
        decreases n,
    {
        broadcast use group_after;

        if n > 0 {
            self.lemma_down(l, m, cx, s, ids, input, (n - 1) as nat, stream);
            let (g, d) = (Self::gate_slot(cx, n - 1), Self::down_slot(cx, n - 1));
            let before = l.after(m, self.down_slots(cx, s, ids, (n - 1) as nat, stream));
            let after = l.after(m, self.down_slots(cx, s, ids, n, stream));
            let e = self.moe_experts@[ids[n - 1] as int];
            assert(after == before.insert(
                d,
                product(before[g], Weight::Any(e.down), 1, cx.h(), cx.inter()),
            ));
            assert forall|i: int|
                #![trigger Self::gate_slot(cx, i)]
                #![trigger Self::down_slot(cx, i)]
                0 <= i < cx.top_k() && i != n - 1 implies after[Self::down_slot(cx, i)]
                == before[Self::down_slot(cx, i)] && after[Self::gate_slot(cx, i)]
                == before[Self::gate_slot(cx, i)] by {
                assert(Self::down_slot(cx, i) != d && Self::gate_slot(cx, i) != d);
            }
            assert(g != d);
        }
    }

    /// Slot `i` of the selected experts ends up with what expert `ids[i]` makes
    /// of the input: its own gate, up and down weights, whatever the other slots
    /// hold.
    pub proof fn lemma_selected_experts(
        &self,
        l: Layout,
        m: Memory,
        cx: &ForwardContext,
        ids: Seq<u32>,
        input: DevicePtr,
        stream: u64,
    )
        requires
            Self::slots_apart(l, cx, input),
        ensures
            ({
                let n = cx.top_k() as nat;
                let s = self.gate_up_slots(cx, ids, input, n, stream);
                let s = self.silu_slots(cx, s, n, stream);
                let after = l.after(m, self.down_slots(cx, s, ids, n, stream));
                &&& after[input] == m[input]
                &&& forall|i: int|
                    #![trigger Self::down_slot(cx, i)]
                    0 <= i < n ==> after[Self::down_slot(cx, i)]
                        == self.moe_experts@[ids[i] as int].applied(
                        m[input],
                        cx.inter(),
                        cx.h(),
                    )
            }),
    {
        let n = cx.top_k() as nat;
        let s = self.gate_up_slots(cx, ids, input, n, stream);
        self.lemma_gate_up(l, m, cx, ids, input, n, stream);
        self.lemma_silu(l, m, cx, s, input, n, stream);
        let t = self.silu_slots(cx, s, n, stream);
        self.lemma_down(l, m, cx, t, ids, input, n, stream);
        let after = l.after(m, self.down_slots(cx, t, ids, n, stream));
        assert forall|i: int|
            #![trigger Self::down_slot(cx, i)]
            0 <= i < n implies after[Self::down_slot(cx, i)] == self.moe_experts@[
            ids[i] as int].applied(m[input], cx.inter(), cx.h()) by {
            let g = Self::gate_slot(cx, i);
            let u = Self::up_slot(cx, i);
            assert(l.after(m, t)[g] == binary(
                Rule::Activate(cx.inter()),
                l.after(m, s)[g],
                l.after(m, s)[u],
            ));
        }
    }

    /// The result blends the selected experts, by their shares, with the shared
    /// expert of the same input, through its gate.
    pub proof fn lemma_blend(
        &self,
        l: Layout,
        m: Memory,
        cx: &ForwardContext,
        s: Seq<Step>,
        input: DevicePtr,
        stream: u64,
    )
        requires
            l.holds(
                seq![
                    input,
                    cx.buffers.scratch.at(cx.top_k() * 4),
                    cx.buffers.expert_down_out,
                    cx.buffers.logits,
                    cx.buffers.ssm_qkvz,
                    cx.buffers.attn_output,
                    cx.buffers.moe_output,
                ],
            ),
        ensures
            ({
                let before = l.after(m, s);
                let after = l.after(m, self.mtp_finish(cx, s, input, stream));
                let x = before[input];
                let (h, k) = (cx.h(), cx.top_k());
                after[cx.buffers.moe_output] == Content::Of(
                    Rule::Blend(
                        self.shared_expert_gate.weight,
                        cx.routed_scaling_factor,
                        h,
                        k,
                        h,
                    ),
                    seq![
                        before[cx.buffers.expert_down_out],
                        before[cx.buffers.scratch.at(cx.top_k() * 4)],
                        (self.moe_shared->0).applied(x, cx.inter(), h),
                        x,
                    ],
                )
            }),
    {
        broadcast use group_after;

        let ps = seq![
            input,
            cx.buffers.scratch.at(cx.top_k() * 4),
            cx.buffers.expert_down_out,
            cx.buffers.logits,
            cx.buffers.ssm_qkvz,
            cx.buffers.attn_output,
            cx.buffers.moe_output,
        ];
        l.lemma_rank(ps);
        assert(ps[0] == input && ps[1] == cx.buffers.scratch.at(cx.top_k() * 4));
        assert(ps[2] == cx.buffers.expert_down_out && ps[3] == cx.buffers.logits);
        assert(ps[4] == cx.buffers.ssm_qkvz && ps[5] == cx.buffers.attn_output && ps[6]
            == cx.buffers.moe_output);
    }

    /// The plan from the selection on is the selected experts and then the blend.
    pub proof fn lemma_experts_then_blend(
        &self,
        cx: &ForwardContext,
        ids: Seq<u32>,
        input: DevicePtr,
        stream: u64,
    )
        ensures
            ({
                let n = cx.top_k() as nat;
                let s = self.gate_up_slots(cx, ids, input, n, stream);
                let s = self.down_slots(cx, self.silu_slots(cx, s, n, stream), ids, n, stream);
                self.experts_plan(cx, ids, input, stream) == self.mtp_finish(cx, s, input, stream)
            }),
    {
    }
}

} // verus!
