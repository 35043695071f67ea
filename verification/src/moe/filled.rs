//! What the expert tables of a layer hold, and whose weights they are.

use crate::bytes::{
    le32, le32_all, le64, le64_all, lemma_le32_all_entry, lemma_le32_all_len, lemma_le64_all_entry,
    lemma_le64_all_len,
};
use crate::gpu::{DevicePtr, ExpertPtrTable, QuantizedWeight};
use crate::meaning::{group_after, Content, Layout, Memory, Weight};
use crate::moe::init::{MoeFlags, MoeResources};
use crate::moe::tables::{filled, projected, Projection};
use crate::moe::{MoeLayer, MoeWeights};
use crate::plan::ProgramView;
use vstd::prelude::*;

verus! {

/// Whether the three lists of a table hold, at the place of expert `i`, the
/// address of the values of `w`, the address of its block scales and its global
/// scale.
pub open spec fn lists(
    m: Memory,
    t: ExpertPtrTable,
    i: int,
    w: QuantizedWeight,
) -> bool {
    &&& m[t.packed_ptrs] matches Content::Bytes(b) && b.subrange(8 * i, 8 * i + 8) == le64(
        w.weight.0,
    )
    &&& m[t.scale_ptrs] matches Content::Bytes(b) && b.subrange(8 * i, 8 * i + 8) == le64(
        w.weight_scale.0,
    )
    &&& m[t.scale2_vals] matches Content::Bytes(b) && b.subrange(4 * i, 4 * i + 4) == le32(
        w.weight_scale_2,
    )
}

/// The three lists of a table.
pub open spec fn lists_of(t: ExpertPtrTable) -> Seq<DevicePtr> {
    seq![t.packed_ptrs, t.scale_ptrs, t.scale2_vals]
}

proof fn lemma_filled(
    l: Layout,
    m: Memory,
    p: ProgramView,
    stream: u64,
    ws: Seq<QuantizedWeight>,
    t: ExpertPtrTable,
)
    requires
        l.holds(lists_of(t)),
        p.staging.len() + 20 * ws.len() <= usize::MAX,
        filled(p, stream, ws, t).staging.is_prefix_of(l.staging),
    ensures
        ({
            let before = l.after(m, p.steps);
            let after = l.after(m, filled(p, stream, ws, t).steps);
            &&& forall|i: int| 0 <= i < ws.len() ==> lists(after, t, i, #[trigger] ws[i])
            &&& forall|q: DevicePtr|
                q != t.packed_ptrs && q != t.scale_ptrs && q != t.scale2_vals
                    ==> #[trigger] after[q] == before[q]
            &&& p.staging.is_prefix_of(l.staging)
            &&& filled(p, stream, ws, t).staging.len() == p.staging.len() + 20 * ws.len()
        }),
{
    let ps = lists_of(t);
    l.lemma_rank(ps);
    assert(ps[0] == t.packed_ptrs && ps[1] == t.scale_ptrs && ps[2] == t.scale2_vals);
    let a = ws.map_values(|w: QuantizedWeight| w.weight.0);
    let b = ws.map_values(|w: QuantizedWeight| w.weight_scale.0);
    let c = ws.map_values(|w: QuantizedWeight| w.weight_scale_2);
    lemma_le64_all_len(a);
    lemma_le64_all_len(b);
    lemma_le32_all_len(c);
    let p1 = p.upload(stream, le64_all(a), t.packed_ptrs);
    let p2 = p1.upload(stream, le64_all(b), t.scale_ptrs);
    l.lemma_after_upload(m, p2, stream, le32_all(c), t.scale2_vals);
    l.lemma_after_upload(m, p1, stream, le64_all(b), t.scale_ptrs);
    l.lemma_after_upload(m, p, stream, le64_all(a), t.packed_ptrs);
    let after = l.after(m, filled(p, stream, ws, t).steps);
    assert forall|i: int| 0 <= i < ws.len() implies lists(after, t, i, #[trigger] ws[i]) by {
        lemma_le64_all_entry(a, i);
        lemma_le64_all_entry(b, i);
        lemma_le32_all_entry(c, i);
    }
}

impl MoeLayer {
    /// Once filled, the tables for gate, up and down projections list, expert by
    /// expert, the weights of that projection of that expert.
    pub proof fn lemma_tables_list_experts(
        &self,
        l: Layout,
        m: Memory,
        stream: u64,
        i: int,
    )
        requires
            0 <= i < self.weights.experts@.len(),
            60 * self.weights.experts@.len() <= usize::MAX,
            l.holds(
                lists_of(self.gate_ptrs) + lists_of(self.up_ptrs) + lists_of(self.down_ptrs),
            ),
            l.staging == self.tables_program(stream).staging,
        ensures
            ({
                let after = l.after(m, self.tables_program(stream).steps);
                let e = self.weights.experts@[i];
                &&& lists(after, self.gate_ptrs, i, e.gate_proj)
                &&& lists(after, self.up_ptrs, i, e.up_proj)
                &&& lists(after, self.down_ptrs, i, e.down_proj)
            }),
    {
        broadcast use group_after;

        let (g, u, d) = (self.gate_ptrs, self.up_ptrs, self.down_ptrs);
        let ps = lists_of(g) + lists_of(u) + lists_of(d);
        l.lemma_rank(ps);
        assert(ps[0] == g.packed_ptrs && ps[1] == g.scale_ptrs && ps[2] == g.scale2_vals);
        assert(ps[3] == u.packed_ptrs && ps[4] == u.scale_ptrs && ps[5] == u.scale2_vals);
        assert(ps[6] == d.packed_ptrs && ps[7] == d.scale_ptrs && ps[8] == d.scale2_vals);
        assert(lists_of(g)[0] == ps[0] && lists_of(g)[1] == ps[1] && lists_of(g)[2] == ps[2]);
        assert(lists_of(u)[0] == ps[3] && lists_of(u)[1] == ps[4] && lists_of(u)[2] == ps[5]);
        assert(lists_of(d)[0] == ps[6] && lists_of(d)[1] == ps[7] && lists_of(d)[2] == ps[8]);
        let e = self.weights.experts@;
        let (wg, wu, wd) = (
            projected(e, Projection::Gate),
            projected(e, Projection::Up),
            projected(e, Projection::Down),
        );
        let p0 = ProgramView::empty();
        let p1 = filled(p0, stream, wg, g);
        let p2 = filled(p1, stream, wu, u);
        let p3 = filled(p2, stream, wd, d);
        lemma_staged_len(p0, stream, wg, g);
        lemma_staged_len(p1, stream, wu, u);
        lemma_staged_len(p2, stream, wd, d);
        assert(l.staging =~= l.staging.subrange(0, l.staging.len() as int));
        lemma_filled(l, m, p2, stream, wd, d);
        lemma_filled(l, m, p1, stream, wu, u);
        lemma_filled(l, m, p0, stream, wg, g);
        assert(wg[i] == e[i].gate_proj && wu[i] == e[i].up_proj && wd[i] == e[i].down_proj);
        assert(lists(l.after(m, p1.steps), g, i, wg[i]));
        assert(lists(l.after(m, p2.steps), u, i, wu[i]));
        assert(lists(l.after(m, p3.steps), d, i, wd[i]));
    }

    /// A new layer computes with the tables that it was given, each for its own
    /// projection, and with the shared expert of its weights: the dense one where
    /// there is one, the 4-bit one otherwise.
    pub proof fn lemma_fresh_weights(
        &self,
        weights: MoeWeights,
        gate_nvfp4: Option<QuantizedWeight>,
        res: MoeResources,
        flags: MoeFlags,
        swiglu_clamp: u32,
    )
        requires
            self.fresh(weights, gate_nvfp4, res, flags, swiglu_clamp),
        ensures
            self.gate_experts() == Weight::Experts(res.gate_ptrs),
            self.up_experts() == Weight::Experts(res.up_ptrs),
            self.down_experts() == Weight::Experts(res.down_ptrs),
            self.shared_weights() == match weights.shared_expert_dense {
                Some(d) => (
                    Weight::Dense(d.gate_proj),
                    Weight::Dense(d.up_proj),
                    Weight::Dense(d.down_proj),
                ),
                None => (
                    Weight::Nvfp4(weights.shared_expert.gate_proj),
                    Weight::Nvfp4(weights.shared_expert.up_proj),
                    Weight::Nvfp4(weights.shared_expert.down_proj),
                ),
            },
            self.router_weight(true) == match gate_nvfp4 {
                Some(w) => Weight::Nvfp4(w),
                None => Weight::Dense(weights.gate),
            },
            self.correction_bias_dev is Some <==> weights.correction_bias is Some,
            self.correction_bias_dev is Some ==> self.correction_bias_dev->0
                == weights.correction_bias->0.weight,
            self.weights.shared_expert_gate == weights.shared_expert_gate,
            self.swiglu_clamp == swiglu_clamp,
            self.pre_expert_norm is None,
            !self.spec_fp8_ready() && !self.t_layout_prefill && !self.t_layout_decode,
    {
    }
}

proof fn lemma_staged_len(
    p: ProgramView,
    stream: u64,
    ws: Seq<QuantizedWeight>,
    t: ExpertPtrTable,
)
    ensures
        filled(p, stream, ws, t).staging.len() == p.staging.len() + 20 * ws.len(),
{
    lemma_le64_all_len(ws.map_values(|w: QuantizedWeight| w.weight.0));
    lemma_le64_all_len(ws.map_values(|w: QuantizedWeight| w.weight_scale.0));
    lemma_le32_all_len(ws.map_values(|w: QuantizedWeight| w.weight_scale_2));
}

} // verus!
