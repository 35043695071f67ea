//! Host images of the per-expert pointer tables.

use crate::bytes::{encode_le32, encode_le64, le32_all, le64_all};
use crate::gpu::{ExpertPtrTable, ExpertWeight, Fp8ExpertWeight, Fp8Weight, QuantizedWeight};
use crate::moe::MoeLayer;
use crate::plan::{Op, Program, ProgramView};
use vstd::prelude::*;

verus! {

/// Bytes of the three tables of one 4-bit projection.
pub struct ExpertTableBytes {
    pub packed: Vec<u8>,
    pub scale: Vec<u8>,
    pub scale2: Vec<u8>,
}

/// Bytes of the two tables of one FP8 projection.
pub struct Fp8ExpertTableBytes {
    pub weight: Vec<u8>,
    pub scale: Vec<u8>,
}

/// One of an expert's projections.
#[derive(Clone, Copy, PartialEq, Eq, Structural, Debug)]
pub enum Projection {
    Gate,
    Up,
    Down,
}

impl Projection {
    pub open spec fn of(self, e: ExpertWeight) -> QuantizedWeight {
        match self {
            Projection::Gate => e.gate_proj,
            Projection::Up => e.up_proj,
            Projection::Down => e.down_proj,
        }
    }

    pub open spec fn of_fp8(self, e: Fp8ExpertWeight) -> Fp8Weight {
        match self {
            Projection::Gate => e.gate_proj,
            Projection::Up => e.up_proj,
            Projection::Down => e.down_proj,
        }
    }
}

impl ExpertTableBytes {
    /// One entry per weight, in order: the address of the packed values, the
    /// address of the block scales, and the global scale.
    pub open spec fn holds(&self, ws: Seq<QuantizedWeight>) -> bool {
        &&& self.packed@ == le64_all(ws.map_values(|w: QuantizedWeight| w.weight.0))
        &&& self.scale@ == le64_all(ws.map_values(|w: QuantizedWeight| w.weight_scale.0))
        &&& self.scale2@ == le32_all(ws.map_values(|w: QuantizedWeight| w.weight_scale_2))
    }
}

impl Fp8ExpertTableBytes {
    /// One entry per weight, in order: its address and that of its row scales.
    pub open spec fn holds(&self, ws: Seq<Fp8Weight>) -> bool {
        &&& self.weight@ == le64_all(ws.map_values(|w: Fp8Weight| w.weight.0))
        &&& self.scale@ == le64_all(ws.map_values(|w: Fp8Weight| w.row_scale.0))
    }
}

pub fn build_ptr_table_from_qw(weights: &[QuantizedWeight]) -> (r: ExpertTableBytes)
    ensures
        r.holds(weights@),
{
    let mut packed: Vec<u64> = Vec::new();
    let mut scale: Vec<u64> = Vec::new();
    let mut scale2: Vec<u32> = Vec::new();
    let mut i: usize = 0;
    while i < weights.len()
        invariant
            i <= weights@.len(),
            packed@ == weights@.take(i as int).map_values(|w: QuantizedWeight| w.weight.0),
            scale@ == weights@.take(i as int).map_values(|w: QuantizedWeight| w.weight_scale.0),
            scale2@ == weights@.take(i as int).map_values(|w: QuantizedWeight| w.weight_scale_2),
        decreases weights@.len() - i,
    {
        packed.push(weights[i].weight.0);
        scale.push(weights[i].weight_scale.0);
        scale2.push(weights[i].weight_scale_2);
        i = i + 1;
        proof {
            let t = weights@.take(i as int);
            assert(packed@ =~= t.map_values(|w: QuantizedWeight| w.weight.0));
            assert(scale@ =~= t.map_values(|w: QuantizedWeight| w.weight_scale.0));
            assert(scale2@ =~= t.map_values(|w: QuantizedWeight| w.weight_scale_2));
        }
    }
    proof {
        assert(weights@.take(i as int) =~= weights@);
    }
    ExpertTableBytes {
        packed: encode_le64(packed.as_slice()),
        scale: encode_le64(scale.as_slice()),
        scale2: encode_le32(scale2.as_slice()),
    }
}

pub fn build_ptr_table(experts: &[ExpertWeight], proj: Projection) -> (r: ExpertTableBytes)
    ensures
        r.holds(projected(experts@, proj)),
{
    let mut ws: Vec<QuantizedWeight> = Vec::new();
    let mut i: usize = 0;
    while i < experts.len()
        invariant
            i <= experts@.len(),
            ws@ == experts@.take(i as int).map_values(|e: ExpertWeight| proj.of(e)),
        decreases experts@.len() - i,
    {
        let w: QuantizedWeight = match proj {
            Projection::Gate => experts[i].gate_proj,
            Projection::Up => experts[i].up_proj,
            Projection::Down => experts[i].down_proj,
        };
        ws.push(w);
        i = i + 1;
        proof {
            assert(ws@ =~= experts@.take(i as int).map_values(|e: ExpertWeight| proj.of(e)));
        }
    }
    proof {
        assert(experts@.take(i as int) =~= experts@);
    }
    build_ptr_table_from_qw(ws.as_slice())
}

pub fn build_fp8_ptr_table(experts: &[Fp8ExpertWeight], proj: Projection) -> (r:
    Fp8ExpertTableBytes)
    ensures
        r.holds(experts@.map_values(|e: Fp8ExpertWeight| proj.of_fp8(e))),
{
    let ghost ws = experts@.map_values(|e: Fp8ExpertWeight| proj.of_fp8(e));
    let mut weight: Vec<u64> = Vec::new();
    let mut scale: Vec<u64> = Vec::new();
    let mut i: usize = 0;
    while i < experts.len()
        invariant
            i <= experts@.len(),
            ws == experts@.map_values(|e: Fp8ExpertWeight| proj.of_fp8(e)),
            weight@ == ws.take(i as int).map_values(|w: Fp8Weight| w.weight.0),
            scale@ == ws.take(i as int).map_values(|w: Fp8Weight| w.row_scale.0),
        decreases experts@.len() - i,
    {
        let w: Fp8Weight = match proj {
            Projection::Gate => experts[i].gate_proj,
            Projection::Up => experts[i].up_proj,
            Projection::Down => experts[i].down_proj,
        };
        weight.push(w.weight.0);
        scale.push(w.row_scale.0);
        i = i + 1;
        proof {
            assert(weight@ =~= ws.take(i as int).map_values(|w: Fp8Weight| w.weight.0));
            assert(scale@ =~= ws.take(i as int).map_values(|w: Fp8Weight| w.row_scale.0));
        }
    }
    proof {
        assert(ws.take(i as int) =~= ws);
    }
    Fp8ExpertTableBytes {
        weight: encode_le64(weight.as_slice()),
        scale: encode_le64(scale.as_slice()),
    }
}

/// Bytes of the tables of all three 4-bit projections.
pub struct ExpertTables {
    pub gate: ExpertTableBytes,
    pub up: ExpertTableBytes,
    pub down: ExpertTableBytes,
}

/// The weights of one projection, expert by expert.
pub open spec fn projected(experts: Seq<ExpertWeight>, proj: Projection) -> Seq<QuantizedWeight> {
    experts.map_values(|e: ExpertWeight| proj.of(e))
}

/// Builds the tables of a layer's experts.
pub fn build_expert_tables(experts: &[ExpertWeight]) -> (r: ExpertTables)
    ensures
        r.gate.holds(projected(experts@, Projection::Gate)),
        r.up.holds(projected(experts@, Projection::Up)),
        r.down.holds(projected(experts@, Projection::Down)),
{
    ExpertTables {
        gate: build_ptr_table(experts, Projection::Gate),
        up: build_ptr_table(experts, Projection::Up),
        down: build_ptr_table(experts, Projection::Down),
    }
}

/// Followed by the copies that fill a projection's device tables.
pub open spec fn filled(
    p: ProgramView,
    stream: u64,
    ws: Seq<QuantizedWeight>,
    t: ExpertPtrTable,
) -> ProgramView {
    p.upload(
        stream,
        le64_all(ws.map_values(|w: QuantizedWeight| w.weight.0)),
        t.packed_ptrs,
    ).upload(
        stream,
        le64_all(ws.map_values(|w: QuantizedWeight| w.weight_scale.0)),
        t.scale_ptrs,
    ).upload(
        stream,
        le32_all(ws.map_values(|w: QuantizedWeight| w.weight_scale_2)),
        t.scale2_vals,
    )
}

impl ExpertTableBytes {
    fn fill(&self, program: &mut Program, stream: u64, t: ExpertPtrTable)
        ensures
            forall|ws: Seq<QuantizedWeight>|
                self.holds(ws) ==> final(program)@ == #[trigger] filled(
                    old(program)@,
                    stream,
                    ws,
                    t,
                ),
    {
        program.upload(stream, self.packed.as_slice(), t.packed_ptrs);
        program.upload(stream, self.scale.as_slice(), t.scale_ptrs);
        program.upload(stream, self.scale2.as_slice(), t.scale2_vals);
    }
}

impl MoeLayer {
    /// What fills the tables of a layer: for each projection the entries of its
    /// experts' weights, and a wait.
    pub open spec fn tables_program(&self, stream: u64) -> ProgramView {
        let e = self.weights.experts@;
        let p = filled(
            ProgramView::empty(), stream, projected(e, Projection::Gate), self.gate_ptrs,
        );
        let p = filled(p, stream, projected(e, Projection::Up), self.up_ptrs);
        let p = filled(p, stream, projected(e, Projection::Down), self.down_ptrs);
        p.run(stream, Op::Synchronize)
    }

    /// Plans the filling of a layer's tables.
    pub fn fill_tables(&self, stream: u64) -> (r: Program)
        ensures
            r@ == self.tables_program(stream),
    {
        let t: ExpertTables = build_expert_tables(self.weights.experts.as_slice());
        let mut program: Program = Program::new();
        t.gate.fill(&mut program, stream, self.gate_ptrs);
        t.up.fill(&mut program, stream, self.up_ptrs);
        t.down.fill(&mut program, stream, self.down_ptrs);
        program.run(stream, Op::Synchronize);
        program
    }
}

/// The tables have 8 bytes per address and 4 per scale, and the entry of weight
/// `i` is at `8 * i` or `4 * i`.
pub proof fn lemma_ptr_table(t: ExpertTableBytes, ws: Seq<QuantizedWeight>, i: int)
    requires
        t.holds(ws),
        0 <= i < ws.len(),
    ensures
        t.packed@.len() == 8 * ws.len(),
        t.scale@.len() == 8 * ws.len(),
        t.scale2@.len() == 4 * ws.len(),
        t.packed@.subrange(8 * i, 8 * i + 8) == crate::bytes::le64(ws[i].weight.0),
        t.scale@.subrange(8 * i, 8 * i + 8) == crate::bytes::le64(ws[i].weight_scale.0),
        t.scale2@.subrange(4 * i, 4 * i + 4) == crate::bytes::le32(ws[i].weight_scale_2),
{
    crate::bytes::lemma_le64_all_entry(ws.map_values(|w: QuantizedWeight| w.weight.0), i);
    crate::bytes::lemma_le64_all_entry(ws.map_values(|w: QuantizedWeight| w.weight_scale.0), i);
    crate::bytes::lemma_le32_all_entry(ws.map_values(|w: QuantizedWeight| w.weight_scale_2), i);
}

} // verus!
