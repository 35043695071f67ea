//! Every program brings the bytes that it uploads.

use crate::gpu::DevicePtr;
use crate::model::prefill::{ProcRange, Reuse};
use crate::model::sequence::SequenceState;
use crate::model::TransformerModel;
use crate::plan::{Op, ProgramView, Step};
use crate::ssm::prefill_gdn::pieces;
use vstd::prelude::*;

verus! {

impl ProgramView {
    /// Whether every upload reads bytes that are staged. Programs whose bytes
    /// cannot be counted do not exist.
    pub open spec fn staged(self) -> bool {
        self.staging.len() <= usize::MAX ==> forall|i: int|
            0 <= i < self.steps.len() ==> ((#[trigger] self.steps[i]) matches Step::On(
                _,
                Op::Upload(first, count, _),
            ) ==> first + count <= self.staging.len())
    }

    /// A new program uploads nothing.
    pub proof fn lemma_empty_staged()
        ensures
            ProgramView::empty().staged(),
    {
    }

    /// Running anything but an upload keeps this.
    pub broadcast proof fn lemma_run_staged(self, stream: u64, op: Op)
        requires
            self.staged(),
            !(op is Upload),
        ensures
            #[trigger] self.run(stream, op).staged(),
    {
        let r = self.run(stream, op);
        assert forall|i: int| 0 <= i < r.steps.len() && r.staging.len() <= usize::MAX implies ((
        #[trigger] r.steps[i]) matches Step::On(_, Op::Upload(first, count, _)) ==> first + count
            <= r.staging.len()) by {
            if i < self.steps.len() {
                assert(r.steps[i] == self.steps[i]);
            }
        }
    }

    pub broadcast proof fn lemma_timed_staged(self, profile: bool, stream: u64)
        requires
            self.staged(),
        ensures
            #[trigger] self.timed(profile, stream).staged(),
    {
        if profile {
            self.lemma_run_staged(stream, Op::Synchronize);
        }
    }

    /// An upload brings its own bytes: they are what its step reads.
    pub broadcast proof fn lemma_upload_staged(self, stream: u64, bytes: Seq<u8>, dst: DevicePtr)
        requires
            self.staged(),
        ensures
            #[trigger] self.upload(stream, bytes, dst).staged(),
            ({
                let r = self.upload(stream, bytes, dst);
                r.staging.len() <= usize::MAX ==> {
                    &&& r.steps.last() == Step::On(
                        stream,
                        Op::Upload(self.staging.len() as usize, bytes.len() as usize, dst),
                    )
                    &&& r.staging.subrange(
                        self.staging.len() as int,
                        (self.staging.len() + bytes.len()) as int,
                    ) == bytes
                }
            }),
    {
        let r = self.upload(stream, bytes, dst);
        assert forall|i: int| 0 <= i < r.steps.len() && r.staging.len() <= usize::MAX implies ((
        #[trigger] r.steps[i]) matches Step::On(_, Op::Upload(first, count, _)) ==> first + count
            <= r.staging.len()) by {
            if i < self.steps.len() {
                assert(r.steps[i] == self.steps[i]);
            }
        }
        let end = (self.staging.len() + bytes.len()) as int;
        assert(r.staging.subrange(self.staging.len() as int, end) =~= bytes);
    }
}

impl TransformerModel {
    proof fn lemma_layers_staged(&self, p: ProgramView, seq: &SequenceState, n: nat)
        requires
            p.staged(),
        ensures
            self.decode_layers(p, seq, n).staged(),
            self.profiled_layers(p, seq, n).staged(),
            self.draft_layers(p, seq, n).staged(),
        decreases n,
    {
        broadcast use ProgramView::lemma_run_staged;

        if n > 0 {
            self.lemma_layers_staged(p, seq, (n - 1) as nat);
        }
    }

    /// A decode step and a drafting step upload only what they staged.
    pub proof fn lemma_decode_staged(&self, seq: &SequenceState, no_graphs: bool)
        ensures
            self.decode_program(seq, no_graphs).staged(),
            self.draft_program(seq).staged(),
    {
        broadcast use {
            ProgramView::lemma_run_staged,
            ProgramView::lemma_timed_staged,
            ProgramView::lemma_upload_staged,
        };

        ProgramView::lemma_empty_staged();
        let st = self.default_stream;
        let p = self.decode_meta_program(ProgramView::empty(), seq, st);
        let n = self.layers@.len();
        self.lemma_layers_staged(p, seq, n);
        self.lemma_layers_staged(p.run(st, Op::BeginCapture), seq, n);
        self.lemma_layers_staged(p.run(st, Op::Synchronize), seq, n);
    }

    /// So does the metadata of a batch.
    pub proof fn lemma_batch_staged(
        &self,
        seqs: Seq<&SequenceState>,
        rows: nat,
        base: DevicePtr,
        stream: u64,
    )
        ensures
            self.batch_meta_program(seqs, rows, base, stream).staged(),
    {
        broadcast use ProgramView::lemma_upload_staged;

        ProgramView::lemma_empty_staged();
    }

    proof fn lemma_prefill_layers_staged(
        &self,
        p: ProgramView,
        r: ProcRange,
        u: Reuse,
        n: nat,
        stream: u64,
    )
        requires
            p.staged(),
        ensures
            self.prefill_layers(p, r, u, n, stream).staged(),
        decreases n,
    {
        broadcast use {ProgramView::lemma_run_staged, ProgramView::lemma_timed_staged};

        if n > 0 {
            self.lemma_prefill_layers_staged(p, r, u, (n - 1) as nat, stream);
        }
    }

    /// A prompt in one pass uploads only what it staged.
    pub proof fn lemma_prefill_staged(&self, tokens: Seq<u32>, seq: &SequenceState, u: Reuse)
        ensures
            self.prefill_program(tokens, seq, u).staged(),
    {
        broadcast use {
            ProgramView::lemma_run_staged,
            ProgramView::lemma_timed_staged,
            ProgramView::lemma_upload_staged,
        };

        ProgramView::lemma_empty_staged();
        let st = self.default_stream;
        let n = tokens.len() as int;
        let r = Self::prefill_range_of(n, u);
        let p = self.embed_program(
            ProgramView::empty(),
            tokens.subrange(r.start as int, r.start + r.count),
            st,
        );
        let p = self.prefill_meta_program(p, seq, n, u, st);
        self.lemma_prefill_layers_staged(p, r, u, self.layers@.len(), st);
    }

    proof fn lemma_chunks_staged(
        &self,
        p: ProgramView,
        i: usize,
        r: ProcRange,
        write_start: usize,
        size: usize,
        j: nat,
        stream: u64,
    )
        requires
            p.staged(),
        ensures
            self.phase1_chunks(p, i, r, write_start, size, j, stream).staged(),
            self.phase3_chunks(p, i, r, size, j, stream).staged(),
        decreases j,
    {
        broadcast use ProgramView::lemma_run_staged;

        if j > 0 {
            self.lemma_chunks_staged(p, i, r, write_start, size, (j - 1) as nat, stream);
        }
    }

    proof fn lemma_twophase_layers_staged(
        &self,
        p: ProgramView,
        r: ProcRange,
        write_start: usize,
        size: usize,
        k: nat,
        stream: u64,
    )
        requires
            p.staged(),
        ensures
            self.twophase_layers(p, r, write_start, size, k, stream).staged(),
        decreases k,
    {
        broadcast use ProgramView::lemma_run_staged;

        if k > 0 {
            let i = (k - 1) as usize;
            self.lemma_twophase_layers_staged(p, r, write_start, size, (k - 1) as nat, stream);
            let q = self.twophase_layers(p, r, write_start, size, (k - 1) as nat, stream);
            let n = pieces(r.count as int, size as int);
            self.lemma_chunks_staged(q, i, r, write_start, size, n, stream);
            let mid = self.phase1_chunks(q, i, r, write_start, size, n, stream).run(
                stream,
                Op::LayerRecurrence(i),
            );
            self.lemma_chunks_staged(mid, i, r, write_start, size, n, stream);
        }
    }

    /// A prompt in two phases uploads only what it staged.
    pub proof fn lemma_twophase_staged(
        &self,
        tokens: Seq<u32>,
        seq: &SequenceState,
        u: Reuse,
        size: usize,
        stream: u64,
    )
        ensures
            self.twophase_program(tokens, seq, u, size, stream).staged(),
    {
        broadcast use {ProgramView::lemma_run_staged, ProgramView::lemma_upload_staged};

        ProgramView::lemma_empty_staged();
        let r = Self::twophase_range_of(tokens.len() as int, u);
        let p = if r.start > 0 {
            self.embed_program(ProgramView::empty(), tokens.skip(r.start as int), stream)
        } else {
            ProgramView::empty()
        };
        let p = self.twophase_meta_program(p, seq, r, stream).run(stream, Op::Synchronize);
        self.lemma_twophase_layers_staged(
            p,
            r,
            Self::layer_write_start(u),
            size,
            self.layers@.len(),
            stream,
        );
    }
}

} // verus!
