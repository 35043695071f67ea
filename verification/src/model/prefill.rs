//! A whole prompt in one pass.

use crate::bytes::{encode_le32, le32_all};
use crate::gpu::{AttnMetadataDev, DevicePtr};
use crate::model::metadata::{
    len_at, pack_meta, pack_meta_table, packed_meta, position_list, positions, slots_at, table_at,
};
use crate::model::sequence::SequenceState;
use crate::model::TransformerModel;
use crate::num::{lemma_span_mono, span};
use crate::plan::{Op, Program, ProgramView};
use vstd::prelude::*;

verus! {

/// Why a prompt is refused.
#[derive(Clone, Copy, PartialEq, Eq, Structural, Debug)]
pub enum PrefillError {
    /// More rows than the buffers hold; (rows, capacity).
    ExceedsArena(usize, usize),
    /// More blocks than may stay on the device; (blocks, limit).
    ExceedsSwapWindow(usize, u32),
}

/// How a prompt is processed.
#[derive(Clone, Copy, PartialEq, Eq, Structural, Debug)]
pub enum PrefillRoute {
    /// Token by token, as in decoding.
    Decode,
    /// In two phases, with chunks of so many rows.
    TwoPhase(usize),
    /// In one pass.
    SinglePass,
}

/// What the prefix cache knows of a prompt.
pub struct PrefixMatch {
    /// Positions at the start of the prompt whose cache entries exist.
    pub matched_tokens: usize,
    pub matched_blocks: Vec<u32>,
    /// Where those blocks are on disk.
    pub matched_disk_block_ids: Vec<u32>,
    /// A snapshot of the recurrent states, and the positions that it covers.
    pub ssm_snapshot: Option<u64>,
    pub ssm_snapshot_tokens: usize,
}

/// How much of a prompt is taken over from the prefix cache.
#[derive(Clone, Copy, PartialEq, Eq, Structural, Debug)]
pub struct Reuse {
    /// The snapshot to restore first.
    pub restore: Option<u64>,
    /// First position whose cache entries are written.
    pub kv_write_start: usize,
    /// Whether the positions before it are skipped altogether.
    pub skip: bool,
}

/// Rows to process: the first position, and how many.
#[derive(Clone, Copy, PartialEq, Eq, Structural, Debug)]
pub struct ProcRange {
    pub start: usize,
    pub count: usize,
}

impl PrefixMatch {
    /// Nothing is known of the prompt.
    pub open spec fn is_empty(&self) -> bool {
        &&& self.matched_tokens == 0
        &&& self.matched_blocks@.len() == 0
        &&& self.matched_disk_block_ids@.len() == 0
        &&& self.ssm_snapshot is None
        &&& self.ssm_snapshot_tokens == 0
    }

    /// What is known of a prompt that is not looked up.
    pub fn empty() -> (r: PrefixMatch)
        ensures
            r.is_empty(),
    {
        PrefixMatch {
            matched_tokens: 0,
            matched_blocks: Vec::new(),
            matched_disk_block_ids: Vec::new(),
            ssm_snapshot: None,
            ssm_snapshot_tokens: 0,
        }
    }

    /// What of a match may be used: nothing for a prompt with image tokens,
    /// which look the same whatever the image.
    pub fn usable(self, has_image_tokens: bool) -> (r: PrefixMatch)
        ensures
            has_image_tokens ==> r.is_empty(),
            !has_image_tokens ==> r == self,
    {
        if has_image_tokens {
            PrefixMatch::empty()
        } else {
            self
        }
    }

    /// Whether the snapshot can be restored for a prompt of `n` tokens.
    pub open spec fn restorable(&self, n: int, session_ok: bool) -> bool {
        self.ssm_snapshot is Some && self.ssm_snapshot_tokens > 0 && self.matched_tokens <= n
            && session_ok
    }

    pub fn is_restorable(&self, n: usize, session_ok: bool) -> (r: bool)
        ensures
            r == self.restorable(n as int, session_ok),
    {
        self.ssm_snapshot.is_some() && self.ssm_snapshot_tokens > 0 && self.matched_tokens <= n
            && session_ok
    }
}

impl SequenceState {
    /// Everything that taking over a cached prefix leaves alone.
    pub open spec fn same_but_prefix(&self, other: &SequenceState) -> bool {
        &&& self.tokens == other.tokens
        &&& self.hss_window_start == other.hss_window_start
        &&& self.seq_len == other.seq_len
        &&& self.layer_states == other.layer_states
        &&& self.slot_idx == other.slot_idx
        &&& self.marconi_skip_to == other.marconi_skip_to
        &&& self.session_hash == other.session_hash
        &&& self.chunked_prefill_meta == other.chunked_prefill_meta
        &&& self.disk_block_ids == other.disk_block_ids
        &&& self.disk_last_offloaded_per_layer == other.disk_last_offloaded_per_layer
    }

    /// Takes over the cached blocks of a prompt of `n` tokens. The blocks are
    /// shared: whoever owns the cache counts one more reference to each.
    pub fn adopt_prefix(&mut self, m: &PrefixMatch, n: usize)
        ensures
            final(self).cached_prefix_tokens == m.matched_tokens,
            final(self).prompt_len == n,
            final(self).block_table@ == old(self).block_table@ + m.matched_blocks@,
            final(self).same_but_prefix(old(self)),
    {
        self.cached_prefix_tokens = m.matched_tokens;
        self.prompt_len = n;
        self.block_table.extend_from_slice(m.matched_blocks.as_slice());
        proof {
            assert(self.block_table@ =~= old(self).block_table@ + m.matched_blocks@);
        }
    }
}

impl TransformerModel {
    pub open spec fn prefill_route(&self, n: int) -> Result<PrefillRoute, PrefillError> {
        if n <= 1 {
            Ok(PrefillRoute::Decode)
        } else if self.config.ssm_per_channel_gates {
            Ok(PrefillRoute::TwoPhase(n as usize))
        } else if n > self.buffers.max_batch_tokens {
            Err(PrefillError::ExceedsArena(n as usize, self.buffers.max_batch_tokens))
        } else {
            Ok(PrefillRoute::SinglePass)
        }
    }

    /// Decides how a prompt of `n` tokens is processed.
    pub fn prefill_dispatch(&self, n: usize) -> (r: Result<PrefillRoute, PrefillError>)
        ensures
            r == self.prefill_route(n as int),
    {
        if n <= 1 {
            return Ok(PrefillRoute::Decode);
        }
        if self.config.ssm_per_channel_gates {
            return Ok(PrefillRoute::TwoPhase(n));
        }
        if n > self.buffers.max_batch_tokens {
            return Err(PrefillError::ExceedsArena(n, self.buffers.max_batch_tokens));
        }
        Ok(PrefillRoute::SinglePass)
    }

    /// Index of the last cache block of the first `n > 0` positions.
    pub open spec fn last_block(&self, n: int) -> int {
        (n - 1) / self.block_size as int
    }

    /// Takes over the cached prefix of a prompt that is processed in one pass,
    /// and says which block the sequence has to reach. All blocks of such a
    /// prompt have to stay on the device.
    pub fn prefill_adopt(&self, seq: &mut SequenceState, m: &PrefixMatch, n: usize) -> (r: Result<
        usize,
        PrefillError,
    >)
        requires
            n > 0,
            self.block_size > 0,
        ensures
            final(seq).cached_prefix_tokens == m.matched_tokens,
            final(seq).prompt_len == n,
            final(seq).block_table@ == old(seq).block_table@ + m.matched_blocks@,
            final(seq).same_but_prefix(old(seq)),
            match r {
                Ok(last) => last == self.last_block(n as int) && !(self.cache_blocks_per_seq is Some
                    && self.last_block(n as int) + 1 > self.cache_blocks_per_seq->0),
                Err(e) => self.cache_blocks_per_seq is Some && self.last_block(n as int) + 1
                    > self.cache_blocks_per_seq->0 && e == PrefillError::ExceedsSwapWindow(
                    (self.last_block(n as int) + 1) as usize,
                    self.cache_blocks_per_seq->0,
                ),
            },
    {
        seq.adopt_prefix(m, n);
        let last: usize = (n - 1) / self.block_size;
        proof {
            vstd::arithmetic::div_mod::lemma_div_is_ordered_by_denominator(
                n - 1,
                1,
                self.block_size as int,
            );
        }
        match self.cache_blocks_per_seq {
            Some(cap) => {
                if last + 1 > cap as usize {
                    return Err(PrefillError::ExceedsSwapWindow(last + 1, cap));
                }
            },
            None => {},
        }
        Ok(last)
    }

    /// What is reused of a match. A snapshot of this session lets the positions
    /// that it covers be skipped. Without one, models with recurrent layers
    /// process everything again, and others skip what is cached.
    pub open spec fn prefill_reuse_of(
        m: &PrefixMatch, n: int, session_ok: bool, recurrent: bool,
    ) -> Reuse {
        if m.ssm_snapshot is Some {
            if m.restorable(n, session_ok) {
                Reuse {
                    restore: m.ssm_snapshot,
                    kv_write_start: if m.matched_tokens >= n {
                        n as usize
                    } else {
                        m.ssm_snapshot_tokens
                    },
                    skip: true,
                }
            } else {
                Reuse { restore: None, kv_write_start: m.matched_tokens, skip: false }
            }
        } else if m.matched_tokens > 0 && recurrent {
            Reuse { restore: None, kv_write_start: 0, skip: false }
        } else {
            Reuse {
                restore: None,
                kv_write_start: m.matched_tokens,
                skip: 0 < m.matched_tokens < n,
            }
        }
    }

    /// Decides what is reused of a match. `session_ok` says whether the
    /// snapshot belongs to the sequence's session, and `recurrent` whether the
    /// model has recurrent layers.
    pub fn prefill_reuse(m: &PrefixMatch, n: usize, session_ok: bool, recurrent: bool) -> (r: Reuse)
        ensures
            r == Self::prefill_reuse_of(m, n as int, session_ok, recurrent),
    {
        if m.ssm_snapshot.is_some() {
            if m.is_restorable(n, session_ok) {
                Reuse {
                    restore: m.ssm_snapshot,
                    kv_write_start: if m.matched_tokens >= n {
                        n
                    } else {
                        m.ssm_snapshot_tokens
                    },
                    skip: true,
                }
            } else {
                Reuse { restore: None, kv_write_start: m.matched_tokens, skip: false }
            }
        } else if m.matched_tokens > 0 && recurrent {
            Reuse { restore: None, kv_write_start: 0, skip: false }
        } else {
            Reuse {
                restore: None,
                kv_write_start: m.matched_tokens,
                skip: 0 < m.matched_tokens && m.matched_tokens < n,
            }
        }
    }

    /// Rows of a prompt that are processed: the last one when all are cached,
    /// those after the skipped ones, or all.
    pub open spec fn prefill_range_of(n: int, u: Reuse) -> ProcRange {
        if u.skip && u.kv_write_start >= n {
            ProcRange { start: (n - 1) as usize, count: 1 }
        } else if u.skip {
            ProcRange { start: u.kv_write_start, count: (n - u.kv_write_start) as usize }
        } else {
            ProcRange { start: 0, count: n as usize }
        }
    }

    pub fn prefill_range(n: usize, u: Reuse) -> (r: ProcRange)
        requires
            n > 0,
        ensures
            r == Self::prefill_range_of(n as int, u),
    {
        if u.skip && u.kv_write_start >= n {
            ProcRange { start: n - 1, count: 1 }
        } else if u.skip {
            ProcRange { start: u.kv_write_start, count: n - u.kv_write_start }
        } else {
            ProcRange { start: 0, count: n }
        }
    }

    /// Whatever is reused, at least one row is processed and the rows end where
    /// the prompt ends. Only positions that a restored snapshot or the cache
    /// covers are left out.
    pub proof fn lemma_prefill_range(m: &PrefixMatch, n: usize, session_ok: bool, recurrent: bool)
        requires
            n > 0,
            m.ssm_snapshot_tokens <= m.matched_tokens,
        ensures
            ({
                let u = Self::prefill_reuse_of(m, n as int, session_ok, recurrent);
                let r = Self::prefill_range_of(n as int, u);
                &&& r.count >= 1
                &&& r.start + r.count == n
                &&& r.start <= m.matched_tokens
                &&& r.start > 0 ==> u.skip
                &&& u.restore is Some ==> m.ssm_snapshot == u.restore
                &&& r.start > 0 && recurrent ==> u.restore is Some
            }),
    {
    }

    /// A prompt of which nothing is cached is processed from its first token to
    /// its last, whichever way it takes.
    pub proof fn lemma_uncached_is_processed(
        m: &PrefixMatch, n: usize, session_ok: bool, recurrent: bool,
    )
        requires
            n > 0,
            m.is_empty(),
        ensures
            Self::prefill_range_of(
                n as int,
                Self::prefill_reuse_of(m, n as int, session_ok, recurrent),
            ) == (ProcRange { start: 0, count: n }),
            Self::twophase_range_of(n as int, Self::twophase_reuse_of(m, n as int, session_ok)) == (
            ProcRange { start: 0, count: n }),
    {
    }

    // ---- embedding ----

    /// Uploads token ids and looks their embeddings up, from the first row of
    /// the hidden states on.
    pub open spec fn embed_program(
        &self,
        p: ProgramView,
        tokens: Seq<u32>,
        stream: u64,
    ) -> ProgramView {
        p.upload(stream, le32_all(tokens), self.buffers.scratch).run(
            stream,
            Op::BatchedEmbed(
                self.k.batched_embed,
                self.buffers.scratch,
                self.embed_tokens.weight,
                self.buffers.hidden_states,
                tokens.len() as u32,
                self.config.hidden_size as u32,
            ),
        ).run(stream, Op::ScaleEmbeddings(self.buffers.hidden_states, tokens.len() as usize))
    }

    pub(crate) fn run_embed(&self, program: &mut Program, tokens: &[u32], stream: u64)
        ensures
            final(program)@ == self.embed_program(old(program)@, tokens@, stream),
    {
        let bytes: Vec<u8> = encode_le32(tokens);
        program.upload(stream, bytes.as_slice(), self.buffers.scratch);
        program.run(
            stream,
            Op::BatchedEmbed(
                self.k.batched_embed,
                self.buffers.scratch,
                self.embed_tokens.weight,
                self.buffers.hidden_states,
                tokens.len() as u32,
                self.config.hidden_size as u32,
            ),
        );
        program.run(stream, Op::ScaleEmbeddings(self.buffers.hidden_states, tokens.len()));
    }

    // ---- metadata ----

    /// Where the metadata of `count` rows goes: after the expert selection of
    /// as many rows.
    pub open spec fn prefill_meta_base(&self, count: int) -> DevicePtr {
        self.buffers.scratch.at(
            crate::bytes::align_up(count * self.config.num_experts_per_tok * 4 * 2, 8),
        )
    }

    pub(crate) fn meta_base_for(&self, count: usize) -> (r: DevicePtr)
        requires
            count * self.config.num_experts_per_tok * 4 * 2 + 7 <= usize::MAX,
        ensures
            r == self.prefill_meta_base(count as int),
    {
        let top_k: usize = self.config.num_experts_per_tok;
        proof {
            vstd::arithmetic::mul::lemma_mul_nonnegative(count as int, top_k as int);
        }
        self.buffers.scratch.offset((count * top_k * 4 * 2 + 7) / 8 * 8)
    }

    /// Bytes of metadata that a pass stages.
    pub open spec fn prefill_meta_len(&self, seq: &SequenceState, r: ProcRange, u: Reuse) -> int {
        if u.skip {
            len_at(r.count as int, seq.block_table@.len() as int) + 4
        } else {
            slots_at(r.count as int) + 8 * r.count
        }
    }

    /// Every byte count of the pass is representable, and the metadata fits
    /// into the staging area.
    pub open spec fn prefill_fits(&self, seq: &SequenceState, n: int, u: Reuse) -> bool {
        let r = Self::prefill_range_of(n, u);
        &&& 0 < n <= u32::MAX
        &&& 0 < self.block_size <= 0x8000_0000
        &&& r.count * self.config.num_experts_per_tok * 4 * 2 + 7 <= usize::MAX
        &&& r.count * self.config.hidden_size * self.elem() <= usize::MAX
        &&& r.count * 12 + 16 + seq.block_table@.len() * 4 <= usize::MAX
        &&& self.prefill_meta_len(seq, r, u) <= self.pinned_bytes
    }

    pub open spec fn prefill_metadata(
        &self,
        seq: &SequenceState,
        r: ProcRange,
        u: Reuse,
    ) -> AttnMetadataDev {
        let base = self.prefill_meta_base(r.count as int);
        let blocks = seq.block_table@.len() as int;
        AttnMetadataDev {
            positions: base,
            positions_h: base,
            positions_w: base,
            slot: base.at(slots_at(r.count as int)),
            seq_len: if u.skip {
                base.at(len_at(r.count as int, blocks))
            } else {
                DevicePtr(0)
            },
            block_table: if u.skip {
                base.at(table_at(r.count as int))
            } else {
                DevicePtr(0)
            },
            max_blocks_per_seq: blocks as u32,
            num_seqs: 1,
        }
    }

    /// Uploads the metadata in one copy: with block table and length when
    /// earlier positions are read from the cache.
    pub open spec fn prefill_meta_program(
        &self,
        p: ProgramView,
        seq: &SequenceState,
        n: int,
        u: Reuse,
        stream: u64,
    ) -> ProgramView {
        let r = Self::prefill_range_of(n, u);
        p.upload(
            stream,
            packed_meta(
                positions(r.start as int, r.count as nat),
                self.slots(seq, r.start as int, r.count as nat),
                if u.skip {
                    Some((seq.block_table@, n as u32))
                } else {
                    None
                },
            ),
            self.prefill_meta_base(r.count as int),
        )
    }

    // ---- layers ----

    /// First position whose cache entries the layers write. The rows after
    /// skipped positions are all new.
    pub open spec fn layer_write_start(u: Reuse) -> usize {
        if u.skip {
            0
        } else {
            u.kv_write_start
        }
    }

    /// The first `k` layers over all rows.
    pub open spec fn prefill_layers(
        &self,
        p: ProgramView,
        r: ProcRange,
        u: Reuse,
        k: nat,
        stream: u64,
    ) -> ProgramView
        decreases k,
    {
        if k == 0 {
            p
        } else {
            self.prefill_layers(p, r, u, (k - 1) as nat, stream).run(
                stream,
                Op::LayerPrefill(
                    (k - 1) as usize,
                    self.buffers.hidden_states,
                    self.buffers.residual,
                    r.count,
                    r.start,
                    Self::layer_write_start(u),
                ),
            ).run(
                stream,
                Op::CapturePrefill((k - 1) as usize, Self::layer_write_start(u), r.count),
            ).timed(self.profile && r.count > 1, stream)
        }
    }

    /// Row `i` of the hidden states.
    pub open spec fn hidden_row(&self, i: int) -> DevicePtr {
        self.buffers.hidden_states.at(i * self.config.hidden_size * self.elem())
    }

    pub(crate) fn hidden_row_ptr(&self, i: usize) -> (r: DevicePtr)
        requires
            i * self.config.hidden_size * self.elem() <= usize::MAX,
        ensures
            r == self.hidden_row(i as int),
    {
        self.buffers.hidden_states.offset(span(i, self.config.hidden_size, self.elem_bytes()))
    }

    /// The program of a prompt in one pass, after the blocks are there and a
    /// snapshot has been restored.
    pub open spec fn prefill_program(
        &self, tokens: Seq<u32>, seq: &SequenceState, u: Reuse,
    ) -> ProgramView {
        let st = self.default_stream;
        let n = tokens.len() as int;
        let r = Self::prefill_range_of(n, u);
        let p = self.embed_program(
            ProgramView::empty(),
            tokens.subrange(r.start as int, r.start + r.count),
            st,
        );
        let p = self.prefill_meta_program(p, seq, n, u, st);
        let p = self.prefill_layers(p, r, u, self.layers@.len(), st);
        self.head_of(p, self.hidden_row(r.count - 1), st)
    }

    /// Plans the start of a pass: all buffers are zeroed.
    pub fn prefill_begin(&self) -> (r: Program)
        ensures
            r@ == ProgramView::empty().run(self.default_stream, Op::ZeroAll),
    {
        let mut program: Program = Program::new();
        program.run(self.default_stream, Op::ZeroAll);
        program
    }

    /// Plans a prompt in one pass, after the blocks are there and a snapshot
    /// has been restored.
    pub fn prefill_forward(&self, tokens: &[u32], seq: &SequenceState, u: Reuse) -> (r: (
        Program,
        AttnMetadataDev,
    ))
        requires
            self.prefill_fits(seq, tokens@.len() as int, u),
        ensures
            r.0@ == self.prefill_program(tokens@, seq, u),
            r.1 == self.prefill_metadata(
                seq,
                Self::prefill_range_of(tokens@.len() as int, u),
                u,
            ),
    {
        let st: u64 = self.default_stream;
        let n: usize = tokens.len();
        let r: ProcRange = Self::prefill_range(n, u);
        let mut program: Program = Program::new();
        let part: &[u32] = vstd::slice::slice_subrange(tokens, r.start, r.start + r.count);
        self.run_embed(&mut program, part, st);

        let base: DevicePtr = self.meta_base_for(r.count);
        let pos: Vec<u32> = position_list(r.start, r.count);
        let slots: Vec<u64> = self.slot_list(seq, r.start, r.count);
        let slot_at: usize = (r.count * 4 + 7) / 8 * 8;
        let mut block_table: DevicePtr = DevicePtr(0);
        let mut seq_len: DevicePtr = DevicePtr(0);
        if u.skip {
            let bytes: Vec<u8> = pack_meta_table(
                pos.as_slice(),
                slots.as_slice(),
                seq.block_table.as_slice(),
                n as u32,
            );
            program.upload(st, bytes.as_slice(), base);
            let table: usize = (slot_at + 8 * r.count + 3) / 4 * 4;
            block_table = base.offset(table);
            seq_len = base.offset((table + 4 * seq.block_table.len() + 3) / 4 * 4);
        } else {
            let bytes: Vec<u8> = pack_meta(pos.as_slice(), slots.as_slice());
            program.upload(st, bytes.as_slice(), base);
        }
        let write_start: usize = if u.skip {
            0
        } else {
            u.kv_write_start
        };
        let ghost p0 = program@;
        let mut i: usize = 0;
        while i < self.layers.len()
            invariant
                i <= self.layers@.len(),
                st == self.default_stream,
                write_start == Self::layer_write_start(u),
                program@ == self.prefill_layers(p0, r, u, i as nat, st),
            decreases self.layers@.len() - i,
        {
            program.run(
                st,
                Op::LayerPrefill(
                    i,
                    self.buffers.hidden_states,
                    self.buffers.residual,
                    r.count,
                    r.start,
                    write_start,
                ),
            );
            program.run(st, Op::CapturePrefill(i, write_start, r.count));
            program.timed(self.profile && r.count > 1, st);
            i = i + 1;
        }
        proof {
            lemma_span_mono(
                r.count - 1,
                r.count as int,
                self.config.hidden_size as int,
                self.elem(),
            );
        }
        let row: DevicePtr = self.hidden_row_ptr(r.count - 1);
        self.run_head(&mut program, row, st);
        let metadata = AttnMetadataDev {
            positions: base,
            positions_h: base,
            positions_w: base,
            slot: base.offset(slot_at),
            seq_len,
            block_table,
            max_blocks_per_seq: seq.block_table.len() as u32,
            num_seqs: 1,
        };
        (program, metadata)
    }
}

} // verus!
