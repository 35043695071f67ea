//! One chunk of a prompt.

use crate::gpu::{AttnMetadataDev, DevicePtr};
use crate::model::prefill::PrefillError;
use crate::model::sequence::SequenceState;
use crate::model::TransformerModel;
use crate::plan::{Op, Program, ProgramView};
use vstd::prelude::*;

verus! {

/// How a chunk is processed.
pub enum ChunkRoute {
    /// The chunk is the whole prompt and takes the two-phase way.
    TwoPhase(usize),
    /// Layer by layer.
    Chunk(ChunkStart),
}

/// The start of a chunk.
pub struct ChunkStart {
    /// The stream that the chunk runs on.
    pub stream: u64,
    /// What runs before the embedding.
    pub program: Program,
    /// The cache block that the sequence has to reach.
    pub last_block: usize,
}

/// Where the metadata of a chunk was put.
#[derive(Clone, Copy, PartialEq, Eq, Structural, Debug)]
pub struct ChunkMeta {
    pub base: DevicePtr,
    pub slot_offset: usize,
    /// Bytes of one list of positions.
    pub pos_stream_bytes: usize,
    /// Whether rows and columns of images have positions of their own.
    pub use_mrope: bool,
    /// Whether earlier positions are read through the block table.
    pub needs_paged: bool,
}

/// What is left to do after the layers of a chunk.
#[derive(Clone, Copy, PartialEq, Eq, Structural, Debug)]
pub enum ChunkEnd {
    /// Compute logits and store the prompt in the prefix cache.
    Finalize,
    /// Store a checkpoint of the recurrent states.
    SaveCheckpoint,
}

impl TransformerModel {
    /// Collectives only work on the default stream.
    pub open spec fn pass_stream(&self, stream: u64) -> u64 {
        if self.has_comm && self.config.ep_world_size > 1 {
            self.default_stream
        } else {
            stream
        }
    }

    pub fn stream_for(&self, stream: u64) -> (r: u64)
        ensures
            r == self.pass_stream(stream),
    {
        if self.has_comm && self.config.ep_world_size > 1 {
            self.default_stream
        } else {
            stream
        }
    }

    pub open spec fn chunk_is_twophase(&self, total: int, start: int, len: int) -> bool {
        self.config.ssm_per_channel_gates && start == 0 && len == total
    }

    /// Decides how the chunk of `len` tokens from `start` on is processed.
    /// Buffers are zeroed for the first chunk, and for every chunk when there
    /// is a communicator.
    pub fn prefill_chunk_dispatch(&self, total: usize, start: usize, len: usize, stream: u64) -> (r:
        Result<ChunkRoute, PrefillError>)
        requires
            start + len <= total,
            !self.chunk_is_twophase(total as int, start as int, len as int) && len
                <= self.buffers.max_batch_tokens ==> 0 < start + len && self.block_size > 0,
        ensures
            match r {
                Ok(ChunkRoute::TwoPhase(size)) => self.chunk_is_twophase(
                    total as int,
                    start as int,
                    len as int,
                ) && size == total,
                Ok(ChunkRoute::Chunk(c)) => {
                    &&& !self.chunk_is_twophase(total as int, start as int, len as int)
                    &&& len <= self.buffers.max_batch_tokens
                    &&& c.stream == self.pass_stream(stream)
                    &&& c.last_block == self.last_block(start + len)
                    &&& c.program@ == (if self.has_comm || start == 0 {
                        ProgramView::empty().run(self.pass_stream(stream), Op::ZeroAll)
                    } else {
                        ProgramView::empty()
                    })
                },
                Err(e) => {
                    &&& !self.chunk_is_twophase(total as int, start as int, len as int)
                    &&& len > self.buffers.max_batch_tokens
                    &&& e == PrefillError::ExceedsArena(len, self.buffers.max_batch_tokens)
                },
            },
    {
        if self.config.ssm_per_channel_gates && start == 0 && len == total {
            return Ok(ChunkRoute::TwoPhase(total));
        }
        if len > self.buffers.max_batch_tokens {
            return Err(PrefillError::ExceedsArena(len, self.buffers.max_batch_tokens));
        }
        let st: u64 = self.stream_for(stream);
        let mut program: Program = Program::new();
        if self.has_comm || start == 0 {
            program.run(st, Op::ZeroAll);
        }
        Ok(
            ChunkRoute::Chunk(
                ChunkStart {
                    stream: st,
                    program,
                    last_block: (start + len - 1) / self.block_size,
                },
            ),
        )
    }

    /// Records the chunk's tokens and says what is left to do.
    pub fn prefill_chunk_finish(
        seq: &mut SequenceState,
        tokens: &[u32],
        start: usize,
        len: usize,
        is_last: bool,
    ) -> (r: ChunkEnd)
        requires
            start + len <= tokens.len(),
        ensures
            final(seq).tokens@ == old(seq).tokens@ + tokens@.subrange(start as int, start + len),
            final(seq).seq_len == start + len,
            final(seq).same_but_tokens(old(seq)),
            r == (if is_last {
                ChunkEnd::Finalize
            } else {
                ChunkEnd::SaveCheckpoint
            }),
    {
        seq.advance_prompt(tokens, start, start + len);
        if is_last {
            ChunkEnd::Finalize
        } else {
            ChunkEnd::SaveCheckpoint
        }
    }

    pub open spec fn chunk_metadata(&self, seq: &SequenceState, m: ChunkMeta) -> AttnMetadataDev {
        AttnMetadataDev {
            positions: m.base,
            positions_h: if m.use_mrope {
                m.base.at(m.pos_stream_bytes as int)
            } else {
                m.base
            },
            positions_w: if m.use_mrope {
                m.base.at(m.pos_stream_bytes * 2)
            } else {
                m.base
            },
            slot: m.base.at(m.slot_offset as int),
            seq_len: if m.needs_paged {
                seq.chunked_prefill_meta->0.seq_len
            } else {
                DevicePtr(0)
            },
            block_table: if m.needs_paged {
                seq.chunked_prefill_meta->0.block_table
            } else {
                DevicePtr(0)
            },
            max_blocks_per_seq: seq.block_table@.len() as u32,
            num_seqs: 1,
        }
    }

    /// Whether the pass is timed; asking for it once is enough.
    pub open spec fn profiles_now(&self) -> bool {
        self.profile || self.profile_first_pending
    }

    /// The first `k` layers of a chunk. A single row after earlier ones goes
    /// through the layers as a decoded token does.
    pub open spec fn chunk_layers(
        &self,
        p: ProgramView,
        count: usize,
        seq_len_start: usize,
        write_start: usize,
        k: nat,
        stream: u64,
    ) -> ProgramView
        decreases k,
    {
        if k == 0 {
            p
        } else {
            let i = (k - 1) as usize;
            let hidden = self.buffers.hidden_states;
            let residual = self.buffers.residual;
            let p = self.chunk_layers(p, count, seq_len_start, write_start, (k - 1) as nat, stream);
            let p = p.timed(self.profiles_now(), stream);
            let p = if count == 1 && seq_len_start > 0 {
                p.run(stream, Op::LayerDecode(i, hidden, residual, seq_len_start))
            } else {
                p.run(
                    stream,
                    Op::LayerPrefill(i, hidden, residual, count, seq_len_start, write_start),
                )
            };
            p.run(stream, Op::CapturePrefill(i, write_start, count)).timed(
                self.profiles_now(),
                stream,
            )
        }
    }

    /// All layers of a chunk, after a wait for the metadata: uploads from pinned
    /// memory may otherwise still run when the first layer reads them.
    pub open spec fn chunk_program(
        &self,
        count: usize,
        seq_len_start: usize,
        write_start: usize,
        stream: u64,
    ) -> ProgramView {
        let t = self.profiles_now();
        self.chunk_layers(
            ProgramView::empty().run(stream, Op::Synchronize).timed(t, stream),
            count,
            seq_len_start,
            write_start,
            self.layers@.len(),
            stream,
        ).timed(t, stream)
    }

    /// Plans the layers of a chunk of `count` rows whose first position is
    /// `seq_len_start`, once its metadata is on its way. A pending request to time
    /// one pass is used up.
    pub fn prefill_b_forward_layers(
        &mut self,
        seq: &SequenceState,
        m: ChunkMeta,
        count: usize,
        seq_len_start: usize,
        kv_write_start: usize,
        skip: bool,
        stream: u64,
    ) -> (r: (Program, AttnMetadataDev))
        requires
            m.needs_paged ==> seq.chunked_prefill_meta is Some,
            m.use_mrope ==> m.pos_stream_bytes * 2 <= usize::MAX,
        ensures
            *final(self) == (TransformerModel {
                profile_first_pending: old(self).profile && old(self).profile_first_pending,
                ..*old(self)
            }),
            r.0@ == old(self).chunk_program(
                count,
                seq_len_start,
                if skip {
                    0
                } else {
                    kv_write_start
                },
                stream,
            ),
            r.1 == old(self).chunk_metadata(seq, m),
    {
        let mut block_table: DevicePtr = DevicePtr(0);
        let mut seq_len: DevicePtr = DevicePtr(0);
        if m.needs_paged {
            let page = seq.chunked_prefill_meta.unwrap();
            block_table = page.block_table;
            seq_len = page.seq_len;
        }
        let (positions_h, positions_w): (DevicePtr, DevicePtr) = if m.use_mrope {
            (m.base.offset(m.pos_stream_bytes), m.base.offset(m.pos_stream_bytes * 2))
        } else {
            (m.base, m.base)
        };
        let metadata = AttnMetadataDev {
            positions: m.base,
            positions_h,
            positions_w,
            slot: m.base.offset(m.slot_offset),
            seq_len,
            block_table,
            max_blocks_per_seq: seq.block_table.len() as u32,
            num_seqs: 1,
        };
        let timed: bool = self.profile || self.profile_first_pending;
        let write_start: usize = if skip {
            0
        } else {
            kv_write_start
        };
        let as_decode: bool = count == 1 && seq_len_start > 0;
        let mut program: Program = Program::new();
        program.run(stream, Op::Synchronize);
        program.timed(timed, stream);
        let ghost p0 = program@;
        let mut i: usize = 0;
        while i < self.layers.len()
            invariant
                i <= self.layers@.len(),
                timed == self.profiles_now(),
                *self == *old(self),
                as_decode == (count == 1 && seq_len_start > 0),
                program@ == self.chunk_layers(
                    p0,
                    count,
                    seq_len_start,
                    write_start,
                    i as nat,
                    stream,
                ),
            decreases self.layers@.len() - i,
        {
            let hidden: DevicePtr = self.buffers.hidden_states;
            let residual: DevicePtr = self.buffers.residual;
            program.timed(timed, stream);
            if as_decode {
                program.run(stream, Op::LayerDecode(i, hidden, residual, seq_len_start));
            } else {
                program.run(
                    stream,
                    Op::LayerPrefill(i, hidden, residual, count, seq_len_start, write_start),
                );
            }
            program.run(stream, Op::CapturePrefill(i, write_start, count));
            program.timed(timed, stream);
            i = i + 1;
        }
        program.timed(timed, stream);
        if !self.profile {
            self.profile_first_pending = false;
        }
        (program, metadata)
    }
}

} // verus!
