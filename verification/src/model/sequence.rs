//! The state of one sequence.

use crate::gpu::DevicePtr;
use vstd::prelude::*;

verus! {

/// Device metadata of a prompt that is processed in chunks.
#[derive(Clone, Copy, PartialEq, Eq, Structural, Debug)]
pub struct ChunkedPrefillMeta {
    pub block_table: DevicePtr,
    pub seq_len: DevicePtr,
    /// Entries of the block table that are already on the device.
    pub uploaded_blocks: usize,
}

/// Recurrent state of a layer.
pub struct SsmLayerState {
    pub h_state: DevicePtr,
    pub conv_state: DevicePtr,
    pub h_state_checkpoint: Option<DevicePtr>,
    pub conv_state_checkpoint: Option<DevicePtr>,
    pub h_state_intermediates: Vec<DevicePtr>,
    pub conv_state_intermediates: Vec<DevicePtr>,
}

/// State of a layer.
pub enum LayerState {
    /// What the layer keeps of a sequence is in the cache.
    Cached,
    Recurrent(SsmLayerState),
}

/// A sequence being generated.
pub struct SequenceState {
    pub tokens: Vec<u32>,
    /// Cache blocks, from the first one that is still on the device on.
    pub block_table: Vec<u32>,
    /// Logical index of the first entry of the block table.
    pub hss_window_start: usize,
    /// Positions that the cache and the recurrent states cover.
    pub seq_len: usize,
    pub layer_states: Vec<LayerState>,
    pub slot_idx: usize,
    pub marconi_skip_to: usize,
    pub session_hash: u64,
    pub chunked_prefill_meta: Option<ChunkedPrefillMeta>,
    pub cached_prefix_tokens: usize,
    pub prompt_len: usize,
    pub disk_block_ids: Vec<u32>,
    pub disk_last_offloaded_per_layer: Vec<usize>,
}

impl SequenceState {
    /// The cache block of logical block `i`, when it is on the device.
    pub open spec fn block(&self, i: int) -> Option<u32> {
        if self.hss_window_start <= i < self.hss_window_start + self.block_table@.len() {
            Some(self.block_table@[i - self.hss_window_start])
        } else {
            None
        }
    }

    pub fn physical_block_for(&self, i: usize) -> (r: Option<u32>)
        ensures
            r == self.block(i as int),
    {
        if i >= self.hss_window_start && i - self.hss_window_start < self.block_table.len() {
            Some(self.block_table[i - self.hss_window_start])
        } else {
            None
        }
    }

    /// Cache slot of position `pos`: its block, or the dummy block when that is
    /// not on the device, and its place in the block.
    pub open spec fn slot(&self, dummy: u32, bs: int, pos: int) -> int {
        let b = match self.block(pos / bs) {
            Some(b) => b,
            None => dummy,
        };
        b * bs + pos % bs
    }

    pub fn slot_for(&self, dummy: u32, bs: usize, pos: usize) -> (r: u64)
        requires
            0 < bs <= 0x8000_0000,
        ensures
            r == self.slot(dummy, bs as int, pos as int),
            r <= i64::MAX,
    {
        let b: u32 = match self.physical_block_for(pos / bs) {
            Some(b) => b,
            None => dummy,
        };
        let off: usize = pos % bs;
        proof {
            vstd::arithmetic::div_mod::lemma_mod_bound(pos as int, bs as int);
            assert(b * bs + off <= 0xffff_ffff * 0x8000_0000 + 0x7fff_ffff) by (nonlinear_arith)
                requires
                    b <= 0xffff_ffff,
                    0 < bs <= 0x8000_0000,
                    off < bs,
            ;
            assert(b * bs >= 0) by (nonlinear_arith)
                requires
                    b >= 0,
                    bs >= 0,
            ;
        }
        b as u64 * bs as u64 + off as u64
    }

    /// The slot lies in its block, at the place of the position.
    pub proof fn lemma_slot_in_block(&self, dummy: u32, bs: int, pos: int)
        requires
            bs > 0,
            pos >= 0,
        ensures
            self.slot(dummy, bs, pos) / bs == (match self.block(pos / bs) {
                Some(b) => b,
                None => dummy,
            }),
            self.slot(dummy, bs, pos) % bs == pos % bs,
    {
        let b = match self.block(pos / bs) {
            Some(b) => b,
            None => dummy,
        };
        vstd::arithmetic::div_mod::lemma_mod_bound(pos, bs);
        assert(b * bs == bs * b) by (nonlinear_arith);
        vstd::arithmetic::div_mod::lemma_fundamental_div_mod_converse(
            self.slot(dummy, bs, pos),
            bs,
            b as int,
            pos % bs,
        );
    }

    /// Two positions on the device never share a slot, as long as no block
    /// stands in the table twice.
    pub proof fn lemma_slots_distinct(&self, dummy: u32, bs: int, p: int, q: int)
        requires
            bs > 0,
            p >= 0,
            q >= 0,
            p != q,
            self.block(p / bs) is Some,
            self.block(q / bs) is Some,
            self.block_table@.no_duplicates(),
        ensures
            self.slot(dummy, bs, p) != self.slot(dummy, bs, q),
    {
        self.lemma_slot_in_block(dummy, bs, p);
        self.lemma_slot_in_block(dummy, bs, q);
        vstd::arithmetic::div_mod::lemma_fundamental_div_mod(p, bs);
        vstd::arithmetic::div_mod::lemma_fundamental_div_mod(q, bs);
        if self.slot(dummy, bs, p) == self.slot(dummy, bs, q) {
            let i = p / bs - self.hss_window_start;
            let j = q / bs - self.hss_window_start;
            assert(self.block_table@[i] == self.block_table@[j]);
            assert(i == j);
        }
    }

    /// The tokens recorded so far are the first `upto` of the prompt.
    pub open spec fn holds_prompt(&self, prompt: Seq<u32>, upto: int) -> bool {
        &&& self.tokens@ == prompt.take(upto)
        &&& self.seq_len == upto
    }

    /// Recording the prompt piece by piece, each piece starting where the one
    /// before it ended, records every token of the prompt once and in order.
    pub proof fn lemma_prompt_piece(
        &self, next: &SequenceState, prompt: Seq<u32>, from: int, to: int,
    )
        requires
            0 <= from <= to <= prompt.len(),
            self.holds_prompt(prompt, from),
            next.tokens@ == self.tokens@ + prompt.subrange(from, to),
            next.seq_len == to,
        ensures
            next.holds_prompt(prompt, to),
            to == prompt.len() ==> next.tokens@ == prompt,
    {
        assert(next.tokens@ =~= prompt.take(to));
        assert(prompt.take(prompt.len() as int) =~= prompt);
    }

    /// Everything but the tokens and the length.
    pub open spec fn same_but_tokens(&self, other: &SequenceState) -> bool {
        &&& self.block_table == other.block_table
        &&& self.hss_window_start == other.hss_window_start
        &&& self.layer_states == other.layer_states
        &&& self.slot_idx == other.slot_idx
        &&& self.marconi_skip_to == other.marconi_skip_to
        &&& self.session_hash == other.session_hash
        &&& self.chunked_prefill_meta == other.chunked_prefill_meta
        &&& self.cached_prefix_tokens == other.cached_prefix_tokens
        &&& self.prompt_len == other.prompt_len
        &&& self.disk_block_ids == other.disk_block_ids
        &&& self.disk_last_offloaded_per_layer == other.disk_last_offloaded_per_layer
    }

    /// Records one decoded token.
    pub fn advance(&mut self, token: u32)
        requires
            old(self).seq_len < usize::MAX,
        ensures
            final(self).tokens@ == old(self).tokens@.push(token),
            final(self).seq_len == old(self).seq_len + 1,
            final(self).same_but_tokens(old(self)),
    {
        self.tokens.push(token);
        self.seq_len = self.seq_len + 1;
    }

    /// Records the prompt tokens `from..to`.
    pub fn advance_prompt(&mut self, tokens: &[u32], from: usize, to: usize)
        requires
            from <= to <= tokens.len(),
        ensures
            final(self).tokens@ == old(self).tokens@ + tokens@.subrange(from as int, to as int),
            final(self).seq_len == to,
            final(self).same_but_tokens(old(self)),
    {
        let part: &[u32] = vstd::slice::slice_subrange(tokens, from, to);
        self.tokens.extend_from_slice(part);
        self.seq_len = to;
        proof {
            assert(self.tokens@ =~= old(self).tokens@ + tokens@.subrange(from as int, to as int));
        }
    }
}

} // verus!
