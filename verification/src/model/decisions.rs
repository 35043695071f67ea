//! When a model uses graphs, how it takes a prompt, what it reuses.

use crate::config::ModelConfig;
use crate::model::decode::DecodeMode;
use crate::model::init::{ModelInputs, ModelSizes};
use crate::model::prefill::{PrefillError, PrefillRoute, PrefixMatch};
use crate::model::sequence::SequenceState;
use crate::model::{ModelKernels, TransformerModel};
use vstd::prelude::*;

verus! {

impl TransformerModel {
    /// A step is timed layer by layer exactly when timing is on. It uses a graph
    /// exactly when it is not timed, nothing in it needs the host (ranks, blocks
    /// on disk), graphs are not declined, and they are not held back or the ten
    /// tokens behind calibration have passed. The graph is the one captured for
    /// the slot of the sequence, or a new one where there is none.
    pub proof fn lemma_graphs(&self, seq: &SequenceState, no_graphs: bool)
        ensures
            ({
                let mode = self.decode_mode(seq, no_graphs);
                let calibrated = self.config.fp8_kv_calibration_tokens > 0 && seq.seq_len
                    > self.config.fp8_kv_calibration_tokens + 10;
                let usable = !self.has_comm && self.cache_blocks_per_seq is None && !no_graphs && (
                !self.suppress_graphs || calibrated);
                let held = self.decode_graphs@.contains_key(seq.slot_idx)
                    && self.decode_graphs@[seq.slot_idx] != 0;
                &&& mode is Profiled <==> self.profile
                &&& (mode is Replay || mode is Capture) <==> !self.profile && usable
                &&& mode is Replay <==> !self.profile && usable && held
                &&& mode matches DecodeMode::Replay(g) ==> g == self.decode_graphs@[seq.slot_idx]
                &&& mode is Eager <==> !self.profile && !usable
            }),
    {
    }

    /// Two sequences in different slots never share a graph, as long as no graph
    /// is held for two slots.
    pub proof fn lemma_graphs_apart(&self, a: &SequenceState, b: &SequenceState, no_graphs: bool)
        requires
            a.slot_idx != b.slot_idx,
            forall|i: usize, j: usize|
                i != j && #[trigger] self.decode_graphs@.contains_key(i)
                    && #[trigger] self.decode_graphs@.contains_key(j) ==> self.decode_graphs@[i]
                    != self.decode_graphs@[j],
        ensures
            self.decode_mode(a, no_graphs) matches DecodeMode::Replay(g) ==> self.decode_mode(
                b,
                no_graphs,
            ) != DecodeMode::Replay(g),
    {
    }

    /// Recurrent states are normalized at every sixty-fourth position but the
    /// first, in models that have them.
    pub proof fn lemma_normalized_when(&self, seq: &SequenceState)
        ensures
            self.normalizes(seq) <==> self.config.mamba_num_heads > 0 && seq.seq_len >= 64
                && seq.seq_len % 64 == 0,
    {
    }

    /// A single token is decoded. A longer prompt takes two phases where channels
    /// have their own gates; otherwise it has to fit into the buffers, and takes
    /// one pass.
    pub proof fn lemma_routes(&self, n: usize)
        ensures
            ({
                let r = self.prefill_route(n as int);
                &&& r == Ok::<PrefillRoute, PrefillError>(PrefillRoute::Decode) <==> n <= 1
                &&& r == Ok::<PrefillRoute, PrefillError>(PrefillRoute::TwoPhase(n)) <==> n > 1
                    && self.config.ssm_per_channel_gates
                &&& r == Ok::<PrefillRoute, PrefillError>(PrefillRoute::SinglePass) <==> n > 1
                    && !self.config.ssm_per_channel_gates && n <= self.buffers.max_batch_tokens
                &&& r is Err <==> n > 1 && !self.config.ssm_per_channel_gates && n
                    > self.buffers.max_batch_tokens
                &&& r is Err ==> r == Err::<PrefillRoute, PrefillError>(
                    PrefillError::ExceedsArena(n, self.buffers.max_batch_tokens),
                )
            }),
    {
    }

    /// What a pass reuses of a cached prefix is never more than what is cached:
    /// states only from the snapshot of the match, and only for its own session
    /// and prompt; positions are left out only behind a restored snapshot, or in
    /// a model that keeps no states.
    pub proof fn lemma_reuse_is_sound(
        m: &PrefixMatch,
        n: usize,
        session_ok: bool,
        recurrent: bool,
    )
        requires
            m.ssm_snapshot_tokens <= m.matched_tokens,
        ensures
            ({
                let u = Self::prefill_reuse_of(m, n as int, session_ok, recurrent);
                let v = Self::twophase_reuse_of(m, n as int, session_ok);
                &&& u.restore is Some ==> u.restore == m.ssm_snapshot && session_ok
                    && m.ssm_snapshot_tokens > 0 && m.matched_tokens <= n
                &&& v.restore is Some ==> v.restore == m.ssm_snapshot && session_ok
                    && m.ssm_snapshot_tokens > 0 && m.matched_tokens <= n
                &&& u.skip ==> u.restore is Some || !recurrent || m.matched_tokens == 0
                &&& v.skip <==> v.restore is Some
                &&& u.kv_write_start <= m.matched_tokens || u.kv_write_start == n
                &&& v.kv_write_start <= m.matched_tokens
                &&& u.skip && u.kv_write_start < n && u.restore is Some ==> u.kv_write_start
                    == m.ssm_snapshot_tokens
                &&& u.skip && u.restore is None ==> u.kv_write_start == m.matched_tokens
                &&& m.is_empty() ==> !u.skip && u.kv_write_start == 0 && !v.skip
            }),
    {
    }
}

impl ModelSizes {
    /// What is set aside suffices: blocks for one position more than the longest
    /// sequence, a checkpoint for every drafted token and the one before, room
    /// for every block drafter's layer, a full row of logits where they are kept
    /// in single precision, an address for every recurrent layer, and host memory
    /// for whatever the scratch buffer takes. Nothing is set aside for what the
    /// model does not do.
    pub proof fn lemma_sizes_suffice(
        c: &ModelConfig,
        i: &ModelInputs,
        k: ModelKernels,
        fp32_lm_head: bool,
        diagnose: bool,
    )
        requires
            Self::fits(c, i),
            i.max_seq_len as int / i.block_size as int + 1 <= u32::MAX,
        ensures
            ({
                let s = Self::with_settings(c, i, k, fp32_lm_head, diagnose);
                let drafters = c.dflash_capture_layers@.len() as int;
                let drafts = i.self_speculative || drafters > 0 || (i.use_speculative
                    && i.has_mtp_weights && i.has_lm_head_nvfp4);
                &&& s.max_blocks_per_seq * i.block_size > i.max_seq_len
                &&& s.has_mtp == drafts
                &&& !drafts ==> s.num_intermediates == 0
                &&& drafts ==> s.num_intermediates > i.num_drafts
                &&& drafters > 0 ==> s.num_intermediates >= 17
                &&& s.decode_ring_slots == if i.num_ssm_layers > 0 {
                    i.rollback_cap + 1
                } else {
                    0
                }
                &&& s.mtp_hidden_save == c.hidden_size * 4
                &&& s.dflash_hidden_save is Some <==> drafters > 0
                &&& s.dflash_hidden_save matches Some(n) ==> n == drafters * c.hidden_size * 2
                &&& s.pinned_bytes >= i.buffers.scratch_bytes && s.pinned_bytes >= 65536
                &&& s.use_fp32_logits ==> fp32_lm_head && i.fp32_residual
                &&& s.logits_fp32 is Some <==> s.use_fp32_logits
                &&& s.logits_fp32 matches Some(n) ==> n == c.vocab_size * 4
                &&& s.ssm_norm_ptrs is Some <==> i.num_ssm_layers > 0
                &&& s.ssm_norm_ptrs matches Some(n) ==> n == i.num_ssm_layers * 8
                &&& s.gdn_len <= i.max_seq_len && s.gdn_len <= i.buffers.max_batch_tokens
                &&& s.gdn_len == i.max_seq_len || s.gdn_len == i.buffers.max_batch_tokens
                &&& diagnose ==> s.suppress_graphs
                &&& c.fp8_kv_calibration_tokens == 0 && !diagnose ==> !s.suppress_graphs
            }),
    {
        let (n, b) = (i.max_seq_len as int, i.block_size as int);
        assert((n / b + 1) * b > n) by (nonlinear_arith)
            requires
                b > 0,
        ;
        let drafters = c.dflash_capture_layers@.len() as int;
        assert(drafters * c.hidden_size >= 0) by (nonlinear_arith)
            requires
                drafters >= 0,
                c.hidden_size >= 0,
        ;
    }
}

} // verus!
