//! Attention metadata: the positions, cache slots, lengths and block tables
//! that the kernels read from the device.

use crate::bytes::{
    align_up, encode_le32, encode_le64, le32, le32_all, le32_bytes, le64, le64_all, le64_bytes,
    lemma_le32_all_len, lemma_le64_all_len, pad_zeros, push_le32, zero_padded,
};
use crate::gpu::{AttnMetadataDev, DevicePtr};
use crate::model::sequence::SequenceState;
use crate::model::TransformerModel;
use crate::plan::{Program, ProgramView};
use vstd::prelude::*;

verus! {

/// Where decode metadata starts in the scratch buffer.
pub const DECODE_META_OFFSET: usize = 32768;

/// Offsets of the four parts of the metadata of one decoded sequence.
pub const DECODE_SLOT_OFFSET: usize = 8;

pub const DECODE_LEN_OFFSET: usize = 16;

pub const DECODE_TABLE_OFFSET: usize = 256;

/// Offsets of the parts of batch metadata.
pub const BATCH_SLOT_OFFSET: usize = 256;

pub const BATCH_LEN_OFFSET: usize = 512;

pub const BATCH_TABLE_OFFSET: usize = 768;

/// Sequences for which no part of the batch metadata runs into the next.
pub const BATCH_META_CAPACITY: usize = 32;

/// Positions `start..start + count`.
pub open spec fn positions(start: int, count: nat) -> Seq<u32> {
    Seq::new(count, |i: int| (start + i) as u32)
}

pub fn position_list(start: usize, count: usize) -> (r: Vec<u32>)
    requires
        start + count <= u32::MAX,
    ensures
        r@ == positions(start as int, count as nat),
{
    let mut out: Vec<u32> = Vec::new();
    let mut i: usize = 0;
    while i < count
        invariant
            i <= count,
            start + count <= u32::MAX,
            out@ == positions(start as int, i as nat),
        decreases count - i,
    {
        out.push((start + i) as u32);
        i = i + 1;
        proof {
            assert(out@ =~= positions(start as int, i as nat));
        }
    }
    out
}

/// Bytes of the metadata of prefilled rows: positions, then, 8-aligned, slots.
/// With `table`, 4-aligned, the block table and the length.
pub open spec fn packed_meta(
    positions: Seq<u32>,
    slots: Seq<u64>,
    table: Option<(Seq<u32>, u32)>,
) -> Seq<u8> {
    let s = zero_padded(
        le32_all(positions), align_up(4 * positions.len() as int, 8),
    ) + le64_all(slots);
    match table {
        None => s,
        Some((blocks, len)) => {
            let s = zero_padded(s, align_up(s.len() as int, 4)) + le32_all(blocks);
            zero_padded(s, align_up(s.len() as int, 4)) + le32(len)
        },
    }
}

/// Where the slots of `count` rows start.
pub open spec fn slots_at(count: int) -> int {
    align_up(4 * count, 8)
}

/// Where the block table of `count` rows starts.
pub open spec fn table_at(count: int) -> int {
    align_up(slots_at(count) + 8 * count, 4)
}

/// Where the length stands after a table of `blocks` entries.
pub open spec fn len_at(count: int, blocks: int) -> int {
    align_up(table_at(count) + 4 * blocks, 4)
}

/// The parts of packed metadata lie where the offsets say, one after the other.
pub proof fn lemma_packed_meta(positions: Seq<u32>, slots: Seq<u64>, blocks: Seq<u32>, len: u32)
    requires
        slots.len() == positions.len(),
    ensures
        ({
            let n = positions.len() as int;
            let flat = packed_meta(positions, slots, None);
            let full = packed_meta(positions, slots, Some((blocks, len)));
            &&& flat.len() == slots_at(n) + 8 * n
            &&& full.len() == len_at(n, blocks.len() as int) + 4
            &&& 4 * n <= slots_at(n)
            &&& slots_at(n) + 8 * n == table_at(n)
            &&& table_at(n) + 4 * blocks.len() == len_at(n, blocks.len() as int)
            &&& flat.subrange(0, 4 * n) == le32_all(positions)
            &&& flat.subrange(slots_at(n), slots_at(n) + 8 * n) == le64_all(slots)
            &&& full.subrange(0, flat.len() as int) == flat
            &&& full.subrange(table_at(n), table_at(n) + 4 * blocks.len()) == le32_all(blocks)
            &&& full.subrange(len_at(n, blocks.len() as int), full.len() as int) == le32(len)
        }),
{
    let n = positions.len() as int;
    lemma_le32_all_len(positions);
    lemma_le64_all_len(slots);
    lemma_le32_all_len(blocks);
    let flat = packed_meta(positions, slots, None);
    let full = packed_meta(positions, slots, Some((blocks, len)));
    assert(flat.subrange(0, 4 * n) =~= le32_all(positions));
    assert(flat.subrange(slots_at(n), slots_at(n) + 8 * n) =~= le64_all(slots));
    assert(full.subrange(0, flat.len() as int) =~= flat);
    assert(full.subrange(table_at(n), table_at(n) + 4 * blocks.len()) =~= le32_all(blocks));
    assert(full.subrange(len_at(n, blocks.len() as int), full.len() as int) =~= le32(len));
}

/// Packs positions and slots.
pub fn pack_meta(positions: &[u32], slots: &[u64]) -> (r: Vec<u8>)
    requires
        positions.len() == slots.len(),
        positions.len() * 4 + 7 <= usize::MAX,
    ensures
        r@ == packed_meta(positions@, slots@, None),
{
    let mut out: Vec<u8> = encode_le32(positions);
    pad_zeros(&mut out, (positions.len() * 4 + 7) / 8 * 8);
    let mut tail: Vec<u8> = encode_le64(slots);
    out.append(&mut tail);
    out
}

/// Packs positions, slots, block table and length.
pub fn pack_meta_table(positions: &[u32], slots: &[u64], blocks: &[u32], len: u32) -> (r: Vec<u8>)
    requires
        positions.len() == slots.len(),
        len_at(positions.len() as int, blocks.len() as int) + 3 <= usize::MAX,
    ensures
        r@ == packed_meta(positions@, slots@, Some((blocks@, len))),
{
    proof {
        lemma_packed_meta(positions@, slots@, blocks@, len);
        lemma_le32_all_len(blocks@);
    }
    let mut out: Vec<u8> = pack_meta(positions, slots);
    let at: usize = (out.len() + 3) / 4 * 4;
    pad_zeros(&mut out, at);
    let mut table: Vec<u8> = encode_le32(blocks);
    out.append(&mut table);
    let at: usize = (out.len() + 3) / 4 * 4;
    pad_zeros(&mut out, at);
    push_le32(&mut out, len);
    out
}

impl TransformerModel {
    /// Slots of positions `start..start + count`.
    pub open spec fn slots(&self, seq: &SequenceState, start: int, count: nat) -> Seq<u64> {
        Seq::new(
            count,
            |i: int| seq.slot(self.dummy_kv_block, self.block_size as int, start + i) as u64,
        )
    }

    pub fn slot_list(&self, seq: &SequenceState, start: usize, count: usize) -> (r: Vec<u64>)
        requires
            0 < self.block_size <= 0x8000_0000,
            start + count <= usize::MAX,
        ensures
            r@ == self.slots(seq, start as int, count as nat),
    {
        let mut out: Vec<u64> = Vec::new();
        let mut i: usize = 0;
        while i < count
            invariant
                i <= count,
                0 < self.block_size <= 0x8000_0000,
                start + count <= usize::MAX,
                out@ == self.slots(seq, start as int, i as nat),
            decreases count - i,
        {
            out.push(seq.slot_for(self.dummy_kv_block, self.block_size, start + i));
            i = i + 1;
            proof {
                assert(out@ =~= self.slots(seq, start as int, i as nat));
            }
        }
        out
    }

    // ---- one decoded sequence ----

    /// Where the metadata of decoded sequences is.
    pub open spec fn decode_meta_base(&self) -> DevicePtr {
        self.buffers.scratch.at(DECODE_META_OFFSET as int)
    }

    /// Uploads position, slot, length and block table of the next token.
    pub open spec fn decode_meta_program(
        &self,
        p: ProgramView,
        seq: &SequenceState,
        stream: u64,
    ) -> ProgramView {
        let base = self.decode_meta_base();
        p.upload(stream, le32(seq.seq_len as u32), base).upload(
            stream,
            le64(
                seq.slot(self.dummy_kv_block, self.block_size as int, seq.seq_len as int) as u64,
            ),
            base.at(DECODE_SLOT_OFFSET as int),
        ).upload(
            stream,
            le32((seq.seq_len + 1) as u32),
            base.at(DECODE_LEN_OFFSET as int),
        ).upload(stream, le32_all(seq.block_table@), base.at(DECODE_TABLE_OFFSET as int))
    }

    /// What the kernels are told of it.
    pub open spec fn decode_attn_metadata(&self, seq: &SequenceState) -> AttnMetadataDev {
        let base = self.decode_meta_base();
        AttnMetadataDev {
            positions: base,
            positions_h: base,
            positions_w: base,
            slot: base.at(DECODE_SLOT_OFFSET as int),
            seq_len: base.at(DECODE_LEN_OFFSET as int),
            block_table: base.at(DECODE_TABLE_OFFSET as int),
            max_blocks_per_seq: seq.block_table@.len() as u32,
            num_seqs: 1,
        }
    }

    pub(crate) fn upload_decode_meta(
        &self,
        program: &mut Program,
        seq: &SequenceState,
        stream: u64,
    ) -> (r: AttnMetadataDev)
        requires
            0 < self.block_size <= 0x8000_0000,
            seq.seq_len < usize::MAX,
        ensures
            final(program)@ == self.decode_meta_program(old(program)@, seq, stream),
            r == self.decode_attn_metadata(seq),
    {
        let base: DevicePtr = self.buffers.scratch.offset(DECODE_META_OFFSET);
        let slot: u64 = seq.slot_for(self.dummy_kv_block, self.block_size, seq.seq_len);
        program.upload(stream, le32_bytes(seq.seq_len as u32).as_slice(), base);
        program.upload(stream, le64_bytes(slot).as_slice(), base.offset(DECODE_SLOT_OFFSET));
        program.upload(
            stream,
            le32_bytes((seq.seq_len + 1) as u32).as_slice(),
            base.offset(DECODE_LEN_OFFSET),
        );
        let table: Vec<u8> = encode_le32(seq.block_table.as_slice());
        program.upload(stream, table.as_slice(), base.offset(DECODE_TABLE_OFFSET));
        AttnMetadataDev {
            positions: base,
            positions_h: base,
            positions_w: base,
            slot: base.offset(DECODE_SLOT_OFFSET),
            seq_len: base.offset(DECODE_LEN_OFFSET),
            block_table: base.offset(DECODE_TABLE_OFFSET),
            max_blocks_per_seq: seq.block_table.len() as u32,
            num_seqs: 1,
        }
    }

    // ---- a padded batch ----

    /// Position of row `i`: the sequence's length, or zero for padding.
    pub open spec fn batch_position(seqs: Seq<&SequenceState>, i: int) -> u32 {
        if i < seqs.len() {
            seqs[i].seq_len as u32
        } else {
            0
        }
    }

    /// Slot of row `i`; padding writes to the dummy block.
    pub open spec fn batch_slot(&self, seqs: Seq<&SequenceState>, i: int) -> u64 {
        if i < seqs.len() {
            seqs[i].slot(
                self.dummy_kv_block,
                self.block_size as int,
                Self::batch_position(seqs, i) as int,
            ) as u64
        } else {
            (self.dummy_kv_block * self.block_size) as u64
        }
    }

    /// Length that row `i` attends to; padding attends to one position.
    pub open spec fn batch_len(seqs: Seq<&SequenceState>, i: int) -> u32 {
        if i < seqs.len() {
            (seqs[i].seq_len + 1) as u32
        } else {
            1
        }
    }

    /// Entry `j` of the table of row `i`: the dummy block wherever the sequence
    /// has none.
    pub open spec fn batch_block(&self, seqs: Seq<&SequenceState>, i: int, j: int) -> u32 {
        if i < seqs.len() && j < seqs[i].block_table@.len() {
            seqs[i].block_table@[j]
        } else {
            self.dummy_kv_block
        }
    }

    pub open spec fn batch_table(&self, seqs: Seq<&SequenceState>, rows: nat) -> Seq<u32>
        decreases rows,
    {
        if rows == 0 {
            Seq::empty()
        } else {
            self.batch_table(seqs, (rows - 1) as nat) + Seq::new(
                self.max_blocks_per_seq as nat,
                |j: int| self.batch_block(seqs, rows - 1, j),
            )
        }
    }

    pub open spec fn batch_positions(seqs: Seq<&SequenceState>, rows: nat) -> Seq<u32> {
        Seq::new(rows, |i: int| Self::batch_position(seqs, i))
    }

    pub open spec fn batch_slots(&self, seqs: Seq<&SequenceState>, rows: nat) -> Seq<u64> {
        Seq::new(rows, |i: int| self.batch_slot(seqs, i))
    }

    pub open spec fn batch_lens(seqs: Seq<&SequenceState>, rows: nat) -> Seq<u32> {
        Seq::new(rows, |i: int| Self::batch_len(seqs, i))
    }

    /// Uploads the metadata of a batch padded to `rows` rows.
    pub open spec fn batch_meta_program(
        &self,
        seqs: Seq<&SequenceState>,
        rows: nat,
        base: DevicePtr,
        stream: u64,
    ) -> ProgramView {
        ProgramView::empty().upload(
            stream,
            le32_all(Self::batch_positions(seqs, rows)),
            base,
        ).upload(
            stream,
            le64_all(self.batch_slots(seqs, rows)),
            base.at(BATCH_SLOT_OFFSET as int),
        ).upload(
            stream,
            le32_all(Self::batch_lens(seqs, rows)),
            base.at(BATCH_LEN_OFFSET as int),
        ).upload(
            stream,
            le32_all(self.batch_table(seqs, rows)),
            base.at(BATCH_TABLE_OFFSET as int),
        )
    }

    pub open spec fn batch_attn_metadata(&self, rows: nat, base: DevicePtr) -> AttnMetadataDev {
        AttnMetadataDev {
            positions: base,
            positions_h: base,
            positions_w: base,
            slot: base.at(BATCH_SLOT_OFFSET as int),
            seq_len: base.at(BATCH_LEN_OFFSET as int),
            block_table: base.at(BATCH_TABLE_OFFSET as int),
            max_blocks_per_seq: self.max_blocks_per_seq,
            num_seqs: rows as u32,
        }
    }

    /// Entry `j` of row `i` stands at `i * max_blocks_per_seq + j`.
    pub proof fn lemma_batch_table(&self, seqs: Seq<&SequenceState>, rows: nat, i: int, j: int)
        requires
            0 <= i < rows,
            0 <= j < self.max_blocks_per_seq,
        ensures
            self.batch_table(seqs, rows).len() == rows * self.max_blocks_per_seq,
            0 <= i * self.max_blocks_per_seq + j < rows * self.max_blocks_per_seq,
            self.batch_table(seqs, rows)[i * self.max_blocks_per_seq + j] == self.batch_block(
                seqs,
                i,
                j,
            ),
        decreases rows,
    {
        let mb = self.max_blocks_per_seq as int;
        self.lemma_batch_table_len(seqs, (rows - 1) as nat);
        self.lemma_batch_table_len(seqs, rows);
        assert(0 <= i * mb + j < rows * mb) by (nonlinear_arith)
            requires
                0 <= i < rows,
                0 <= j < mb,
        ;
        if i < rows - 1 {
            self.lemma_batch_table(seqs, (rows - 1) as nat, i, j);
        }
    }

    proof fn lemma_batch_table_len(&self, seqs: Seq<&SequenceState>, rows: nat)
        ensures
            self.batch_table(seqs, rows).len() == rows * self.max_blocks_per_seq,
        decreases rows,
    {
        let mb = self.max_blocks_per_seq as int;
        if rows > 0 {
            self.lemma_batch_table_len(seqs, (rows - 1) as nat);
            assert((rows - 1) * mb + mb == rows * mb) by (nonlinear_arith);
        } else {
            assert(rows * mb == 0) by (nonlinear_arith)
                requires
                    rows == 0,
            ;
        }
    }

    /// Up to `BATCH_META_CAPACITY` rows, the four parts do not overlap.
    pub proof fn lemma_batch_parts_disjoint(&self, seqs: Seq<&SequenceState>, rows: nat)
        requires
            rows <= BATCH_META_CAPACITY,
        ensures
            le32_all(Self::batch_positions(seqs, rows)).len() <= BATCH_SLOT_OFFSET,
            BATCH_SLOT_OFFSET + le64_all(self.batch_slots(seqs, rows)).len() <= BATCH_LEN_OFFSET,
            BATCH_LEN_OFFSET + le32_all(Self::batch_lens(seqs, rows)).len() <= BATCH_TABLE_OFFSET,
    {
        lemma_le32_all_len(Self::batch_positions(seqs, rows));
        lemma_le64_all_len(self.batch_slots(seqs, rows));
        lemma_le32_all_len(Self::batch_lens(seqs, rows));
    }

    /// A decoded sequence that has a block for its next position writes inside
    /// that block, and the parts of its metadata do not overlap.
    pub proof fn lemma_decode_slot(&self, seq: &SequenceState)
        requires
            self.block_size > 0,
            seq.hss_window_start == 0,
            seq.seq_len / self.block_size < seq.block_table@.len(),
        ensures
            ({
                let bs = self.block_size as int;
                let b = seq.block_table@[seq.seq_len as int / bs];
                b * bs <= seq.slot(self.dummy_kv_block, bs, seq.seq_len as int) < (b + 1) * bs
            }),
            le32(seq.seq_len as u32).len() <= DECODE_SLOT_OFFSET,
            DECODE_SLOT_OFFSET + le64(0).len() <= DECODE_LEN_OFFSET,
            DECODE_LEN_OFFSET + le32(seq.seq_len as u32).len() <= DECODE_TABLE_OFFSET,
    {
        let bs = self.block_size as int;
        let b = seq.block_table@[seq.seq_len as int / bs] as int;
        vstd::arithmetic::div_mod::lemma_mod_bound(seq.seq_len as int, bs);
        vstd::arithmetic::div_mod::lemma_div_pos_is_pos(seq.seq_len as int, bs);
        assert((b + 1) * bs == b * bs + bs) by (nonlinear_arith);
    }

    /// Plans the upload of batch metadata to the decode area.
    pub fn upload_batch_metadata_fixed(
        &self,
        seqs: &[&SequenceState],
        padded_n: usize,
        stream: u64,
    ) -> (r: (Program, AttnMetadataDev))
        requires
            self.batch_fits(seqs@, padded_n),
        ensures
            r.0@ == self.batch_meta_program(
                seqs@,
                padded_n as nat,
                self.decode_meta_base(),
                stream,
            ),
            r.1 == self.batch_attn_metadata(padded_n as nat, self.decode_meta_base()),
    {
        self.upload_batch_metadata_at(
            seqs,
            padded_n,
            self.buffers.scratch.offset(DECODE_META_OFFSET),
            stream,
        )
    }

    pub open spec fn batch_fits(&self, seqs: Seq<&SequenceState>, padded_n: usize) -> bool {
        &&& seqs.len() <= padded_n
        &&& 0 < self.block_size <= 0x8000_0000
        &&& forall|i: int| 0 <= i < seqs.len() ==> #[trigger] seqs[i].seq_len < usize::MAX
    }

    /// Plans the upload of batch metadata to `meta_base`.
    pub fn upload_batch_metadata_at(
        &self,
        seqs: &[&SequenceState],
        padded_n: usize,
        meta_base: DevicePtr,
        stream: u64,
    ) -> (r: (Program, AttnMetadataDev))
        requires
            self.batch_fits(seqs@, padded_n),
        ensures
            r.0@ == self.batch_meta_program(seqs@, padded_n as nat, meta_base, stream),
            r.1 == self.batch_attn_metadata(padded_n as nat, meta_base),
    {
        let n: usize = seqs.len();
        let mb: usize = self.max_blocks_per_seq as usize;
        let mut pos: Vec<u32> = Vec::new();
        let mut slots: Vec<u64> = Vec::new();
        let mut lens: Vec<u32> = Vec::new();
        let mut table: Vec<u32> = Vec::new();
        let mut i: usize = 0;
        while i < padded_n
            invariant
                i <= padded_n,
                n == seqs@.len(),
                mb == self.max_blocks_per_seq,
                self.batch_fits(seqs@, padded_n),
                pos@ == Self::batch_positions(seqs@, i as nat),
                slots@ == self.batch_slots(seqs@, i as nat),
                lens@ == Self::batch_lens(seqs@, i as nat),
                table@ == self.batch_table(seqs@, i as nat),
            decreases padded_n - i,
        {
            if i < n {
                let seq: &SequenceState = seqs[i];
                let p: u32 = seq.seq_len as u32;
                pos.push(p);
                slots.push(seq.slot_for(self.dummy_kv_block, self.block_size, p as usize));
                lens.push((seq.seq_len + 1) as u32);
            } else {
                pos.push(0);
                proof {
                    assert(self.dummy_kv_block * self.block_size <= 0xffff_ffff * 0x8000_0000)
                        by (nonlinear_arith)
                        requires
                            self.dummy_kv_block <= 0xffff_ffff,
                            0 < self.block_size <= 0x8000_0000,
                    ;
                }
                slots.push(self.dummy_kv_block as u64 * self.block_size as u64);
                lens.push(1);
            }
            let ghost before = table@;
            let mut j: usize = 0;
            while j < mb
                invariant
                    i < padded_n,
                    j <= mb,
                    n == seqs@.len(),
                    mb == self.max_blocks_per_seq,
                    table@ == before + Seq::new(
                        j as nat,
                        |k: int| self.batch_block(seqs@, i as int, k),
                    ),
                decreases mb - j,
            {
                let b: u32 = if i < n && j < seqs[i].block_table.len() {
                    seqs[i].block_table[j]
                } else {
                    self.dummy_kv_block
                };
                table.push(b);
                j = j + 1;
                proof {
                    assert(table@ =~= before + Seq::new(
                        j as nat,
                        |k: int| self.batch_block(seqs@, i as int, k),
                    ));
                }
            }
            i = i + 1;
            proof {
                assert(pos@ =~= Self::batch_positions(seqs@, i as nat));
                assert(slots@ =~= self.batch_slots(seqs@, i as nat));
                assert(lens@ =~= Self::batch_lens(seqs@, i as nat));
                assert(table@ =~= self.batch_table(seqs@, i as nat));
            }
        }
        let mut program: Program = Program::new();
        program.upload(stream, encode_le32(pos.as_slice()).as_slice(), meta_base);
        program.upload(
            stream,
            encode_le64(slots.as_slice()).as_slice(),
            meta_base.offset(BATCH_SLOT_OFFSET),
        );
        program.upload(
            stream,
            encode_le32(lens.as_slice()).as_slice(),
            meta_base.offset(BATCH_LEN_OFFSET),
        );
        program.upload(
            stream,
            encode_le32(table.as_slice()).as_slice(),
            meta_base.offset(BATCH_TABLE_OFFSET),
        );
        (
            program,
            AttnMetadataDev {
                positions: meta_base,
                positions_h: meta_base,
                positions_w: meta_base,
                slot: meta_base.offset(BATCH_SLOT_OFFSET),
                seq_len: meta_base.offset(BATCH_LEN_OFFSET),
                block_table: meta_base.offset(BATCH_TABLE_OFFSET),
                max_blocks_per_seq: self.max_blocks_per_seq,
                num_seqs: padded_n as u32,
            },
        )
    }
}

} // verus!
