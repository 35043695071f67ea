//! What the checks on a checkpoint and its layout promise, in terms of names
//! and sizes.

use crate::config::ModelConfig;
use crate::preflight::{
    bias_fits, drafts_supported, expert_after, expert_index, has_embedding, is_bias, is_embedding,
    is_head, layer_index, layer_tail, leading_size, lemma_max_expert, lemma_max_layer, max_expert,
    max_layer, passes, quant_ok, second_piece, TensorInfo,
};
use crate::quant_format::{
    detect_quant_format, glob, lemma_listed_by_texts, texts, DetectedFormat, Nvfp4Variant,
    QuantFormat,
};
use crate::readback::bf16_values;
use crate::text::{
    ends_with, find_from, is_digit, lemma_find_from, lemma_written, occurs_at, starts_with, written,
};
use vstd::prelude::*;

verus! {

// ---- names ----

proof fn lemma_suffix(p: Seq<char>, t: Seq<char>)
    ensures
        ends_with(p + t, t),
{
    assert((p + t).subrange(p.len() as int, (p + t).len() as int) =~= t);
}

/// Whatever stands before them, the usual names are taken for what they are.
pub proof fn lemma_usual_names(p: Seq<char>)
    ensures
        is_embedding(p + ".embed_tokens.weight"@),
        is_embedding(p + ".embeddings.weight"@),
        is_embedding(p + ".word_embeddings.weight"@),
        is_embedding("tok_embeddings.weight"@),
        is_head(p + "lm_head.weight"@),
        is_head("output.weight"@),
        is_bias(p + ".e_score_correction_bias"@),
        is_bias(p + ".correction_bias"@),
{
    lemma_suffix(p, ".embed_tokens.weight"@);
    lemma_suffix(p, ".embeddings.weight"@);
    lemma_suffix(p, ".word_embeddings.weight"@);
    lemma_suffix(p, "lm_head.weight"@);
    lemma_suffix(p, ".e_score_correction_bias"@);
    lemma_suffix(p, ".correction_bias"@);
}

/// A number that is written before a dot is read as that number.
pub proof fn lemma_number_read(n: usize, rest: Seq<char>)
    ensures
        leading_size(written(n as nat) + "."@ + rest) == Some(n),
{
    reveal_strlit(".");
    let w = written(n as nat);
    let s = w + "."@ + rest;
    lemma_written(n as nat);
    lemma_find_from(s, "."@, 0);
    assert(s.subrange(w.len() as int, w.len() as int + 1) =~= "."@);
    assert(occurs_at(s, "."@, w.len() as int));
    let at = find_from(s, "."@, 0)->0;
    if at < w.len() {
        assert(s.subrange(at, at + 1)[0] == s[at]);
        assert(s[at] == w[at]);
        assert(is_digit(w[at]));
    }
    assert(s.take(w.len() as int) =~= w);
    assert(is_digit(w[0]));
}

/// The number behind the first `.layers.` of a name is its layer, and so is the
/// number behind `layers.` at the front of a name without the other.
pub proof fn lemma_layer_named(p: Seq<char>, n: usize, rest: Seq<char>)
    ensures
        ({
            let name = p + ".layers."@ + (written(n as nat) + "."@ + rest);
            (forall|i: int| 0 <= i < p.len() ==> !occurs_at(name, ".layers."@, i)) ==> layer_index(
                name,
            ) == Some(n)
        }),
        ({
            let name = "layers."@ + (written(n as nat) + "."@ + rest);
            (forall|i: int| 0 <= i ==> !occurs_at(name, ".layers."@, i)) ==> layer_index(name)
                == Some(n)
        }),
{
    lemma_number_read(n, rest);
    let tail = written(n as nat) + "."@ + rest;
    let name = p + ".layers."@ + tail;
    if forall|i: int| 0 <= i < p.len() ==> !occurs_at(name, ".layers."@, i) {
        lemma_find_from(name, ".layers."@, 0);
        assert(name.subrange(p.len() as int, p.len() as int + ".layers."@.len()) =~= ".layers."@);
        assert(occurs_at(name, ".layers."@, p.len() as int));
        assert(name.skip(p.len() as int + ".layers."@.len()) =~= tail);
    }
    let front = "layers."@ + tail;
    if forall|i: int| 0 <= i ==> !occurs_at(front, ".layers."@, i) {
        lemma_find_from(front, ".layers."@, 0);
        assert(front.subrange(0, "layers."@.len() as int) =~= "layers."@);
        assert(starts_with(front, "layers."@));
        assert(front.skip("layers."@.len() as int) =~= tail);
        assert(layer_tail(front) == Some(tail));
    }
}

/// The number behind one of the usual markers is the expert of a tensor, where
/// the marker stands once and no other usual one does.
pub proof fn lemma_expert_named(p: Seq<char>, marker: Seq<char>, n: usize, rest: Seq<char>)
    requires
        marker == ".block_sparse_moe.experts."@ || marker == ".mlp.experts."@ || marker
            == ".feed_forward.experts."@ || marker == ".experts."@,
        ({
            let name = p + marker + (written(n as nat) + "."@ + rest);
            &&& forall|i: int| 0 <= i && i != p.len() ==> !occurs_at(name, marker, i)
            &&& forall|i: int|
                0 <= i && marker != ".block_sparse_moe.experts."@ ==> !occurs_at(
                    name,
                    ".block_sparse_moe.experts."@,
                    i,
                )
            &&& forall|i: int|
                0 <= i && marker != ".mlp.experts."@ ==> !occurs_at(name, ".mlp.experts."@, i)
            &&& forall|i: int|
                0 <= i && marker != ".feed_forward.experts."@ ==> !occurs_at(
                    name,
                    ".feed_forward.experts."@,
                    i,
                )
        }),
    ensures
        expert_index(p + marker + (written(n as nat) + "."@ + rest)) == Some(n),
{
    reveal_strlit(".experts.");
    lemma_number_read(n, rest);
    let tail = written(n as nat) + "."@ + rest;
    let name = p + marker + tail;
    let from = p.len() + marker.len();
    lemma_find_from(name, ".block_sparse_moe.experts."@, 0);
    lemma_find_from(name, ".mlp.experts."@, 0);
    lemma_find_from(name, ".feed_forward.experts."@, 0);
    lemma_find_from(name, marker, 0);
    lemma_find_from(name, marker, from as int);
    assert(name.subrange(p.len() as int, from as int) =~= marker);
    assert(occurs_at(name, marker, p.len() as int));
    assert(find_from(name, marker, 0) == Some(p.len() as int));
    reveal_strlit(".block_sparse_moe.experts.");
    reveal_strlit(".mlp.experts.");
    reveal_strlit(".feed_forward.experts.");
    assert(marker.len() > 0);
    assert(find_from(name, marker, from as int) is None);
    assert(name.skip(from as int) =~= tail);
    assert(second_piece(name, marker) == Some(tail));
    assert(expert_after(name, marker) == Some(n));
}

// ---- sizes ----

/// A checkpoint passes exactly if its method is supported and it holds an
/// embedding, the last layer or a later one, no expert past the configured
/// ones, and router biases of one element per expert; and where drafting is
/// asked for, layers past the last only for families that can draft.
pub proof fn lemma_passes(store: Seq<TensorInfo>, c: &ModelConfig, speculative: bool)
    ensures
        passes(store, c, speculative) <==> {
            &&& quant_ok(c)
            &&& has_embedding(store)
            &&& exists|i: int|
                0 <= i < store.len() && layer_index(#[trigger] store[i].name@) is Some
                    && layer_index(store[i].name@)->0 + 1 >= c.num_hidden_layers
            &&& c.num_experts > 0 ==> forall|i: int|
                0 <= i < store.len() && expert_index(#[trigger] store[i].name@) is Some
                    ==> expert_index(store[i].name@)->0 < c.num_experts
            &&& c.num_experts > 0 ==> forall|i: int|
                0 <= i < store.len() && is_bias(#[trigger] store[i].name@)
                    ==> store[i].num_elements == c.num_experts
            &&& speculative && (exists|i: int|
                0 <= i < store.len() && layer_index(#[trigger] store[i].name@) is Some
                    && layer_index(store[i].name@)->0 >= c.num_hidden_layers) ==> drafts_supported(
                c.model_type@,
            )
        },
{
    let n = store.len();
    lemma_max_layer(store, n);
    lemma_max_expert(store, n);
    if max_layer(store, n) is Some {
        let m = max_layer(store, n)->0;
        let i = choose|i: int| 0 <= i < n && layer_index(#[trigger] store[i].name@) == Some(m);
        assert(layer_index(store[i].name@) == Some(m));
    }
    if max_expert(store, n) is Some {
        let m = max_expert(store, n)->0;
        let i = choose|i: int| 0 <= i < n && expert_index(#[trigger] store[i].name@) == Some(m);
        assert(expert_index(store[i].name@) == Some(m));
    }
    assert forall|i: int| 0 <= i < n implies (bias_fits(#[trigger] store[i], c) <==> (is_bias(
        store[i].name@,
    ) ==> store[i].num_elements == c.num_experts)) by {}
    if forall|i: int|
        0 <= i < n && is_bias(#[trigger] store[i].name@) ==> store[i].num_elements
            == c.num_experts {
        assert forall|i: int| 0 <= i < n implies bias_fits(#[trigger] store[i], c) by {
            assert(is_bias(store[i].name@) ==> store[i].num_elements == c.num_experts);
        }
    }
}

// ---- layouts ----

/// A declared method that is known decides how modules are stored; without one,
/// the weights do. A module is left unquantized exactly if the configuration
/// lists it, except where the weights show no quantization at all.
pub proof fn lemma_detected(
    c: &ModelConfig,
    observed: Nvfp4Variant,
    f: DetectedFormat,
    path: Seq<char>,
)
    requires
        call_ensures(detect_quant_format, (c, observed), f),
    ensures
        c.quantization_config matches Some(q) ==> {
            &&& q.quant_method@ == "modelopt"@ ==> f.base() == Nvfp4Variant::Standard
            &&& q.quant_method@ == "compressed-tensors"@ ==> f.base()
                == Nvfp4Variant::CompressedTensors
            &&& q.quant_method@ == "fp8"@ ==> f.base() == Nvfp4Variant::Fp8Dequanted
            &&& q.quant_method@ == "modelopt"@ || q.quant_method@ == "compressed-tensors"@
                || q.quant_method@ == "fp8"@ || observed != Nvfp4Variant::Bf16Raw ==> (f.ignored(
                path,
            ) <==> exists|i: int|
                0 <= i < q.ignore_modules@.len() && glob(path, #[trigger] q.ignore_modules@[i]@))
        },
        c.quantization_config is None ==> f.base() == observed && !f.ignored(path),
        c.quantization_config matches Some(q) && q.quant_method@ == Seq::<char>::empty()
            ==> f.base() == observed,
{
    reveal_strlit("modelopt");
    reveal_strlit("compressed-tensors");
    reveal_strlit("fp8");
    assert("modelopt"@.len() == 8 && "compressed-tensors"@.len() == 18 && "fp8"@.len() == 3);
    let list = match f {
        DetectedFormat::CompressedTensors(x) => x.ignore@,
        DetectedFormat::Modelopt(x) => x.ignore@,
        DetectedFormat::Fp8BlockScaled(x) => x.ignore@,
    };
    assert(list.len() == texts(list).len());
    if c.quantization_config is Some {
        let given = c.quantization_config->0.ignore_modules@;
        if texts(list) == texts(given) {
            lemma_listed_by_texts(list, given, path);
        }
    }
}

// ---- numbers ----

/// Half-precision numbers that were written low byte first are read back as the
/// upper halves of as many words.
pub proof fn lemma_halves_read(xs: Seq<u16>, b: Seq<u8>)
    requires
        b.len() == 2 * xs.len(),
        forall|i: int| 0 <= i < xs.len() ==> b[2 * i] == (#[trigger] xs[i]) % 256,
        forall|i: int| 0 <= i < xs.len() ==> b[2 * i + 1] == (#[trigger] xs[i]) / 256,
    ensures
        bf16_values(b) == Seq::new(xs.len(), |i: int| (xs[i] * 65536) as u32),
{
    let vs = bf16_values(b);
    assert forall|i: int| 0 <= i < xs.len() implies vs[i] == (xs[i] * 65536) as u32 by {
        assert(b[2 * i] + b[2 * i + 1] * 256 == xs[i]);
    }
    assert(vs =~= Seq::new(xs.len(), |i: int| (xs[i] * 65536) as u32));
}

} // verus!
