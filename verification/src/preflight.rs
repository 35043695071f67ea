//! Checks that a checkpoint fits its configuration, made before anything is
//! loaded. Only the names and sizes of the tensors are looked at.

use crate::config::ModelConfig;
use crate::text::{
    chars_of, ends_with, find, find_from, has_suffix, lemma_find_from, parse_size, same,
    size_of_text, stands_at, starts_with,
};
use vstd::prelude::*;

verus! {

/// A tensor of a checkpoint.
pub struct TensorInfo {
    pub name: String,
    pub num_elements: usize,
}

/// Why a checkpoint is refused.
#[derive(Clone, Copy, PartialEq, Eq, Structural, Debug)]
pub enum PreflightError {
    /// The declared quantization method is not supported.
    UnknownQuantMethod,
    NoEmbedding,
    /// No layer at all; (layers expected).
    NoLayers(usize),
    /// Highest layer index, layers expected.
    TooFewLayers(usize, usize),
    /// Highest expert index, experts expected.
    TooManyExperts(usize, usize),
    /// A router bias of the wrong size: (position of the tensor, elements, experts).
    BiasSize(usize, usize, usize),
    /// The extra layers of the checkpoint cannot be used for drafting.
    DraftLayersUnsupported,
}

/// What the checks found.
#[derive(Clone, Copy, PartialEq, Eq, Structural, Debug)]
pub struct PreflightReport {
    /// Highest layer index of the checkpoint.
    pub max_layer: usize,
    /// Whether there is a head besides the embedding.
    pub has_head: bool,
}

// ---- quantization method ----

pub open spec fn method_supported(m: Seq<char>) -> bool {
    m.len() == 0 || m == "compressed-tensors"@ || m == "modelopt"@ || m == "fp8"@
}

/// No quantization is declared, or one with a supported method or none.
pub open spec fn quant_ok(c: &ModelConfig) -> bool {
    match c.quantization_config {
        Some(q) => method_supported(q.quant_method@),
        None => true,
    }
}

pub fn check_quant_method(c: &ModelConfig) -> (r: Result<(), PreflightError>)
    ensures
        match r {
            Ok(_) => quant_ok(c),
            Err(e) => !quant_ok(c) && e == PreflightError::UnknownQuantMethod,
        },
{
    match &c.quantization_config {
        None => Ok(()),
        Some(q) => {
            let m: &str = q.quant_method.as_str();
            if m.is_empty() || same(m, "compressed-tensors") || same(m, "modelopt") || same(
                m,
                "fp8",
            ) {
                Ok(())
            } else {
                Err(PreflightError::UnknownQuantMethod)
            }
        },
    }
}

// ---- embedding and head ----

pub open spec fn is_embedding(name: Seq<char>) -> bool {
    name == "tok_embeddings.weight"@ || ends_with(name, ".embed_tokens.weight"@) || ends_with(
        name,
        ".embeddings.weight"@,
    ) || ends_with(name, ".word_embeddings.weight"@)
}

pub open spec fn is_head(name: Seq<char>) -> bool {
    ends_with(name, "lm_head.weight"@) || name == "output.weight"@
}

pub open spec fn has_embedding(store: Seq<TensorInfo>) -> bool {
    exists|i: int| 0 <= i < store.len() && is_embedding(#[trigger] store[i].name@)
}

pub open spec fn has_head(store: Seq<TensorInfo>) -> bool {
    exists|i: int| 0 <= i < store.len() && is_head(#[trigger] store[i].name@)
}

/// There has to be an embedding. A head is optional: embeddings can be tied.
/// Returns whether there is one.
pub fn check_embedding_and_head(store: &[TensorInfo]) -> (r: Result<bool, PreflightError>)
    ensures
        match r {
            Ok(head) => has_embedding(store@) && head == has_head(store@),
            Err(e) => !has_embedding(store@) && e == PreflightError::NoEmbedding,
        },
{
    let mut embedding: bool = false;
    let mut head: bool = false;
    let mut i: usize = 0;
    while i < store.len()
        invariant
            i <= store@.len(),
            embedding == (exists|j: int| 0 <= j < i && is_embedding(#[trigger] store@[j].name@)),
            head == (exists|j: int| 0 <= j < i && is_head(#[trigger] store@[j].name@)),
        decreases store@.len() - i,
    {
        let n: &str = store[i].name.as_str();
        if same(n, "tok_embeddings.weight") || has_suffix(n, ".embed_tokens.weight") || has_suffix(
            n,
            ".embeddings.weight",
        ) || has_suffix(n, ".word_embeddings.weight") {
            proof {
                assert(is_embedding(store@[i as int].name@));
            }
            embedding = true;
        }
        if has_suffix(n, "lm_head.weight") || same(n, "output.weight") {
            proof {
                assert(is_head(store@[i as int].name@));
            }
            head = true;
        }
        i = i + 1;
    }
    if embedding {
        Ok(head)
    } else {
        Err(PreflightError::NoEmbedding)
    }
}

// ---- layers ----

/// The number before the first dot.
pub open spec fn leading_size(s: Seq<char>) -> Option<usize> {
    match find_from(s, "."@, 0) {
        Some(end) => size_of_text(s.take(end)),
        None => None,
    }
}

/// What follows `.layers.`, wherever it first stands, or `layers.` at the
/// front.
pub open spec fn layer_tail(name: Seq<char>) -> Option<Seq<char>> {
    match find_from(name, ".layers."@, 0) {
        Some(p) => Some(name.skip(p + ".layers."@.len())),
        None => if starts_with(name, "layers."@) {
            Some(name.skip("layers."@.len() as int))
        } else {
            None
        },
    }
}

/// The layer that a tensor belongs to.
pub open spec fn layer_index(name: Seq<char>) -> Option<usize> {
    match layer_tail(name) {
        Some(t) => leading_size(t),
        None => None,
    }
}

/// The number before the first dot of `s[from..to]`.
fn read_leading_size(s: &[char], from: usize, to: usize) -> (r: Option<usize>)
    requires
        from <= to <= s.len(),
    ensures
        r == leading_size(s@.subrange(from as int, to as int)),
{
    let part: &[char] = vstd::slice::slice_subrange(s, from, to);
    proof {
        lemma_find_from(part@, "."@, 0);
    }
    match find(part, ".", 0) {
        Some(end) => {
            let digits: &[char] = vstd::slice::slice_subrange(part, 0, end);
            proof {
                assert(digits@ =~= part@.take(end as int));
            }
            parse_size(digits)
        },
        None => None,
    }
}

fn read_layer_index(name: &str) -> (r: Option<usize>)
    ensures
        r == layer_index(name@),
{
    let s: Vec<char> = chars_of(name);
    let marker: Vec<char> = chars_of(".layers.");
    let front: Vec<char> = chars_of("layers.");
    proof {
        assert(front@.subrange(0, front@.len() as int) =~= front@);
    }
    match find(s.as_slice(), ".layers.", 0) {
        Some(p) => {
            proof {
                assert(s@.subrange(p + marker@.len(), s@.len() as int) =~= name@.skip(
                    p + marker@.len(),
                ));
            }
            read_leading_size(s.as_slice(), p + marker.len(), s.len())
        },
        None => {
            if stands_at(s.as_slice(), front.as_slice(), 0, front.len(), 0) {
                proof {
                    assert(s@.subrange(front@.len() as int, s@.len() as int) =~= name@.skip(
                        front@.len() as int,
                    ));
                }
                read_leading_size(s.as_slice(), front.len(), s.len())
            } else {
                None
            }
        },
    }
}

/// The larger of an optional number and another.
pub open spec fn larger(a: Option<usize>, b: Option<usize>) -> Option<usize> {
    match (a, b) {
        (Some(x), Some(y)) => Some(if x >= y { x } else { y }),
        (Some(x), None) => Some(x),
        (None, y) => y,
    }
}

fn take_larger(a: Option<usize>, b: Option<usize>) -> (r: Option<usize>)
    ensures
        r == larger(a, b),
{
    match (a, b) {
        (Some(x), Some(y)) => if x >= y {
            Some(x)
        } else {
            Some(y)
        },
        (Some(x), None) => Some(x),
        (None, y) => y,
    }
}

/// The highest layer index among the first `n` tensors.
pub open spec fn max_layer(store: Seq<TensorInfo>, n: nat) -> Option<usize>
    decreases n,
{
    if n == 0 {
        None
    } else {
        larger(max_layer(store, (n - 1) as nat), layer_index(store[n - 1].name@))
    }
}

/// The highest index is that of some tensor, and no tensor has a higher one.
pub proof fn lemma_max_layer(store: Seq<TensorInfo>, n: nat)
    requires
        n <= store.len(),
    ensures
        match max_layer(store, n) {
            Some(m) => {
                &&& exists|i: int| 0 <= i < n && layer_index(#[trigger] store[i].name@) == Some(m)
                &&& forall|i: int|
                    0 <= i < n && layer_index(#[trigger] store[i].name@) is Some ==> layer_index(
                        store[i].name@,
                    )->0 <= m
            },
            None => forall|i: int| 0 <= i < n ==> layer_index(#[trigger] store[i].name@) is None,
        },
    decreases n,
{
    if n > 0 {
        lemma_max_layer(store, (n - 1) as nat);
        let earlier = max_layer(store, (n - 1) as nat);
        if max_layer(store, n) is Some && max_layer(store, n) != earlier {
            assert(layer_index(store[n - 1].name@) == max_layer(store, n));
        } else if earlier is Some {
            let i = choose|i: int|
                0 <= i < n - 1 && layer_index(#[trigger] store[i].name@) == Some(earlier->0);
            assert(layer_index(store[i].name@) == max_layer(store, n));
        }
    }
}

/// Checks that the checkpoint has all layers. Returns the highest layer index;
/// layers past the configured ones are for drafting.
pub fn check_layer_count(store: &[TensorInfo], c: &ModelConfig) -> (r: Result<
    usize,
    PreflightError,
>)
    ensures
        match r {
            Ok(m) => max_layer(store@, store@.len()) == Some(m) && m + 1 >= c.num_hidden_layers,
            Err(PreflightError::NoLayers(n)) => max_layer(store@, store@.len()) is None && n
                == c.num_hidden_layers,
            Err(PreflightError::TooFewLayers(m, n)) => max_layer(store@, store@.len()) == Some(m)
                && m + 1 < c.num_hidden_layers && n == c.num_hidden_layers,
            Err(_) => false,
        },
{
    let mut max: Option<usize> = None;
    let mut i: usize = 0;
    while i < store.len()
        invariant
            i <= store@.len(),
            max == max_layer(store@, i as nat),
        decreases store@.len() - i,
    {
        max = take_larger(max, read_layer_index(store[i].name.as_str()));
        i = i + 1;
    }
    match max {
        None => Err(PreflightError::NoLayers(c.num_hidden_layers)),
        Some(m) => {
            if c.num_hidden_layers > 0 && m < c.num_hidden_layers - 1 {
                Err(PreflightError::TooFewLayers(m, c.num_hidden_layers))
            } else {
                Ok(m)
            }
        },
    }
}

// ---- experts ----

/// What stands between the first two places of `marker` in `name`, or after the
/// only one.
pub open spec fn second_piece(name: Seq<char>, marker: Seq<char>) -> Option<Seq<char>> {
    match find_from(name, marker, 0) {
        Some(p) => {
            let from = p + marker.len();
            match find_from(name, marker, from) {
                Some(q) => Some(name.subrange(from, q)),
                None => Some(name.skip(from)),
            }
        },
        None => None,
    }
}

pub open spec fn expert_after(name: Seq<char>, marker: Seq<char>) -> Option<usize> {
    match second_piece(name, marker) {
        Some(t) => leading_size(t),
        None => None,
    }
}

/// The expert that a tensor belongs to, under any of the usual names.
pub open spec fn expert_index(name: Seq<char>) -> Option<usize> {
    if expert_after(name, ".block_sparse_moe.experts."@) is Some {
        expert_after(name, ".block_sparse_moe.experts."@)
    } else if expert_after(name, ".mlp.experts."@) is Some {
        expert_after(name, ".mlp.experts."@)
    } else if expert_after(name, ".feed_forward.experts."@) is Some {
        expert_after(name, ".feed_forward.experts."@)
    } else {
        expert_after(name, ".experts."@)
    }
}

fn read_expert_after(s: &[char], marker: &str) -> (r: Option<usize>)
    ensures
        r == expert_after(s@, marker@),
{
    let m: Vec<char> = chars_of(marker);
    match find(s, marker, 0) {
        Some(p) => {
            let from: usize = p + m.len();
            proof {
                lemma_find_from(s@, marker@, from as int);
                assert(s@.subrange(from as int, s@.len() as int) =~= s@.skip(from as int));
            }
            match find(s, marker, from) {
                Some(q) => read_leading_size(s, from, q),
                None => read_leading_size(s, from, s.len()),
            }
        },
        None => None,
    }
}

pub fn extract_expert_idx(name: &str) -> (r: Option<usize>)
    ensures
        r == expert_index(name@),
{
    let s: Vec<char> = chars_of(name);
    match read_expert_after(s.as_slice(), ".block_sparse_moe.experts.") {
        Some(e) => {
            return Some(e);
        },
        None => {},
    }
    match read_expert_after(s.as_slice(), ".mlp.experts.") {
        Some(e) => {
            return Some(e);
        },
        None => {},
    }
    match read_expert_after(s.as_slice(), ".feed_forward.experts.") {
        Some(e) => {
            return Some(e);
        },
        None => {},
    }
    read_expert_after(s.as_slice(), ".experts.")
}

/// The highest expert index among the first `n` tensors.
pub open spec fn max_expert(store: Seq<TensorInfo>, n: nat) -> Option<usize>
    decreases n,
{
    if n == 0 {
        None
    } else {
        larger(max_expert(store, (n - 1) as nat), expert_index(store[n - 1].name@))
    }
}

/// The highest expert index is that of some tensor, and no tensor has a higher one.
pub proof fn lemma_max_expert(store: Seq<TensorInfo>, n: nat)
    requires
        n <= store.len(),
    ensures
        match max_expert(store, n) {
            Some(m) => {
                &&& exists|i: int| 0 <= i < n && expert_index(#[trigger] store[i].name@) == Some(m)
                &&& forall|i: int|
                    0 <= i < n && expert_index(#[trigger] store[i].name@) is Some ==> expert_index(
                        store[i].name@,
                    )->0 <= m
            },
            None => forall|i: int| 0 <= i < n ==> expert_index(#[trigger] store[i].name@) is None,
        },
    decreases n,
{
    if n > 0 {
        lemma_max_expert(store, (n - 1) as nat);
        let earlier = max_expert(store, (n - 1) as nat);
        if max_expert(store, n) is Some && max_expert(store, n) != earlier {
            assert(expert_index(store[n - 1].name@) == max_expert(store, n));
        } else if earlier is Some {
            let i = choose|i: int|
                0 <= i < n - 1 && expert_index(#[trigger] store[i].name@) == Some(earlier->0);
            assert(expert_index(store[i].name@) == max_expert(store, n));
        }
    }
}

/// No expert is past the configured number. A rank may hold none.
pub open spec fn experts_ok(store: Seq<TensorInfo>, c: &ModelConfig) -> bool {
    c.num_experts == 0 || match max_expert(store, store.len()) {
        Some(m) => m < c.num_experts,
        None => true,
    }
}

pub fn check_expert_count(store: &[TensorInfo], c: &ModelConfig) -> (r: Result<
    (),
    PreflightError,
>)
    ensures
        match r {
            Ok(_) => experts_ok(store@, c),
            Err(PreflightError::TooManyExperts(m, n)) => !experts_ok(store@, c) && max_expert(
                store@,
                store@.len(),
            ) == Some(m) && n == c.num_experts,
            Err(_) => false,
        },
{
    if c.num_experts == 0 {
        return Ok(());
    }
    let mut max: Option<usize> = None;
    let mut i: usize = 0;
    while i < store.len()
        invariant
            i <= store@.len(),
            max == max_expert(store@, i as nat),
        decreases store@.len() - i,
    {
        max = take_larger(max, extract_expert_idx(store[i].name.as_str()));
        i = i + 1;
    }
    match max {
        Some(m) => if m >= c.num_experts {
            Err(PreflightError::TooManyExperts(m, c.num_experts))
        } else {
            Ok(())
        },
        None => Ok(()),
    }
}

// ---- router bias ----

pub open spec fn is_bias(name: Seq<char>) -> bool {
    ends_with(name, ".e_score_correction_bias"@) || ends_with(name, ".correction_bias"@)
}

/// Whether the tensor is no router bias of the wrong size.
pub open spec fn bias_fits(t: TensorInfo, c: &ModelConfig) -> bool {
    is_bias(t.name@) ==> t.num_elements == c.num_experts
}

/// Every router bias has an element per expert.
pub open spec fn biases_ok(store: Seq<TensorInfo>, c: &ModelConfig) -> bool {
    c.num_experts == 0 || forall|i: int|
        0 <= i < store.len() ==> bias_fits(#[trigger] store[i], c)
}

pub fn check_correction_bias_shape(store: &[TensorInfo], c: &ModelConfig) -> (r: Result<
    (),
    PreflightError,
>)
    ensures
        match r {
            Ok(_) => biases_ok(store@, c),
            Err(PreflightError::BiasSize(i, n, e)) => {
                &&& c.num_experts > 0
                &&& i < store@.len()
                &&& !bias_fits(store@[i as int], c)
                &&& forall|j: int| 0 <= j < i ==> bias_fits(#[trigger] store@[j], c)
                &&& n == store@[i as int].num_elements
                &&& e == c.num_experts
            },
            Err(_) => false,
        },
{
    if c.num_experts == 0 {
        return Ok(());
    }
    let mut i: usize = 0;
    while i < store.len()
        invariant
            i <= store@.len(),
            c.num_experts > 0,
            forall|j: int| 0 <= j < i ==> bias_fits(#[trigger] store@[j], c),
        decreases store@.len() - i,
    {
        let n: &str = store[i].name.as_str();
        if has_suffix(n, ".e_score_correction_bias") || has_suffix(n, ".correction_bias") {
            if store[i].num_elements != c.num_experts {
                return Err(
                    PreflightError::BiasSize(i, store[i].num_elements, c.num_experts),
                );
            }
        }
        i = i + 1;
    }
    Ok(())
}

// ---- drafting ----

/// Families whose extra layers can be used for drafting.
pub open spec fn drafts_supported(family: Seq<char>) -> bool {
    family == "qwen3_next"@ || family == "qwen3_5_moe"@ || family == "qwen3_6_moe"@ || family
        == "qwen3_vl_moe"@ || family == "qwen3_coder_next"@
}

pub fn check_mtp_consumability(c: &ModelConfig) -> (r: Result<(), PreflightError>)
    ensures
        match r {
            Ok(_) => drafts_supported(c.model_type@),
            Err(e) => !drafts_supported(c.model_type@) && e
                == PreflightError::DraftLayersUnsupported,
        },
{
    let m: &str = c.model_type.as_str();
    if same(m, "qwen3_next") || same(m, "qwen3_5_moe") || same(m, "qwen3_6_moe") || same(
        m,
        "qwen3_vl_moe",
    ) || same(m, "qwen3_coder_next") {
        Ok(())
    } else {
        Err(PreflightError::DraftLayersUnsupported)
    }
}

// ---- all checks ----

/// Whether there is a layer for every configured one.
pub open spec fn layers_ok(store: Seq<TensorInfo>, c: &ModelConfig) -> bool {
    match max_layer(store, store.len()) {
        Some(m) => m + 1 >= c.num_hidden_layers,
        None => false,
    }
}

/// Extra layers only matter when drafting is asked for.
pub open spec fn drafting_ok(
    store: Seq<TensorInfo>, c: &ModelConfig, use_speculative: bool,
) -> bool {
    use_speculative && max_layer(store, store.len())->0 + 1 > c.num_hidden_layers
        ==> drafts_supported(c.model_type@)
}

/// Whether a checkpoint passes.
pub open spec fn passes(store: Seq<TensorInfo>, c: &ModelConfig, use_speculative: bool) -> bool {
    &&& quant_ok(c)
    &&& has_embedding(store)
    &&& layers_ok(store, c)
    &&& experts_ok(store, c)
    &&& biases_ok(store, c)
    &&& drafting_ok(store, c, use_speculative)
}

/// Runs all checks. The first one that fails says why.
pub fn preflight(store: &[TensorInfo], c: &ModelConfig, use_speculative: bool) -> (r: Result<
    PreflightReport,
    PreflightError,
>)
    ensures
        r is Ok <==> passes(store@, c, use_speculative),
        match r {
            Ok(p) => max_layer(store@, store@.len()) == Some(p.max_layer) && p.has_head == has_head(
                store@,
            ),
            Err(PreflightError::UnknownQuantMethod) => !quant_ok(c),
            Err(PreflightError::NoEmbedding) => quant_ok(c) && !has_embedding(store@),
            Err(PreflightError::NoLayers(n)) => {
                &&& quant_ok(c) && has_embedding(store@)
                &&& max_layer(store@, store@.len()) is None
                &&& n == c.num_hidden_layers
            },
            Err(PreflightError::TooFewLayers(m, n)) => {
                &&& quant_ok(c) && has_embedding(store@)
                &&& max_layer(store@, store@.len()) == Some(m) && m + 1 < c.num_hidden_layers
                &&& n == c.num_hidden_layers
            },
            Err(PreflightError::TooManyExperts(m, n)) => {
                &&& quant_ok(c) && has_embedding(store@) && layers_ok(store@, c)
                &&& !experts_ok(store@, c)
                &&& max_expert(store@, store@.len()) == Some(m) && n == c.num_experts
            },
            Err(PreflightError::BiasSize(i, n, e)) => {
                &&& quant_ok(c) && has_embedding(store@) && layers_ok(store@, c) && experts_ok(
                    store@,
                    c,
                )
                &&& i < store@.len() && !bias_fits(store@[i as int], c)
                &&& forall|j: int| 0 <= j < i ==> bias_fits(#[trigger] store@[j], c)
                &&& n == store@[i as int].num_elements && e == c.num_experts
            },
            Err(PreflightError::DraftLayersUnsupported) => {
                &&& quant_ok(c) && has_embedding(store@) && layers_ok(store@, c) && experts_ok(
                    store@,
                    c,
                ) && biases_ok(store@, c)
                &&& !drafting_ok(store@, c, use_speculative)
            },
        },
{
    match check_quant_method(c) {
        Ok(_) => {},
        Err(e) => {
            return Err(e);
        },
    }
    let head: bool = match check_embedding_and_head(store) {
        Ok(h) => h,
        Err(e) => {
            return Err(e);
        },
    };
    let max: usize = match check_layer_count(store, c) {
        Ok(m) => m,
        Err(e) => {
            return Err(e);
        },
    };
    match check_expert_count(store, c) {
        Ok(_) => {},
        Err(e) => {
            return Err(e);
        },
    }
    match check_correction_bias_shape(store, c) {
        Ok(_) => {},
        Err(e) => {
            return Err(e);
        },
    }
    if use_speculative && max >= c.num_hidden_layers {
        match check_mtp_consumability(c) {
            Ok(_) => {},
            Err(e) => {
                return Err(e);
            },
        }
    }
    Ok(PreflightReport { max_layer: max, has_head: head })
}

} // verus!
