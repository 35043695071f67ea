//! Which intermediate results are written out for comparison.

use crate::text::{
    chars_of, find, find_from, lemma_find_from, lemma_find_in_rest, parse_size, size_of_text, trim,
    trimmed,
};
use vstd::prelude::*;

verus! {

/// Layers that can be told apart.
pub const MAX_SSM_LAYERS: usize = 64;

/// Linear-attention layers of a model, unless a setting names their number.
pub const DEFAULT_SSM_LAYERS: usize = 30;

/// The numbers of a comma-separated list; entries that are no numbers are left
/// out.
pub open spec fn listed_sizes(s: Seq<char>) -> Seq<usize>
    decreases s.len(),
{
    let end = match find_from(s, ","@, 0) {
        Some(p) => p,
        None => s.len() as int,
    };
    let first = match size_of_text(trimmed(s.take(end))) {
        Some(x) => seq![x],
        None => Seq::empty(),
    };
    if 0 <= end < s.len() {
        first + listed_sizes(s.skip(end + 1))
    } else {
        first
    }
}

/// The layers that a setting lists; the first one when there is no setting.
pub open spec fn dumped_layers(setting: Option<&str>) -> Seq<usize> {
    match setting {
        Some(s) => listed_sizes(s@),
        None => seq![0usize],
    }
}

pub fn dump_layers_from_env(setting: Option<&str>) -> (r: Vec<usize>)
    ensures
        r@ == dumped_layers(setting),
{
    let mut out: Vec<usize> = Vec::new();
    match setting {
        None => {
            out.push(0);
            proof {
                assert(out@ =~= seq![0usize]);
            }
        },
        Some(text) => {
            let s: Vec<char> = chars_of(text);
            let mut at: usize = 0;
            let mut done: bool = false;
            proof {
                assert(s@.skip(0) =~= s@);
            }
            while !done
                invariant
                    s@ == text@,
                    at <= s@.len(),
                    !done ==> out@ + listed_sizes(s@.skip(at as int)) == listed_sizes(text@),
                    done ==> out@ == listed_sizes(text@),
                decreases s@.len() - at, if done { 0int } else { 1int },
            {
                let ghost rest = s@.skip(at as int);
                proof {
                    lemma_find_in_rest(s@, ","@, at as int, 0);
                    lemma_find_from(s@, ","@, at as int);
                    reveal_strlit(",");
                    reveal_with_fuel(listed_sizes, 2);
                }
                let end: usize = match find(s.as_slice(), ",", at) {
                    Some(p) => p,
                    None => s.len(),
                };
                let (a, b): (usize, usize) = trim(s.as_slice(), at, end);
                let digits: &[char] = vstd::slice::slice_subrange(s.as_slice(), a, b);
                proof {
                    assert(rest.take(end - at) =~= s@.subrange(at as int, end as int));
                }
                let ghost before = out@;
                match parse_size(digits) {
                    Some(x) => {
                        out.push(x);
                    },
                    None => {},
                }
                let ghost first = match size_of_text(trimmed(rest.take(end - at))) {
                    Some(x) => seq![x],
                    None => Seq::empty(),
                };
                proof {
                    assert(out@ =~= before + first);
                }
                if end < s.len() {
                    proof {
                        assert(rest.skip(end - at + 1) =~= s@.skip(end + 1));
                        assert(before + (first + listed_sizes(s@.skip(end + 1))) =~= before + first
                            + listed_sizes(s@.skip(end + 1)));
                    }
                    at = end + 1;
                } else {
                    done = true;
                }
            }
        },
    }
    out
}

/// Layers per pass: the setting's number, or the default.
pub open spec fn layers_per_pass(setting: Option<&str>) -> usize {
    match setting {
        Some(s) => match size_of_text(s@) {
            Some(x) => x,
            None => DEFAULT_SSM_LAYERS,
        },
        None => DEFAULT_SSM_LAYERS,
    }
}

/// The layer that call number `call` belongs to, when its results are to be
/// written: a directory has to be set, the layer has to be listed, and this
/// result must not have been written before.
pub open spec fn dump_target(
    dir: Option<&str>,
    per_pass: Option<&str>,
    layers: Option<&str>,
    call: usize,
    written: bool,
) -> Option<usize> {
    let n = layers_per_pass(per_pass);
    let layer = (call as int % (if n == 0 {
        1
    } else {
        n as int
    })) as usize;
    if dir is Some && dir->0@.len() > 0 && layer < MAX_SSM_LAYERS && dumped_layers(layers).contains(
        layer,
    ) && !written {
        Some(layer)
    } else {
        None
    }
}

#[verifier::loop_isolation(false)]
pub fn maybe_dump_gdn_buf(
    dir: Option<&str>,
    per_pass: Option<&str>,
    layers: Option<&str>,
    call: usize,
    written: bool,
) -> (r: Option<usize>)
    ensures
        r == dump_target(dir, per_pass, layers, call, written),
{
    let set: bool = match dir {
        Some(d) => !d.is_empty(),
        None => false,
    };
    let n: usize = match per_pass {
        Some(s) => {
            let c: Vec<char> = chars_of(s);
            match parse_size(c.as_slice()) {
                Some(x) => x,
                None => DEFAULT_SSM_LAYERS,
            }
        },
        None => DEFAULT_SSM_LAYERS,
    };
    let layer: usize = if n == 0 {
        0
    } else {
        call % n
    };
    if !set || layer >= MAX_SSM_LAYERS || written {
        return None;
    }
    let list: Vec<usize> = dump_layers_from_env(layers);
    let mut i: usize = 0;
    while i < list.len()
        invariant
            i <= list@.len(),
            list@ == dumped_layers(layers),
            forall|j: int| 0 <= j < i ==> list@[j] != layer,
        decreases list@.len() - i,
    {
        if list[i] == layer {
            proof {
                assert(list@.contains(layer));
            }
            return Some(layer);
        }
        i = i + 1;
    }
    None
}

} // verus!
