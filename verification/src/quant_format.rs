//! How a checkpoint stores its quantized weights, and which modules it leaves
//! unquantized.

use crate::config::{ModelConfig, QuantizationConfig};
use crate::text::{
    chars_of, find_from, find_part, lemma_find_from, lemma_find_in_rest, occurs_at, same, stands_at,
};
use vstd::prelude::*;

verus! {

/// How a module's weights are stored.
#[derive(Clone, Copy, PartialEq, Eq, Structural, Debug)]
pub enum Nvfp4Variant {
    Standard,
    CompressedTensors,
    Fp8Dequanted,
    Bf16Raw,
    Mxfp4Dequanted,
}

// ---- patterns ----

/// Whether a path fits a pattern: `*` stands for any run of characters, every
/// other character for itself.
pub open spec fn glob(path: Seq<char>, pattern: Seq<char>) -> bool
    decreases pattern.len(),
{
    if pattern.len() == 0 {
        path.len() == 0
    } else if pattern[0] == '*' {
        exists|k: int| 0 <= k <= path.len() && glob(#[trigger] path.skip(k), pattern.skip(1))
    } else {
        path.len() > 0 && path[0] == pattern[0] && glob(path.skip(1), pattern.skip(1))
    }
}

pub open spec fn starless(s: Seq<char>) -> bool {
    forall|i: int| 0 <= i < s.len() ==> s[i] != '*'
}

/// A pattern without a star fits only itself.
pub proof fn lemma_glob_exact(path: Seq<char>, pattern: Seq<char>)
    requires
        starless(pattern),
    ensures
        glob(path, pattern) == (path == pattern),
    decreases pattern.len(),
{
    if pattern.len() == 0 {
        assert(path.len() == 0 ==> path =~= pattern);
    } else {
        assert(pattern[0] != '*');
        lemma_glob_exact(path.skip(1), pattern.skip(1));
        if path.len() > 0 && path[0] == pattern[0] && path.skip(1) == pattern.skip(1) {
            assert forall|i: int| 0 <= i < path.len() implies path[i] == pattern[i] by {
                if i > 0 {
                    assert(path[i] == path.skip(1)[i - 1]);
                    assert(pattern[i] == pattern.skip(1)[i - 1]);
                }
            }
            assert(path.skip(1).len() == pattern.skip(1).len());
            assert(path =~= pattern);
        }
    }
}

/// Characters up to a star stand for themselves at the front.
proof fn lemma_glob_literal(path: Seq<char>, literal: Seq<char>, tail: Seq<char>)
    requires
        starless(literal),
    ensures
        glob(path, literal + tail) == (occurs_at(path, literal, 0) && glob(
            path.skip(literal.len() as int),
            tail,
        )),
    decreases literal.len(),
{
    let p = literal + tail;
    if literal.len() == 0 {
        assert(p =~= tail);
        assert(path.skip(0) =~= path);
        assert(path.subrange(0, 0) =~= literal);
    } else {
        let rest = literal.skip(1);
        assert(p[0] == literal[0] && literal[0] != '*');
        assert(p.skip(1) =~= rest + tail);
        if path.len() > 0 {
            lemma_glob_literal(path.skip(1), rest, tail);
            if literal.len() <= path.len() {
                assert(path.skip(1).skip(rest.len() as int) =~= path.skip(literal.len() as int));
            }
            if path[0] == literal[0] && occurs_at(path.skip(1), rest, 0) {
                assert(path.subrange(0, literal.len() as int) =~= literal) by {
                    assert forall|i: int| 0 <= i < literal.len() implies path[i]
                        == literal[i] by {
                        if i > 0 {
                            assert(path.skip(1).subrange(0, rest.len() as int)[i - 1]
                                == rest[i - 1]);
                        }
                    }
                }
            }
            if occurs_at(path, literal, 0) {
                assert(path[0] == path.subrange(0, literal.len() as int)[0]);
                assert(path.skip(1).subrange(0, rest.len() as int) =~= rest) by {
                    assert forall|i: int| 0 <= i < rest.len() implies path.skip(1)[i]
                        == rest[i] by {
                        assert(path.subrange(0, literal.len() as int)[i + 1] == literal[i + 1]);
                    }
                }
            }
        }
    }
}

/// After a star the last piece only has to end the path.
proof fn lemma_glob_last(path: Seq<char>, literal: Seq<char>)
    requires
        starless(literal),
    ensures
        glob(path, seq!['*'] + literal) == occurs_at(path, literal, path.len() - literal.len()),
{
    let p = seq!['*'] + literal;
    assert(p[0] == '*');
    assert(p.skip(1) =~= literal);
    let at = path.len() - literal.len();
    if occurs_at(path, literal, at) {
        lemma_glob_exact(path.skip(at), literal);
        assert(path.skip(at) =~= path.subrange(at, at + literal.len()));
        assert(glob(path.skip(at), p.skip(1)));
    }
    if glob(path, p) {
        let k = choose|k: int| 0 <= k <= path.len() && glob(#[trigger] path.skip(k), p.skip(1));
        lemma_glob_exact(path.skip(k), literal);
        assert(path.skip(k).len() == literal.len());
        assert(path.subrange(at, at + literal.len()) =~= path.skip(k));
    }
}

/// A star takes up whatever stands before what it already takes up.
proof fn lemma_star_absorbs(path: Seq<char>, tail: Seq<char>, a: int, b: int)
    requires
        0 <= a <= b <= path.len(),
        glob(path.skip(b), seq!['*'] + tail),
    ensures
        glob(path.skip(a), seq!['*'] + tail),
{
    let p = seq!['*'] + tail;
    assert(p[0] == '*');
    assert(p.skip(1) =~= tail);
    let k = choose|k: int|
        0 <= k <= path.skip(b).len() && glob(#[trigger] path.skip(b).skip(k), p.skip(1));
    assert(path.skip(b).skip(k) =~= path.skip(a).skip(b - a + k));
    assert(glob(path.skip(a).skip(b - a + k), p.skip(1)));
}

/// Between two stars a piece may as well stand at its first place.
proof fn lemma_glob_middle(path: Seq<char>, literal: Seq<char>, tail: Seq<char>)
    requires
        starless(literal),
    ensures
        glob(path, seq!['*'] + literal + (seq!['*'] + tail)) == (match find_from(
            path,
            literal,
            0,
        ) {
            Some(at) => glob(path.skip(at + literal.len()), seq!['*'] + tail),
            None => false,
        }),
{
    let rest = seq!['*'] + tail;
    let p = seq!['*'] + literal + rest;
    assert(p[0] == '*');
    assert(p.skip(1) =~= literal + rest);
    lemma_find_from(path, literal, 0);
    if glob(path, p) {
        let k = choose|k: int| 0 <= k <= path.len() && glob(#[trigger] path.skip(k), p.skip(1));
        lemma_glob_literal(path.skip(k), literal, rest);
        assert(path.skip(k).subrange(0, literal.len() as int) =~= path.subrange(
            k,
            k + literal.len(),
        ));
        assert(occurs_at(path, literal, k));
        let at = find_from(path, literal, 0)->0;
        assert(at <= k);
        assert(path.skip(k).skip(literal.len() as int) =~= path.skip(k + literal.len()));
        lemma_star_absorbs(path, tail, at + literal.len(), k + literal.len());
    }
    if find_from(path, literal, 0) is Some {
        let at = find_from(path, literal, 0)->0;
        if glob(path.skip(at + literal.len()), rest) {
            assert(path.skip(at).skip(literal.len() as int) =~= path.skip(at + literal.len()));
            assert(path.skip(at).subrange(0, literal.len() as int) =~= path.subrange(
                at,
                at + literal.len(),
            ));
            lemma_glob_literal(path.skip(at), literal, rest);
            assert(glob(path.skip(at), p.skip(1)));
        }
    }
}

/// The first star from `from` on, or the end.
fn next_star(pattern: &[char], from: usize) -> (r: usize)
    requires
        from <= pattern.len(),
    ensures
        from <= r <= pattern.len(),
        r < pattern.len() ==> pattern@[r as int] == '*',
        starless(pattern@.subrange(from as int, r as int)),
{
    let mut i: usize = from;
    while i < pattern.len() && pattern[i] != '*'
        invariant
            from <= i <= pattern@.len(),
            forall|j: int| from <= j < i ==> pattern@[j] != '*',
        decreases pattern@.len() - i,
    {
        i = i + 1;
    }
    i
}

/// Whether a module path fits an entry of an ignore list.
pub fn module_matches_pattern(path: &str, pattern: &str) -> (r: bool)
    ensures
        r == glob(path@, pattern@),
{
    let s: Vec<char> = chars_of(path);
    let p: Vec<char> = chars_of(pattern);
    let mut star: usize = next_star(p.as_slice(), 0);
    proof {
        assert(p@.subrange(0, star as int) + p@.skip(star as int) =~= p@);
        lemma_glob_literal(s@, p@.subrange(0, star as int), p@.skip(star as int));
    }
    if star == p.len() {
        proof {
            assert(p@.subrange(0, star as int) =~= p@);
            lemma_glob_exact(s@, p@);
        }
        return same(path, pattern);
    }
    if !stands_at(s.as_slice(), p.as_slice(), 0, star, 0) {
        return false;
    }
    let mut rest: usize = star;
    while star < p.len()
        invariant
            star < p@.len(),
            p@[star as int] == '*',
            rest <= s@.len(),
            s@ == path@,
            p@ == pattern@,
            glob(path@, pattern@) == glob(s@.skip(rest as int), p@.skip(star as int)),
        decreases p@.len() - star,
    {
        let next: usize = next_star(p.as_slice(), star + 1);
        let ghost piece = p@.subrange(star + 1, next as int);
        let ghost left = s@.skip(rest as int);
        if next == p.len() {
            proof {
                assert(p@.skip(star as int) =~= seq!['*'] + piece);
                lemma_glob_last(left, piece);
                let at = s@.len() - piece.len();
                if piece.len() <= left.len() {
                    assert(left.subrange(left.len() - piece.len(), left.len() as int)
                        =~= s@.subrange(at, at + piece.len()));
                }
            }
            let len: usize = next - (star + 1);
            if s.len() - rest < len {
                return false;
            }
            return stands_at(s.as_slice(), p.as_slice(), star + 1, next, s.len() - len);
        }
        proof {
            let tail = p@.skip(next + 1);
            assert(p@.skip(star as int) =~= seq!['*'] + piece + (seq!['*'] + tail));
            assert(p@.skip(next as int) =~= seq!['*'] + tail);
            lemma_glob_middle(left, piece, tail);
            lemma_find_in_rest(s@, piece, rest as int, 0);
            lemma_find_from(s@, piece, rest as int);
        }
        match find_part(s.as_slice(), p.as_slice(), star + 1, next, rest) {
            Some(at) => {
                proof {
                    assert(left.skip((at - rest) + piece.len()) =~= s@.skip(at + piece.len()));
                }
                rest = at + (next - (star + 1));
                star = next;
            },
            None => {
                return false;
            },
        }
    }
    false
}

/// A trailing star makes a pattern fit every path that begins with the rest.
pub proof fn lemma_glob_prefix(path: Seq<char>, prefix: Seq<char>)
    requires
        starless(prefix),
    ensures
        glob(path, prefix.push('*')) == occurs_at(path, prefix, 0),
{
    let tail = seq!['*'];
    assert(prefix.push('*') =~= prefix + tail);
    lemma_glob_literal(path, prefix, tail);
    if occurs_at(path, prefix, 0) {
        let x = path.skip(prefix.len() as int);
        assert(tail =~= seq!['*'] + Seq::<char>::empty());
        lemma_glob_last(x, Seq::empty());
        assert(x.subrange(x.len() as int, x.len() as int) =~= Seq::<char>::empty());
    }
}

// ---- formats ----

/// A storage layout: which variant its modules use, and which modules stay
/// unquantized.
pub trait QuantFormat {
    /// The variant of quantized modules.
    spec fn base(&self) -> Nvfp4Variant;

    /// Whether a module is left unquantized.
    spec fn ignored(&self, path: Seq<char>) -> bool;

    spec fn label(&self) -> Seq<char>;

    /// Name of the layout.
    fn name(&self) -> (r: &'static str)
        ensures
            r@ == self.label(),
    ;

    fn base_variant(&self) -> (r: Nvfp4Variant)
        ensures
            r == self.base(),
    ;

    fn is_ignored(&self, path: &str) -> (r: bool)
        ensures
            r == self.ignored(path@),
    ;

    /// The variant of one module.
    fn variant_for(&self, path: &str) -> (r: Nvfp4Variant)
        ensures
            r == (if self.ignored(path@) {
                Nvfp4Variant::Bf16Raw
            } else {
                self.base()
            }),
    {
        if self.is_ignored(path) {
            Nvfp4Variant::Bf16Raw
        } else {
            self.base_variant()
        }
    }
}

/// Whether a path fits one of the entries of a list.
pub open spec fn listed(list: Seq<String>, path: Seq<char>) -> bool {
    exists|i: int| 0 <= i < list.len() && glob(path, #[trigger] list[i]@)
}

/// Whether a path fits one of the entries of a list.
pub fn matches_any(list: &[String], path: &str) -> (r: bool)
    ensures
        r == listed(list@, path@),
{
    let mut i: usize = 0;
    while i < list.len()
        invariant
            i <= list@.len(),
            forall|j: int| 0 <= j < i ==> !glob(path@, #[trigger] list@[j]@),
        decreases list@.len() - i,
    {
        if module_matches_pattern(path, list[i].as_str()) {
            return true;
        }
        i = i + 1;
    }
    false
}

/// `weight_packed` with global scales.
pub struct CompressedTensorsFormat {
    pub format: String,
    pub ignore: Vec<String>,
}

/// `weight` with block and global scales. Checkpoints without quantized
/// weights, and those that are requantized on load, use the same names.
pub struct ModeloptFormat {
    pub algo: String,
    pub ignore: Vec<String>,
    pub base: Nvfp4Variant,
}

/// FP8 with inverse block scales.
pub struct Fp8BlockScaledFormat {
    pub ignore: Vec<String>,
}

impl CompressedTensorsFormat {
    pub fn new(format: String, ignore: Vec<String>) -> (r: Self)
        ensures
            r.format == format,
            r.ignore == ignore,
    {
        CompressedTensorsFormat { format, ignore }
    }
}

impl ModeloptFormat {
    pub fn new(algo: String, ignore: Vec<String>) -> (r: Self)
        ensures
            r.algo == algo,
            r.ignore == ignore,
            r.base == Nvfp4Variant::Standard,
    {
        ModeloptFormat { algo, ignore, base: Nvfp4Variant::Standard }
    }

    /// The layout for weights that are not stored in 4 bits.
    pub fn unquantized(base: Nvfp4Variant, ignore: Vec<String>) -> (r: Self)
        ensures
            r.algo@ == Seq::<char>::empty(),
            r.ignore == ignore,
            r.base == base,
    {
        ModeloptFormat { algo: String::new(), ignore, base }
    }
}

impl Fp8BlockScaledFormat {
    pub fn new(ignore: Vec<String>) -> (r: Self)
        ensures
            r.ignore == ignore,
    {
        Fp8BlockScaledFormat { ignore }
    }
}

impl QuantFormat for CompressedTensorsFormat {
    open spec fn base(&self) -> Nvfp4Variant {
        Nvfp4Variant::CompressedTensors
    }

    open spec fn ignored(&self, path: Seq<char>) -> bool {
        listed(self.ignore@, path)
    }

    open spec fn label(&self) -> Seq<char> {
        "compressed-tensors"@
    }

    fn name(&self) -> (r: &'static str) {
        "compressed-tensors"
    }

    fn base_variant(&self) -> (r: Nvfp4Variant) {
        Nvfp4Variant::CompressedTensors
    }

    fn is_ignored(&self, path: &str) -> (r: bool) {
        matches_any(self.ignore.as_slice(), path)
    }
}

impl QuantFormat for ModeloptFormat {
    open spec fn base(&self) -> Nvfp4Variant {
        self.base
    }

    open spec fn ignored(&self, path: Seq<char>) -> bool {
        listed(self.ignore@, path)
    }

    open spec fn label(&self) -> Seq<char> {
        "modelopt"@
    }

    fn name(&self) -> (r: &'static str) {
        "modelopt"
    }

    fn base_variant(&self) -> (r: Nvfp4Variant) {
        self.base
    }

    fn is_ignored(&self, path: &str) -> (r: bool) {
        matches_any(self.ignore.as_slice(), path)
    }
}

impl QuantFormat for Fp8BlockScaledFormat {
    open spec fn base(&self) -> Nvfp4Variant {
        Nvfp4Variant::Fp8Dequanted
    }

    open spec fn ignored(&self, path: Seq<char>) -> bool {
        listed(self.ignore@, path)
    }

    open spec fn label(&self) -> Seq<char> {
        "fp8-blockscaled"@
    }

    fn name(&self) -> (r: &'static str) {
        "fp8-blockscaled"
    }

    fn base_variant(&self) -> (r: Nvfp4Variant) {
        Nvfp4Variant::Fp8Dequanted
    }

    fn is_ignored(&self, path: &str) -> (r: bool) {
        matches_any(self.ignore.as_slice(), path)
    }
}

/// The layout of a checkpoint.
pub enum DetectedFormat {
    CompressedTensors(CompressedTensorsFormat),
    Modelopt(ModeloptFormat),
    Fp8BlockScaled(Fp8BlockScaledFormat),
}

impl QuantFormat for DetectedFormat {
    open spec fn base(&self) -> Nvfp4Variant {
        match self {
            DetectedFormat::CompressedTensors(f) => f.base(),
            DetectedFormat::Modelopt(f) => f.base(),
            DetectedFormat::Fp8BlockScaled(f) => f.base(),
        }
    }

    open spec fn ignored(&self, path: Seq<char>) -> bool {
        match self {
            DetectedFormat::CompressedTensors(f) => f.ignored(path),
            DetectedFormat::Modelopt(f) => f.ignored(path),
            DetectedFormat::Fp8BlockScaled(f) => f.ignored(path),
        }
    }

    open spec fn label(&self) -> Seq<char> {
        match self {
            DetectedFormat::CompressedTensors(f) => f.label(),
            DetectedFormat::Modelopt(f) => f.label(),
            DetectedFormat::Fp8BlockScaled(f) => f.label(),
        }
    }

    fn name(&self) -> (r: &'static str) {
        match self {
            DetectedFormat::CompressedTensors(f) => f.name(),
            DetectedFormat::Modelopt(f) => f.name(),
            DetectedFormat::Fp8BlockScaled(f) => f.name(),
        }
    }

    fn base_variant(&self) -> (r: Nvfp4Variant) {
        match self {
            DetectedFormat::CompressedTensors(f) => f.base_variant(),
            DetectedFormat::Modelopt(f) => f.base_variant(),
            DetectedFormat::Fp8BlockScaled(f) => f.base_variant(),
        }
    }

    fn is_ignored(&self, path: &str) -> (r: bool) {
        match self {
            DetectedFormat::CompressedTensors(f) => f.is_ignored(path),
            DetectedFormat::Modelopt(f) => f.is_ignored(path),
            DetectedFormat::Fp8BlockScaled(f) => f.is_ignored(path),
        }
    }
}

/// Texts of a list.
pub open spec fn texts(list: Seq<String>) -> Seq<Seq<char>> {
    list.map_values(|s: String| s@)
}

fn copy_list(list: &[String]) -> (r: Vec<String>)
    ensures
        texts(r@) == texts(list@),
{
    let mut out: Vec<String> = Vec::new();
    let mut i: usize = 0;
    while i < list.len()
        invariant
            i <= list@.len(),
            out@.len() == i,
            forall|j: int| 0 <= j < i ==> (#[trigger] out@[j])@ == list@[j]@,
        decreases list@.len() - i,
    {
        out.push(list[i].clone());
        i = i + 1;
    }
    proof {
        assert(texts(out@) =~= texts(list@));
    }
    out
}

/// Lists with the same texts leave the same modules unquantized.
pub proof fn lemma_listed_by_texts(a: Seq<String>, b: Seq<String>, path: Seq<char>)
    requires
        texts(a) == texts(b),
    ensures
        listed(a, path) == listed(b, path),
{
    assert(a.len() == texts(a).len() && b.len() == texts(b).len());
    assert forall|i: int| 0 <= i < a.len() implies (#[trigger] a[i])@ == b[i]@ by {
        assert(texts(a)[i] == texts(b)[i]);
    }
    if listed(a, path) {
        let i = choose|i: int| 0 <= i < a.len() && glob(path, #[trigger] a[i]@);
        assert(a[i]@ == b[i]@);
        assert(glob(path, b[i]@));
    }
    if listed(b, path) {
        let i = choose|i: int| 0 <= i < b.len() && glob(path, #[trigger] b[i]@);
        assert(a[i]@ == b[i]@);
        assert(glob(path, a[i]@));
    }
}

/// Whether `f` is the layout that a declared method stands for.
pub open spec fn declared_format(f: DetectedFormat, q: QuantizationConfig) -> bool {
    if q.quant_method@ == "modelopt"@ {
        &&& f is Modelopt
        &&& f->Modelopt_0.algo@ == q.quant_algo@
        &&& f->Modelopt_0.base == Nvfp4Variant::Standard
        &&& texts(f->Modelopt_0.ignore@) == texts(q.ignore_modules@)
    } else if q.quant_method@ == "compressed-tensors"@ {
        &&& f is CompressedTensors
        &&& f->CompressedTensors_0.format@ == q.format@
        &&& texts(f->CompressedTensors_0.ignore@) == texts(q.ignore_modules@)
    } else {
        &&& f is Fp8BlockScaled
        &&& texts(f->Fp8BlockScaled_0.ignore@) == texts(q.ignore_modules@)
    }
}

/// Methods that say which layout a checkpoint has.
pub open spec fn method_known(method: Seq<char>) -> bool {
    method == "modelopt"@ || method == "compressed-tensors"@ || method == "fp8"@
}

/// The entries that a configuration lists as unquantized.
pub open spec fn declared_ignores(c: ModelConfig) -> Seq<Seq<char>> {
    match c.quantization_config {
        Some(q) => texts(q.ignore_modules@),
        None => Seq::empty(),
    }
}

/// Whether `f` is the layout that the names of the weights stand for. Where
/// they show no quantization nothing is listed as unquantized: everything is.
pub open spec fn observed_format(f: DetectedFormat, c: ModelConfig, v: Nvfp4Variant) -> bool {
    match v {
        Nvfp4Variant::CompressedTensors => {
            &&& f is CompressedTensors
            &&& f->CompressedTensors_0.format@ == Seq::<char>::empty()
            &&& texts(f->CompressedTensors_0.ignore@) == declared_ignores(c)
        },
        Nvfp4Variant::Fp8Dequanted => {
            &&& f is Fp8BlockScaled
            &&& texts(f->Fp8BlockScaled_0.ignore@) == declared_ignores(c)
        },
        Nvfp4Variant::Bf16Raw => {
            &&& f is Modelopt
            &&& f->Modelopt_0.algo@ == Seq::<char>::empty()
            &&& f->Modelopt_0.base == v
            &&& texts(f->Modelopt_0.ignore@) == Seq::<Seq<char>>::empty()
        },
        _ => {
            &&& f is Modelopt
            &&& f->Modelopt_0.algo@ == Seq::<char>::empty()
            &&& f->Modelopt_0.base == v
            &&& texts(f->Modelopt_0.ignore@) == declared_ignores(c)
        },
    }
}

/// Picks the layout of a checkpoint. A declared method decides, when it is
/// known; otherwise the variant that the names of the weights show does.
pub fn detect_quant_format(config: &ModelConfig, observed: Nvfp4Variant) -> (r: DetectedFormat)
    ensures
        if config.quantization_config is Some && method_known(
            config.quantization_config->0.quant_method@,
        ) {
            declared_format(r, config.quantization_config->0)
        } else {
            observed_format(r, *config, observed)
        },
{
    match &config.quantization_config {
        Some(q) => {
            if same(q.quant_method.as_str(), "modelopt") {
                return DetectedFormat::Modelopt(
                    ModeloptFormat::new(
                        q.quant_algo.clone(),
                        copy_list(q.ignore_modules.as_slice()),
                    ),
                );
            }
            if same(q.quant_method.as_str(), "compressed-tensors") {
                return DetectedFormat::CompressedTensors(
                    CompressedTensorsFormat::new(
                        q.format.clone(),
                        copy_list(q.ignore_modules.as_slice()),
                    ),
                );
            }
            if same(q.quant_method.as_str(), "fp8") {
                return DetectedFormat::Fp8BlockScaled(
                    Fp8BlockScaledFormat::new(copy_list(q.ignore_modules.as_slice())),
                );
            }
        },
        None => {},
    }
    let ignore: Vec<String> = match &config.quantization_config {
        Some(q) => copy_list(q.ignore_modules.as_slice()),
        None => Vec::new(),
    };
    proof {
        assert(texts(ignore@) =~= declared_ignores(*config));
    }
    match observed {
        Nvfp4Variant::CompressedTensors => DetectedFormat::CompressedTensors(
            CompressedTensorsFormat::new(String::new(), ignore),
        ),
        Nvfp4Variant::Fp8Dequanted => DetectedFormat::Fp8BlockScaled(
            Fp8BlockScaledFormat::new(ignore),
        ),
        Nvfp4Variant::Standard => DetectedFormat::Modelopt(
            ModeloptFormat::new(String::new(), ignore),
        ),
        Nvfp4Variant::Bf16Raw => {
            let none: Vec<String> = Vec::new();
            proof {
                assert(texts(none@) =~= Seq::<Seq<char>>::empty());
            }
            DetectedFormat::Modelopt(ModeloptFormat::unquantized(Nvfp4Variant::Bf16Raw, none))
        },
        Nvfp4Variant::Mxfp4Dequanted => DetectedFormat::Modelopt(
            ModeloptFormat::unquantized(Nvfp4Variant::Mxfp4Dequanted, ignore),
        ),
    }
}

/// A checkpoint that shows no quantization has no quantized module.
pub proof fn lemma_unquantized_checkpoint(f: DetectedFormat, c: ModelConfig, path: Seq<char>)
    requires
        observed_format(f, c, Nvfp4Variant::Bf16Raw),
    ensures
        !f.ignored(path),
        f.base() == Nvfp4Variant::Bf16Raw,
{
    let list = f->Modelopt_0.ignore@;
    assert(list.len() == texts(list).len());
}

} // verus!
