//! Strings as sequences of characters.

use vstd::prelude::*;
use vstd::string::StringExecFns;
use vstd::string::*;

verus! {

/// Whether two strings are the same.
pub fn same(a: &str, b: &str) -> (r: bool)
    ensures
        r == (a@ == b@),
{
    a.to_owned() == b.to_owned()
}

/// The characters of a string.
pub fn chars_of(s: &str) -> (r: Vec<char>)
    ensures
        r@ == s@,
{
    let n: usize = s.unicode_len();
    let mut out: Vec<char> = Vec::new();
    let mut i: usize = 0;
    while i < n
        invariant
            i <= n,
            n == s@.len(),
            out@ == s@.take(i as int),
        decreases n - i,
    {
        out.push(s.get_char(i));
        i = i + 1;
        proof {
            assert(out@ =~= s@.take(i as int));
        }
    }
    proof {
        assert(s@.take(n as int) =~= s@);
    }
    out
}

/// Code of a character, with ASCII capitals as small letters.
pub open spec fn lower(c: char) -> int {
    if 'A' <= c <= 'Z' {
        c as int + 32
    } else {
        c as int
    }
}

pub fn lower_code(c: char) -> (r: u32)
    ensures
        r == lower(c),
{
    if 'A' <= c && c <= 'Z' {
        c as u32 + 32
    } else {
        c as u32
    }
}

/// Whether two strings are the same but for the case of ASCII letters.
pub open spec fn same_ignoring_case(a: Seq<char>, b: Seq<char>) -> bool {
    &&& a.len() == b.len()
    &&& forall|i: int| 0 <= i < a.len() ==> lower(#[trigger] a[i]) == lower(b[i])
}

pub fn eq_ignore_ascii_case(a: &str, b: &str) -> (r: bool)
    ensures
        r == same_ignoring_case(a@, b@),
{
    let x: Vec<char> = chars_of(a);
    let y: Vec<char> = chars_of(b);
    if x.len() != y.len() {
        return false;
    }
    let mut i: usize = 0;
    while i < x.len()
        invariant
            i <= x@.len(),
            x@ == a@,
            y@ == b@,
            x@.len() == y@.len(),
            forall|j: int| 0 <= j < i ==> lower(#[trigger] a@[j]) == lower(b@[j]),
        decreases x@.len() - i,
    {
        if lower_code(x[i]) != lower_code(y[i]) {
            proof {
                assert(lower(a@[i as int]) != lower(b@[i as int]));
            }
            return false;
        }
        i = i + 1;
    }
    true
}

/// Meaning of an on/off setting: `default` when it is absent, on for `1` and
/// for `true` in any case.
pub open spec fn flag_value(v: Option<&str>, default: bool) -> bool {
    match v {
        Some(s) => s@ == "1"@ || same_ignoring_case(s@, "true"@),
        None => default,
    }
}

pub fn flag(v: Option<&str>, default: bool) -> (r: bool)
    ensures
        r == flag_value(v, default),
{
    match v {
        Some(s) => same(s, "1") || eq_ignore_ascii_case(s, "true"),
        None => default,
    }
}

// ---- searching ----

/// Whether `pat` stands in `s` at `i`.
pub open spec fn occurs_at(s: Seq<char>, pat: Seq<char>, i: int) -> bool {
    0 <= i && i + pat.len() <= s.len() && s.subrange(i, i + pat.len()) == pat
}

/// The first place from `i` on where `pat` stands in `s`.
pub open spec fn find_from(s: Seq<char>, pat: Seq<char>, i: int) -> Option<int>
    decreases s.len() - i + 1,
{
    if i + pat.len() > s.len() {
        None
    } else if occurs_at(s, pat, i) {
        Some(i)
    } else {
        find_from(s, pat, i + 1)
    }
}

pub open spec fn starts_with(s: Seq<char>, pat: Seq<char>) -> bool {
    occurs_at(s, pat, 0)
}

pub open spec fn ends_with(s: Seq<char>, pat: Seq<char>) -> bool {
    occurs_at(s, pat, s.len() - pat.len())
}

/// A search in the rest of a text finds what a search from there on finds.
pub proof fn lemma_find_in_rest(s: Seq<char>, pat: Seq<char>, a: int, i: int)
    requires
        0 <= a <= s.len(),
        0 <= i,
    ensures
        find_from(s, pat, a + i) == (match find_from(s.skip(a), pat, i) {
            Some(p) => Some(a + p),
            None => None,
        }),
    decreases s.len() - a - i + 1,
{
    if a + i + pat.len() <= s.len() {
        assert(s.skip(a).subrange(i, i + pat.len()) =~= s.subrange(a + i, a + i + pat.len()));
        if !occurs_at(s, pat, a + i) {
            lemma_find_in_rest(s, pat, a, i + 1);
        }
    }
}

/// What `find_from` finds is the first place, and it finds one if there is any.
pub proof fn lemma_find_from(s: Seq<char>, pat: Seq<char>, i: int)
    requires
        i >= 0,
    ensures
        match find_from(s, pat, i) {
            Some(p) => i <= p && occurs_at(s, pat, p) && forall|j: int|
                i <= j < p ==> !occurs_at(s, pat, j),
            None => forall|j: int| i <= j ==> !occurs_at(s, pat, j),
        },
    decreases s.len() - i + 1,
{
    if i + pat.len() <= s.len() && !occurs_at(s, pat, i) {
        lemma_find_from(s, pat, i + 1);
    }
}

/// Whether `pat[a..b]` stands in `s` at `i`.
pub fn stands_at(s: &[char], pat: &[char], a: usize, b: usize, i: usize) -> (r: bool)
    requires
        a <= b <= pat.len(),
    ensures
        r == occurs_at(s@, pat@.subrange(a as int, b as int), i as int),
{
    if i > s.len() || s.len() - i < b - a {
        return false;
    }
    let ghost p = pat@.subrange(a as int, b as int);
    let mut k: usize = 0;
    while k < b - a
        invariant
            k <= b - a,
            a <= b <= pat@.len(),
            p == pat@.subrange(a as int, b as int),
            i + (b - a) <= s.len(),
            forall|j: int| 0 <= j < k ==> s@[i + j] == #[trigger] p[j],
        decreases b - a - k,
    {
        if s[i + k] != pat[a + k] {
            proof {
                assert(s@.subrange(i as int, i + p.len())[k as int] != p[k as int]);
            }
            return false;
        }
        k = k + 1;
    }
    proof {
        assert(s@.subrange(i as int, i + p.len()) =~= p);
    }
    true
}

/// The first place from `from` on where `pat[a..b]` stands in `s`.
pub fn find_part(s: &[char], pat: &[char], a: usize, b: usize, from: usize) -> (r: Option<usize>)
    requires
        a <= b <= pat.len(),
        from <= s.len(),
    ensures
        match r {
            Some(p) => find_from(s@, pat@.subrange(a as int, b as int), from as int) == Some(
                p as int,
            ) && p + (b - a) <= s.len(),
            None => find_from(s@, pat@.subrange(a as int, b as int), from as int) is None,
        },
{
    let mut i: usize = from;
    while s.len() - i >= b - a
        invariant
            from <= i <= s@.len(),
            a <= b <= pat@.len(),
            find_from(s@, pat@.subrange(a as int, b as int), from as int) == find_from(
                s@,
                pat@.subrange(a as int, b as int),
                i as int,
            ),
        decreases s@.len() - i,
    {
        if stands_at(s, pat, a, b, i) {
            return Some(i);
        }
        proof {
            if i == s@.len() {
                assert(s@.subrange(i as int, i as int) =~= pat@.subrange(a as int, b as int));
            }
        }
        i = i + 1;
    }
    None
}

/// The first place from `from` on where `pat` stands in `s`.
pub fn find(s: &[char], pat: &str, from: usize) -> (r: Option<usize>)
    requires
        from <= s.len(),
    ensures
        match r {
            Some(p) => find_from(s@, pat@, from as int) == Some(p as int) && p + pat@.len()
                <= s.len(),
            None => find_from(s@, pat@, from as int) is None,
        },
{
    let p: Vec<char> = chars_of(pat);
    proof {
        assert(p@.subrange(0, p@.len() as int) =~= pat@);
    }
    find_part(s, p.as_slice(), 0, p.len(), from)
}

pub fn has_suffix(s: &str, pat: &str) -> (r: bool)
    ensures
        r == ends_with(s@, pat@),
{
    let x: Vec<char> = chars_of(s);
    let p: Vec<char> = chars_of(pat);
    proof {
        assert(p@.subrange(0, p@.len() as int) =~= pat@);
    }
    if p.len() > x.len() {
        return false;
    }
    stands_at(x.as_slice(), p.as_slice(), 0, p.len(), x.len() - p.len())
}

// ---- numbers ----

pub open spec fn is_digit(c: char) -> bool {
    '0' <= c <= '9'
}

pub open spec fn all_digits(s: Seq<char>) -> bool {
    forall|i: int| 0 <= i < s.len() ==> is_digit(#[trigger] s[i])
}

/// The number that digits stand for.
pub open spec fn decimal(s: Seq<char>) -> int
    decreases s.len(),
{
    if s.len() == 0 {
        0
    } else {
        decimal(s.drop_last()) * 10 + (s.last() as int - '0' as int)
    }
}

/// Digits after an optional plus sign, up to the largest size.
pub open spec fn size_of_text(s: Seq<char>) -> Option<usize> {
    let d = if s.len() > 0 && s[0] == '+' {
        s.skip(1)
    } else {
        s
    };
    if d.len() > 0 && all_digits(d) && decimal(d) <= usize::MAX {
        Some(decimal(d) as usize)
    } else {
        None
    }
}

proof fn lemma_decimal_grows(s: Seq<char>, k: int)
    requires
        0 <= k <= s.len(),
        all_digits(s),
    ensures
        0 <= decimal(s.take(k)) <= decimal(s),
    decreases s.len(),
{
    if s.len() == 0 {
        assert(s.take(k) =~= s);
    } else {
        assert(all_digits(s.drop_last()));
        if k == s.len() {
            assert(s.take(k) =~= s);
            lemma_decimal_grows(s.drop_last(), s.len() - 1);
            assert(s.drop_last().take(s.len() - 1) =~= s.drop_last());
            assert(is_digit(s[s.len() - 1]));
        } else {
            lemma_decimal_grows(s.drop_last(), k);
            assert(s.drop_last().take(k) =~= s.take(k));
            assert(is_digit(s[s.len() - 1]));
        }
    }
}

/// Reads a size.
pub fn parse_size(s: &[char]) -> (r: Option<usize>)
    ensures
        r == size_of_text(s@),
{
    let start: usize = if s.len() > 0 && s[0] == '+' {
        1
    } else {
        0
    };
    let ghost d = if s@.len() > 0 && s@[0] == '+' {
        s@.skip(1)
    } else {
        s@
    };
    proof {
        assert(d =~= s@.subrange(start as int, s@.len() as int));
    }
    if start == s.len() {
        return None;
    }
    let mut v: usize = 0;
    let mut i: usize = start;
    while i < s.len()
        invariant
            start <= i <= s@.len(),
            start < s@.len(),
            d == s@.subrange(start as int, s@.len() as int),
            size_of_text(s@) == (if d.len() > 0 && all_digits(d) && decimal(d) <= usize::MAX {
                Some(decimal(d) as usize)
            } else {
                None
            }),
            forall|j: int| 0 <= j < i - start ==> is_digit(#[trigger] d[j]),
            v == decimal(d.take(i - start)),
        decreases s@.len() - i,
    {
        let c: char = s[i];
        let ghost k = i - start;
        proof {
            assert(d[k] == c);
            assert(d.take(k + 1).drop_last() =~= d.take(k));
        }
        if !('0' <= c && c <= '9') {
            return None;
        }
        let digit: usize = (c as u32 - '0' as u32) as usize;
        if v > (usize::MAX - digit) / 10 {
            proof {
                if all_digits(d) {
                    lemma_decimal_grows(d, k + 1);
                }
            }
            return None;
        }
        v = v * 10 + digit;
        i = i + 1;
    }
    proof {
        assert(d.take(i - start) =~= d);
    }
    Some(v)
}

// ---- white space ----

/// Characters with the Unicode property `White_Space`.
pub open spec fn is_white(c: char) -> bool {
    let x = c as u32;
    ||| 9 <= x <= 13
    ||| x == 0x20
    ||| x == 0x85
    ||| x == 0xa0
    ||| x == 0x1680
    ||| 0x2000 <= x <= 0x200a
    ||| x == 0x2028
    ||| x == 0x2029
    ||| x == 0x202f
    ||| x == 0x205f
    ||| x == 0x3000
}

fn white(c: char) -> (r: bool)
    ensures
        r == is_white(c),
{
    let x: u32 = c as u32;
    (9 <= x && x <= 13) || x == 0x20 || x == 0x85 || x == 0xa0 || x == 0x1680 || (0x2000 <= x && x
        <= 0x200a) || x == 0x2028 || x == 0x2029 || x == 0x202f || x == 0x205f || x == 0x3000
}

/// White space at the front of `s`.
pub open spec fn white_before(s: Seq<char>) -> nat
    decreases s.len(),
{
    if s.len() > 0 && is_white(s[0]) {
        1 + white_before(s.skip(1))
    } else {
        0
    }
}

/// White space at the end of `s`.
pub open spec fn white_after(s: Seq<char>) -> nat
    decreases s.len(),
{
    if s.len() > 0 && is_white(s.last()) {
        1 + white_after(s.drop_last())
    } else {
        0
    }
}

/// `s` without white space at its ends.
pub open spec fn trimmed(s: Seq<char>) -> Seq<char> {
    let t = s.skip(white_before(s) as int);
    t.take(t.len() - white_after(t))
}

proof fn lemma_white(s: Seq<char>)
    ensures
        white_before(s) <= s.len(),
        white_after(s) <= s.len(),
    decreases s.len(),
{
    if s.len() > 0 {
        lemma_white(s.skip(1));
        lemma_white(s.drop_last());
    }
}

/// The part of `s[a..b]` without white space at its ends.
pub fn trim(s: &[char], a: usize, b: usize) -> (r: (usize, usize))
    requires
        a <= b <= s.len(),
    ensures
        a <= r.0 <= r.1 <= b,
        s@.subrange(r.0 as int, r.1 as int) == trimmed(s@.subrange(a as int, b as int)),
{
    let ghost all = s@.subrange(a as int, b as int);
    let mut i: usize = a;
    while i < b && white(s[i])
        invariant
            a <= i <= b <= s@.len(),
            all == s@.subrange(a as int, b as int),
            white_before(all) == (i - a) + white_before(s@.subrange(i as int, b as int)),
        decreases b - i,
    {
        proof {
            assert(s@.subrange(i as int, b as int).skip(1) =~= s@.subrange(i + 1, b as int));
        }
        i = i + 1;
    }
    proof {
        assert(white_before(s@.subrange(i as int, b as int)) == 0);
        assert(all.skip(i - a) =~= s@.subrange(i as int, b as int));
    }
    let ghost t = s@.subrange(i as int, b as int);
    let mut j: usize = b;
    while j > i && white(s[j - 1])
        invariant
            a <= i <= j <= b <= s@.len(),
            t == s@.subrange(i as int, b as int),
            white_after(t) == (b - j) + white_after(s@.subrange(i as int, j as int)),
        decreases j - i,
    {
        proof {
            assert(s@.subrange(i as int, j as int).drop_last() =~= s@.subrange(i as int, j - 1));
        }
        j = j - 1;
    }
    proof {
        assert(white_after(s@.subrange(i as int, j as int)) == 0);
        assert(t.take(t.len() - white_after(t)) =~= s@.subrange(i as int, j as int));
    }
    (i, j)
}

// ---- numbers as text ----

/// The digit for a number below ten.
pub open spec fn digit(n: int) -> char {
    ('0' as int + n) as char
}

/// A number in decimal, without leading zeros.
pub open spec fn written(n: nat) -> Seq<char>
    decreases n,
{
    if n < 10 {
        seq![digit(n as int)]
    } else {
        written(n / 10).push(digit((n % 10) as int))
    }
}

fn digit_text(n: usize) -> (r: &'static str)
    requires
        n < 10,
    ensures
        r@ == seq![digit(n as int)],
{
    proof {
        reveal_strlit("0");
        reveal_strlit("1");
        reveal_strlit("2");
        reveal_strlit("3");
        reveal_strlit("4");
        reveal_strlit("5");
        reveal_strlit("6");
        reveal_strlit("7");
        reveal_strlit("8");
        reveal_strlit("9");
    }
    if n == 0 {
        "0"
    } else if n == 1 {
        "1"
    } else if n == 2 {
        "2"
    } else if n == 3 {
        "3"
    } else if n == 4 {
        "4"
    } else if n == 5 {
        "5"
    } else if n == 6 {
        "6"
    } else if n == 7 {
        "7"
    } else if n == 8 {
        "8"
    } else {
        "9"
    }
}

/// Writes a number in decimal.
pub fn write_size(n: usize) -> (r: String)
    ensures
        r@ == written(n as nat),
    decreases n,
{
    if n < 10 {
        digit_text(n).to_owned()
    } else {
        let mut out: String = write_size(n / 10);
        out.append(digit_text(n % 10));
        proof {
            assert(out@ =~= written((n / 10) as nat).push(digit((n % 10) as int)));
        }
        out
    }
}

/// A written number consists of digits and stands for that number.
pub proof fn lemma_written(n: nat)
    ensures
        written(n).len() > 0,
        all_digits(written(n)),
        decimal(written(n)) == n,
    decreases n,
{
    if n < 10 {
        assert(written(n).drop_last() =~= Seq::empty());
        assert(decimal(Seq::empty()) == 0);
    } else {
        lemma_written(n / 10);
        assert(written(n).drop_last() =~= written(n / 10));
    }
}

} // verus!
