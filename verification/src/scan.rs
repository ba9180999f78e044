use vstd::prelude::*;
use crate::text::{is_ws, is_whitespace};

verus! {

/// The character sets that the class grammar scans runs of.
#[derive(Clone, Copy, PartialEq, Eq, Debug)]
pub enum CharClass {
    /// Utility class names: `padding-5`, `foo/0.25`.
    Ident,
    /// Generator parameter values: `#fff`, `50%`, `rgb(1,2,3)`.
    Color,
    /// The name part of a pseudo-class prefix: `hover`, `@sm`, `@<md`.
    PseudoName,
    /// Plain text inside a bracketed selector: `& > *`, `::before`.
    Selector,
    /// Plain text inside an arbitrary declaration: anything but brackets.
    Declaration,
    /// Whitespace between classes.
    Space,
    /// The `_` character alone.
    Underscore,
}

/// ASCII letter or digit, tested on the low byte of the character the way a
/// byte-oriented `is_alphanumeric` sees a `char` cast to `u8`.
pub open spec fn low_byte_alnum(c: char) -> bool {
    let b = (c as u32) % 256;
    ||| 0x30 <= b <= 0x39
    ||| 0x41 <= b <= 0x5a
    ||| 0x61 <= b <= 0x7a
}

pub open spec fn in_class(cls: CharClass, c: char) -> bool {
    match cls {
        CharClass::Ident => low_byte_alnum(c) || c == '_' || c == '-' || c == '.' || c == '/',
        CharClass::Color => low_byte_alnum(c) || c == '#' || c == '%' || c == '_' || c == '-'
            || c == '@' || c == '(' || c == ')' || c == '.' || c == '/',
        CharClass::PseudoName => low_byte_alnum(c) || c == '_' || c == '-' || c == '@' || c
            == ',' || c == '<' || c == '>' || c == '*' || c == '.',
        CharClass::Selector => low_byte_alnum(c) || c == '_' || c == '-' || c == '@' || c == ','
            || c == '<' || c == '>' || c == '*' || c == ' ' || c == '.' || c == ':' || c == '#'
            || c == '&',
        CharClass::Declaration => !(c == '[' || c == ']' || c == '(' || c == ')'),
        CharClass::Space => is_ws(c),
        CharClass::Underscore => c == '_',
    }
}

pub fn class_contains(cls: CharClass, c: char) -> (b: bool)
    ensures
        b == in_class(cls, c),
{
    let b = (c as u32) % 256;
    let alnum = (0x30 <= b && b <= 0x39) || (0x41 <= b && b <= 0x5a) || (0x61 <= b && b <= 0x7a);
    match cls {
        CharClass::Ident => alnum || c == '_' || c == '-' || c == '.' || c == '/',
        CharClass::Color => alnum || c == '#' || c == '%' || c == '_' || c == '-' || c == '@' || c
            == '(' || c == ')' || c == '.' || c == '/',
        CharClass::PseudoName => alnum || c == '_' || c == '-' || c == '@' || c == ',' || c == '<'
            || c == '>' || c == '*' || c == '.',
        CharClass::Selector => alnum || c == '_' || c == '-' || c == '@' || c == ',' || c == '<'
            || c == '>' || c == '*' || c == ' ' || c == '.' || c == ':' || c == '#' || c == '&',
        CharClass::Declaration => !(c == '[' || c == ']' || c == '(' || c == ')'),
        CharClass::Space => is_whitespace(c),
        CharClass::Underscore => c == '_',
    }
}

/// Length of the longest prefix of `t` whose characters all lie in `cls`.
pub open spec fn run_len(t: Seq<char>, cls: CharClass) -> nat
    decreases t.len(),
{
    if t.len() > 0 && in_class(cls, t[0]) {
        1 + run_len(t.drop_first(), cls)
    } else {
        0
    }
}

pub proof fn lemma_run_len(t: Seq<char>, cls: CharClass, n: int)
    requires
        0 <= n <= t.len(),
        forall|k: int| 0 <= k < n ==> #[trigger] in_class(cls, t[k]),
        n == t.len() || !in_class(cls, t[n]),
    ensures
        run_len(t, cls) == n,
    decreases n,
{
    if n > 0 {
        let u = t.drop_first();
        assert forall|k: int| 0 <= k < n - 1 implies #[trigger] in_class(cls, u[k]) by {
            assert(u[k] == t[k + 1]);
        }
        if n < t.len() {
            assert(u[n - 1] == t[n]);
        }
        lemma_run_len(u, cls, n - 1);
    }
}

pub proof fn lemma_run_len_facts(t: Seq<char>, cls: CharClass)
    ensures
        run_len(t, cls) <= t.len(),
        forall|k: int| 0 <= k < run_len(t, cls) ==> #[trigger] in_class(cls, t[k]),
        run_len(t, cls) == t.len() || !in_class(cls, t[run_len(t, cls) as int]),
    decreases t.len(),
{
    if t.len() > 0 && in_class(cls, t[0]) {
        let u = t.drop_first();
        lemma_run_len_facts(u, cls);
        assert forall|k: int| 0 <= k < run_len(t, cls) implies #[trigger] in_class(cls, t[k]) by {
            if k > 0 {
                assert(t[k] == u[k - 1]);
            }
        }
        if run_len(t, cls) < t.len() {
            assert(t[run_len(t, cls) as int] == u[run_len(u, cls) as int]);
        }
    }
}

/// End of the run of `cls` characters that starts at `i`.
pub fn scan_run(s: &Vec<char>, i: usize, cls: CharClass) -> (j: usize)
    requires
        i <= s.len(),
    ensures
        i <= j <= s.len(),
        j - i == run_len(s@.skip(i as int), cls),
{
    let mut j = i;
    while j < s.len() && class_contains(cls, s[j])
        invariant
            i <= j <= s.len(),
            forall|k: int| i <= k < j ==> #[trigger] in_class(cls, s@[k]),
        decreases s.len() - j,
    {
        j += 1;
    }
    proof {
        let t = s@.skip(i as int);
        assert forall|k: int| 0 <= k < j - i implies #[trigger] in_class(cls, t[k]) by {
            assert(t[k] == s@[i + k]);
        }
        if j < s.len() {
            assert(t[j - i] == s@[j as int]);
        }
        lemma_run_len(t, cls, j - i);
    }
    j
}


/// Length of the longest suffix of `t` whose characters all lie in `cls`.
pub open spec fn trail_len(t: Seq<char>, cls: CharClass) -> nat
    decreases t.len(),
{
    if t.len() > 0 && in_class(cls, t.last()) {
        1 + trail_len(t.drop_last(), cls)
    } else {
        0
    }
}

/// `t` without its leading and trailing runs of `cls`.
pub open spec fn trim_class(t: Seq<char>, cls: CharClass) -> Seq<char> {
    let a = run_len(t, cls);
    if a == t.len() {
        Seq::empty()
    } else {
        t.subrange(a as int, t.len() - trail_len(t, cls))
    }
}

pub proof fn lemma_trail_len(t: Seq<char>, cls: CharClass, n: int)
    requires
        0 <= n <= t.len(),
        forall|k: int| t.len() - n <= k < t.len() ==> #[trigger] in_class(cls, t[k]),
        n == t.len() || !in_class(cls, t[t.len() - 1 - n]),
    ensures
        trail_len(t, cls) == n,
    decreases n,
{
    if n > 0 {
        let u = t.drop_last();
        assert forall|k: int| u.len() - (n - 1) <= k < u.len() implies #[trigger] in_class(cls, u[k]) by {
            assert(u[k] == t[k]);
        }
        if n < t.len() {
            assert(u[u.len() - 1 - (n - 1)] == t[t.len() - 1 - n]);
        }
        lemma_trail_len(u, cls, n - 1);
    }
}

/// `t` without its leading and trailing runs of `cls`.
pub fn trim_chars(v: &Vec<char>, cls: CharClass) -> (r: Vec<char>)
    ensures
        r@ == trim_class(v@, cls),
{
    let a = scan_run(v, 0, cls);
    assert(v@.skip(0) =~= v@);
    if a == v.len() {
        return Vec::new();
    }
    proof {
        lemma_run_len_facts(v@, cls);
    }
    let mut e = v.len();
    while e > a && class_contains(cls, v[e - 1])
        invariant
            a <= e <= v.len(),
            a < v.len(),
            forall|k: int| e <= k < v.len() ==> #[trigger] in_class(cls, v@[k]),
        decreases e,
    {
        e -= 1;
    }
    proof {
        lemma_trail_len(v@, cls, v.len() - e);
    }
    let mut r: Vec<char> = Vec::new();
    let mut k = a;
    while k < e
        invariant
            a <= k <= e <= v.len(),
            r@ == v@.subrange(a as int, k as int),
        decreases e - k,
    {
        r.push(v[k]);
        assert(v@.subrange(a as int, k + 1) =~= v@.subrange(a as int, k as int).push(v@[k as int]));
        k += 1;
    }
    r
}

} // verus!
