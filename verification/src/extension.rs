use vstd::prelude::*;
use crate::scan::{CharClass, run_len, in_class, lemma_run_len, lemma_run_len_facts};
use crate::grammar_spec::{
    take_run1, spec_selector_group, spec_selector_item, spec_selector_text,
    spec_declaration_group, spec_declaration_item, spec_declaration_body,
    spec_arbitrary_declaration, spec_param_value, spec_param_tail, spec_generator_parameters,
    spec_pseudo_group, spec_pseudo_groups, spec_pseudo_selector, spec_prefixes, spec_variant,
    spec_class_body, spec_class_item, spec_css_identifier,
};
use crate::text::{all_ws, is_ws};

verus! {

// How the class grammar's parsers behave when more text follows their input.
// A parser whose every look stays inside the input gives the same answer
// whatever follows it.

pub proof fn lemma_skip_concat(s: Seq<char>, y: Seq<char>, i: int)
    requires
        0 <= i <= s.len(),
    ensures
        (s + y).skip(i) =~= s.skip(i) + y,
{
}

/// A run that stops inside the input stops at the same place whatever
/// follows.
pub proof fn lemma_run_inside(s: Seq<char>, y: Seq<char>, cls: CharClass)
    requires
        run_len(s, cls) < s.len(),
    ensures
        run_len(s + y, cls) == run_len(s, cls),
{
    let t = s + y;
    let n = run_len(s, cls);
    lemma_run_len_facts(s, cls);
    assert forall|k: int| 0 <= k < n implies #[trigger] in_class(cls, t[k]) by {
        assert(t[k] == s[k]);
    }
    assert(t[n as int] == s[n as int]);
    lemma_run_len(t, cls, n as int);
}

/// A run of the same length takes the same text.
pub proof fn lemma_run1_same(s: Seq<char>, y: Seq<char>, cls: CharClass)
    requires
        run_len(s + y, cls) == run_len(s, cls),
    ensures
        take_run1(s + y, cls) == take_run1(s, cls),
{
    lemma_run_len_facts(s, cls);
    let n = run_len(s, cls);
    assert((s + y).take(n as int) =~= s.take(n as int));
}

/// `s[k]` is a `]` with no `[` before it.
pub open spec fn closes_at(s: Seq<char>, k: int) -> bool {
    &&& 0 <= k < s.len()
    &&& s[k] == ']'
    &&& forall|j: int| 0 <= j < k ==> #[trigger] s[j] != '['
}

/// Selector text that has a `]` ahead of it, with no `[` before it, stops
/// at that `]` at the latest, and never looks past it.
pub proof fn lemma_text_closed_ahead(s: Seq<char>, y: Seq<char>, k: int)
    requires
        closes_at(s, k),
    ensures
        spec_selector_text(s + y) == spec_selector_text(s),
        spec_selector_text(s) matches Some((n, _)) && n <= k,
    decreases s.len(),
{
    let t = s + y;
    assert(t[0] == s[0]);
    if k > 0 {
        assert(s[0] != '[');
    }
    // The parenthesised group, if one opens here.
    if s[0] == '(' {
        let s1 = s.skip(1);
        assert(closes_at(s1, k - 1)) by {
            assert forall|j: int| 0 <= j < k - 1 implies #[trigger] s1[j] != '[' by {
                assert(s1[j] == s[j + 1]);
            }
        }
        lemma_text_closed_ahead(s1, y, k - 1);
        lemma_skip_concat(s, y, 1);
        match spec_selector_text(s1) {
            Some((n1, v1)) => {
                assert(t[(1 + n1) as int] == s[(1 + n1) as int]);
            },
            None => {},
        }
        assert(spec_selector_group(t, '(', ')') == spec_selector_group(s, '(', ')'));
    }
    // The plain run.
    lemma_run_len_facts(s, CharClass::Selector);
    assert(run_len(s, CharClass::Selector) <= k) by {
        if run_len(s, CharClass::Selector) > k {
            assert(in_class(CharClass::Selector, s[k]));
        }
    }
    lemma_run_inside(s, y, CharClass::Selector);
    lemma_run1_same(s, y, CharClass::Selector);
    crate::bounds::lemma_selector_item_bounds(s);
    assert(spec_selector_item(t) == spec_selector_item(s));
    match spec_selector_item(s) {
        None => {},
        Some((m, v)) => {
            assert(m <= k) by {
                if s[0] == '(' {
                    match spec_selector_text(s.skip(1)) {
                        Some((n1, v1)) => {
                            if 1 + n1 == k {
                                assert(s[(1 + n1) as int] == ']');
                            }
                        },
                        None => {},
                    }
                }
            }
            let s2 = s.skip(m as int);
            assert(closes_at(s2, k - m)) by {
                assert forall|j: int| 0 <= j < k - m implies #[trigger] s2[j] != '[' by {
                    assert(s2[j] == s[j + m]);
                }
                assert(s2[k - m] == s[k]);
            }
            lemma_text_closed_ahead(s2, y, k - m);
            lemma_skip_concat(s, y, m as int);
        },
    }
}

/// A bracket group that closes inside the input reads the same whatever
/// follows it.
pub proof fn lemma_group_done(s: Seq<char>, y: Seq<char>, open: char, close: char)
    requires
        spec_selector_group(s, open, close) is Some,
        (open == '(' && close == ')') || (open == '[' && close == ']'),
    ensures
        spec_selector_group(s + y, open, close) == spec_selector_group(s, open, close),
    decreases s.len(), 0nat,
{
    let t = s + y;
    let s1 = s.skip(1);
    let (n1, v1) = spec_selector_text(s1).unwrap();
    assert(s1[n1 as int] == s[(1 + n1) as int]);
    lemma_text_done(s1, y);
    lemma_skip_concat(s, y, 1);
    assert(t[0] == s[0]);
    assert(t[(1 + n1) as int] == s[(1 + n1) as int]);
}

/// Selector text that ends at a closing bracket inside the input reads the
/// same whatever follows it.
pub proof fn lemma_text_done(s: Seq<char>, y: Seq<char>)
    requires
        spec_selector_text(s) matches Some((n, _)) && n < s.len() && (s[n as int] == ']' || s[n as int] == ')'),
    ensures
        spec_selector_text(s + y) == spec_selector_text(s),
    decreases s.len(), 1nat,
{
    let t = s + y;
    let n = spec_selector_text(s).unwrap().0;
    assert(t[0] == s[0]);
    crate::bounds::lemma_selector_item_bounds(s);
    match spec_selector_item(s) {
        None => {
            lemma_run_len(s, CharClass::Selector, 0);
            lemma_run_len(t, CharClass::Selector, 0);
        },
        Some((m, v)) => {
            if spec_selector_group(s, '(', ')') is Some {
                lemma_group_done(s, y, '(', ')');
            } else if spec_selector_group(s, '[', ']') is Some {
                lemma_group_done(s, y, '[', ']');
            } else {
                crate::bounds::lemma_selector_text_bounds(s.skip(m as int));
                lemma_run_inside(s, y, CharClass::Selector);
                lemma_run1_same(s, y, CharClass::Selector);
                lemma_run_len_facts(s, CharClass::Selector);
                assert(s[0] != '(' && s[0] != '[');
            }
            assert(spec_selector_item(t) == spec_selector_item(s));
            let s2 = s.skip(m as int);
            let (n2, v2) = spec_selector_text(s2).unwrap();
            assert(s2[n2 as int] == s[n as int]);
            lemma_text_done(s2, y);
            lemma_skip_concat(s, y, m as int);
        },
    }
}

/// A parenthesised declaration group that closes inside the input reads the
/// same whatever follows it.
pub proof fn lemma_declaration_group_done(s: Seq<char>, y: Seq<char>)
    requires
        spec_declaration_group(s) is Some,
    ensures
        spec_declaration_group(s + y) == spec_declaration_group(s),
    decreases s.len(), 0nat,
{
    let t = s + y;
    let s1 = s.skip(1);
    let (n1, v1) = spec_declaration_body(s1).unwrap();
    assert(s1[n1 as int] == s[(1 + n1) as int]);
    lemma_declaration_body_done(s1, y);
    lemma_skip_concat(s, y, 1);
    assert(t[0] == s[0]);
    assert(t[(1 + n1) as int] == s[(1 + n1) as int]);
}

/// A declaration body that ends at a closing bracket inside the input reads
/// the same whatever follows it.
pub proof fn lemma_declaration_body_done(s: Seq<char>, y: Seq<char>)
    requires
        spec_declaration_body(s) matches Some((n, _)) && n < s.len() && (s[n as int] == ']' || s[n as int] == ')'),
    ensures
        spec_declaration_body(s + y) == spec_declaration_body(s),
    decreases s.len(), 1nat,
{
    let t = s + y;
    let n = spec_declaration_body(s).unwrap().0;
    assert(t[0] == s[0]);
    crate::bounds::lemma_declaration_item_bounds(s);
    match spec_declaration_item(s) {
        None => {
            lemma_run_len(s, CharClass::Declaration, 0);
            lemma_run_len(t, CharClass::Declaration, 0);
        },
        Some((m, v)) => {
            if spec_declaration_group(s) is Some {
                lemma_declaration_group_done(s, y);
            } else {
                crate::bounds::lemma_declaration_body_bounds(s.skip(m as int));
                lemma_run_inside(s, y, CharClass::Declaration);
                lemma_run1_same(s, y, CharClass::Declaration);
                lemma_run_len_facts(s, CharClass::Declaration);
                assert(s[0] != '(');
            }
            assert(spec_declaration_item(t) == spec_declaration_item(s));
            let s2 = s.skip(m as int);
            let (n2, v2) = spec_declaration_body(s2).unwrap();
            assert(s2[n2 as int] == s[n as int]);
            lemma_declaration_body_done(s2, y);
            lemma_skip_concat(s, y, m as int);
        },
    }
}

/// What a declaration body reads holds no square bracket.
pub proof fn lemma_declaration_group_unbracketed(s: Seq<char>)
    ensures
        spec_declaration_group(s) matches Some((n, _)) ==> forall|j: int|
            0 <= j < n ==> #[trigger] s[j] != '[' && s[j] != ']',
    decreases s.len(), 0nat,
{
    if s.len() > 0 && s[0] == '(' {
        let s1 = s.skip(1);
        lemma_declaration_body_unbracketed(s1);
        match spec_declaration_body(s1) {
            Some((n1, v1)) => {
                if 1 + n1 < s.len() && s[(1 + n1) as int] == ')' {
                    assert forall|j: int| 0 <= j < n1 + 2 implies #[trigger] s[j] != '[' && s[j] != ']' by {
                        if 0 < j < n1 + 1 {
                            assert(s[j] == s1[j - 1]);
                        }
                    }
                }
            },
            None => {},
        }
    }
}

pub proof fn lemma_declaration_body_unbracketed(s: Seq<char>)
    ensures
        spec_declaration_body(s) matches Some((n, _)) ==> forall|j: int|
            0 <= j < n ==> #[trigger] s[j] != '[' && s[j] != ']',
    decreases s.len(), 1nat,
{
    crate::bounds::lemma_declaration_item_bounds(s);
    lemma_declaration_group_unbracketed(s);
    lemma_run_len_facts(s, CharClass::Declaration);
    match spec_declaration_item(s) {
        None => {},
        Some((m, v)) => {
            if m > 0 && m <= s.len() {
                let s2 = s.skip(m as int);
                lemma_declaration_body_unbracketed(s2);
                crate::bounds::lemma_declaration_body_bounds(s2);
                match spec_declaration_body(s2) {
                    Some((n2, v2)) => {
                        assert forall|j: int| 0 <= j < m + n2 implies #[trigger] s[j] != '[' && s[j] != ']' by {
                            if j < m {
                                if spec_declaration_group(s) is None {
                                    assert(in_class(CharClass::Declaration, s[j]));
                                }
                            } else {
                                assert(s[j] == s2[j - m]);
                            }
                        }
                    },
                    None => {},
                }
            }
        },
    }
}

/// An arbitrary declaration that reads inside the input reads the same
/// whatever follows it; its text holds no square bracket, and it ends at the
/// first `]`.
pub proof fn lemma_arbitrary_done(s: Seq<char>, y: Seq<char>)
    requires
        spec_arbitrary_declaration(s) is Some,
    ensures
        spec_arbitrary_declaration(s + y) == spec_arbitrary_declaration(s),
        ({
            let n = spec_arbitrary_declaration(s).unwrap().0;
            &&& 2 <= n <= s.len()
            &&& s[0] == '['
            &&& s[n - 1] == ']'
            &&& forall|j: int| 0 < j < n - 1 ==> #[trigger] s[j] != '[' && s[j] != ']'
        }),
{
    let t = s + y;
    let s1 = s.skip(1);
    let (n1, v1) = spec_declaration_body(s1).unwrap();
    assert(s1[n1 as int] == s[(1 + n1) as int]);
    lemma_declaration_body_done(s1, y);
    lemma_declaration_body_unbracketed(s1);
    lemma_skip_concat(s, y, 1);
    assert(t[0] == s[0]);
    assert(t[(1 + n1) as int] == s[(1 + n1) as int]);
    assert forall|j: int| 0 < j < n1 + 1 implies #[trigger] s[j] != '[' && s[j] != ']' by {
        assert(s[j] == s1[j - 1]);
    }
}

/// A parameter tail that ends at a `]` inside the input reads the same
/// whatever follows it, and holds no square bracket.
pub proof fn lemma_param_tail_done(s: Seq<char>, y: Seq<char>)
    requires
        spec_param_tail(s).0 < s.len(),
        s[spec_param_tail(s).0 as int] == ']',
    ensures
        spec_param_tail(s + y) == spec_param_tail(s),
        forall|j: int| 0 <= j < spec_param_tail(s).0 ==> #[trigger] s[j] != '[' && s[j] != ']',
    decreases s.len(),
{
    let t = s + y;
    assert(t[0] == s[0]);
    if s[0] == ',' {
        let s1 = s.skip(1);
        lemma_run_len_facts(s1, CharClass::Color);
        match spec_param_value(s1) {
            Some((n, v)) => {
                let s2 = s.skip((1 + n) as int);
                crate::bounds::lemma_param_tail_bounds(s2);
                let m2 = spec_param_tail(s2).0;
                assert(s2[m2 as int] == s[(1 + n + m2) as int]);
                lemma_param_tail_done(s2, y);
                lemma_run_inside(s1, y, CharClass::Color);
                lemma_skip_concat(s, y, 1);
                lemma_run1_same(s1, y, CharClass::Color);
                lemma_skip_concat(s, y, (1 + n) as int);
                assert forall|j: int| 0 <= j < 1 + n + m2 implies #[trigger] s[j] != '[' && s[j] != ']' by {
                    if 0 < j < 1 + n {
                        assert(s[j] == s1[j - 1]);
                        assert(in_class(CharClass::Color, s1[j - 1]));
                    } else if j >= 1 + n {
                        assert(s[j] == s2[j - 1 - n]);
                    }
                }
            },
            None => {},
        }
    }
}

/// Generator parameters that read inside the input read the same whatever
/// follows them; between their brackets there is no square bracket.
pub proof fn lemma_generator_parameters_done(s: Seq<char>, y: Seq<char>)
    requires
        spec_generator_parameters(s) is Some,
    ensures
        spec_generator_parameters(s + y) == spec_generator_parameters(s),
        ({
            let n = spec_generator_parameters(s).unwrap().0;
            &&& 2 <= n <= s.len()
            &&& s[0] == '['
            &&& s[n - 1] == ']'
            &&& forall|j: int| 0 < j < n - 1 ==> #[trigger] s[j] != '[' && s[j] != ']'
        }),
{
    reveal(spec_generator_parameters);
    let t = s + y;
    let s1 = s.skip(1);
    let (n, v) = spec_param_value(s1).unwrap();
    lemma_run_len_facts(s1, CharClass::Color);
    let s2 = s.skip((1 + n) as int);
    crate::bounds::lemma_param_tail_bounds(s2);
    let m = spec_param_tail(s2).0;
    assert(s2[m as int] == s[(1 + n + m) as int]);
    lemma_param_tail_done(s2, y);
    lemma_run_inside(s1, y, CharClass::Color);
    lemma_skip_concat(s, y, 1);
    lemma_run1_same(s1, y, CharClass::Color);
    lemma_skip_concat(s, y, (1 + n) as int);
    assert(t[0] == s[0]);
    assert(t[(1 + n + m) as int] == s[(1 + n + m) as int]);
    assert forall|j: int| 0 < j < 1 + n + m implies #[trigger] s[j] != '[' && s[j] != ']' by {
        if j < 1 + n {
            assert(s[j] == s1[j - 1]);
            assert(in_class(CharClass::Color, s1[j - 1]));
        } else {
            assert(s[j] == s2[j - 1 - n]);
        }
    }
}

/// Whitespace in front of a string lengthens its leading whitespace run by
/// exactly its own length.
pub proof fn lemma_run_len_ws_prefix(w: Seq<char>, s: Seq<char>)
    requires
        all_ws(w),
    ensures
        run_len(w + s, CharClass::Space) == w.len() + run_len(s, CharClass::Space),
{
    let t = w + s;
    lemma_run_len_facts(s, CharClass::Space);
    let n = w.len() + run_len(s, CharClass::Space);
    assert forall|k: int| 0 <= k < n implies #[trigger] in_class(CharClass::Space, t[k]) by {
        if k < w.len() {
            assert(t[k] == w[k]);
            assert(is_ws(w[k]));
        } else {
            assert(t[k] == s[k - w.len()]);
        }
    }
    if n < t.len() {
        assert(t[n as int] == s[run_len(s, CharClass::Space) as int]);
    }
    lemma_run_len(t, CharClass::Space, n as int);
}

/// Whitespace lies outside every run class that names or parameters use.
pub proof fn lemma_ws_outside_names(x: char)
    requires
        is_ws(x),
    ensures
        !in_class(CharClass::Ident, x),
        !in_class(CharClass::PseudoName, x),
        !in_class(CharClass::Color, x),
        x != '[' && x != '(' && x != ':' && x != ']' && x != ')',
{
}

/// A run of a class that holds no whitespace ends where it ended before
/// whitespace was appended.
pub proof fn lemma_run_before_ws(s: Seq<char>, x: Seq<char>, cls: CharClass)
    requires
        x.len() > 0,
        !in_class(cls, x[0]),
    ensures
        run_len(s + x, cls) == run_len(s, cls),
{
    let t = s + x;
    let n = run_len(s, cls);
    lemma_run_len_facts(s, cls);
    assert forall|k: int| 0 <= k < n implies #[trigger] in_class(cls, t[k]) by {
        assert(t[k] == s[k]);
    }
    if n < s.len() {
        assert(t[n as int] == s[n as int]);
    } else {
        assert(t[n as int] == x[0]);
    }
    lemma_run_len(t, cls, n as int);
}

/// The groups after a pseudo-class name, when they end inside the input in
/// front of something that opens no group, read the same whatever follows.
pub proof fn lemma_pseudo_groups_done(s: Seq<char>, y: Seq<char>)
    requires
        spec_pseudo_groups(s) matches Some((b, _)) && b < s.len() && s[b as int] != '(' && s[b as int] != '[',
    ensures
        spec_pseudo_groups(s + y) == spec_pseudo_groups(s),
    decreases s.len(),
{
    let t = s + y;
    let b = spec_pseudo_groups(s).unwrap().0;
    assert(t[0] == s[0]);
    match spec_pseudo_group(s) {
        None => {},
        Some((n, v)) => {
            if spec_selector_group(s, '(', ')') is Some {
                lemma_group_done(s, y, '(', ')');
            } else {
                lemma_group_done(s, y, '[', ']');
            }
            crate::bounds::lemma_selector_group_bounds(s, '(', ')');
            crate::bounds::lemma_selector_group_bounds(s, '[', ']');
            let s2 = s.skip(n as int);
            crate::bounds::lemma_pseudo_groups_bounds(s2);
            let b2 = spec_pseudo_groups(s2).unwrap().0;
            assert(s2[b2 as int] == s[b as int]);
            lemma_pseudo_groups_done(s2, y);
            lemma_skip_concat(s, y, n as int);
        },
    }
}

/// A prefix that reads inside the input reads the same whatever follows.
pub proof fn lemma_pseudo_selector_done(s: Seq<char>, y: Seq<char>)
    requires
        spec_pseudo_selector(s) is Some,
    ensures
        spec_pseudo_selector(s + y) == spec_pseudo_selector(s),
{
    let t = s + y;
    let a = run_len(s, CharClass::PseudoName);
    lemma_run_len_facts(s, CharClass::PseudoName);
    let sa = s.skip(a as int);
    let (b, g) = spec_pseudo_groups(sa).unwrap();
    crate::bounds::lemma_pseudo_groups_bounds(sa);
    assert(sa[b as int] == s[(a + b) as int]);
    lemma_pseudo_groups_done(sa, y);
    lemma_run_inside(s, y, CharClass::PseudoName);
    lemma_skip_concat(s, y, a as int);
    assert(t[(a + b) as int] == s[(a + b) as int]);
    assert(t.take(a as int) =~= s.take(a as int));
}

/// The prefixes in front of a class read the same whatever follows, when the
/// attempt at one more prefix fails on the extended input too.
pub proof fn lemma_prefixes_ext(s: Seq<char>, x: Seq<char>)
    requires
        spec_prefixes(s) matches Some((np, _)) && np <= s.len() && spec_pseudo_selector(
            s.skip(np as int) + x,
        ) is None,
    ensures
        spec_prefixes(s + x) == spec_prefixes(s),
    decreases s.len(),
{
    reveal(spec_prefixes);
    let t = s + x;
    let np = spec_prefixes(s).unwrap().0;
    crate::bounds::lemma_pseudo_selector_bounds(s);
    match spec_pseudo_selector(s) {
        Some((n, v)) => {
            lemma_pseudo_selector_done(s, x);
            let s2 = s.skip(n as int);
            crate::bounds::lemma_prefixes_bounds(s2);
            let np2 = spec_prefixes(s2).unwrap().0;
            assert(s2.skip(np2 as int) =~= s.skip(np as int));
            lemma_prefixes_ext(s2, x);
            lemma_skip_concat(s, x, n as int);
        },
        None => {
            assert(s.skip(0) =~= s);
        },
    }
}

/// What may follow a class body in a class that reads to its end:
/// parameters and then whitespace, or whitespace alone.
pub open spec fn body_tail(c4: Seq<char>) -> bool {
    match spec_generator_parameters(c4) {
        Some((ng, _)) => all_ws(c4.skip(ng as int)),
        None => all_ws(c4),
    }
}

/// After a class body, no group that a pseudo-class could take goes on past
/// the class, and no colon follows: the groups read the same whatever
/// whitespace-led text follows.
proof fn lemma_groups_after_body(c4: Seq<char>, x: Seq<char>)
    requires
        x.len() > 0,
        is_ws(x[0]),
        body_tail(c4),
    ensures
        spec_pseudo_groups(c4 + x) == spec_pseudo_groups(c4),
        spec_pseudo_groups(c4) matches Some((b, _)) && b <= c4.len() && (c4 + x)[b as int] != ':'
            && (b < c4.len() ==> c4[b as int] != ':'),
{
    let t = c4 + x;
    lemma_ws_outside_names(x[0]);
    match spec_generator_parameters(c4) {
        Some((ng, ps)) => {
            lemma_generator_parameters_done(c4, x);
            let s1 = c4.skip(1);
            assert(closes_at(s1, ng - 2)) by {
                assert forall|j: int| 0 <= j < ng - 2 implies #[trigger] s1[j] != '[' by {
                    assert(s1[j] == c4[j + 1]);
                }
                assert(s1[ng - 2] == c4[ng - 1]);
            }
            lemma_text_closed_ahead(s1, x, ng - 2);
            lemma_skip_concat(c4, x, 1);
            assert(t[0] == c4[0]);
            let (n1, v1) = spec_selector_text(s1).unwrap();
            assert(t[(1 + n1) as int] == c4[(1 + n1) as int]);
            assert(spec_selector_group(t, '[', ']') == spec_selector_group(c4, '[', ']'));
            match spec_selector_group(c4, '[', ']') {
                Some((n, g)) => {
                    assert(n == ng) by {
                        if 1 + n1 < ng - 1 {
                            assert(c4[(1 + n1) as int] != ']');
                        }
                    }
                    let c5 = c4.skip(ng as int);
                    lemma_skip_concat(c4, x, ng as int);
                    let t5 = c5 + x;
                    if c5.len() > 0 {
                        assert(is_ws(c5[0]));
                        assert(t5[0] == c5[0]);
                    } else {
                        assert(t5[0] == x[0]);
                    }
                    assert(spec_pseudo_groups(c5) == Some((0nat, Seq::<char>::empty())));
                    assert(spec_pseudo_groups(t5) == Some((0nat, Seq::<char>::empty())));
                    if ng < c4.len() {
                        assert(c4[ng as int] == c5[0]);
                        assert(t[ng as int] == c5[0]);
                    } else {
                        assert(t[ng as int] == x[0]);
                    }
                },
                None => {},
            }
        },
        None => {
            if c4.len() > 0 {
                assert(is_ws(c4[0]));
                assert(t[0] == c4[0]);
            } else {
                assert(t[0] == x[0]);
            }
        },
    }
}

/// What follows a class body opens no pseudo-class name.
proof fn lemma_after_body_no_name(c3: Seq<char>, nb: nat)
    requires
        nb <= c3.len(),
        body_tail(c3.skip(nb as int)),
    ensures
        nb < c3.len() ==> !in_class(CharClass::PseudoName, c3[nb as int]),
{
    let c4 = c3.skip(nb as int);
    if nb < c3.len() {
        assert(c4[0] == c3[nb as int]);
        reveal(spec_generator_parameters);
        if spec_generator_parameters(c4) is None {
            assert(is_ws(c4[0]));
        }
    }
}

/// The attempt at one more prefix fails where an arbitrary declaration
/// stands, on the class alone and with whitespace-led text after it.
#[verifier::rlimit(30)]
proof fn lemma_no_prefix_at_arbitrary(c3: Seq<char>, x: Seq<char>)
    requires
        x.len() > 0,
        is_ws(x[0]),
        spec_arbitrary_declaration(c3) matches Some((nb, _)) && body_tail(c3.skip(nb as int)),
    ensures
        spec_pseudo_selector(c3) is None,
        spec_pseudo_selector(c3 + x) is None,
{
    let t = c3 + x;
    lemma_ws_outside_names(x[0]);
    let nb = spec_arbitrary_declaration(c3).unwrap().0;
    lemma_arbitrary_done(c3, x);
    let c4 = c3.skip(nb as int);
    lemma_skip_concat(c3, x, nb as int);
    lemma_groups_after_body(c4, x);
    assert(t[0] == c3[0]);
    lemma_run_len(c3, CharClass::PseudoName, 0);
    lemma_run_len(t, CharClass::PseudoName, 0);
    let s1 = c3.skip(1);
    assert(closes_at(s1, nb - 2)) by {
        assert forall|j: int| 0 <= j < nb - 2 implies #[trigger] s1[j] != '[' by {
            assert(s1[j] == c3[j + 1]);
        }
        assert(s1[nb - 2] == c3[nb - 1]);
    }
    lemma_text_closed_ahead(s1, x, nb - 2);
    lemma_skip_concat(c3, x, 1);
    let (n1, v1) = spec_selector_text(s1).unwrap();
    assert(t[(1 + n1) as int] == c3[(1 + n1) as int]);
    assert(c3.skip(0) =~= c3);
    assert(t.skip(0) =~= t);
    assert(spec_selector_group(t, '[', ']') == spec_selector_group(c3, '[', ']'));
    match spec_selector_group(c3, '[', ']') {
        Some((m, g)) => {
            assert(m == nb) by {
                if 1 + n1 < nb - 1 {
                    assert(c3[(1 + n1) as int] != ']');
                }
            }
            let (b4, g4) = spec_pseudo_groups(c4).unwrap();
            if nb + b4 < c3.len() {
                assert(c3[(nb + b4) as int] == c4[b4 as int]);
            }
            assert(t[(nb + b4) as int] == (c4 + x)[b4 as int]);
        },
        None => {},
    }
}

/// The attempt at one more prefix fails where a class name stands, on the
/// class alone and with whitespace-led text after it.
proof fn lemma_no_prefix_at_name(c3: Seq<char>, x: Seq<char>)
    requires
        x.len() > 0,
        is_ws(x[0]),
        spec_arbitrary_declaration(c3) is None,
        spec_css_identifier(c3) matches Some((nb, _)) && body_tail(c3.skip(nb as int)),
    ensures
        spec_pseudo_selector(c3) is None,
        spec_pseudo_selector(c3 + x) is None,
{
    let t = c3 + x;
    lemma_ws_outside_names(x[0]);
    let nb = spec_css_identifier(c3).unwrap().0;
    lemma_run_len_facts(c3, CharClass::Ident);
    let c4 = c3.skip(nb as int);
    lemma_skip_concat(c3, x, nb as int);
    lemma_after_body_no_name(c3, nb);
    lemma_run_before_ws(c3, x, CharClass::PseudoName);
    let a = run_len(c3, CharClass::PseudoName);
    lemma_run_len_facts(c3, CharClass::PseudoName);
    assert(a <= nb) by {
        if a > nb {
            assert(in_class(CharClass::PseudoName, c3[nb as int]));
        }
    }
    if a < nb {
        assert(in_class(CharClass::Ident, c3[a as int]));
        assert(c3[a as int] == '/');
        lemma_skip_concat(c3, x, a as int);
        assert(t[a as int] == c3[a as int]);
        assert(c3.skip(a as int)[0] == '/');
        assert(t.skip(a as int)[0] == '/');
    } else {
        lemma_groups_after_body(c4, x);
        let (b4, g4) = spec_pseudo_groups(c4).unwrap();
        if nb + b4 < c3.len() {
            assert(c3[(nb + b4) as int] == c4[b4 as int]);
        }
        assert(t[(nb + b4) as int] == (c4 + x)[b4 as int]);
    }
}

/// The attempt at one more prefix where a class body stands fails, on the
/// class alone and whatever whitespace-led text follows it.
proof fn lemma_no_prefix_at_body(c3: Seq<char>, x: Seq<char>)
    requires
        x.len() > 0,
        is_ws(x[0]),
        spec_class_body(c3) matches Some((nb, _)) && body_tail(c3.skip(nb as int)),
    ensures
        spec_pseudo_selector(c3) is None,
        spec_pseudo_selector(c3 + x) is None,
{
    reveal(spec_class_body);
    if spec_arbitrary_declaration(c3) is Some {
        lemma_no_prefix_at_arbitrary(c3, x);
    } else {
        lemma_no_prefix_at_name(c3, x);
    }
}

/// A class body reads the same whatever whitespace-led text follows it.
proof fn lemma_class_body_ext(c3: Seq<char>, x: Seq<char>)
    requires
        x.len() > 0,
        is_ws(x[0]),
        spec_class_body(c3) is Some,
    ensures
        spec_class_body(c3 + x) == spec_class_body(c3),
{
    reveal(spec_class_body);
    lemma_ws_outside_names(x[0]);
    if spec_arbitrary_declaration(c3) is Some {
        lemma_arbitrary_done(c3, x);
    } else {
        lemma_run_len_facts(c3, CharClass::Ident);
        assert((c3 + x)[0] == c3[0]);
        lemma_run_before_ws(c3, x, CharClass::Ident);
        lemma_run1_same(c3, x, CharClass::Ident);
    }
}

/// The parameters after a class body read the same whatever whitespace-led
/// text follows the class.
proof fn lemma_parameters_ext(c4: Seq<char>, x: Seq<char>)
    requires
        x.len() > 0,
        is_ws(x[0]),
        body_tail(c4),
    ensures
        spec_generator_parameters(c4 + x) == spec_generator_parameters(c4),
{
    lemma_ws_outside_names(x[0]);
    if spec_generator_parameters(c4) is Some {
        lemma_generator_parameters_done(c4, x);
    } else {
        reveal(spec_generator_parameters);
        if c4.len() > 0 {
            assert(is_ws(c4[0]));
            assert((c4 + x)[0] == c4[0]);
        } else {
            assert((c4 + x)[0] == x[0]);
        }
    }
}

/// The variant in front of a class reads the same whatever whitespace-led
/// text follows, provided a `[` that opens no selector group there opens an
/// arbitrary declaration.
proof fn lemma_variant_ext(c1: Seq<char>, x: Seq<char>)
    requires
        x.len() > 0,
        is_ws(x[0]),
        c1.len() > 0,
        c1[0] == '[' && spec_selector_group(c1, '[', ']') is None ==> spec_arbitrary_declaration(
            c1,
        ) is Some,
    ensures
        spec_variant(c1 + x) == spec_variant(c1),
{
    reveal(spec_variant);
    lemma_ws_outside_names(x[0]);
    let t1 = c1 + x;
    assert(t1[0] == c1[0]);
    if c1[0] == '[' {
        match spec_selector_group(c1, '[', ']') {
            Some((n, g)) => {
                lemma_group_done(c1, x, '[', ']');
                crate::bounds::lemma_selector_group_bounds(c1, '[', ']');
                if n < c1.len() {
                    assert(t1[n as int] == c1[n as int]);
                } else {
                    assert(t1[n as int] == x[0]);
                }
            },
            None => {
                lemma_arbitrary_done(c1, x);
                let nb = spec_arbitrary_declaration(c1).unwrap().0;
                let s1 = c1.skip(1);
                assert(closes_at(s1, nb - 2)) by {
                    assert forall|j: int| 0 <= j < nb - 2 implies #[trigger] s1[j] != '[' by {
                        assert(s1[j] == c1[j + 1]);
                    }
                    assert(s1[nb - 2] == c1[nb - 1]);
                }
                lemma_text_closed_ahead(s1, x, nb - 2);
                lemma_skip_concat(c1, x, 1);
                let (n1, v1) = spec_selector_text(s1).unwrap();
                assert(t1[(1 + n1) as int] == c1[(1 + n1) as int]);
            },
        }
    }
}

/// A class that reads to the end of `c` reads the same when whitespace-led
/// text follows it, and takes up the whitespace too.
pub proof fn lemma_class_item_ext(c: Seq<char>, x: Seq<char>)
    requires
        spec_class_item(c) matches Some((n, _)) && n == c.len(),
        x.len() > 0,
        is_ws(x[0]),
    ensures
        spec_class_item(c + x) == Some(
            (
                (c.len() + run_len(x, CharClass::Space)) as nat,
                spec_class_item(c).unwrap().1,
            ),
        ),
{
    let t = c + x;
    lemma_ws_outside_names(x[0]);
    let w1 = run_len(c, CharClass::Space);
    lemma_run_len_facts(c, CharClass::Space);
    let c1 = c.skip(w1 as int);
    crate::bounds::lemma_variant_bounds(c1);
    let (nv, variant) = spec_variant(c1);
    let c2 = c1.skip(nv as int);
    crate::bounds::lemma_prefixes_bounds(c2);
    let (np, prefixes) = spec_prefixes(c2).unwrap();
    let c3 = c2.skip(np as int);
    crate::bounds::lemma_class_body_bounds(c3);
    let (nb, body) = spec_class_body(c3).unwrap();
    let c4 = c3.skip(nb as int);
    crate::bounds::lemma_generator_parameters_bounds(c4);
    let ng: nat = match spec_generator_parameters(c4) {
        Some((ng, _)) => ng,
        None => 0,
    };
    let c5 = c4.skip(ng as int);
    lemma_run_len_facts(c5, CharClass::Space);
    // Whatever follows the parameters is whitespace.
    assert(all_ws(c5)) by {
        assert forall|k: int| 0 <= k < c5.len() implies #[trigger] is_ws(c5[k]) by {
            assert(in_class(CharClass::Space, c5[k]));
        }
    }
    assert(body_tail(c4)) by {
        if spec_generator_parameters(c4) is None {
            assert(c4.skip(0) =~= c4);
        }
    }
    // The class does not consist of whitespace alone.
    assert(w1 < c.len()) by {
        if w1 == c.len() {
            assert(c1.len() == 0);
            crate::bounds::lemma_class_body_bounds(c3);
        }
    }
    lemma_run_inside(c, x, CharClass::Space);
    lemma_skip_concat(c, x, w1 as int);
    let t1 = t.skip(w1 as int);
    // The variant.
    assert(c1[0] == '[' && spec_selector_group(c1, '[', ']') is None ==> spec_arbitrary_declaration(
        c1,
    ) is Some) by {
        if c1[0] == '[' && spec_selector_group(c1, '[', ']') is None {
            reveal(spec_variant);
            reveal(spec_prefixes);
            reveal(spec_class_body);
            assert(c1.skip(0) =~= c1);
            lemma_run_len(c1, CharClass::PseudoName, 0);
            assert(spec_pseudo_selector(c1) is None);
            lemma_run_len(c1, CharClass::Ident, 0);
        }
    }
    lemma_variant_ext(c1, x);
    lemma_skip_concat(c1, x, nv as int);
    // The prefixes.
    lemma_no_prefix_at_body(c3, x);
    lemma_skip_concat(c2, x, np as int);
    lemma_prefixes_ext(c2, x);
    // The body, the parameters and the whitespace after them.
    lemma_class_body_ext(c3, x);
    lemma_skip_concat(c3, x, nb as int);
    lemma_parameters_ext(c4, x);
    lemma_skip_concat(c4, x, ng as int);
    lemma_run_len_ws_prefix(c5, x);
    assert(t1.skip(nv as int) =~= c2 + x);
    assert((c2 + x).skip(np as int) =~= c3 + x);
    assert((c3 + x).skip(nb as int) =~= c4 + x);
    assert((c4 + x).skip(ng as int) =~= c5 + x);
}

} // verus!
