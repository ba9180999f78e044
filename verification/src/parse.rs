use vstd::prelude::*;
use crate::scan::{CharClass, run_len, scan_run, lemma_run_len_facts};
use crate::text::string_of;
use crate::grammar_spec::{spec_param_value, spec_param_tail, spec_generator_parameters, spec_arbitrary_declaration, variant_text, spec_variant, spec_pseudo_group, spec_pseudo_groups, spec_pseudo_selector, spec_prefixes, take_run1, spec_selector_group, spec_selector_item, spec_selector_text, spec_declaration_group, spec_declaration_item, spec_declaration_body};

verus! {

/// `r` is the executable form of the spec result `sr` for a parse started at `i`.
pub open spec fn same_text_result(
    r: Option<(usize, Vec<char>)>,
    i: usize,
    sr: Option<(nat, Seq<char>)>,
) -> bool {
    match sr {
        Some((n, v)) => r matches Some((j, w)) && j == i + n && w@ == v,
        None => r is None,
    }
}

pub proof fn lemma_skip_skip(s: Seq<char>, i: int, n: int)
    requires
        0 <= i,
        0 <= n,
        i + n <= s.len(),
    ensures
        s.skip(i).skip(n) == s.skip(i + n),
{
    assert(s.skip(i).skip(n) =~= s.skip(i + n));
}

/// The characters `s[i..j]`.
pub fn copy_range(s: &Vec<char>, i: usize, j: usize) -> (v: Vec<char>)
    requires
        i <= j <= s.len(),
    ensures
        v@ == s@.subrange(i as int, j as int),
{
    let mut v: Vec<char> = Vec::new();
    let mut k = i;
    while k < j
        invariant
            i <= k <= j <= s.len(),
            v@ == s@.subrange(i as int, k as int),
        decreases j - k,
    {
        v.push(s[k]);
        assert(s@.subrange(i as int, k + 1) =~= s@.subrange(i as int, k as int).push(s@[k as int]));
        k += 1;
    }
    v
}

pub fn parse_run1(s: &Vec<char>, i: usize, cls: CharClass) -> (r: Option<(usize, Vec<char>)>)
    requires
        i <= s.len(),
    ensures
        same_text_result(r, i, take_run1(s@.skip(i as int), cls)),
        r matches Some((j, _)) ==> i < j <= s.len(),
{
    let j = scan_run(s, i, cls);
    if j > i {
        let v = copy_range(s, i, j);
        assert(s@.skip(i as int).take(j - i) =~= s@.subrange(i as int, j as int));
        Some((j, v))
    } else {
        None
    }
}

fn is_char_at(s: &Vec<char>, i: usize, c: char) -> (b: bool)
    ensures
        b == (i < s.len() && s@[i as int] == c),
{
    i < s.len() && s[i] == c
}

pub fn parse_selector_group(s: &Vec<char>, i: usize, open: char, close: char) -> (r: Option<
    (usize, Vec<char>),
>)
    requires
        i <= s.len(),
    ensures
        same_text_result(r, i, spec_selector_group(s@.skip(i as int), open, close)),
        r matches Some((j, _)) ==> i < j <= s.len(),
    decreases s.len() - i, 0nat,
{
    let ghost t = s@.skip(i as int);
    proof {
        if i < s.len() {
            assert(t[0] == s@[i as int]);
        }
    }
    if is_char_at(s, i, open) {
        proof {
            lemma_skip_skip(s@, i as int, 1);
        }
        match parse_selector_text(s, i + 1) {
            Some((j, v)) => {
                if is_char_at(s, j, close) {
                    let ghost vv = v@;
                    let mut w: Vec<char> = Vec::new();
                    w.push(open);
                    let mut v = v;
                    w.append(&mut v);
                    w.push(close);
                    assert(t[(j - i) as int] == s@[j as int]);
                    assert(w@ =~= seq![open] + vv + seq![close]);
                    Some((j + 1, w))
                } else {
                    proof {
                        if j < s.len() {
                            assert(t[(j - i) as int] == s@[j as int]);
                        }
                    }
                    None
                }
            },
            None => None,
        }
    } else {
        None
    }
}

pub fn parse_selector_item(s: &Vec<char>, i: usize) -> (r: Option<(usize, Vec<char>)>)
    requires
        i <= s.len(),
    ensures
        same_text_result(r, i, spec_selector_item(s@.skip(i as int))),
        r matches Some((j, _)) ==> i < j <= s.len(),
    decreases s.len() - i, 1nat,
{
    match parse_selector_group(s, i, '(', ')') {
        Some(r) => Some(r),
        None => match parse_selector_group(s, i, '[', ']') {
            Some(r) => Some(r),
            None => parse_run1(s, i, CharClass::Selector),
        },
    }
}

pub fn parse_selector_text(s: &Vec<char>, i: usize) -> (r: Option<(usize, Vec<char>)>)
    requires
        i <= s.len(),
    ensures
        same_text_result(r, i, spec_selector_text(s@.skip(i as int))),
        r matches Some((j, _)) ==> i <= j <= s.len(),
    decreases s.len() - i, 2nat,
{
    match parse_selector_item(s, i) {
        None => Some((i, Vec::new())),
        Some((j, v)) => {
            proof {
                lemma_skip_skip(s@, i as int, j - i);
            }
            match parse_selector_text(s, j) {
                Some((k, w)) => {
                    let mut v = v;
                    let mut w = w;
                    v.append(&mut w);
                    Some((k, v))
                },
                None => None,
            }
        },
    }
}

pub fn parse_declaration_group(s: &Vec<char>, i: usize) -> (r: Option<(usize, Vec<char>)>)
    requires
        i <= s.len(),
    ensures
        same_text_result(r, i, spec_declaration_group(s@.skip(i as int))),
        r matches Some((j, _)) ==> i < j <= s.len(),
    decreases s.len() - i, 0nat,
{
    let ghost t = s@.skip(i as int);
    proof {
        if i < s.len() {
            assert(t[0] == s@[i as int]);
        }
    }
    if is_char_at(s, i, '(') {
        proof {
            lemma_skip_skip(s@, i as int, 1);
        }
        match parse_declaration_body(s, i + 1) {
            Some((j, v)) => {
                if is_char_at(s, j, ')') {
                    let ghost vv = v@;
                    let mut w: Vec<char> = Vec::new();
                    w.push('(');
                    let mut v = v;
                    w.append(&mut v);
                    w.push(')');
                    assert(t[(j - i) as int] == s@[j as int]);
                    assert(w@ =~= seq!['('] + vv + seq![')']);
                    Some((j + 1, w))
                } else {
                    proof {
                        if j < s.len() {
                            assert(t[(j - i) as int] == s@[j as int]);
                        }
                    }
                    None
                }
            },
            None => None,
        }
    } else {
        None
    }
}

pub fn parse_declaration_item(s: &Vec<char>, i: usize) -> (r: Option<(usize, Vec<char>)>)
    requires
        i <= s.len(),
    ensures
        same_text_result(r, i, spec_declaration_item(s@.skip(i as int))),
        r matches Some((j, _)) ==> i < j <= s.len(),
    decreases s.len() - i, 1nat,
{
    match parse_declaration_group(s, i) {
        Some(r) => Some(r),
        None => parse_run1(s, i, CharClass::Declaration),
    }
}

pub fn parse_declaration_body(s: &Vec<char>, i: usize) -> (r: Option<(usize, Vec<char>)>)
    requires
        i <= s.len(),
    ensures
        same_text_result(r, i, spec_declaration_body(s@.skip(i as int))),
        r matches Some((j, _)) ==> i <= j <= s.len(),
    decreases s.len() - i, 2nat,
{
    match parse_declaration_item(s, i) {
        None => Some((i, Vec::new())),
        Some((j, v)) => {
            proof {
                lemma_skip_skip(s@, i as int, j - i);
            }
            match parse_declaration_body(s, j) {
                Some((k, w)) => {
                    let mut v = v;
                    let mut w = w;
                    v.append(&mut w);
                    Some((k, v))
                },
                None => None,
            }
        },
    }
}


pub open spec fn views(v: Seq<String>) -> Seq<Seq<char>> {
    v.map_values(|x: String| x@)
}

pub proof fn lemma_views_cons(x: String, v: Seq<String>)
    ensures
        views(seq![x] + v) == seq![x@] + views(v),
{
    assert(views(seq![x] + v) =~= seq![x@] + views(v));
}

/// `r` is the executable form of the spec list result `sr` for a parse started at `i`.
pub open spec fn same_list_result(
    r: Option<(usize, Vec<String>)>,
    i: usize,
    sr: Option<(nat, Seq<Seq<char>>)>,
) -> bool {
    match sr {
        Some((n, v)) => r matches Some((j, w)) && j == i + n && views(w@) == v,
        None => r is None,
    }
}

fn prepend_string(x: String, v: Vec<String>) -> (w: Vec<String>)
    ensures
        views(w@) == seq![x@] + views(v@),
{
    let ghost old_v = v@;
    let ghost xx = x;
    let mut v = v;
    v.insert(0, x);
    assert(v@ =~= seq![xx] + old_v);
    proof {
        lemma_views_cons(xx, old_v);
    }
    v
}


fn parse_param_tail(s: &Vec<char>, i: usize) -> (r: (usize, Vec<String>))
    requires
        i <= s.len(),
    ensures
        i <= r.0 <= s.len(),
        r.0 == i + spec_param_tail(s@.skip(i as int)).0,
        views(r.1@) == spec_param_tail(s@.skip(i as int)).1,
    decreases s.len() - i,
{
    let ghost t = s@.skip(i as int);
    proof {
        if i < s.len() {
            assert(t[0] == s@[i as int]);
        }
    }
    if is_char_at(s, i, ',') {
        proof {
            lemma_skip_skip(s@, i as int, 1);
        }
        match parse_run1(s, i + 1, CharClass::Color) {
            Some((j, v)) => {
                proof {
                    lemma_skip_skip(s@, i as int, j - i);
                }
                let (k, rest) = parse_param_tail(s, j);
                let w = prepend_string(string_of(&v), rest);
                (k, w)
            },
            None => (i, Vec::new()),
        }
    } else {
        (i, Vec::new())
    }
}

/// `[v1,v2,...]`: generator parameters.
pub fn parse_generator_parameters(s: &Vec<char>, i: usize) -> (r: Option<(usize, Vec<String>)>)
    requires
        i <= s.len(),
    ensures
        same_list_result(r, i, spec_generator_parameters(s@.skip(i as int))),
        r matches Some((j, _)) ==> i < j <= s.len(),
{
    reveal(spec_generator_parameters);
    let ghost t = s@.skip(i as int);
    proof {
        if i < s.len() {
            assert(t[0] == s@[i as int]);
        }
    }
    if is_char_at(s, i, '[') {
        proof {
            lemma_skip_skip(s@, i as int, 1);
        }
        match parse_run1(s, i + 1, CharClass::Color) {
            Some((j, v)) => {
                proof {
                    lemma_skip_skip(s@, i as int, j - i);
                }
                let (k, rest) = parse_param_tail(s, j);
                proof {
                    if k < s.len() {
                        assert(t[(k - i) as int] == s@[k as int]);
                    }
                }
                if is_char_at(s, k, ']') {
                    let w = prepend_string(string_of(&v), rest);
                    Some((k + 1, w))
                } else {
                    None
                }
            },
            None => None,
        }
    } else {
        None
    }
}

/// `[property:value]`: an arbitrary declaration, without its brackets.
pub fn parse_arbitrary_declaration(s: &Vec<char>, i: usize) -> (r: Option<(usize, Vec<char>)>)
    requires
        i <= s.len(),
    ensures
        same_text_result(r, i, spec_arbitrary_declaration(s@.skip(i as int))),
        r matches Some((j, _)) ==> i < j <= s.len(),
{
    let ghost t = s@.skip(i as int);
    proof {
        if i < s.len() {
            assert(t[0] == s@[i as int]);
        }
    }
    if is_char_at(s, i, '[') {
        proof {
            lemma_skip_skip(s@, i as int, 1);
        }
        match parse_declaration_body(s, i + 1) {
            Some((j, v)) => {
                proof {
                    if j < s.len() {
                        assert(t[(j - i) as int] == s@[j as int]);
                    }
                }
                if is_char_at(s, j, ']') {
                    Some((j + 1, v))
                } else {
                    None
                }
            },
            None => None,
        }
    } else {
        None
    }
}

/// The optional `[selector]:` variant in front of a class.
pub fn parse_variant(s: &Vec<char>, i: usize) -> (r: (usize, Option<Vec<char>>))
    requires
        i <= s.len(),
    ensures
        i <= r.0 <= s.len(),
        r.0 == i + spec_variant(s@.skip(i as int)).0,
        match spec_variant(s@.skip(i as int)).1 {
            Some(v) => r.1 matches Some(w) && w@ == v,
            None => r.1 is None,
        },
{
    reveal(spec_variant);
    let ghost t = s@.skip(i as int);
    match parse_selector_group(s, i, '[', ']') {
        Some((j, g)) => {
            proof {
                if j < s.len() {
                    assert(t[(j - i) as int] == s@[j as int]);
                }
            }
            if is_char_at(s, j, ':') {
                // g is `[` inner `]`
                let ghost gv = g@;
                proof {
                    assert(gv.len() >= 2);
                }
                let n = g.len();
                let start: usize = if g[1] == '&' && n > 2 { 2 } else { 1 };
                let mut inner: Vec<char> = Vec::new();
                let mut k = start;
                while k < n - 1
                    invariant
                        g@ == gv,
                        n == gv.len(),
                        2 <= n,
                        1 <= start <= k <= n - 1,
                        inner@ == gv.subrange(start as int, k as int),
                    decreases n - 1 - k,
                {
                    inner.push(g[k]);
                    assert(gv.subrange(start as int, k + 1) =~= gv.subrange(start as int, k as int).push(gv[k as int]));
                    k += 1;
                }
                proof {
                    let inn = gv.subrange(1, gv.len() - 1);
                    if start == 2 {
                        assert(inner@ =~= inn.skip(1));
                    } else {
                        assert(inner@ =~= inn);
                    }
                }
                (j + 1, Some(inner))
            } else {
                (i, None)
            }
        },
        None => (i, None),
    }
}


fn parse_pseudo_group(s: &Vec<char>, i: usize) -> (r: Option<(usize, Vec<char>)>)
    requires
        i <= s.len(),
    ensures
        same_text_result(r, i, spec_pseudo_group(s@.skip(i as int))),
        r matches Some((j, _)) ==> i < j <= s.len(),
{
    match parse_selector_group(s, i, '(', ')') {
        Some(r) => Some(r),
        None => parse_selector_group(s, i, '[', ']'),
    }
}

fn parse_pseudo_groups(s: &Vec<char>, i: usize) -> (r: Option<(usize, Vec<char>)>)
    requires
        i <= s.len(),
    ensures
        same_text_result(r, i, spec_pseudo_groups(s@.skip(i as int))),
        r matches Some((j, _)) ==> i <= j <= s.len(),
    decreases s.len() - i,
{
    match parse_pseudo_group(s, i) {
        None => Some((i, Vec::new())),
        Some((j, v)) => {
            proof {
                lemma_skip_skip(s@, i as int, j - i);
            }
            match parse_pseudo_groups(s, j) {
                Some((k, w)) => {
                    let mut v = v;
                    let mut w = w;
                    v.append(&mut w);
                    Some((k, v))
                },
                None => None,
            }
        },
    }
}

/// `name(groups):` — one pseudo-class or conditional prefix, without its colon.
pub fn parse_pseudo_selector(s: &Vec<char>, i: usize) -> (r: Option<(usize, Vec<char>)>)
    requires
        i <= s.len(),
    ensures
        same_text_result(r, i, spec_pseudo_selector(s@.skip(i as int))),
        r matches Some((j, _)) ==> i < j <= s.len(),
{
    let ghost t = s@.skip(i as int);
    let a = scan_run(s, i, CharClass::PseudoName);
    proof {
        lemma_skip_skip(s@, i as int, a - i);
    }
    match parse_pseudo_groups(s, a) {
        Some((k, g)) => {
            proof {
                if k < s.len() {
                    assert(t[(k - i) as int] == s@[k as int]);
                }
            }
            if is_char_at(s, k, ':') {
                let mut name = copy_range(s, i, a);
                let ghost nv = name@;
                let ghost gv = g@;
                let mut g = g;
                name.append(&mut g);
                assert(t.take(a - i) =~= s@.subrange(i as int, a as int));
                assert(name@ =~= nv + gv);
                Some((k + 1, name))
            } else {
                None
            }
        },
        None => None,
    }
}

/// All the prefixes in front of a class.
pub fn parse_prefixes(s: &Vec<char>, i: usize) -> (r: Option<(usize, Vec<String>)>)
    requires
        i <= s.len(),
    ensures
        same_list_result(r, i, spec_prefixes(s@.skip(i as int))),
        r matches Some((j, _)) ==> i <= j <= s.len(),
    decreases s.len() - i,
{
    reveal(spec_prefixes);
    match parse_pseudo_selector(s, i) {
        None => {
            let e: Vec<String> = Vec::new();
            assert(views(e@) =~= Seq::<Seq<char>>::empty());
            Some((i, e))
        },
        Some((j, v)) => {
            proof {
                lemma_skip_skip(s@, i as int, j - i);
            }
            match parse_prefixes(s, j) {
                Some((k, w)) => Some((k, prepend_string(string_of(&v), w))),
                None => None,
            }
        },
    }
}

} // verus!
