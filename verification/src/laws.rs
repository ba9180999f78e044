use vstd::prelude::*;
use crate::scan::{CharClass, run_len, in_class, lemma_run_len, lemma_run_len_facts};
use crate::text::{all_ws, is_ws};
use crate::extension::{lemma_run_len_ws_prefix, lemma_class_item_ext};
use crate::grammar_spec::{spec_selector_text, spec_selector_group, spec_pseudo_selector, spec_pseudo_groups, spec_pseudo_group, spec_arbitrary_declaration, spec_declaration_body, spec_declaration_item, spec_declaration_group,
    BodyView, ParsedView, spec_class_body, spec_class_item, spec_selectors, spec_variant,
    spec_prefixes, spec_generator_parameters,
};
use crate::codegen::{spec_render_class, ClassTokensView, has_selector, spec_build_pseudo_selector, spec_needs_generated_content, last_compound, is_compound_separator, alias_or_name, spec_pseudo_element_alias};
use crate::text::{contains_text, occurs_at, join};
use crate::theme::{GlassTheme, style_sheet, var_decls, var_decl, var_name, THEME_VALUES};
use crate::palette::ChartPalette;
use crate::surface::{GlassSurfaceLevel, surface_background};
use crate::codegen::{spec_generate_dwind_class, RawBodyView};
use crate::string_rendering::spec_raw_identifier;
use crate::string_rendering::{ascii_struct_identifier, ascii_upper, is_ascii_text, replace_char};
use crate::grammar::{
    DwindClassSelectorView, keep_prefixes, underscored, interpret, spec_parse_class_string,
    spec_parse_selector,
};

verus! {

// ---------------------------------------------------------------------------
// The shape of every parsed class
// ---------------------------------------------------------------------------

pub open spec fn parsed_ok(p: ParsedView) -> bool {
    p.body matches BodyView::Name(n) ==> n.len() > 0
}

proof fn lemma_class_body_ok(t: Seq<char>)
    ensures
        spec_class_body(t) matches Some((_, b)) ==> (b matches BodyView::Name(n) ==> n.len() > 0),
{
    reveal(spec_class_body);
    crate::bounds::lemma_run1_bounds(t, CharClass::Ident);
}

proof fn lemma_selectors_ok(t: Seq<char>)
    ensures
        spec_selectors(t) matches Some((_, ps)) ==> forall|k: int|
            0 <= k < ps.len() ==> parsed_ok(#[trigger] ps[k]),
    decreases t.len(),
{
    match spec_class_item(t) {
        None => {},
        Some((n, v)) => {
            if n > 0 && n <= t.len() {
                lemma_selectors_ok(t.skip(n as int));
                let w1 = run_len(t, CharClass::Space);
                let t1 = t.skip(w1 as int);
                let (nv, variant) = spec_variant(t1);
                let t2 = t1.skip(nv as int);
                let (np, _) = spec_prefixes(t2).unwrap();
                let t3 = t2.skip(np as int);
                lemma_class_body_ok(t3);
                if let Some((m, w)) = spec_selectors(t.skip(n as int)) {
                    let ps = seq![v] + w;
                    assert forall|k: int| 0 <= k < ps.len() implies parsed_ok(#[trigger] ps[k]) by {
                        if k > 0 {
                            assert(ps[k] == w[k - 1]);
                        }
                    }
                }
            }
        },
    }
}

proof fn lemma_keep_prefixes(ps: Seq<Seq<char>>, conditional: bool)
    ensures
        forall|j: int|
            0 <= j < keep_prefixes(ps, conditional).len() ==> (#[trigger] keep_prefixes(
                ps,
                conditional,
            )[j]).contains('@') == conditional,
    decreases ps.len(),
{
    if ps.len() > 0 {
        lemma_keep_prefixes(ps.drop_last(), conditional);
        let r = keep_prefixes(ps.drop_last(), conditional);
        let k = keep_prefixes(ps, conditional);
        assert forall|j: int| 0 <= j < k.len() implies (#[trigger] k[j]).contains('@') == conditional by {
            if j < r.len() {
                assert(k[j] == r[j]);
            }
        }
    }
}

/// The shape every class of a parsed class string has.
pub open spec fn class_shape(c: DwindClassSelectorView) -> bool {
    &&& !c.class_name.contains('-')
    &&& (c.arbitrary is Some <==> c.class_name.len() == 0)
    &&& forall|j: int| 0 <= j < c.conditionals.len() ==> (#[trigger] c.conditionals[j]).contains('@')
    &&& forall|j: int|
        0 <= j < c.pseudo_classes.len() ==> !(#[trigger] c.pseudo_classes[j]).contains('@')
}

/// Every class of a parsed class string has a name with no `-` left in it
/// (all became `_`) exactly when it is not an arbitrary declaration, which
/// has an empty name instead; its conditionals are exactly the prefixes
/// holding an `@`, and its pseudo-classes are the others.
pub proof fn law_parsed_class_shape(s: Seq<char>)
    requires
        spec_parse_class_string(s) is Some,
    ensures
        forall|k: int|
            0 <= k < spec_parse_class_string(s).unwrap().len() ==> class_shape(
                #[trigger] spec_parse_class_string(s).unwrap()[k],
            ),
{
    let (n, ps) = spec_selectors(s).unwrap();
    lemma_selectors_ok(s);
    let cs = spec_parse_class_string(s).unwrap();
    assert forall|k: int| 0 <= k < cs.len() implies class_shape(#[trigger] cs[k]) by {
        let p = ps[k];
        assert(parsed_ok(p));
        assert(cs[k] == interpret(p));
        lemma_keep_prefixes(p.prefixes, true);
        lemma_keep_prefixes(p.prefixes, false);
        match p.body {
            BodyView::Name(name) => {
                let u = underscored(name);
                assert(!u.contains('-')) by {
                    if u.contains('-') {
                        let j = choose|j: int| 0 <= j < u.len() && u[j] == '-';
                        assert(u[j] == (if name[j] == '-' { '_' } else { name[j] }));
                    }
                }
            },
            BodyView::Arbitrary(_) => {
                assert(!Seq::<char>::empty().contains('-'));
            },
        }
    }
}

// ---------------------------------------------------------------------------
// Leading whitespace
// ---------------------------------------------------------------------------

proof fn lemma_class_item_ws_prefix(w: Seq<char>, s: Seq<char>)
    requires
        all_ws(w),
    ensures
        match spec_class_item(s) {
            Some((n, p)) => spec_class_item(w + s) == Some(((w.len() + n) as nat, p)),
            None => spec_class_item(w + s) is None,
        },
{
    lemma_run_len_ws_prefix(w, s);
    let t = w + s;
    let r = run_len(s, CharClass::Space);
    lemma_run_len_facts(s, CharClass::Space);
    assert(t.skip((w.len() + r) as int) =~= s.skip(r as int));
}

proof fn lemma_selectors_ws_prefix(w: Seq<char>, s: Seq<char>)
    requires
        all_ws(w),
    ensures
        match spec_selectors(s) {
            Some((n, ps)) => if ps.len() > 0 {
                spec_selectors(w + s) == Some(((w.len() + n) as nat, ps))
            } else {
                spec_selectors(w + s) == Some((0nat, ps))
            },
            None => spec_selectors(w + s) is None,
        },
{
    lemma_class_item_ws_prefix(w, s);
    crate::bounds::lemma_class_item_bounds(s);
    let t = w + s;
    match spec_class_item(s) {
        None => {},
        Some((n, p)) => {
            let m = w.len() + n;
            assert(t.skip(m as int) =~= s.skip(n as int));
        },
    }
}

/// Whitespace in front of a class string changes nothing: the same classes
/// are read, and the same strings are refused.
pub proof fn law_leading_whitespace(w: Seq<char>, s: Seq<char>)
    requires
        all_ws(w),
    ensures
        spec_parse_class_string(w + s) == spec_parse_class_string(s),
{
    lemma_selectors_ws_prefix(w, s);
    crate::bounds::lemma_selectors_bounds(s);
    let t = w + s;
    match spec_selectors(s) {
        Some((n, ps)) => {
            if ps.len() > 0 {
                assert(t.skip((w.len() + n) as int) =~= s.skip(n as int));
            } else {
                assert(t.skip(0) =~= t);
                assert(s.skip(n as int) =~= s) by {
                    // an empty result consumed nothing
                    assert(n == 0) by {
                        reveal_with_fuel(spec_selectors, 1);
                    }
                }
                assert(all_ws(t) == all_ws(s)) by {
                    if all_ws(s) {
                        assert forall|k: int| 0 <= k < t.len() implies #[trigger] is_ws(t[k]) by {
                            if k < w.len() {
                                assert(t[k] == w[k]);
                            } else {
                                assert(t[k] == s[k - w.len()]);
                            }
                        }
                    }
                    if all_ws(t) {
                        assert forall|k: int| 0 <= k < s.len() implies #[trigger] is_ws(s[k]) by {
                            assert(t[k + w.len()] == s[k]);
                        }
                    }
                }
            }
        },
        None => {},
    }
}


// ---------------------------------------------------------------------------
// A bracket group with no `:` after it is a declaration
// ---------------------------------------------------------------------------

/// Declaration text without any bracket or parenthesis.
pub open spec fn plain_declaration(d: Seq<char>) -> bool {
    &&& d.len() > 0
    &&& forall|k: int|
        0 <= k < d.len() ==> !(#[trigger] d[k] == '[' || d[k] == ']' || d[k] == '(' || d[k] == ')')
}

/// The class an arbitrary declaration on its own parses to.
pub open spec fn arbitrary_class(d: Seq<char>) -> DwindClassSelectorView {
    DwindClassSelectorView {
        class_name: Seq::empty(),
        pseudo_classes: Seq::empty(),
        conditionals: Seq::empty(),
        generator_params: Seq::empty(),
        variant: None,
        arbitrary: Some(d),
    }
}

proof fn lemma_empty_input()
    ensures
        spec_selectors(Seq::<char>::empty()) == Some((0nat, Seq::<ParsedView>::empty())),
        spec_generator_parameters(Seq::<char>::empty()) is None,
        spec_pseudo_groups(Seq::<char>::empty()) == Some((0nat, Seq::<char>::empty())),
{
    let e = Seq::<char>::empty();
    reveal(spec_variant);
    reveal(spec_prefixes);
    reveal(spec_class_body);
    reveal(spec_generator_parameters);
    assert(run_len(e, CharClass::Space) == 0);
    assert(e.skip(0) =~= e);
    assert(spec_pseudo_group(e) is None);
    assert(spec_pseudo_groups(e) == Some((0nat, Seq::<char>::empty())));
    assert(spec_pseudo_selector(e) is None);
    assert(spec_prefixes(e) == Some((0nat, Seq::<Seq<char>>::empty())));
    assert(spec_class_body(e) is None);
    assert(spec_class_item(e) is None);
}

proof fn lemma_plain_declaration_body(d: Seq<char>)
    requires
        plain_declaration(d),
    ensures
        spec_declaration_body(d + seq![']']) == Some((d.len(), d)),
{
    let u = d + seq![']'];
    assert forall|k: int| 0 <= k < d.len() implies #[trigger] in_class(
        CharClass::Declaration,
        u[k],
    ) by {
        assert(u[k] == d[k]);
    }
    assert(u[d.len() as int] == ']');
    lemma_run_len(u, CharClass::Declaration, d.len() as int);
    assert(u[0] == d[0]);
    assert(spec_declaration_group(u) is None);
    assert(u.take(d.len() as int) =~= d);
    assert(spec_declaration_item(u) == Some((d.len(), d)));
    let r = u.skip(d.len() as int);
    assert(r =~= seq![']']);
    assert(spec_declaration_group(r) is None);
    lemma_run_len(r, CharClass::Declaration, 0);
    assert(spec_declaration_item(r) is None);
    assert(spec_declaration_body(r) == Some((0nat, Seq::<char>::empty())));
    assert(d + Seq::<char>::empty() =~= d);
}

/// A bracket group that is not followed by `:` is read as one arbitrary
/// declaration, never as a variant: `[d]` on its own is the class that
/// declares `d`.
pub proof fn law_bracket_group_is_a_declaration(d: Seq<char>)
    requires
        plain_declaration(d),
    ensures
        spec_parse_class_string(seq!['['] + d + seq![']']) == Some(seq![arbitrary_class(d)]),
{
    let t = seq!['['] + d + seq![']'];
    let n = t.len();
    assert(n == d.len() + 2);
    assert(t[0] == '[');
    assert(t[n - 1] == ']');
    assert forall|k: int| 1 <= k < n - 1 implies t[k] == d[k - 1] by {}
    // No whitespace in front.
    lemma_run_len(t, CharClass::Space, 0);
    assert(t.skip(0) =~= t);
    // No variant: a closing `]` is the last character, with no `:` after it.
    assert(spec_variant(t) == (0nat, None::<Seq<char>>)) by {
        reveal(spec_variant);
        match spec_selector_group(t, '[', ']') {
            Some((m, g)) => {
                crate::bounds::lemma_selector_group_bounds(t, '[', ']');
                assert(t[m - 1] == ']') by {
                    crate::bounds::lemma_selector_text_bounds(t.skip(1));
                }
                if m < n {
                    assert(t[m - 1] == d[m - 2]);
                }
            },
            None => {},
        }
    }
    // No prefixes: whatever group is read, no `:` follows it.
    assert(spec_prefixes(t) == Some((0nat, Seq::<Seq<char>>::empty()))) by {
        reveal(spec_prefixes);
        lemma_run_len(t, CharClass::PseudoName, 0);
        assert(spec_pseudo_selector(t) is None) by {
            crate::bounds::lemma_pseudo_groups_bounds(t);
            match spec_pseudo_groups(t) {
                Some((b, g)) => {
                    if b < n {
                        assert(spec_pseudo_group(t) is Some || b == 0);
                        if b > 0 {
                            let (m, v) = spec_pseudo_group(t).unwrap();
                            crate::bounds::lemma_selector_group_bounds(t, '[', ']');
                            assert(spec_selector_group(t, '(', ')') is None);
                            assert(t[m - 1] == ']') by {
                                crate::bounds::lemma_selector_text_bounds(t.skip(1));
                            }
                            if m < n {
                                assert(t[m - 1] == d[m - 2]);
                            }
                            assert(m == n);
                        }
                    }
                },
                None => {},
            }
        }
    }
    // The body is the declaration.
    lemma_plain_declaration_body(d);
    assert(t.skip(1) =~= d + seq![']']);
    assert(spec_arbitrary_declaration(t) == Some((n, d)));
    assert(spec_class_body(t) == Some((n, BodyView::Arbitrary(d)))) by {
        reveal(spec_class_body);
    }
    let e = t.skip(n as int);
    assert(e =~= Seq::<char>::empty());
    lemma_empty_input();
    lemma_run_len(e, CharClass::Space, 0);
    let p = ParsedView {
        variant: None,
        prefixes: Seq::empty(),
        body: BodyView::Arbitrary(d),
        params: None,
    };
    assert(spec_class_item(t) == Some((n, p)));
    assert(spec_selectors(t) == Some((n, seq![p] + Seq::<ParsedView>::empty())));
    assert(all_ws(e));
    assert(interpret(p) =~= arbitrary_class(d));
    assert(seq![p].map_values(|q: ParsedView| interpret(q)) =~= seq![arbitrary_class(d)]);
    assert(seq![p] + Seq::<ParsedView>::empty() =~= seq![p]);
}


// ---------------------------------------------------------------------------
// Rendering
// ---------------------------------------------------------------------------

/// A class is referenced rather than minted exactly when it is a plain
/// utility: no arbitrary declaration, no generator parameters, no variant and
/// no pseudo-class prefix.
pub proof fn law_plain_classes_are_references(c: DwindClassSelectorView)
    ensures
        !spec_render_class(c).1 <==> (c.arbitrary is None && c.generator_params.len() == 0
            && !has_selector(c)),
        !spec_render_class(c).1 ==> spec_render_class(c).0 is Reference,
{
}

proof fn lemma_last_compound_append(x: Seq<char>, y: Seq<char>)
    requires
        forall|k: int| 0 <= k < y.len() ==> !is_compound_separator(#[trigger] y[k]),
    ensures
        last_compound(x + y) == last_compound(x) + y,
    decreases y.len(),
{
    if y.len() == 0 {
        assert(x + y =~= x);
        assert(last_compound(x) + y =~= last_compound(x));
    } else {
        let y0 = y.drop_last();
        assert forall|k: int| 0 <= k < y0.len() implies !is_compound_separator(#[trigger] y0[k]) by {
            assert(y0[k] == y[k]);
        }
        lemma_last_compound_append(x, y0);
        assert((x + y).drop_last() =~= x + y0);
        assert((x + y).last() == y.last());
        assert(!is_compound_separator(y[y.len() - 1]));
        assert(last_compound(x) + y =~= (last_compound(x) + y0).push(y.last()));
    }
}

/// The selector of a class whose last prefix is `before` (or `after`)
/// ends in `::before` (or `::after`).
proof fn lemma_selector_ends_with(c: DwindClassSelectorView, alias: Seq<char>)
    requires
        c.pseudo_classes.len() > 0,
        alias_or_name(c.pseudo_classes.last()) == alias,
    ensures
        exists|x: Seq<char>| spec_build_pseudo_selector(c.variant, c.pseudo_classes) == x + seq![':'] + alias,
{
    let parts = c.pseudo_classes.map_values(|n: Seq<char>| alias_or_name(n));
    let v = match c.variant {
        Some(v) => v,
        None => Seq::empty(),
    };
    let sep = seq![':'];
    assert(parts.last() == alias);
    if parts.len() == 1 {
        let x = v;
        assert(join(parts, sep) == parts[0]);
        assert(spec_build_pseudo_selector(c.variant, c.pseudo_classes) == x + sep + alias);
    } else {
        let x = v + sep + join(parts.drop_last(), sep);
        assert(spec_build_pseudo_selector(c.variant, c.pseudo_classes) =~= x + sep + alias);
    }
}

/// `before:` and `after:` always come with the generated content a
/// pseudo-element needs to render, whatever the class is.
pub proof fn law_before_and_after_get_content(c: DwindClassSelectorView)
    requires
        c.pseudo_classes.len() > 0,
        c.pseudo_classes.last() == "before"@ || c.pseudo_classes.last() == "after"@,
    ensures
        spec_render_class(c).0 matches ClassTokensView::PseudoClass { generated_content, .. }
            && generated_content,
{
    reveal_strlit("before");
    reveal_strlit("after");
    reveal_strlit(":before");
    reveal_strlit(":after");
    reveal_strlit("::before");
    reveal_strlit("::after");
    let last = c.pseudo_classes.last();
    let alias = if last == "before"@ { ":before"@ } else { ":after"@ };
    let needle = if last == "before"@ { "::before"@ } else { "::after"@ };
    assert(spec_pseudo_element_alias(last) == Some(alias));
    lemma_selector_ends_with(c, alias);
    let sel = spec_build_pseudo_selector(c.variant, c.pseudo_classes);
    let x = choose|x: Seq<char>| sel == x + seq![':'] + alias;
    let y = seq![':'] + alias;
    assert(y =~= needle);
    assert forall|k: int| 0 <= k < y.len() implies !is_compound_separator(#[trigger] y[k]) by {}
    assert(sel =~= x + y);
    lemma_last_compound_append(x, y);
    let lc = last_compound(sel);
    let i = lc.len() - y.len();
    assert(lc.subrange(i, i + y.len()) =~= y);
    assert(occurs_at(lc, needle, i));
    assert(spec_needs_generated_content(sel));
}


// ---------------------------------------------------------------------------
// Theme and palette
// ---------------------------------------------------------------------------

proof fn lemma_var_decls_contains(values: Seq<Seq<char>>, n: int, k: int)
    requires
        0 <= k < n,
    ensures
        contains_text(var_decls(values, n), var_decl(var_name(k), values[k])),
    decreases n,
{
    let d = var_decl(var_name(k), values[k]);
    if k == n - 1 {
        let pre = var_decls(values, n - 1);
        let whole = var_decls(values, n);
        assert(whole == pre + d);
        assert(whole.subrange(pre.len() as int, (pre.len() + d.len()) as int) =~= d);
        assert(occurs_at(whole, d, pre.len() as int));
    } else {
        lemma_var_decls_contains(values, n - 1, k);
        let pre = var_decls(values, n - 1);
        let whole = var_decls(values, n);
        let i = choose|i: int| occurs_at(pre, d, i);
        assert(whole =~= pre + var_decl(var_name(n - 1), values[n - 1]));
        assert(whole.subrange(i, i + d.len()) =~= pre.subrange(i, i + d.len()));
        assert(occurs_at(whole, d, i));
    }
}

/// The style sheet of a theme declares every one of its values under its
/// `--glass-*` variable: `--glass-<name>: <value>;`.
pub proof fn law_style_sheet_declares_every_value(t: GlassTheme, k: int)
    requires
        0 <= k < THEME_VALUES,
    ensures
        contains_text(style_sheet(t@), var_decl(var_name(k), t@[k])),
{
    lemma_var_decls_contains(t@, THEME_VALUES as int, k);
}

/// Series colors cycle through the palette: index `i` and index
/// `i + len` get the same color.
pub proof fn law_palette_cycles(p: ChartPalette, i: int)
    requires
        p.colors@.len() > 0,
        0 <= i,
    ensures
        p.colors@[(i + p.colors@.len()) % (p.colors@.len() as int)] == p.colors@[i % (
        p.colors@.len() as int)],
{
    let m = p.colors@.len() as int;
    vstd::arithmetic::div_mod::lemma_mod_add_multiples_vanish(i, m);
    assert(i + m == m + i);
}


// ---------------------------------------------------------------------------
// Whitespace separates classes
// ---------------------------------------------------------------------------

/// The class a plain utility name parses to.
pub open spec fn plain_class(c: Seq<char>) -> DwindClassSelectorView {
    DwindClassSelectorView {
        class_name: underscored(c),
        pseudo_classes: Seq::empty(),
        conditionals: Seq::empty(),
        generator_params: Seq::empty(),
        variant: None,
        arbitrary: None,
    }
}

/// A plain utility name: class-name characters only.
pub open spec fn plain_name(c: Seq<char>) -> bool {
    c.len() > 0 && forall|k: int| 0 <= k < c.len() ==> #[trigger] in_class(CharClass::Ident, c[k])
}

proof fn lemma_ident_not_space(x: char)
    requires
        in_class(CharClass::Ident, x),
    ensures
        !is_ws(x),
        !in_class(CharClass::PseudoName, x) ==> x == '/',
        x != '[' && x != '(' && x != ':',
{
}

proof fn lemma_space_not_special(x: char)
    requires
        is_ws(x),
    ensures
        !in_class(CharClass::Ident, x),
        !in_class(CharClass::PseudoName, x),
        x != '[' && x != '(' && x != ':' && x != '/',
{
}

/// A plain utility name followed by whitespace is one class, and the rest of
/// the string is read exactly as it would be on its own: classes may be
/// separated by any run of whitespace, spaces, tabs and line breaks alike.
pub proof fn law_plain_names_separate_by_whitespace(c: Seq<char>, w: Seq<char>, rest: Seq<char>)
    requires
        plain_name(c),
        w.len() > 0,
        all_ws(w),
    ensures
        spec_parse_class_string(c + w + rest) == match spec_parse_class_string(rest) {
            Some(v) => Some(seq![plain_class(c)] + v),
            None => None,
        },
{
    let t = c + w + rest;
    let cl = c.len() as int;
    assert forall|k: int| 0 <= k < cl implies t[k] == c[k] by {}
    assert(t[cl] == w[0]);
    assert(is_ws(w[0]));
    lemma_space_not_special(w[0]);
    lemma_ident_not_space(c[0]);
    assert(t[0] == c[0]);
    // No whitespace in front, no variant.
    lemma_run_len(t, CharClass::Space, 0);
    assert(t.skip(0) =~= t);
    assert(spec_variant(t) == (0nat, None::<Seq<char>>)) by {
        reveal(spec_variant);
    }
    // No prefixes: the name is followed by whitespace, not by `:`.
    assert(spec_prefixes(t) == Some((0nat, Seq::<Seq<char>>::empty()))) by {
        reveal(spec_prefixes);
        let a = run_len(t, CharClass::PseudoName);
        lemma_run_len_facts(t, CharClass::PseudoName);
        if a > cl {
            assert(in_class(CharClass::PseudoName, t[cl]));
        }
        assert(a <= cl);
        let x = t[a as int];
        if a < cl {
            lemma_ident_not_space(c[a as int]);
        }
        assert(x != '[' && x != '(' && x != ':');
        let ta = t.skip(a as int);
        assert(ta[0] == x);
        assert(spec_pseudo_group(ta) is None);
        assert(spec_pseudo_groups(ta) == Some((0nat, Seq::<char>::empty())));
        assert(spec_pseudo_selector(t) is None);
    }
    // The body is the name.
    lemma_run_len(t, CharClass::Ident, cl);
    assert(t.take(cl) =~= c);
    assert(spec_class_body(t) == Some((cl as nat, BodyView::Name(c)))) by {
        reveal(spec_class_body);
    }
    let t4 = t.skip(cl);
    assert(t4 =~= w + rest);
    assert(t4[0] == w[0]);
    assert(spec_generator_parameters(t4) is None) by {
        reveal(spec_generator_parameters);
    }
    // The whitespace after it, and the rest's own leading whitespace, belong to it.
    lemma_run_len_ws_prefix(w, rest);
    let lead = run_len(rest, CharClass::Space);
    let n1 = cl + w.len() + lead;
    let p = ParsedView {
        variant: None,
        prefixes: Seq::empty(),
        body: BodyView::Name(c),
        params: None,
    };
    assert(run_len(t, CharClass::Space) == 0);
    assert(t.skip(0).skip(0).skip(0) =~= t);
    assert(t4.skip(0) =~= w + rest);
    assert(run_len(t4.skip(0), CharClass::Space) == w.len() + lead);
    assert(spec_class_item(t) == Some((n1 as nat, p)));
    assert(interpret(p) =~= plain_class(c));
    lemma_first_class_then_rest(c, w, rest, p);
}

/// Once the first class of `c + w + rest` is known to take up `c`, the
/// whitespace `w` and the leading whitespace of `rest`, the string reads as
/// that class followed by whatever `rest` reads as.
proof fn lemma_first_class_then_rest(c: Seq<char>, w: Seq<char>, rest: Seq<char>, p: ParsedView)
    requires
        w.len() > 0,
        all_ws(w),
        spec_class_item(c + w + rest) == Some(
            ((c.len() + w.len() + run_len(rest, CharClass::Space)) as nat, p),
        ),
    ensures
        spec_parse_class_string(c + w + rest) == match spec_parse_class_string(rest) {
            Some(v) => Some(seq![interpret(p)] + v),
            None => None,
        },
{
    let t = c + w + rest;
    let cl = c.len() as int;
    let lead = run_len(rest, CharClass::Space);
    lemma_run_len_facts(rest, CharClass::Space);
    let n1 = cl + w.len() + lead;
    let r = rest.skip(lead as int);
    assert(t.skip(n1) =~= r);
    let lw = rest.take(lead as int);
    assert(all_ws(lw)) by {
        assert forall|k: int| 0 <= k < lw.len() implies #[trigger] is_ws(lw[k]) by {
            assert(in_class(CharClass::Space, rest[k]));
        }
    }
    assert(lw + r =~= rest);
    lemma_selectors_ws_prefix(lw, r);
    crate::bounds::lemma_selectors_bounds(r);
    match spec_selectors(r) {
        Some((m, qs)) => {
            assert(spec_selectors(t) == Some(((n1 + m) as nat, seq![p] + qs)));
            assert((seq![p] + qs).map_values(|q: ParsedView| interpret(q)) =~= seq![interpret(p)]
                + qs.map_values(|q: ParsedView| interpret(q)));
            if qs.len() > 0 {
                assert(t.skip(n1 + m) =~= rest.skip((lead + m) as int));
            } else {
                assert(m == 0) by {
                    reveal_with_fuel(spec_selectors, 1);
                }
                assert(t.skip(n1 + m) =~= r);
                assert(rest.skip(0) =~= rest);
                assert(all_ws(rest) == all_ws(r)) by {
                    if all_ws(r) {
                        assert forall|k: int| 0 <= k < rest.len() implies #[trigger] is_ws(rest[k]) by {
                            if k < lead {
                                assert(rest[k] == lw[k]);
                            } else {
                                assert(rest[k] == r[k - lead]);
                            }
                        }
                    }
                    if all_ws(rest) {
                        assert forall|k: int| 0 <= k < r.len() implies #[trigger] is_ws(r[k]) by {
                            assert(r[k] == rest[k + lead]);
                        }
                    }
                }
            }
        },
        None => {},
    }
}

/// Whitespace separates classes: any class that reads to its end on its
/// own, followed by any run of whitespace, is that one class, and the rest
/// of the string is read exactly as it would be on its own.
pub proof fn law_whitespace_separates_classes(c: Seq<char>, w: Seq<char>, rest: Seq<char>)
    requires
        spec_class_item(c) matches Some((n, _)) && n == c.len(),
        w.len() > 0,
        all_ws(w),
    ensures
        spec_parse_class_string(c + w + rest) == match spec_parse_class_string(rest) {
            Some(v) => Some(seq![interpret(spec_class_item(c).unwrap().1)] + v),
            None => None,
        },
{
    let p = spec_class_item(c).unwrap().1;
    assert(is_ws(w[0]));
    lemma_class_item_ext(c, w + rest);
    lemma_run_len_ws_prefix(w, rest);
    assert(c + (w + rest) =~= c + w + rest);
    lemma_first_class_then_rest(c, w, rest, p);
}

// ---------------------------------------------------------------------------
// Identifiers of utility classes
// ---------------------------------------------------------------------------

/// A character that may stand in the identifier of an ASCII class name:
/// ASCII, no lowercase letter, and none of `-`, `.`, `/`.
pub open spec fn settled_ident_char(c: char) -> bool {
    &&& (c as u32) < 0x80
    &&& !('a' <= c <= 'z')
    &&& c != '-' && c != '.' && c != '/'
}

proof fn lemma_replace_keeps(s: Seq<char>, from: char, to: Seq<char>, p: spec_fn(char) -> bool)
    requires
        forall|k: int| 0 <= k < s.len() && s[k] != from ==> p(#[trigger] s[k]),
        forall|k: int| 0 <= k < to.len() ==> p(#[trigger] to[k]),
    ensures
        forall|k: int|
            0 <= k < replace_char(s, from, to).len() ==> p(#[trigger] replace_char(s, from, to)[k]),
    decreases s.len(),
{
    if s.len() > 0 {
        let front = s.drop_last();
        assert forall|k: int| 0 <= k < front.len() && front[k] != from implies p(
            #[trigger] front[k],
        ) by {
            assert(front[k] == s[k]);
        }
        lemma_replace_keeps(front, from, to, p);
        let a = replace_char(front, from, to);
        let b = if s.last() == from {
            to
        } else {
            seq![s.last()]
        };
        assert(replace_char(s, from, to) == a + b);
        assert forall|k: int| 0 <= k < (a + b).len() implies p(#[trigger] (a + b)[k]) by {
            if k < a.len() {
                assert((a + b)[k] == a[k]);
            } else {
                assert((a + b)[k] == b[k - a.len()]);
            }
        }
    }
}

proof fn lemma_replace_absent(s: Seq<char>, from: char, to: Seq<char>)
    requires
        forall|k: int| 0 <= k < s.len() ==> #[trigger] s[k] != from,
    ensures
        replace_char(s, from, to) == s,
    decreases s.len(),
{
    if s.len() > 0 {
        let front = s.drop_last();
        assert forall|k: int| 0 <= k < front.len() implies #[trigger] front[k] != from by {
            assert(front[k] == s[k]);
        }
        lemma_replace_absent(front, from, to);
        assert(front + seq![s.last()] =~= s);
    }
}

/// The identifier of an ASCII class name is ASCII, holds no lowercase letter
/// and none of `-`, `.`, `/`, and is its own identifier: naming a name twice
/// changes nothing.
pub proof fn law_struct_identifier_settles(s: Seq<char>)
    requires
        is_ascii_text(s),
    ensures
        forall|k: int|
            0 <= k < ascii_struct_identifier(s).len() ==> settled_ident_char(
                #[trigger] ascii_struct_identifier(s)[k],
            ),
        is_ascii_text(ascii_struct_identifier(s)),
        ascii_struct_identifier(ascii_struct_identifier(s)) == ascii_struct_identifier(s),
{
    let u = s.map_values(|c: char| ascii_upper(c));
    let p0 = |c: char| (c as u32) < 0x80 && !('a' <= c <= 'z');
    let p1 = |c: char| (c as u32) < 0x80 && !('a' <= c <= 'z') && c != '-';
    let p2 = |c: char| (c as u32) < 0x80 && !('a' <= c <= 'z') && c != '-' && c != '.';
    let p3 = |c: char| settled_ident_char(c);
    assert forall|k: int| 0 <= k < u.len() && u[k] != '-' implies p1(#[trigger] u[k]) by {
        assert((s[k] as u32) < 0x80);
    }
    lemma_replace_keeps(u, '-', seq!['_'], p1);
    let a = replace_char(u, '-', seq!['_']);
    assert forall|k: int| 0 <= k < a.len() && a[k] != '.' implies p2(#[trigger] a[k]) by {
        assert(p1(a[k]));
    }
    lemma_replace_keeps(a, '.', seq!['_'], p2);
    let b = replace_char(a, '.', seq!['_']);
    assert forall|k: int| 0 <= k < b.len() && b[k] != '/' implies p3(#[trigger] b[k]) by {
        assert(p2(b[k]));
    }
    let of = seq!['_', 'O', 'F', '_'];
    assert forall|k: int| 0 <= k < of.len() implies p3(#[trigger] of[k]) by {}
    lemma_replace_keeps(b, '/', of, p3);
    let y = replace_char(b, '/', seq!['_', 'O', 'F', '_']);
    assert(y == ascii_struct_identifier(s));
    assert forall|k: int| 0 <= k < y.len() implies settled_ident_char(#[trigger] y[k]) by {
        assert(p3(y[k]));
    }
    assert(is_ascii_text(y)) by {
        assert forall|k: int| 0 <= k < y.len() implies (#[trigger] y[k] as u32) < 0x80 by {
            assert(settled_ident_char(y[k]));
        }
    }
    // Naming the identifier again: upper-casing and every replacement leave it be.
    let uy = y.map_values(|c: char| ascii_upper(c));
    assert(uy =~= y) by {
        assert forall|k: int| 0 <= k < y.len() implies uy[k] == y[k] by {
            assert(settled_ident_char(y[k]));
        }
    }
    assert forall|k: int| 0 <= k < y.len() implies #[trigger] y[k] != '-' by {
        assert(settled_ident_char(y[k]));
    }
    lemma_replace_absent(y, '-', seq!['_']);
    assert forall|k: int| 0 <= k < y.len() implies #[trigger] y[k] != '.' by {
        assert(settled_ident_char(y[k]));
    }
    lemma_replace_absent(y, '.', seq!['_']);
    assert forall|k: int| 0 <= k < y.len() implies #[trigger] y[k] != '/' by {
        assert(settled_ident_char(y[k]));
    }
    lemma_replace_absent(y, '/', seq!['_', 'O', 'F', '_']);
}

// ---------------------------------------------------------------------------
// What a modified utility class applies
// ---------------------------------------------------------------------------

/// `s` ends with `t`.
pub open spec fn ends_with(s: Seq<char>, t: Seq<char>) -> bool {
    s.len() >= t.len() && s.skip(s.len() - t.len()) == t
}

/// A utility class under a pseudo-class or a variant (no arbitrary
/// declaration, no generator parameters) becomes a rule that applies the
/// utility's raw declarations: the `..._RAW` static, the very static that
/// `dwgenerate!` takes as the raw declarations of that utility, whatever name
/// it is given. Never the class-name static itself.
pub proof fn law_modified_utilities_apply_raw_declarations(
    c: DwindClassSelectorView,
    name: Seq<char>,
)
    requires
        c.arbitrary is None,
        c.generator_params.len() == 0,
        has_selector(c),
    ensures
        spec_render_class(c).0 matches ClassTokensView::PseudoClass { body, .. } && body
            == spec_generate_dwind_class(name, c).raw,
        spec_render_class(c).0 matches ClassTokensView::PseudoClass { body, .. } && (
        body matches RawBodyView::Static(id) && ends_with(id, "_RAW"@)),
{
    reveal_strlit("_RAW");
    let id = spec_raw_identifier(c.class_name);
    let k = id.len() - 4;
    assert(id.skip(k) =~= seq!['_', 'R', 'A', 'W']);
    assert("_RAW"@ =~= seq!['_', 'R', 'A', 'W']);
}

// ---------------------------------------------------------------------------
// Pseudo-element shorthands
// ---------------------------------------------------------------------------

proof fn lemma_selector_ends_with_last(v: Option<Seq<char>>, pcs: Seq<Seq<char>>)
    requires
        pcs.len() > 0,
    ensures
        exists|pre: Seq<char>|
            spec_build_pseudo_selector(v, pcs) == pre + seq![':'] + alias_or_name(
                #[trigger] pcs.last(),
            ),
{
    let parts = pcs.map_values(|n: Seq<char>| alias_or_name(n));
    let vv = match v {
        Some(x) => x,
        None => Seq::<char>::empty(),
    };
    assert(parts.last() == alias_or_name(pcs.last()));
    if pcs.len() == 1 {
        assert(join(parts, seq![':']) == parts[0]);
        assert(spec_build_pseudo_selector(v, pcs) == vv + seq![':'] + alias_or_name(pcs.last()));
    } else {
        let pre = vv + seq![':'] + join(parts.drop_last(), seq![':']);
        assert(spec_build_pseudo_selector(v, pcs) =~= pre + seq![':'] + alias_or_name(pcs.last()));
    }
}

proof fn lemma_double_colon(v: Option<Seq<char>>, pcs: Seq<Seq<char>>, e: Seq<char>)
    requires
        pcs.len() > 0,
        alias_or_name(pcs.last()) == seq![':'] + e,
    ensures
        ends_with(spec_build_pseudo_selector(v, pcs), seq![':', ':'] + e),
{
    lemma_selector_ends_with_last(v, pcs);
    let pre = choose|pre: Seq<char>|
        spec_build_pseudo_selector(v, pcs) == pre + seq![':'] + alias_or_name(#[trigger] pcs.last());
    let s = spec_build_pseudo_selector(v, pcs);
    assert(s =~= pre + (seq![':', ':'] + e));
    assert(s.skip(s.len() - (e.len() + 2)) =~= seq![':', ':'] + e);
}

/// A pseudo-element shorthand as the last pseudo-class makes the selector end
/// in that pseudo-element, with its double colon: `before`, `after`,
/// `placeholder`, `marker`, `selection`, `backdrop`, `first-letter` and
/// `first-line` (also written `first_letter` and `first_line`), whatever
/// variant and pseudo-classes come before it.
pub proof fn law_pseudo_elements_get_double_colons(v: Option<Seq<char>>, pcs: Seq<Seq<char>>)
    requires
        pcs.len() > 0,
    ensures
        pcs.last() == "before"@ ==> ends_with(spec_build_pseudo_selector(v, pcs), "::before"@),
        pcs.last() == "after"@ ==> ends_with(spec_build_pseudo_selector(v, pcs), "::after"@),
        pcs.last() == "placeholder"@ ==> ends_with(
            spec_build_pseudo_selector(v, pcs),
            "::placeholder"@,
        ),
        pcs.last() == "marker"@ ==> ends_with(spec_build_pseudo_selector(v, pcs), "::marker"@),
        pcs.last() == "selection"@ ==> ends_with(
            spec_build_pseudo_selector(v, pcs),
            "::selection"@,
        ),
        pcs.last() == "backdrop"@ ==> ends_with(
            spec_build_pseudo_selector(v, pcs),
            "::backdrop"@,
        ),
        (pcs.last() == "first-letter"@ || pcs.last() == "first_letter"@) ==> ends_with(
            spec_build_pseudo_selector(v, pcs),
            "::first-letter"@,
        ),
        (pcs.last() == "first-line"@ || pcs.last() == "first_line"@) ==> ends_with(
            spec_build_pseudo_selector(v, pcs),
            "::first-line"@,
        ),
{
    reveal_strlit("before");
    reveal_strlit("after");
    reveal_strlit("placeholder");
    reveal_strlit("marker");
    reveal_strlit("selection");
    reveal_strlit("backdrop");
    reveal_strlit("first-letter");
    reveal_strlit("first_letter");
    reveal_strlit("first-line");
    reveal_strlit("first_line");
    reveal_strlit(":before");
    reveal_strlit(":after");
    reveal_strlit(":placeholder");
    reveal_strlit(":marker");
    reveal_strlit(":selection");
    reveal_strlit(":backdrop");
    reveal_strlit(":first-letter");
    reveal_strlit(":first-line");
    reveal_strlit("::before");
    reveal_strlit("::after");
    reveal_strlit("::placeholder");
    reveal_strlit("::marker");
    reveal_strlit("::selection");
    reveal_strlit("::backdrop");
    reveal_strlit("::first-letter");
    reveal_strlit("::first-line");
    let l = pcs.last();
    if l == "before"@ {
        assert(":before"@ =~= seq![':'] + "before"@);
        lemma_double_colon(v, pcs, "before"@);
        assert(seq![':', ':'] + "before"@ =~= "::before"@);
    }
    if l == "after"@ {
        assert(":after"@ =~= seq![':'] + "after"@);
        lemma_double_colon(v, pcs, "after"@);
        assert(seq![':', ':'] + "after"@ =~= "::after"@);
    }
    if l == "placeholder"@ {
        assert(":placeholder"@ =~= seq![':'] + "placeholder"@);
        lemma_double_colon(v, pcs, "placeholder"@);
        assert(seq![':', ':'] + "placeholder"@ =~= "::placeholder"@);
    }
    if l == "marker"@ {
        assert(":marker"@ =~= seq![':'] + "marker"@);
        lemma_double_colon(v, pcs, "marker"@);
        assert(seq![':', ':'] + "marker"@ =~= "::marker"@);
    }
    if l == "selection"@ {
        assert(":selection"@ =~= seq![':'] + "selection"@);
        lemma_double_colon(v, pcs, "selection"@);
        assert(seq![':', ':'] + "selection"@ =~= "::selection"@);
    }
    if l == "backdrop"@ {
        assert(":backdrop"@ =~= seq![':'] + "backdrop"@);
        lemma_double_colon(v, pcs, "backdrop"@);
        assert(seq![':', ':'] + "backdrop"@ =~= "::backdrop"@);
    }
    if l == "first-letter"@ || l == "first_letter"@ {
        assert(":first-letter"@ =~= seq![':'] + "first-letter"@);
        lemma_double_colon(v, pcs, "first-letter"@);
        assert(seq![':', ':'] + "first-letter"@ =~= "::first-letter"@);
    }
    if l == "first-line"@ || l == "first_line"@ {
        assert(":first-line"@ =~= seq![':'] + "first-line"@);
        lemma_double_colon(v, pcs, "first-line"@);
        assert(seq![':', ':'] + "first-line"@ =~= "::first-line"@);
    }
}

// ---------------------------------------------------------------------------
// Glass surfaces
// ---------------------------------------------------------------------------

/// Each surface level is painted with its own theme background, and with no
/// other level's: the base surface uses the theme's plain `bg` value
/// (`--glass-bg`), the elevated one `bg-elevated` and the inset one
/// `bg-inset`, each as `var(--glass-<name>)`, the variable the theme's style
/// sheet declares for that value.
pub proof fn law_surfaces_use_their_own_background(a: GlassSurfaceLevel, b: GlassSurfaceLevel)
    ensures
        a != b ==> surface_background(a) != surface_background(b),
        surface_background(GlassSurfaceLevel::Base) == "var(--glass-"@ + var_name(3) + ")"@,
        surface_background(GlassSurfaceLevel::Elevated) == "var(--glass-"@ + var_name(4) + ")"@,
        surface_background(GlassSurfaceLevel::Inset) == "var(--glass-"@ + var_name(5) + ")"@,
{
    reveal_strlit("var(--glass-bg)");
    reveal_strlit("var(--glass-bg-elevated)");
    reveal_strlit("var(--glass-bg-inset)");
    reveal_strlit("var(--glass-");
    reveal_strlit(")");
    reveal_strlit("bg");
    reveal_strlit("bg-elevated");
    reveal_strlit("bg-inset");
    assert("var(--glass-"@ + "bg"@ + ")"@ =~= "var(--glass-bg)"@);
    assert("var(--glass-"@ + "bg-elevated"@ + ")"@ =~= "var(--glass-bg-elevated)"@);
    assert("var(--glass-"@ + "bg-inset"@ + ")"@ =~= "var(--glass-bg-inset)"@);
    assert("var(--glass-bg)"@.len() != "var(--glass-bg-elevated)"@.len());
    assert("var(--glass-bg)"@.len() != "var(--glass-bg-inset)"@.len());
    assert("var(--glass-bg-inset)"@.len() != "var(--glass-bg-elevated)"@.len());
}

// ---------------------------------------------------------------------------
// One class definition
// ---------------------------------------------------------------------------

/// Reading one class definition, as `dwgenerate!` does, agrees with reading
/// the same text as a class string of one class: the same variant (the
/// bracketed selector, a leading `&` dropped), prefixes, name, generator
/// parameters and arbitrary declaration.
pub proof fn law_one_definition_reads_as_one_class(s: Seq<char>)
    requires
        s.len() > 0,
        !is_ws(s[0]),
        spec_parse_class_string(s) matches Some(v) && v.len() == 1,
    ensures
        spec_parse_selector(s) matches Some((_, d)) && d == spec_parse_class_string(s).unwrap()[0],
{
    let (n, ps) = spec_selectors(s).unwrap();
    assert(ps.len() == 1);
    let (n1, p) = spec_class_item(s).unwrap();
    assert(ps[0] == p);
    lemma_run_len(s, CharClass::Space, 0);
    assert(s.skip(0) =~= s);
    let (nv, variant) = spec_variant(s);
    crate::bounds::lemma_variant_bounds(s);
    let (np, prefixes) = spec_prefixes(s.skip(nv as int)).unwrap();
    crate::bounds::lemma_prefixes_bounds(s.skip(nv as int));
    assert(s.skip(nv as int).skip(np as int) =~= s.skip((nv + np) as int));
    let (nb, body) = spec_class_body(s.skip((nv + np) as int)).unwrap();
    crate::bounds::lemma_class_body_bounds(s.skip((nv + np) as int));
    assert(s.skip((nv + np) as int).skip(nb as int) =~= s.skip((nv + np + nb) as int));
}

// ---------------------------------------------------------------------------
// Generator classes
// ---------------------------------------------------------------------------

/// A character of a generator parameter value: an ASCII letter or digit, or
/// one of `#`, `%`, `_`, `-`, `@`, `(`, `)`, `.`, `/`.
pub open spec fn value_char(c: char) -> bool {
    ||| 'a' <= c <= 'z'
    ||| 'A' <= c <= 'Z'
    ||| '0' <= c <= '9'
    ||| c == '#' || c == '%' || c == '_' || c == '-' || c == '@'
    ||| c == '(' || c == ')' || c == '.' || c == '/'
}

/// A parameter value: one or more value characters.
pub open spec fn param_value_text(v: Seq<char>) -> bool {
    v.len() > 0 && forall|k: int| 0 <= k < v.len() ==> value_char(#[trigger] v[k])
}

/// `,v1,v2,...`: the values after the first, each after a comma.
pub open spec fn comma_values(vs: Seq<Seq<char>>) -> Seq<char>
    decreases vs.len(),
{
    if vs.len() == 0 {
        Seq::empty()
    } else {
        seq![','] + vs[0] + comma_values(vs.drop_first())
    }
}

/// `n[v1,v2,...]`: a class name followed by its bracketed parameters.
pub open spec fn generator_class_text(n: Seq<char>, vs: Seq<Seq<char>>) -> Seq<char> {
    n + seq!['['] + vs[0] + comma_values(vs.drop_first()) + seq![']']
}

proof fn lemma_value_run(v: Seq<char>, rest: Seq<char>)
    requires
        param_value_text(v),
        rest.len() > 0,
        rest[0] == ',' || rest[0] == ']',
    ensures
        crate::grammar_spec::spec_param_value(v + rest) == Some((v.len(), v)),
{
    let t = v + rest;
    assert forall|k: int| 0 <= k < v.len() implies #[trigger] in_class(CharClass::Color, t[k]) by {
        assert(t[k] == v[k]);
        assert(value_char(v[k]));
    }
    assert(t[v.len() as int] == rest[0]);
    lemma_run_len(t, CharClass::Color, v.len() as int);
    assert(t.take(v.len() as int) =~= v);
}

proof fn lemma_comma_values_tail(vs: Seq<Seq<char>>, suffix: Seq<char>)
    requires
        forall|i: int| 0 <= i < vs.len() ==> param_value_text(#[trigger] vs[i]),
        suffix.len() > 0,
        suffix[0] == ']',
    ensures
        crate::grammar_spec::spec_param_tail(comma_values(vs) + suffix) == (
            comma_values(vs).len(),
            vs,
        ),
    decreases vs.len(),
{
    let t = comma_values(vs) + suffix;
    if vs.len() == 0 {
        assert(t =~= suffix);
        assert(vs =~= Seq::<Seq<char>>::empty());
    } else {
        let rest = vs.drop_first();
        assert forall|i: int| 0 <= i < rest.len() implies param_value_text(#[trigger] rest[i]) by {
            assert(rest[i] == vs[i + 1]);
        }
        let after = comma_values(rest) + suffix;
        assert(after[0] == ',' || after[0] == ']') by {
            if rest.len() > 0 {
                assert(after[0] == comma_values(rest)[0]);
            } else {
                assert(after =~= suffix);
            }
        }
        assert(param_value_text(vs[0]));
        lemma_value_run(vs[0], after);
        assert(t =~= seq![','] + (vs[0] + after));
        assert(t.skip(1) =~= vs[0] + after);
        assert(t.skip((1 + vs[0].len()) as int) =~= after);
        lemma_comma_values_tail(rest, suffix);
        assert(seq![vs[0]] + rest =~= vs);
    }
}

/// The bracketed parameters `[v1,...,vk]` read as exactly `v1..vk`, taking
/// the whole text.
proof fn lemma_parameters_of(vs: Seq<Seq<char>>)
    requires
        vs.len() > 0,
        forall|i: int| 0 <= i < vs.len() ==> param_value_text(#[trigger] vs[i]),
    ensures
        ({
            let g = seq!['['] + vs[0] + comma_values(vs.drop_first()) + seq![']'];
            spec_generator_parameters(g) == Some((g.len(), vs))
        }),
{
    let g = seq!['['] + vs[0] + comma_values(vs.drop_first()) + seq![']'];
    let rest = vs.drop_first();
    assert forall|i: int| 0 <= i < rest.len() implies param_value_text(#[trigger] rest[i]) by {
        assert(rest[i] == vs[i + 1]);
    }
    lemma_comma_values_tail(rest, seq![']']);
    let after = comma_values(rest) + seq![']'];
    assert(after[0] == ',' || after[0] == ']') by {
        if rest.len() > 0 {
            assert(after[0] == comma_values(rest)[0]);
        }
    }
    assert(param_value_text(vs[0]));
    lemma_value_run(vs[0], after);
    assert(g.skip(1) =~= vs[0] + after);
    assert(g.skip((1 + vs[0].len()) as int) =~= after);
    assert(seq![vs[0]] + rest =~= vs);
    assert(g[g.len() - 1] == ']');
    reveal(spec_generator_parameters);
}

/// No prefix stands in front of a generator class: neither its name nor its
/// parameters are followed by a `:`.
proof fn lemma_no_prefix_in_generator(n: Seq<char>, vs: Seq<Seq<char>>)
    requires
        n.len() > 0,
        forall|k: int| 0 <= k < n.len() ==> #[trigger] in_class(CharClass::Ident, n[k]),
        vs.len() > 0,
        forall|i: int| 0 <= i < vs.len() ==> param_value_text(#[trigger] vs[i]),
    ensures
        spec_pseudo_selector(generator_class_text(n, vs)) is None,
{
    let t = generator_class_text(n, vs);
    let g = seq!['['] + vs[0] + comma_values(vs.drop_first()) + seq![']'];
    assert(t =~= n + g);
    let nl = n.len() as int;
    assert(t[nl] == '[');
    let a = run_len(t, CharClass::PseudoName);
    lemma_run_len_facts(t, CharClass::PseudoName);
    assert(a <= nl) by {
        if a > nl {
            assert(in_class(CharClass::PseudoName, t[nl]));
        }
    }
    if a < nl {
        assert(t[a as int] == n[a as int]);
        assert(in_class(CharClass::Ident, n[a as int]));
        assert(t[a as int] == '/');
        assert(t.skip(a as int)[0] == '/');
    } else {
        let ta = t.skip(a as int);
        assert(ta =~= g);
        let s1 = g.skip(1);
        assert(crate::extension::closes_at(s1, g.len() - 2)) by {
            assert forall|j: int| 0 <= j < g.len() - 2 implies #[trigger] s1[j] != '[' by {
                assert(s1[j] == g[j + 1]);
                lemma_generator_text_unbracketed(vs, j + 1);
            }
            assert(s1[g.len() - 2] == g[g.len() - 1]);
        }
        crate::extension::lemma_text_closed_ahead(s1, Seq::empty(), g.len() - 2);
        assert(s1 + Seq::<char>::empty() =~= s1);
        match spec_selector_group(g, '[', ']') {
            Some((m, grp)) => {
                let (n1, v1) = spec_selector_text(s1).unwrap();
                assert(n1 == g.len() - 2) by {
                    if n1 < g.len() - 2 {
                        lemma_generator_text_unbracketed(vs, (1 + n1) as int);
                    }
                }
                assert(g.skip(m as int) =~= Seq::<char>::empty());
            },
            None => {},
        }
    }
}

/// A generator class reads as one class whose generator parameters are
/// exactly the comma-separated values between its brackets: for a class
/// name `n` and values `v1..vk` made of ASCII letters, digits and
/// `# % _ - @ ( ) . /`, the string `n[v1,...,vk]` is one class named after
/// `n` with parameters `[v1, ..., vk]` and no arbitrary declaration.
pub proof fn law_generator_parameters_are_read_whole(n: Seq<char>, vs: Seq<Seq<char>>)
    requires
        n.len() > 0,
        forall|k: int| 0 <= k < n.len() ==> #[trigger] in_class(CharClass::Ident, n[k]),
        vs.len() > 0,
        forall|i: int| 0 <= i < vs.len() ==> param_value_text(#[trigger] vs[i]),
    ensures
        spec_parse_class_string(generator_class_text(n, vs)) matches Some(cs) && cs.len() == 1
            && cs[0].generator_params == vs && cs[0].arbitrary is None && cs[0].class_name
            == underscored(n),
{
    let t = generator_class_text(n, vs);
    let g = seq!['['] + vs[0] + comma_values(vs.drop_first()) + seq![']'];
    assert(t =~= n + g);
    let nl = n.len() as int;
    lemma_parameters_of(vs);
    lemma_no_prefix_in_generator(n, vs);
    assert(t[0] == n[0]);
    lemma_ident_not_space(n[0]);
    lemma_run_len(t, CharClass::Space, 0);
    assert(t.skip(0) =~= t);
    assert(spec_variant(t) == (0nat, None::<Seq<char>>)) by {
        reveal(spec_variant);
    }
    assert(spec_prefixes(t) == Some((0nat, Seq::<Seq<char>>::empty()))) by {
        reveal(spec_prefixes);
    }
    assert(t[nl] == '[');
    assert forall|k: int| 0 <= k < nl implies #[trigger] in_class(CharClass::Ident, t[k]) by {
        assert(t[k] == n[k]);
    }
    lemma_run_len(t, CharClass::Ident, nl);
    assert(t.take(nl) =~= n);
    assert(spec_class_body(t) == Some((n.len(), BodyView::Name(n)))) by {
        reveal(spec_class_body);
    }
    assert(t.skip(nl) =~= g);
    let e = t.skip(t.len() as int);
    assert(g.skip(g.len() as int) =~= e);
    assert(e =~= Seq::<char>::empty());
    let p = ParsedView {
        variant: None,
        prefixes: Seq::empty(),
        body: BodyView::Name(n),
        params: Some(vs),
    };
    assert(spec_class_item(t) == Some((t.len(), p)));
    assert(spec_class_item(e) is None) by {
        reveal(spec_variant);
        reveal(spec_prefixes);
        reveal(spec_class_body);
        assert(e.skip(0) =~= e);
    }
    assert(spec_selectors(e) == Some((0nat, Seq::<ParsedView>::empty())));
    assert(t.len() > 0);
    assert(seq![p] + Seq::<ParsedView>::empty() =~= seq![p]);
    assert(spec_selectors(t) == Some((t.len(), seq![p])));
    assert(all_ws(e));
    assert(seq![p].map_values(|q: ParsedView| interpret(q)) =~= seq![interpret(p)]);
}

/// Inside `[v1,...,vk]` no square bracket stands but the closing one.
proof fn lemma_generator_text_unbracketed(vs: Seq<Seq<char>>, j: int)
    requires
        vs.len() > 0,
        forall|i: int| 0 <= i < vs.len() ==> param_value_text(#[trigger] vs[i]),
        0 < j < (seq!['['] + vs[0] + comma_values(vs.drop_first()) + seq![']']).len() - 1,
    ensures
        (seq!['['] + vs[0] + comma_values(vs.drop_first()) + seq![']'])[j] != '[',
        (seq!['['] + vs[0] + comma_values(vs.drop_first()) + seq![']'])[j] != ']',
{
    let g = seq!['['] + vs[0] + comma_values(vs.drop_first()) + seq![']'];
    let rest = vs.drop_first();
    assert forall|i: int| 0 <= i < rest.len() implies param_value_text(#[trigger] rest[i]) by {
        assert(rest[i] == vs[i + 1]);
    }
    if j <= vs[0].len() {
        assert(g[j] == vs[0][j - 1]);
        assert(value_char(vs[0][j - 1]));
    } else {
        let k = j - 1 - vs[0].len();
        assert(g[j] == comma_values(rest)[k]);
        lemma_comma_values_unbracketed(rest, k);
    }
}

proof fn lemma_comma_values_unbracketed(vs: Seq<Seq<char>>, k: int)
    requires
        forall|i: int| 0 <= i < vs.len() ==> param_value_text(#[trigger] vs[i]),
        0 <= k < comma_values(vs).len(),
    ensures
        comma_values(vs)[k] != '[',
        comma_values(vs)[k] != ']',
    decreases vs.len(),
{
    let rest = vs.drop_first();
    assert forall|i: int| 0 <= i < rest.len() implies param_value_text(#[trigger] rest[i]) by {
        assert(rest[i] == vs[i + 1]);
    }
    let c = comma_values(vs);
    assert(c =~= seq![','] + vs[0] + comma_values(rest));
    if k == 0 {
    } else if k <= vs[0].len() {
        assert(c[k] == vs[0][k - 1]);
        assert(param_value_text(vs[0]));
        assert(value_char(vs[0][k - 1]));
    } else {
        assert(c[k] == comma_values(rest)[k - 1 - vs[0].len()]);
        lemma_comma_values_unbracketed(rest, k - 1 - vs[0].len());
    }
}

} // verus!
