use vstd::prelude::*;
use crate::scan::{CharClass, run_len, lemma_run_len_facts};
use crate::grammar_spec::{
    take_run1, spec_param_tail, spec_generator_parameters, spec_selector_group,
    spec_selector_item, spec_selector_text, spec_declaration_group, spec_declaration_item,
    spec_declaration_body, spec_arbitrary_declaration, spec_variant, spec_pseudo_group,
    spec_pseudo_groups, spec_pseudo_selector, spec_prefixes, spec_class_body, spec_class_item,
    spec_css_identifier, spec_selectors,
};

verus! {

// How much each parser of the class grammar consumes: never more than the
// input, and at least one character wherever an item must be present.

pub proof fn lemma_run1_bounds(t: Seq<char>, cls: CharClass)
    ensures
        take_run1(t, cls) matches Some((n, v)) ==> 0 < n <= t.len() && v.len() == n,
{
    lemma_run_len_facts(t, cls);
}

pub proof fn lemma_param_tail_bounds(t: Seq<char>)
    ensures
        spec_param_tail(t).0 <= t.len(),
    decreases t.len(),
{
    if t.len() > 0 && t[0] == ',' {
        lemma_run1_bounds(t.skip(1), CharClass::Color);
        match crate::grammar_spec::spec_param_value(t.skip(1)) {
            Some((n, v)) => {
                if 1 + n <= t.len() {
                    lemma_param_tail_bounds(t.skip((1 + n) as int));
                }
            },
            None => {},
        }
    }
}

pub proof fn lemma_generator_parameters_bounds(t: Seq<char>)
    ensures
        spec_generator_parameters(t) matches Some((n, _)) ==> 0 < n <= t.len(),
{
    reveal(spec_generator_parameters);
}

pub proof fn lemma_selector_group_bounds(t: Seq<char>, open: char, close: char)
    ensures
        spec_selector_group(t, open, close) matches Some((n, _)) ==> 0 < n <= t.len(),
    decreases t.len(), 0nat,
{
    if t.len() > 0 && t[0] == open {
        lemma_selector_text_bounds(t.skip(1));
    }
}

pub proof fn lemma_selector_item_bounds(t: Seq<char>)
    ensures
        spec_selector_item(t) matches Some((n, _)) ==> 0 < n <= t.len(),
    decreases t.len(), 1nat,
{
    lemma_selector_group_bounds(t, '(', ')');
    lemma_selector_group_bounds(t, '[', ']');
    lemma_run1_bounds(t, CharClass::Selector);
}

pub proof fn lemma_selector_text_bounds(t: Seq<char>)
    ensures
        spec_selector_text(t) matches Some((n, _)) ==> n <= t.len(),
    decreases t.len(), 2nat,
{
    lemma_selector_item_bounds(t);
    match spec_selector_item(t) {
        Some((n, v)) => {
            if n > 0 && n <= t.len() {
                lemma_selector_text_bounds(t.skip(n as int));
            }
        },
        None => {},
    }
}

pub proof fn lemma_declaration_group_bounds(t: Seq<char>)
    ensures
        spec_declaration_group(t) matches Some((n, _)) ==> 0 < n <= t.len(),
    decreases t.len(), 0nat,
{
    if t.len() > 0 && t[0] == '(' {
        lemma_declaration_body_bounds(t.skip(1));
    }
}

pub proof fn lemma_declaration_item_bounds(t: Seq<char>)
    ensures
        spec_declaration_item(t) matches Some((n, _)) ==> 0 < n <= t.len(),
    decreases t.len(), 1nat,
{
    lemma_declaration_group_bounds(t);
    lemma_run1_bounds(t, CharClass::Declaration);
}

pub proof fn lemma_declaration_body_bounds(t: Seq<char>)
    ensures
        spec_declaration_body(t) matches Some((n, _)) ==> n <= t.len(),
    decreases t.len(), 2nat,
{
    lemma_declaration_item_bounds(t);
    match spec_declaration_item(t) {
        Some((n, v)) => {
            if n > 0 && n <= t.len() {
                lemma_declaration_body_bounds(t.skip(n as int));
            }
        },
        None => {},
    }
}

pub proof fn lemma_arbitrary_declaration_bounds(t: Seq<char>)
    ensures
        spec_arbitrary_declaration(t) matches Some((n, _)) ==> 0 < n <= t.len(),
{
    if t.len() > 0 && t[0] == '[' {
        lemma_declaration_body_bounds(t.skip(1));
    }
}

pub proof fn lemma_variant_bounds(t: Seq<char>)
    ensures
        spec_variant(t).0 <= t.len(),
        spec_variant(t).1 is None ==> spec_variant(t).0 == 0,
{
    reveal(spec_variant);
    lemma_selector_group_bounds(t, '[', ']');
}

pub proof fn lemma_pseudo_groups_bounds(t: Seq<char>)
    ensures
        spec_pseudo_groups(t) matches Some((n, _)) ==> n <= t.len(),
    decreases t.len(),
{
    lemma_selector_group_bounds(t, '(', ')');
    lemma_selector_group_bounds(t, '[', ']');
    match spec_pseudo_group(t) {
        Some((n, v)) => {
            if n > 0 && n <= t.len() {
                lemma_pseudo_groups_bounds(t.skip(n as int));
            }
        },
        None => {},
    }
}

pub proof fn lemma_pseudo_selector_bounds(t: Seq<char>)
    ensures
        spec_pseudo_selector(t) matches Some((n, _)) ==> 0 < n <= t.len(),
{
    let a = run_len(t, CharClass::PseudoName);
    lemma_run_len_facts(t, CharClass::PseudoName);
    lemma_pseudo_groups_bounds(t.skip(a as int));
}

pub proof fn lemma_prefixes_bounds(t: Seq<char>)
    ensures
        spec_prefixes(t) matches Some((n, _)) ==> n <= t.len(),
    decreases t.len(),
{
    reveal(spec_prefixes);
    lemma_pseudo_selector_bounds(t);
    match spec_pseudo_selector(t) {
        Some((n, v)) => {
            if n > 0 && n <= t.len() {
                lemma_prefixes_bounds(t.skip(n as int));
            }
        },
        None => {},
    }
}

pub proof fn lemma_class_body_bounds(t: Seq<char>)
    ensures
        spec_class_body(t) matches Some((n, _)) ==> 0 < n <= t.len(),
{
    reveal(spec_class_body);
    lemma_arbitrary_declaration_bounds(t);
    lemma_run1_bounds(t, CharClass::Ident);
}

pub proof fn lemma_class_item_bounds(t: Seq<char>)
    ensures
        spec_class_item(t) matches Some((n, _)) ==> 0 < n <= t.len(),
{
    let w1 = run_len(t, CharClass::Space);
    lemma_run_len_facts(t, CharClass::Space);
    let t1 = t.skip(w1 as int);
    lemma_variant_bounds(t1);
    let (nv, variant) = spec_variant(t1);
    let t2 = t1.skip(nv as int);
    lemma_prefixes_bounds(t2);
    match spec_prefixes(t2) {
        None => {},
        Some((np, prefixes)) => {
            let t3 = t2.skip(np as int);
            lemma_class_body_bounds(t3);
            match spec_class_body(t3) {
                None => {},
                Some((nb, body)) => {
                    let t4 = t3.skip(nb as int);
                    lemma_generator_parameters_bounds(t4);
                    let ng: nat = match spec_generator_parameters(t4) {
                        Some((ng, ps)) => ng,
                        None => 0,
                    };
                    let t5 = t4.skip(ng as int);
                    lemma_run_len_facts(t5, CharClass::Space);
                },
            }
        },
    }
}


pub proof fn lemma_selectors_bounds(t: Seq<char>)
    ensures
        spec_selectors(t) matches Some((n, _)) ==> n <= t.len(),
    decreases t.len(),
{
    lemma_class_item_bounds(t);
    match spec_class_item(t) {
        Some((n, v)) => {
            if n > 0 && n <= t.len() {
                lemma_selectors_bounds(t.skip(n as int));
            }
        },
        None => {},
    }
}

} // verus!
