use vstd::prelude::*;
use crate::scan::{CharClass, run_len};
use crate::text::all_ws;

verus! {

// The class-string grammar, as functions of the remaining input. Each parser
// answers `None` where it fails, or how many characters it consumed and what
// it produced. Repetition stops at the first failure of its item, and fails
// outright if an item succeeds without consuming (so it can never loop).

/// One item of a bracketed run of `cls`-text: a nested `(..)` or `[..]` group,
/// or a maximal run of the plain text itself.
pub open spec fn take_run1(t: Seq<char>, cls: CharClass) -> Option<(nat, Seq<char>)> {
    let n = run_len(t, cls);
    if n > 0 {
        Some((n, t.take(n as int)))
    } else {
        None
    }
}

/// `css_identifier`: a non-empty run of name characters.
pub open spec fn spec_css_identifier(t: Seq<char>) -> Option<(nat, Seq<char>)> {
    take_run1(t, CharClass::Ident)
}

/// A single generator parameter value.
pub open spec fn spec_param_value(t: Seq<char>) -> Option<(nat, Seq<char>)> {
    take_run1(t, CharClass::Color)
}

/// The `,value,value...` tail of a parameter list. A trailing comma with no
/// value after it is left unconsumed.
pub open spec fn spec_param_tail(t: Seq<char>) -> (nat, Seq<Seq<char>>)
    decreases t.len(),
{
    if t.len() > 0 && t[0] == ',' {
        match spec_param_value(t.skip(1)) {
            Some((n, v)) => {
                if 1 + n <= t.len() {
                    let (m, rest) = spec_param_tail(t.skip((1 + n) as int));
                    (1 + n + m, seq![v] + rest)
                } else {
                    (0, Seq::empty())
                }
            },
            None => (0, Seq::empty()),
        }
    } else {
        (0, Seq::empty())
    }
}

/// `[v1,v2,...]`: generator parameters.
#[verifier::opaque]
pub open spec fn spec_generator_parameters(t: Seq<char>) -> Option<(nat, Seq<Seq<char>>)> {
    if t.len() > 0 && t[0] == '[' {
        match spec_param_value(t.skip(1)) {
            Some((n, v)) => {
                let (m, rest) = spec_param_tail(t.skip((1 + n) as int));
                let k = 1 + n + m;
                if k < t.len() && t[k as int] == ']' {
                    Some(((k + 1) as nat, seq![v] + rest))
                } else {
                    None
                }
            },
            None => None,
        }
    } else {
        None
    }
}

/// A bracketed selector group `open .. close`, the brackets kept in the text.
pub open spec fn spec_selector_group(t: Seq<char>, open: char, close: char) -> Option<
    (nat, Seq<char>),
>
    decreases t.len(), 0nat,
{
    if t.len() > 0 && t[0] == open {
        match spec_selector_text(t.skip(1)) {
            Some((n, v)) => {
                let k = 1 + n;
                if k < t.len() && t[k as int] == close {
                    Some(((k + 1) as nat, seq![open] + v + seq![close]))
                } else {
                    None
                }
            },
            None => None,
        }
    } else {
        None
    }
}

pub open spec fn spec_selector_item(t: Seq<char>) -> Option<(nat, Seq<char>)>
    decreases t.len(), 1nat,
{
    match spec_selector_group(t, '(', ')') {
        Some(r) => Some(r),
        None => match spec_selector_group(t, '[', ']') {
            Some(r) => Some(r),
            None => take_run1(t, CharClass::Selector),
        },
    }
}

/// `recursive_selector`: selector text with balanced `()` and `[]` groups.
pub open spec fn spec_selector_text(t: Seq<char>) -> Option<(nat, Seq<char>)>
    decreases t.len(), 2nat,
{
    match spec_selector_item(t) {
        None => Some((0, Seq::empty())),
        Some((n, v)) => {
            if n == 0 || n > t.len() {
                None
            } else {
                match spec_selector_text(t.skip(n as int)) {
                    Some((m, w)) => Some((n + m, v + w)),
                    None => None,
                }
            }
        },
    }
}

/// A `( .. )` group inside a declaration, the parentheses kept in the text.
pub open spec fn spec_declaration_group(t: Seq<char>) -> Option<(nat, Seq<char>)>
    decreases t.len(), 0nat,
{
    if t.len() > 0 && t[0] == '(' {
        match spec_declaration_body(t.skip(1)) {
            Some((n, v)) => {
                let k = 1 + n;
                if k < t.len() && t[k as int] == ')' {
                    Some(((k + 1) as nat, seq!['('] + v + seq![')']))
                } else {
                    None
                }
            },
            None => None,
        }
    } else {
        None
    }
}

pub open spec fn spec_declaration_item(t: Seq<char>) -> Option<(nat, Seq<char>)>
    decreases t.len(), 1nat,
{
    match spec_declaration_group(t) {
        Some(r) => Some(r),
        None => take_run1(t, CharClass::Declaration),
    }
}

/// `declaration_body`: any text with balanced parentheses and no square
/// brackets.
pub open spec fn spec_declaration_body(t: Seq<char>) -> Option<(nat, Seq<char>)>
    decreases t.len(), 2nat,
{
    match spec_declaration_item(t) {
        None => Some((0, Seq::empty())),
        Some((n, v)) => {
            if n == 0 || n > t.len() {
                None
            } else {
                match spec_declaration_body(t.skip(n as int)) {
                    Some((m, w)) => Some((n + m, v + w)),
                    None => None,
                }
            }
        },
    }
}

/// `[property:value]`: an arbitrary declaration; produces the text between the
/// brackets.
pub open spec fn spec_arbitrary_declaration(t: Seq<char>) -> Option<(nat, Seq<char>)> {
    if t.len() > 0 && t[0] == '[' {
        match spec_declaration_body(t.skip(1)) {
            Some((n, v)) => {
                let k = 1 + n;
                if k < t.len() && t[k as int] == ']' {
                    Some(((k + 1) as nat, v))
                } else {
                    None
                }
            },
            None => None,
        }
    } else {
        None
    }
}

/// The text of a variant between its brackets, a leading `&` dropped.
pub open spec fn variant_text(group: Seq<char>) -> Seq<char> {
    let inner = group.subrange(1, group.len() - 1);
    if inner.len() > 0 && inner[0] == '&' {
        inner.skip(1)
    } else {
        inner
    }
}

/// `[selector]:` in front of a class: the optional variant.
#[verifier::opaque]
pub open spec fn spec_variant(t: Seq<char>) -> (nat, Option<Seq<char>>) {
    match spec_selector_group(t, '[', ']') {
        Some((n, g)) => {
            if n < t.len() && t[n as int] == ':' {
                ((n + 1) as nat, Some(variant_text(g)))
            } else {
                (0, None)
            }
        },
        None => (0, None),
    }
}

pub open spec fn spec_pseudo_group(t: Seq<char>) -> Option<(nat, Seq<char>)> {
    match spec_selector_group(t, '(', ')') {
        Some(r) => Some(r),
        None => spec_selector_group(t, '[', ']'),
    }
}

/// The bracketed groups after a pseudo-class name: `(2)`, `[dark]`.
pub open spec fn spec_pseudo_groups(t: Seq<char>) -> Option<(nat, Seq<char>)>
    decreases t.len(),
{
    match spec_pseudo_group(t) {
        None => Some((0, Seq::empty())),
        Some((n, v)) => {
            if n == 0 || n > t.len() {
                None
            } else {
                match spec_pseudo_groups(t.skip(n as int)) {
                    Some((m, w)) => Some((n + m, v + w)),
                    None => None,
                }
            }
        },
    }
}

/// `name(groups):` — one pseudo-class or conditional prefix, without its colon.
pub open spec fn spec_pseudo_selector(t: Seq<char>) -> Option<(nat, Seq<char>)> {
    let a = run_len(t, CharClass::PseudoName);
    match spec_pseudo_groups(t.skip(a as int)) {
        Some((b, g)) => {
            let k = a + b;
            if k < t.len() && t[k as int] == ':' {
                Some(((k + 1) as nat, t.take(a as int) + g))
            } else {
                None
            }
        },
        None => None,
    }
}

/// All the prefixes in front of a class.
#[verifier::opaque]
pub open spec fn spec_prefixes(t: Seq<char>) -> Option<(nat, Seq<Seq<char>>)>
    decreases t.len(),
{
    match spec_pseudo_selector(t) {
        None => Some((0, Seq::empty())),
        Some((n, v)) => {
            if n == 0 || n > t.len() {
                None
            } else {
                match spec_prefixes(t.skip(n as int)) {
                    Some((m, w)) => Some((n + m, seq![v] + w)),
                    None => None,
                }
            }
        },
    }
}

/// What sits in the class-name position.
pub enum BodyView {
    Name(Seq<char>),
    Arbitrary(Seq<char>),
}

/// An arbitrary declaration is tried first, then a class name.
#[verifier::opaque]
pub open spec fn spec_class_body(t: Seq<char>) -> Option<(nat, BodyView)> {
    match spec_arbitrary_declaration(t) {
        Some((n, d)) => Some((n, BodyView::Arbitrary(d))),
        None => match spec_css_identifier(t) {
            Some((n, name)) => Some((n, BodyView::Name(name))),
            None => None,
        },
    }
}

/// One class as the grammar reads it, before any interpretation.
pub struct ParsedView {
    pub variant: Option<Seq<char>>,
    pub prefixes: Seq<Seq<char>>,
    pub body: BodyView,
    pub params: Option<Seq<Seq<char>>>,
}

/// One whitespace-delimited class:
/// `ws [variant:] prefix:* body [params] ws`.
pub open spec fn spec_class_item(t: Seq<char>) -> Option<(nat, ParsedView)> {
    let w1 = run_len(t, CharClass::Space);
    let t1 = t.skip(w1 as int);
    let (nv, variant) = spec_variant(t1);
    let t2 = t1.skip(nv as int);
    match spec_prefixes(t2) {
        None => None,
        Some((np, prefixes)) => {
            let t3 = t2.skip(np as int);
            match spec_class_body(t3) {
                None => None,
                Some((nb, body)) => {
                    let t4 = t3.skip(nb as int);
                    let (ng, params) = match spec_generator_parameters(t4) {
                        Some((ng, ps)) => (ng, Some(ps)),
                        None => (0nat, None),
                    };
                    let t5 = t4.skip(ng as int);
                    let w2 = run_len(t5, CharClass::Space);
                    Some(
                        (
                            w1 + nv + np + nb + ng + w2,
                            ParsedView { variant, prefixes, body, params },
                        ),
                    )
                },
            }
        },
    }
}

/// `selectors`: as many classes as parse, one after the other.
pub open spec fn spec_selectors(t: Seq<char>) -> Option<(nat, Seq<ParsedView>)>
    decreases t.len(),
{
    match spec_class_item(t) {
        None => Some((0, Seq::empty())),
        Some((n, v)) => {
            if n == 0 || n > t.len() {
                None
            } else {
                match spec_selectors(t.skip(n as int)) {
                    Some((m, w)) => Some((n + m, seq![v] + w)),
                    None => None,
                }
            }
        },
    }
}

} // verus!
