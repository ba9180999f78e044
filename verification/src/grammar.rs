use vstd::prelude::*;
use crate::scan::{CharClass, scan_run};
use crate::text::{all_ws, chars_of, string_of, is_whitespace};
use crate::grammar_spec::{spec_arbitrary_declaration, 
    BodyView, ParsedView, spec_class_body, spec_class_item, spec_selectors, spec_variant,
    spec_prefixes, spec_generator_parameters, spec_css_identifier, spec_pseudo_selector,
};
use crate::parse::{
    views, same_text_result, same_list_result, lemma_skip_skip, lemma_views_cons, copy_range,
    parse_arbitrary_declaration, parse_run1, parse_variant, parse_prefixes,
    parse_generator_parameters, parse_pseudo_selector,
};

verus! {

/// What sits in the class-name position: either a utility name, or an
/// arbitrary declaration written inline.
#[derive(Debug, PartialEq, Eq)]
pub enum ClassBody {
    Name(String),
    Arbitrary(String),
}

impl View for ClassBody {
    type V = BodyView;

    open spec fn view(&self) -> BodyView {
        match self {
            ClassBody::Name(n) => BodyView::Name(n@),
            ClassBody::Arbitrary(d) => BodyView::Arbitrary(d@),
        }
    }
}

/// One parsed selector: `(variant, prefixes, class body, generator params)`.
pub type ParsedSelector = (Option<String>, Vec<String>, ClassBody, Option<Vec<String>>);

pub open spec fn opt_view(o: Option<String>) -> Option<Seq<char>> {
    match o {
        Some(s) => Some(s@),
        None => None,
    }
}

pub open spec fn parsed_view(p: ParsedSelector) -> ParsedView {
    ParsedView {
        variant: opt_view(p.0),
        prefixes: views(p.1@),
        body: p.2@,
        params: match p.3 {
            Some(ps) => Some(views(ps@)),
            None => None,
        },
    }
}

pub open spec fn parsed_views(v: Seq<ParsedSelector>) -> Seq<ParsedView> {
    v.map_values(|p: ParsedSelector| parsed_view(p))
}

/// The class body at position `i`: an arbitrary declaration, else a name.
pub fn parse_class_body(s: &Vec<char>, i: usize) -> (r: Option<(usize, ClassBody)>)
    requires
        i <= s.len(),
    ensures
        match spec_class_body(s@.skip(i as int)) {
            Some((n, b)) => r matches Some((j, c)) && j == i + n && c@ == b,
            None => r is None,
        },
        r matches Some((j, _)) ==> i < j <= s.len(),
{
    reveal(spec_class_body);
    match parse_arbitrary_declaration(s, i) {
        Some((j, d)) => Some((j, ClassBody::Arbitrary(string_of(&d)))),
        None => match parse_run1(s, i, CharClass::Ident) {
            Some((j, n)) => Some((j, ClassBody::Name(string_of(&n)))),
            None => None,
        },
    }
}

proof fn lemma_class_item_unfold(
    t: Seq<char>,
    w1: nat,
    nv: nat,
    np: nat,
    nb: nat,
    ng: nat,
    w2: nat,
    pv: ParsedView,
)
    requires
        w1 == crate::scan::run_len(t, CharClass::Space),
        w1 + nv + np + nb + ng <= t.len(),
        spec_variant(t.skip(w1 as int)) == (nv, pv.variant),
        spec_prefixes(t.skip((w1 + nv) as int)) == Some((np, pv.prefixes)),
        spec_class_body(t.skip((w1 + nv + np) as int)) == Some((nb, pv.body)),
        match spec_generator_parameters(t.skip((w1 + nv + np + nb) as int)) {
            Some((n, ps)) => ng == n && pv.params == Some(ps),
            None => ng == 0 && pv.params is None,
        },
        w2 == crate::scan::run_len(t.skip((w1 + nv + np + nb + ng) as int), CharClass::Space),
    ensures
        spec_class_item(t) == Some(((w1 + nv + np + nb + ng + w2) as nat, pv)),
{
    let t1 = t.skip(w1 as int);
    let t2 = t1.skip(nv as int);
    let t3 = t2.skip(np as int);
    let t4 = t3.skip(nb as int);
    let t5 = t4.skip(ng as int);
    assert(t2 =~= t.skip((w1 + nv) as int));
    assert(t3 =~= t.skip((w1 + nv + np) as int));
    assert(t4 =~= t.skip((w1 + nv + np + nb) as int));
    assert(t5 =~= t.skip((w1 + nv + np + nb + ng) as int));
}

/// One whitespace-delimited class starting at `i`.
pub fn parse_class_item(s: &Vec<char>, i: usize) -> (r: Option<(usize, ParsedSelector)>)
    requires
        i <= s.len(),
    ensures
        match spec_class_item(s@.skip(i as int)) {
            Some((n, p)) => r matches Some((j, q)) && j == i + n && parsed_view(q) == p,
            None => r is None,
        },
        r matches Some((j, _)) ==> i < j <= s.len(),
{
    let ghost t = s@.skip(i as int);
    let p1 = scan_run(s, i, CharClass::Space);
    proof {
        lemma_skip_skip(s@, i as int, p1 - i);
    }
    let ghost t1 = s@.skip(p1 as int);
    assert(t.skip(p1 - i) == t1);
    let (p2, variant) = parse_variant(s, p1);
    proof {
        lemma_skip_skip(s@, p1 as int, p2 - p1);
    }
    let ghost t2 = s@.skip(p2 as int);
    assert(t1.skip(p2 - p1) == t2);
    match parse_prefixes(s, p2) {
        None => None,
        Some((p3, prefixes)) => {
            proof {
                lemma_skip_skip(s@, p2 as int, p3 - p2);
            }
            let ghost t3 = s@.skip(p3 as int);
            assert(t2.skip(p3 - p2) == t3);
            match parse_class_body(s, p3) {
                None => None,
                Some((p4, body)) => {
                    proof {
                        lemma_skip_skip(s@, p3 as int, p4 - p3);
                    }
                    let ghost t4 = s@.skip(p4 as int);
                    assert(t3.skip(p4 - p3) == t4);
                    let (p5, params) = match parse_generator_parameters(s, p4) {
                        Some((p5, ps)) => (p5, Some(ps)),
                        None => (p4, None),
                    };
                    proof {
                        lemma_skip_skip(s@, p4 as int, p5 - p4);
                    }
                    let ghost t5 = s@.skip(p5 as int);
                    assert(t4.skip(p5 - p4) == t5);
                    let p6 = scan_run(s, p5, CharClass::Space);
                    let variant = match variant {
                        Some(v) => Some(string_of(&v)),
                        None => None,
                    };
                    let ghost q = (variant, prefixes, body, params);
                    proof {
                        lemma_skip_skip(s@, i as int, p2 - i);
                        lemma_skip_skip(s@, i as int, p3 - i);
                        lemma_skip_skip(s@, i as int, p4 - i);
                        lemma_skip_skip(s@, i as int, p5 - i);
                        lemma_class_item_unfold(t, (p1 - i) as nat, (p2 - p1) as nat, (p3 - p2) as nat,
                            (p4 - p3) as nat, (p5 - p4) as nat, (p6 - p5) as nat, parsed_view(q));
                    }
                    Some((p6, (variant, prefixes, body, params)))
                },
            }
        },
    }
}

/// `selectors`: as many classes as parse, one after the other.
pub fn parse_selectors(s: &Vec<char>, i: usize) -> (r: Option<(usize, Vec<ParsedSelector>)>)
    requires
        i <= s.len(),
    ensures
        match spec_selectors(s@.skip(i as int)) {
            Some((n, ps)) => r matches Some((j, qs)) && j == i + n && parsed_views(qs@) == ps,
            None => r is None,
        },
        r matches Some((j, _)) ==> i <= j <= s.len(),
    decreases s.len() - i,
{
    match parse_class_item(s, i) {
        None => {
            let e: Vec<ParsedSelector> = Vec::new();
            assert(parsed_views(e@) =~= Seq::<ParsedView>::empty());
            Some((i, e))
        },
        Some((j, p)) => {
            proof {
                lemma_skip_skip(s@, i as int, j - i);
            }
            match parse_selectors(s, j) {
                Some((k, rest)) => {
                    let ghost old_rest = rest@;
                    let ghost pp = p;
                    let mut rest = rest;
                    rest.insert(0, p);
                    assert(rest@ =~= seq![pp] + old_rest);
                    assert(parsed_views(rest@) =~= seq![parsed_view(pp)] + parsed_views(old_rest));
                    Some((k, rest))
                },
                None => None,
            }
        },
    }
}


/// A parsed `dwclass!` class.
#[derive(Eq, PartialEq, Debug, Default)]
pub struct DwindClassSelector {
    pub class_name: String,
    pub pseudo_classes: Vec<String>,
    pub conditionals: Vec<String>,
    pub generator_params: Vec<String>,
    /// Variants are the first pseudo selector, bracketed with []
    /// [& > *]:nth-child(2):bg-red-500
    pub variant: Option<String>,
    /// An arbitrary CSS declaration, written in place of a class name:
    /// `[mask-composite:exclude]`, `[--sx:50%]`.
    ///
    /// The escape hatch for properties with no utility. Unambiguous against
    /// the variant syntax because a variant's `]` is always followed by `:`.
    pub arbitrary: Option<String>,
}

pub struct DwindClassSelectorView {
    pub class_name: Seq<char>,
    pub pseudo_classes: Seq<Seq<char>>,
    pub conditionals: Seq<Seq<char>>,
    pub generator_params: Seq<Seq<char>>,
    pub variant: Option<Seq<char>>,
    pub arbitrary: Option<Seq<char>>,
}

impl View for DwindClassSelector {
    type V = DwindClassSelectorView;

    open spec fn view(&self) -> DwindClassSelectorView {
        DwindClassSelectorView {
            class_name: self.class_name@,
            pseudo_classes: views(self.pseudo_classes@),
            conditionals: views(self.conditionals@),
            generator_params: views(self.generator_params@),
            variant: opt_view(self.variant),
            arbitrary: opt_view(self.arbitrary),
        }
    }
}

pub open spec fn selector_views(v: Seq<DwindClassSelector>) -> Seq<DwindClassSelectorView> {
    v.map_values(|c: DwindClassSelector| c@)
}

impl DwindClassSelector {
    pub fn is_generator(&self) -> (b: bool)
        ensures
            b == (self.generator_params@.len() > 0),
    {
        !self.generator_params.is_empty()
    }

    pub fn is_arbitrary(&self) -> (b: bool)
        ensures
            b == (self.arbitrary is Some),
    {
        self.arbitrary.is_some()
    }
}

/// The prefixes that are conditionals (those holding an `@`), or the ones
/// that are not, in order.
pub open spec fn keep_prefixes(ps: Seq<Seq<char>>, conditional: bool) -> Seq<Seq<char>>
    decreases ps.len(),
{
    if ps.len() == 0 {
        Seq::empty()
    } else {
        let r = keep_prefixes(ps.drop_last(), conditional);
        if ps.last().contains('@') == conditional {
            r.push(ps.last())
        } else {
            r
        }
    }
}

/// A class name with every `-` turned into `_`.
pub open spec fn underscored(n: Seq<char>) -> Seq<char> {
    n.map_values(|c: char| if c == '-' { '_' } else { c })
}

/// What a parsed class means: prefixes split into pseudo-classes and
/// conditionals, the name underscored, a missing parameter list empty.
pub open spec fn interpret(p: ParsedView) -> DwindClassSelectorView {
    DwindClassSelectorView {
        class_name: match p.body {
            BodyView::Name(n) => underscored(n),
            BodyView::Arbitrary(_) => Seq::empty(),
        },
        pseudo_classes: keep_prefixes(p.prefixes, false),
        conditionals: keep_prefixes(p.prefixes, true),
        generator_params: match p.params {
            Some(ps) => ps,
            None => Seq::empty(),
        },
        variant: p.variant,
        arbitrary: match p.body {
            BodyView::Arbitrary(d) => Some(d),
            BodyView::Name(_) => None,
        },
    }
}

/// The classes of a whole class string, or `None` where some part of it
/// (other than whitespace) is left that no class parses.
pub open spec fn spec_parse_class_string(s: Seq<char>) -> Option<Seq<DwindClassSelectorView>> {
    match spec_selectors(s) {
        Some((n, ps)) => if all_ws(s.skip(n as int)) {
            Some(ps.map_values(|p: ParsedView| interpret(p)))
        } else {
            None
        },
        None => None,
    }
}

pub fn has_char(s: &String, c: char) -> (b: bool)
    ensures
        b == s@.contains(c),
{
    let cs = chars_of(s.as_str());
    let mut i: usize = 0;
    while i < cs.len()
        invariant
            i <= cs.len(),
            cs@ == s@,
            forall|k: int| 0 <= k < i ==> cs@[k] != c,
        decreases cs.len() - i,
    {
        if cs[i] == c {
            assert(s@[i as int] == c);
            return true;
        }
        i += 1;
    }
    false
}

fn keep_prefixes_exec(ps: &Vec<String>, conditional: bool) -> (r: Vec<String>)
    ensures
        views(r@) == keep_prefixes(views(ps@), conditional),
{
    let mut r: Vec<String> = Vec::new();
    let mut i: usize = 0;
    while i < ps.len()
        invariant
            i <= ps.len(),
            views(r@) == keep_prefixes(views(ps@).take(i as int), conditional),
        decreases ps.len() - i,
    {
        let ghost before = views(ps@).take(i as int);
        let ghost after = views(ps@).take(i + 1);
        assert(after.drop_last() =~= before);
        assert(after.last() == ps@[i as int]@);
        if has_char(&ps[i], '@') == conditional {
            let ghost old_r = r@;
            r.push(ps[i].clone());
            assert(views(r@) =~= views(old_r).push(ps@[i as int]@));
        }
        i += 1;
    }
    assert(views(ps@).take(ps.len() as int) =~= views(ps@));
    r
}

fn underscored_exec(n: &String) -> (r: String)
    ensures
        r@ == underscored(n@),
{
    let cs = chars_of(n.as_str());
    let mut out: Vec<char> = Vec::new();
    let mut i: usize = 0;
    while i < cs.len()
        invariant
            i <= cs.len(),
            cs@ == n@,
            out@ == underscored(n@).take(i as int),
        decreases cs.len() - i,
    {
        let c = cs[i];
        out.push(if c == '-' { '_' } else { c });
        assert(out@ =~= underscored(n@).take(i + 1));
        i += 1;
    }
    assert(underscored(n@).take(cs.len() as int) =~= underscored(n@));
    string_of(&out)
}

fn interpret_exec(p: ParsedSelector) -> (r: DwindClassSelector)
    ensures
        r@ == interpret(parsed_view(p)),
{
    let (variant, prefixes, body, params) = p;
    let pseudo_classes = keep_prefixes_exec(&prefixes, false);
    let conditionals = keep_prefixes_exec(&prefixes, true);
    let generator_params = match params {
        Some(ps) => ps,
        None => {
            let e: Vec<String> = Vec::new();
            assert(views(e@) =~= Seq::<Seq<char>>::empty());
            e
        },
    };
    let (class_name, arbitrary) = match body {
        ClassBody::Name(name) => (underscored_exec(&name), None),
        ClassBody::Arbitrary(decl) => (String::new(), Some(decl)),
    };
    DwindClassSelector {
        class_name,
        pseudo_classes,
        conditionals,
        generator_params,
        variant,
        arbitrary,
    }
}

fn interpret_all(ps: Vec<ParsedSelector>) -> (r: Vec<DwindClassSelector>)
    ensures
        selector_views(r@) == parsed_views(ps@).map_values(|p: ParsedView| interpret(p)),
{
    let ghost all = ps@;
    let mut ps = ps;
    let mut r: Vec<DwindClassSelector> = Vec::new();
    let mut done: usize = 0;
    assert(all.len() == ps.len());
    while ps.len() > 0
        invariant
            all.len() <= usize::MAX,
            done + ps.len() == all.len(),
            ps@ == all.skip(done as int),
            selector_views(r@) == parsed_views(all.take(done as int)).map_values(
                |p: ParsedView| interpret(p),
            ),
        decreases ps.len(),
    {
        let p = ps.remove(0);
        let ghost old_r = r@;
        r.push(interpret_exec(p));
        assert(all.skip(done as int)[0] == p);
        assert(ps@ =~= all.skip(done + 1));
        assert(all.take(done + 1) =~= all.take(done as int).push(p));
        assert(selector_views(r@) =~= selector_views(old_r).push(interpret(parsed_view(p))));
        assert(parsed_views(all.take(done + 1)).map_values(|p: ParsedView| interpret(p))
            =~= parsed_views(all.take(done as int)).map_values(|p: ParsedView| interpret(p)).push(
            interpret(parsed_view(p)),
        ));
        done += 1;
    }
    assert(all.take(done as int) =~= all);
    r
}

/// Reads a class string: the classes, or `Err` where something other than
/// whitespace is left that no class parses.
fn read_class_string(input: &str) -> (r: Result<Vec<DwindClassSelector>, ()>)
    ensures
        match spec_parse_class_string(input@) {
            Some(v) => r matches Ok(cs) && selector_views(cs@) == v,
            None => r is Err,
        },
{
    let s = chars_of(input);
    assert(s@.skip(0) =~= s@);
    match parse_selectors(&s, 0) {
        Some((n, ps)) => {
            let m = scan_run(&s, n, CharClass::Space);
            proof {
                crate::scan::lemma_run_len_facts(s@.skip(n as int), CharClass::Space);
            }
            if m == s.len() {
                proof {
                    let t = s@.skip(n as int);
                    assert forall|k: int| 0 <= k < t.len() implies #[trigger] crate::text::is_ws(t[k]) by {
                        assert(crate::scan::in_class(CharClass::Space, t[k]));
                    }
                }
                Ok(interpret_all(ps))
            } else {
                proof {
                    let t = s@.skip(n as int);
                    assert(!crate::text::is_ws(t[(m - n) as int]));
                }
                Err(())
            }
        },
        None => Err(()),
    }
}


/// Whether a class string reads whole: every part of it other than
/// whitespace belongs to a class. `dwclass!` refuses a string for which this
/// is false, with `dwclass!: could not parse ...`.
pub fn class_string_parses(input: &str) -> (b: bool)
    ensures
        b == (spec_parse_class_string(input@) is Some),
{
    read_class_string(input).is_ok()
}

/// Parses a `dwclass!` class string: classes separated by any whitespace.
/// The string must read whole (see `class_string_parses`): a string with
/// something left that no class parses is refused, never cut short.
pub fn parse_class_string(input: &str) -> (r: Result<Vec<DwindClassSelector>, ()>)
    requires
        (spec_parse_class_string(input@) is Some),
    ensures
        (r matches Ok(cs) && selector_views(cs@) == spec_parse_class_string(input@).unwrap()),
{
    read_class_string(input)
}

/// The rest of the input from position `j`.
fn rest_from(s: &Vec<char>, j: usize) -> (r: String)
    requires
        j <= s.len(),
    ensures
        r@ == s@.skip(j as int),
{
    let v = copy_range(s, j, s.len());
    assert(s@.subrange(j as int, s.len() as int) =~= s@.skip(j as int));
    string_of(&v)
}

/// `selectors`: as many whitespace-delimited classes as parse from the start
/// of `input`, and the input left after them.
pub fn selectors(input: &str) -> (r: Result<(String, Vec<ParsedSelector>), ()>)
    ensures
        match spec_selectors(input@) {
            Some((n, ps)) => r matches Ok((rest, qs)) && rest@ == input@.skip(n as int)
                && parsed_views(qs@) == ps,
            None => r is Err,
        },
{
    let s = chars_of(input);
    assert(s@.skip(0) =~= s@);
    match parse_selectors(&s, 0) {
        Some((n, ps)) => Ok((rest_from(&s, n), ps)),
        None => Err(()),
    }
}

/// A class name: a non-empty run of `_`, `-`, `.`, `/` and of characters
/// whose code point, taken modulo 256, is an ASCII letter or digit (so `a`,
/// `Z`, `7`, and also `Ł`, U+0141, which reads as `A`).
pub fn css_identifier(input: &str) -> (r: Result<(String, String), ()>)
    ensures
        match spec_css_identifier(input@) {
            Some((n, v)) => r matches Ok((rest, name)) && rest@ == input@.skip(n as int) && name@
                == v,
            None => r is Err,
        },
{
    let s = chars_of(input);
    assert(s@.skip(0) =~= s@);
    match parse_run1(&s, 0, CharClass::Ident) {
        Some((n, v)) => Ok((rest_from(&s, n), string_of(&v))),
        None => Err(()),
    }
}

/// `[v1,v2,...]`: the parameters of a generator class.
pub fn generator_parameters(input: &str) -> (r: Result<(String, Vec<String>), ()>)
    ensures
        match spec_generator_parameters(input@) {
            Some((n, v)) => r matches Ok((rest, ps)) && rest@ == input@.skip(n as int) && views(
                ps@,
            ) == v,
            None => r is Err,
        },
{
    let s = chars_of(input);
    assert(s@.skip(0) =~= s@);
    match parse_generator_parameters(&s, 0) {
        Some((n, ps)) => Ok((rest_from(&s, n), ps)),
        None => Err(()),
    }
}

/// `name(groups):` — one pseudo-class or conditional prefix, without its colon.
pub fn pseudo_selector(input: &str) -> (r: Result<(String, String), ()>)
    ensures
        match spec_pseudo_selector(input@) {
            Some((n, v)) => r matches Ok((rest, p)) && rest@ == input@.skip(n as int) && p@ == v,
            None => r is Err,
        },
{
    let s = chars_of(input);
    assert(s@.skip(0) =~= s@);
    match parse_pseudo_selector(&s, 0) {
        Some((n, v)) => Ok((rest_from(&s, n), string_of(&v))),
        None => Err(()),
    }
}

/// A single class definition, as `dwgenerate!` reads one: no surrounding
/// whitespace, and the input after the class body is what is left over
/// (generator parameters are read from it but not consumed).
pub open spec fn spec_parse_selector(s: Seq<char>) -> Option<(nat, DwindClassSelectorView)> {
    let (nv, variant) = spec_variant(s);
    match spec_prefixes(s.skip(nv as int)) {
        None => None,
        Some((np, prefixes)) => match spec_class_body(s.skip((nv + np) as int)) {
            None => None,
            Some((nb, body)) => Some(
                (
                    (nv + np + nb) as nat,
                    interpret(
                        ParsedView {
                            variant,
                            prefixes,
                            body,
                            params: match spec_generator_parameters(
                                s.skip((nv + np + nb) as int),
                            ) {
                                Some((_, ps)) => Some(ps),
                                None => None,
                            },
                        },
                    ),
                ),
            ),
        },
    }
}

pub fn parse_selector(input: &str) -> (r: Result<(String, DwindClassSelector), ()>)
    ensures
        match spec_parse_selector(input@) {
            Some((n, v)) => r matches Ok((rest, c)) && rest@ == input@.skip(n as int) && c@ == v,
            None => r is Err,
        },
{
    let s = chars_of(input);
    assert(s@.skip(0) =~= s@);
    let (p1, variant) = parse_variant(&s, 0);
    match parse_prefixes(&s, p1) {
        None => Err(()),
        Some((p2, prefixes)) => match parse_class_body(&s, p2) {
            None => Err(()),
            Some((p3, body)) => {
                let params = match parse_generator_parameters(&s, p3) {
                    Some((_, ps)) => Some(ps),
                    None => None,
                };
                let variant = match variant {
                    Some(v) => Some(string_of(&v)),
                    None => None,
                };
                let ghost q = (variant, prefixes, body, params);
                let c = interpret_exec((variant, prefixes, body, params));
                assert(parsed_view(q).params == match spec_generator_parameters(
                    s@.skip(p3 as int),
                ) {
                    Some((_, ps)) => Some(ps),
                    None => None,
                });
                Ok((rest_from(&s, p3), c))
            },
        },
    }
}

} // verus!
