use vstd::prelude::*;
use crate::text::{
    chars_of, string_of, extend_chars, str_eq, is_ws, is_whitespace, contains_text,
    contains_chars, join, concat,
};
use crate::parse::views;
use crate::grammar::{opt_view, DwindClassSelector, DwindClassSelectorView};
use crate::media_queries::{BreakpointInfo, BreakpointInfoView, spec_breakpoints};
use crate::string_rendering::{
    unicode_uppercase, unicode_lowercase, spec_struct_identifier, spec_raw_identifier,
    spec_sanitize_class_prefix, class_name_to_struct_identifier, class_name_to_raw_identifier,
    sanitize_class_prefix, to_uppercase, to_lowercase,
};

verus! {

/// Shorthands for the pseudo-*elements*: the selector each stands for, with a
/// *leading* colon, because the caller joins with `:` and so contributes the
/// other one. Pseudo-classes pass through verbatim.
pub open spec fn spec_pseudo_element_alias(name: Seq<char>) -> Option<Seq<char>> {
    if name == "before"@ {
        Some(":before"@)
    } else if name == "after"@ {
        Some(":after"@)
    } else if name == "placeholder"@ {
        Some(":placeholder"@)
    } else if name == "marker"@ {
        Some(":marker"@)
    } else if name == "selection"@ {
        Some(":selection"@)
    } else if name == "backdrop"@ {
        Some(":backdrop"@)
    } else if name == "first-letter"@ || name == "first_letter"@ {
        Some(":first-letter"@)
    } else if name == "first-line"@ || name == "first_line"@ {
        Some(":first-line"@)
    } else {
        None
    }
}

pub fn pseudo_element_alias(name: &str) -> (r: Option<String>)
    ensures
        match spec_pseudo_element_alias(name@) {
            Some(a) => r matches Some(s) && s@ == a,
            None => r is None,
        },
{
    let target = if str_eq(name, "before") {
        ":before"
    } else if str_eq(name, "after") {
        ":after"
    } else if str_eq(name, "placeholder") {
        ":placeholder"
    } else if str_eq(name, "marker") {
        ":marker"
    } else if str_eq(name, "selection") {
        ":selection"
    } else if str_eq(name, "backdrop") {
        ":backdrop"
    } else if str_eq(name, "first-letter") || str_eq(name, "first_letter") {
        ":first-letter"
    } else if str_eq(name, "first-line") || str_eq(name, "first_line") {
        ":first-line"
    } else {
        return None;
    };
    Some(string_of(&chars_of(target)))
}

pub open spec fn alias_or_name(name: Seq<char>) -> Seq<char> {
    match spec_pseudo_element_alias(name) {
        Some(a) => a,
        None => name,
    }
}

/// The selector handed to `dominator::pseudo!`: the bracketed variant, then
/// the pseudo-class prefixes (pseudo-element shorthands expanded) after a `:`.
pub open spec fn spec_build_pseudo_selector(
    variant: Option<Seq<char>>,
    pseudo_classes: Seq<Seq<char>>,
) -> Seq<char> {
    let v = match variant {
        Some(v) => v,
        None => Seq::empty(),
    };
    if pseudo_classes.len() == 0 {
        v
    } else {
        v + seq![':'] + join(pseudo_classes.map_values(|n: Seq<char>| alias_or_name(n)), seq![':'])
    }
}

pub fn build_pseudo_selector(variant: &Option<String>, pseudo_classes: &Vec<String>) -> (r: String)
    ensures
        r@ == spec_build_pseudo_selector(opt_view(*variant), views(pseudo_classes@)),
{
    let mut out: Vec<char> = match variant {
        Some(v) => chars_of(v.as_str()),
        None => Vec::new(),
    };
    if pseudo_classes.len() == 0 {
        return string_of(&out);
    }
    out.push(':');
    let ghost head = out@;
    let ghost parts = views(pseudo_classes@).map_values(|n: Seq<char>| alias_or_name(n));
    let mut i: usize = 0;
    while i < pseudo_classes.len()
        invariant
            i <= pseudo_classes.len(),
            parts == views(pseudo_classes@).map_values(|n: Seq<char>| alias_or_name(n)),
            out@ == head + join(parts.take(i as int), seq![':']),
        decreases pseudo_classes.len() - i,
    {
        let ghost before = out@;
        let name = &pseudo_classes[i];
        let piece = match pseudo_element_alias(name.as_str()) {
            Some(a) => chars_of(a.as_str()),
            None => chars_of(name.as_str()),
        };
        assert(piece@ == parts[i as int]);
        assert(parts.take(i + 1).drop_last() =~= parts.take(i as int));
        if i > 0 {
            out.push(':');
        }
        extend_chars(&mut out, &piece);
        proof {
            if i == 0 {
                assert(join(parts.take(1), seq![':']) == parts.take(1)[0]);
            }
            assert(out@ =~= head + join(parts.take(i + 1), seq![':']));
        }
        i += 1;
    }
    assert(parts.take(pseudo_classes.len() as int) =~= parts);
    string_of(&out)
}

/// Characters that end a compound selector.
pub open spec fn is_compound_separator(c: char) -> bool {
    is_ws(c) || c == '>' || c == '+' || c == '~'
}

/// The selector's last compound: what follows its last combinator.
pub open spec fn last_compound(s: Seq<char>) -> Seq<char>
    decreases s.len(),
{
    if s.len() == 0 {
        Seq::empty()
    } else if is_compound_separator(s.last()) {
        Seq::empty()
    } else {
        last_compound(s.drop_last()).push(s.last())
    }
}

/// Whether the selector's last compound targets `::before` or `::after`,
/// pseudo-elements that do not render without generated content.
pub open spec fn spec_needs_generated_content(selector: Seq<char>) -> bool {
    let last = last_compound(selector);
    contains_text(last, "::before"@) || contains_text(last, "::after"@)
}

proof fn lemma_last_compound(s: Seq<char>, k: int)
    requires
        0 <= k <= s.len(),
        forall|j: int| k <= j < s.len() ==> !is_compound_separator(#[trigger] s[j]),
        k == 0 || is_compound_separator(s[k - 1]),
    ensures
        last_compound(s) == s.skip(k),
    decreases s.len(),
{
    if s.len() > 0 {
        if k == s.len() {
            assert(s.skip(k) =~= Seq::<char>::empty());
        } else {
            let u = s.drop_last();
            assert forall|j: int| k <= j < u.len() implies !is_compound_separator(#[trigger] u[j]) by {
                assert(u[j] == s[j]);
            }
            if k > 0 {
                assert(u[k - 1] == s[k - 1]);
            }
            lemma_last_compound(u, k);
            assert(!is_compound_separator(s[s.len() - 1]));
            assert(u.skip(k).push(s.last()) =~= s.skip(k));
        }
    }
}

pub fn needs_generated_content(selector: &str) -> (b: bool)
    ensures
        b == spec_needs_generated_content(selector@),
{
    let s = chars_of(selector);
    let mut k = s.len();
    while k > 0 && !(is_whitespace(s[k - 1]) || s[k - 1] == '>' || s[k - 1] == '+' || s[k - 1]
        == '~')
        invariant
            k <= s.len(),
            forall|j: int| k <= j < s.len() ==> !is_compound_separator(#[trigger] s@[j]),
        decreases k,
    {
        k -= 1;
    }
    proof {
        lemma_last_compound(s@, k as int);
    }
    let last = crate::parse::copy_range(&s, k, s.len());
    assert(s@.subrange(k as int, s.len() as int) =~= s@.skip(k as int));
    contains_chars(&last, &chars_of("::before")) || contains_chars(&last, &chars_of("::after"))
}


/// Position of the first `c` in `s`.
pub open spec fn index_of(s: Seq<char>, c: char) -> Option<int>
    decreases s.len(),
{
    if s.len() == 0 {
        None
    } else if s[0] == c {
        Some(0)
    } else {
        match index_of(s.drop_first(), c) {
            Some(k) => Some(k + 1),
            None => None,
        }
    }
}

proof fn lemma_index_of(s: Seq<char>, c: char, k: int)
    requires
        0 <= k <= s.len(),
        forall|j: int| 0 <= j < k ==> s[j] != c,
        k == s.len() || s[k] == c,
    ensures
        index_of(s, c) == if k == s.len() { None::<int> } else { Some(k) },
    decreases k,
{
    if k > 0 {
        let u = s.drop_first();
        assert forall|j: int| 0 <= j < k - 1 implies u[j] != c by {
            assert(u[j] == s[j + 1]);
        }
        if k < s.len() {
            assert(u[k - 1] == s[k]);
        }
        lemma_index_of(u, c, k - 1);
    }
}

/// A declaration `property:value` split at its first colon, both sides trimmed.
pub open spec fn declaration_parts(d: Seq<char>) -> Option<(Seq<char>, Seq<char>)> {
    match index_of(d, ':') {
        Some(k) => Some(
            (
                crate::scan::trim_class(d.take(k), crate::scan::CharClass::Space),
                crate::scan::trim_class(d.skip(k + 1), crate::scan::CharClass::Space),
            ),
        ),
        None => None,
    }
}

/// A declaration with a colon, and something on both sides of it.
pub open spec fn declaration_valid(d: Seq<char>) -> bool {
    match declaration_parts(d) {
        Some((p, v)) => p.len() > 0 && v.len() > 0,
        None => false,
    }
}

/// `mask-composite:exclude` -> `mask-composite: exclude;`. Under a
/// pseudo-element a `content` declaration goes to `--dw-content`, so it
/// composes with the generated default.
pub open spec fn spec_normalise_declaration(d: Seq<char>, pseudo_element: bool) -> Seq<char> {
    let (p, v) = declaration_parts(d).unwrap();
    let property = if pseudo_element && p == "content"@ {
        "--dw-content"@
    } else {
        p
    };
    property + ": "@ + v + ";"@
}

fn split_declaration(d: &String) -> (r: Option<(Vec<char>, Vec<char>)>)
    ensures
        match declaration_parts(d@) {
            Some((p, v)) => r matches Some((a, b)) && a@ == p && b@ == v,
            None => r is None,
        },
{
    let s = chars_of(d.as_str());
    let mut k: usize = 0;
    while k < s.len() && s[k] != ':'
        invariant
            k <= s.len(),
            s@ == d@,
            forall|j: int| 0 <= j < k ==> s@[j] != ':',
        decreases s.len() - k,
    {
        k += 1;
    }
    proof {
        lemma_index_of(s@, ':', k as int);
    }
    if k == s.len() {
        return None;
    }
    let left = crate::parse::copy_range(&s, 0, k);
    let right = crate::parse::copy_range(&s, k + 1, s.len());
    assert(s@.subrange(0, k as int) =~= s@.take(k as int));
    assert(s@.subrange(k + 1, s.len() as int) =~= s@.skip(k + 1));
    Some(
        (
            crate::scan::trim_chars(&left, crate::scan::CharClass::Space),
            crate::scan::trim_chars(&right, crate::scan::CharClass::Space),
        ),
    )
}

/// Whether `[d]` is a CSS declaration that can be written out.
pub fn is_valid_declaration(d: &String) -> (b: bool)
    ensures
        b == declaration_valid(d@),
{
    match split_declaration(d) {
        Some((p, v)) => p.len() > 0 && v.len() > 0,
        None => false,
    }
}

pub fn normalise_declaration(declaration: &String, pseudo_element: bool) -> (r: String)
    requires
        declaration_valid(declaration@),
    ensures
        r@ == spec_normalise_declaration(declaration@, pseudo_element),
{
    let (p, v) = match split_declaration(declaration) {
        Some(parts) => parts,
        None => {
            return String::new();
        },
    };
    let mut out: Vec<char> = if pseudo_element && str_eq(string_of(&p).as_str(), "content") {
        chars_of("--dw-content")
    } else {
        p
    };
    extend_chars(&mut out, &chars_of(": "));
    extend_chars(&mut out, &v);
    extend_chars(&mut out, &chars_of(";"));
    string_of(&out)
}

pub open spec fn is_ascii_alnum(c: char) -> bool {
    ('0' <= c <= '9') || ('A' <= c <= 'Z') || ('a' <= c <= 'z')
}

/// A readable, identifier-safe prefix for the class of an arbitrary
/// declaration: every other character `_`, outer `_`s trimmed, at most 40
/// characters, `arbitrary` if nothing is left.
pub open spec fn spec_declaration_prefix(d: Seq<char>) -> Seq<char> {
    let slug = d.map_values(|c: char| if is_ascii_alnum(c) { c } else { '_' });
    let t = crate::scan::trim_class(slug, crate::scan::CharClass::Underscore);
    let t = if t.len() > 40 { t.take(40) } else { t };
    if t.len() == 0 {
        "arbitrary"@
    } else {
        t
    }
}

pub fn declaration_prefix(declaration: &String) -> (r: String)
    ensures
        r@ == spec_declaration_prefix(declaration@),
{
    let s = chars_of(declaration.as_str());
    let ghost slug = declaration@.map_values(|c: char| if is_ascii_alnum(c) { c } else { '_' });
    let mut v: Vec<char> = Vec::new();
    let mut i: usize = 0;
    while i < s.len()
        invariant
            i <= s.len(),
            s@ == declaration@,
            slug == declaration@.map_values(|c: char| if is_ascii_alnum(c) { c } else { '_' }),
            v@ == slug.take(i as int),
        decreases s.len() - i,
    {
        let c = s[i];
        let alnum = ('0' <= c && c <= '9') || ('A' <= c && c <= 'Z') || ('a' <= c && c <= 'z');
        assert(alnum == is_ascii_alnum(c));
        assert(slug[i as int] == (if is_ascii_alnum(c) { c } else { '_' }));
        v.push(if alnum { c } else { '_' });
        assert(v@ =~= slug.take(i + 1));
        i += 1;
    }
    assert(slug.take(s.len() as int) =~= slug);
    let t = crate::scan::trim_chars(&v, crate::scan::CharClass::Underscore);
    let t = if t.len() > 40 {
        crate::parse::copy_range(&t, 0, 40)
    } else {
        t
    };
    proof {
        if t.len() == 40 {
            assert(t@ =~= crate::scan::trim_class(slug, crate::scan::CharClass::Underscore).take(40)
                || t@ == crate::scan::trim_class(slug, crate::scan::CharClass::Underscore));
        }
    }
    if t.len() == 0 {
        string_of(&chars_of("arbitrary"))
    } else {
        string_of(&t)
    }
}


/// What a class rule applies: a CSS literal, the declarations held by a
/// static, or a call of a user's generator macro.
#[derive(Debug, PartialEq, Eq)]
pub enum RawBody {
    /// `.raw("...")`
    Css(String),
    /// `.raw(&*IDENT)`
    Static(String),
    /// `.raw(name!(p1, p2, ..))`
    GeneratorCall(String, Vec<String>),
}

pub enum RawBodyView {
    Css(Seq<char>),
    Static(Seq<char>),
    GeneratorCall(Seq<char>, Seq<Seq<char>>),
}

impl View for RawBody {
    type V = RawBodyView;

    open spec fn view(&self) -> RawBodyView {
        match self {
            RawBody::Css(c) => RawBodyView::Css(c@),
            RawBody::Static(i) => RawBodyView::Static(i@),
            RawBody::GeneratorCall(n, ps) => RawBodyView::GeneratorCall(n@, views(ps@)),
        }
    }
}

/// The code that stands for one class of a `dwclass!` string.
#[derive(Debug, PartialEq, Eq)]
pub enum ClassTokens {
    /// `&*IDENT`: a utility class declared elsewhere.
    Reference(String),
    /// `dominator::class! { #![prefix = ..] .raw(..) }`
    Class { prefix: String, body: RawBody },
    /// `dominator::class! { #![prefix = ..] .pseudo!(selector, { [content] .raw(..) }) }`
    /// where `generated_content` adds the `content` declaration a
    /// `::before`/`::after` needs to render.
    PseudoClass { prefix: String, selector: String, generated_content: bool, body: RawBody },
}

pub enum ClassTokensView {
    Reference(Seq<char>),
    Class { prefix: Seq<char>, body: RawBodyView },
    PseudoClass {
        prefix: Seq<char>,
        selector: Seq<char>,
        generated_content: bool,
        body: RawBodyView,
    },
}

impl View for ClassTokens {
    type V = ClassTokensView;

    open spec fn view(&self) -> ClassTokensView {
        match self {
            ClassTokens::Reference(i) => ClassTokensView::Reference(i@),
            ClassTokens::Class { prefix, body } => ClassTokensView::Class {
                prefix: prefix@,
                body: body@,
            },
            ClassTokens::PseudoClass { prefix, selector, generated_content, body } =>
                ClassTokensView::PseudoClass {
                prefix: prefix@,
                selector: selector@,
                generated_content: *generated_content,
                body: body@,
            },
        }
    }
}

pub open spec fn has_selector(c: DwindClassSelectorView) -> bool {
    c.pseudo_classes.len() > 0 || c.variant is Some
}

/// A generator class: `name-[p1,p2]` calls the macro `name-generator!`.
pub open spec fn spec_render_generator(c: DwindClassSelectorView) -> ClassTokensView {
    let generator_name = unicode_lowercase(c.class_name + "generator"@);
    let generator_classname = c.class_name + concat(c.generator_params);
    let call = RawBodyView::GeneratorCall(generator_name, c.generator_params);
    if !has_selector(c) {
        ClassTokensView::Class { prefix: spec_sanitize_class_prefix(generator_name), body: call }
    } else {
        let selector = spec_build_pseudo_selector(c.variant, c.pseudo_classes);
        ClassTokensView::PseudoClass {
            prefix: spec_sanitize_class_prefix(generator_classname),
            selector,
            generated_content: spec_needs_generated_content(selector),
            body: call,
        }
    }
}

/// The code for one class, and whether it is a class minted on the spot
/// (as opposed to a reference to a utility declared elsewhere).
pub open spec fn spec_render_class(c: DwindClassSelectorView) -> (ClassTokensView, bool) {
    match c.arbitrary {
        Some(d) => {
            let prefix = spec_declaration_prefix(d);
            if !has_selector(c) {
                (
                    ClassTokensView::Class {
                        prefix,
                        body: RawBodyView::Css(spec_normalise_declaration(d, false)),
                    },
                    true,
                )
            } else {
                let selector = spec_build_pseudo_selector(c.variant, c.pseudo_classes);
                let content = spec_needs_generated_content(selector);
                (
                    ClassTokensView::PseudoClass {
                        prefix,
                        selector,
                        generated_content: content,
                        body: RawBodyView::Css(spec_normalise_declaration(d, content)),
                    },
                    true,
                )
            }
        },
        None => {
            if c.generator_params.len() > 0 {
                (spec_render_generator(c), true)
            } else if !has_selector(c) {
                (
                    ClassTokensView::Reference(
                        unicode_uppercase(spec_struct_identifier(c.class_name)),
                    ),
                    false,
                )
            } else {
                let selector = spec_build_pseudo_selector(c.variant, c.pseudo_classes);
                (
                    ClassTokensView::PseudoClass {
                        prefix: spec_sanitize_class_prefix(c.class_name),
                        selector,
                        generated_content: spec_needs_generated_content(selector),
                        body: RawBodyView::Static(spec_raw_identifier(c.class_name)),
                    },
                    true,
                )
            }
        },
    }
}

/// A class that can be rendered: its conditionals are readable, at most one
/// of them is a breakpoint, and an arbitrary declaration is a declaration.
pub open spec fn renderable(c: DwindClassSelector) -> bool {
    &&& c.conditionals_defined()
    &&& spec_breakpoints(views(c.conditionals@)).len() <= 1
    &&& (c.arbitrary matches Some(d) ==> declaration_valid(d@))
}

/// The breakpoint a renderable class is applied under.
pub open spec fn spec_class_breakpoint(c: DwindClassSelectorView) -> Option<BreakpointInfoView> {
    let bps = spec_breakpoints(c.conditionals);
    if bps.len() == 0 {
        None
    } else {
        Some(bps[0])
    }
}

pub open spec fn opt_info_view(o: Option<BreakpointInfo>) -> Option<BreakpointInfoView> {
    match o {
        Some(b) => Some(b@),
        None => None,
    }
}

pub fn is_renderable(c: &DwindClassSelector) -> (b: bool)
    ensures
        b == renderable(*c),
{
    if !c.conditionals_are_defined() {
        return false;
    }
    if c.breakpoints().len() > 1 {
        return false;
    }
    match &c.arbitrary {
        Some(d) => is_valid_declaration(d),
        None => true,
    }
}

fn clone_strings(v: &Vec<String>) -> (r: Vec<String>)
    ensures
        views(r@) == views(v@),
{
    let mut r: Vec<String> = Vec::new();
    let mut i: usize = 0;
    while i < v.len()
        invariant
            i <= v.len(),
            views(r@) == views(v@).take(i as int),
        decreases v.len() - i,
    {
        let ghost old_r = r@;
        let x = v[i].clone();
        assert(x@ == v@[i as int]@);
        r.push(x);
        assert(r@ == old_r.push(x));
        assert(views(r@) =~= views(old_r).push(x@));
        assert(views(v@).take(i + 1) =~= views(v@).take(i as int).push(v@[i as int]@));
        i += 1;
    }
    assert(views(v@).take(v.len() as int) =~= views(v@));
    r
}

fn concat_strings(v: &Vec<String>) -> (r: Vec<char>)
    ensures
        r@ == concat(views(v@)),
{
    let mut r: Vec<char> = Vec::new();
    let mut i: usize = 0;
    while i < v.len()
        invariant
            i <= v.len(),
            r@ == concat(views(v@).take(i as int)),
        decreases v.len() - i,
    {
        assert(views(v@).take(i + 1).drop_last() =~= views(v@).take(i as int));
        extend_chars(&mut r, &chars_of(v[i].as_str()));
        i += 1;
    }
    assert(views(v@).take(v.len() as int) =~= views(v@));
    r
}

/// The generator macro call of a generator class, and the lowercased macro name.
fn generator_call(class: &DwindClassSelector) -> (r: (String, RawBody))
    ensures
        r.0@ == unicode_lowercase(class.class_name@ + "generator"@),
        r.1@ == RawBodyView::GeneratorCall(r.0@, views(class.generator_params@)),
{
    let mut name = chars_of(class.class_name.as_str());
    extend_chars(&mut name, &chars_of("generator"));
    let generator_name = to_lowercase(string_of(&name).as_str());
    let call_name = generator_name.clone();
    (generator_name, RawBody::GeneratorCall(call_name, clone_strings(&class.generator_params)))
}

pub fn render_generator(class: DwindClassSelector) -> (r: ClassTokens)
    requires
        class.generator_params@.len() > 0,
    ensures
        r@ == spec_render_generator(class@),
{
    let (generator_name, call) = generator_call(&class);
    if class.pseudo_classes.len() == 0 && class.variant.is_none() {
        ClassTokens::Class { prefix: sanitize_class_prefix(&generator_name), body: call }
    } else {
        let mut classname = chars_of(class.class_name.as_str());
        extend_chars(&mut classname, &concat_strings(&class.generator_params));
        let selector = build_pseudo_selector(&class.variant, &class.pseudo_classes);
        let content = needs_generated_content(selector.as_str());
        ClassTokens::PseudoClass {
            prefix: sanitize_class_prefix(&string_of(&classname)),
            selector,
            generated_content: content,
            body: call,
        }
    }
}

pub fn render_dwind_class(class: DwindClassSelector) -> (r: (
    ClassTokens,
    Option<BreakpointInfo>,
    bool,
))
    requires
        renderable(class),
    ensures
        r.0@ == spec_render_class(class@).0,
        r.2 == spec_render_class(class@).1,
        opt_info_view(r.1) == spec_class_breakpoint(class@),
{
    let breakpoint = class.get_breakpoint();
    if let Some(declaration) = &class.arbitrary {
        let prefix = declaration_prefix(declaration);
        if class.pseudo_classes.len() == 0 && class.variant.is_none() {
            let css = normalise_declaration(declaration, false);
            return (ClassTokens::Class { prefix, body: RawBody::Css(css) }, breakpoint, true);
        } else {
            let selector = build_pseudo_selector(&class.variant, &class.pseudo_classes);
            let content = needs_generated_content(selector.as_str());
            let css = normalise_declaration(declaration, content);
            return (
                ClassTokens::PseudoClass {
                    prefix,
                    selector,
                    generated_content: content,
                    body: RawBody::Css(css),
                },
                breakpoint,
                true,
            );
        }
    }
    if class.is_generator() {
        return (render_generator(class), breakpoint, true);
    }
    if class.pseudo_classes.len() == 0 && class.variant.is_none() {
        let ident = class_name_to_struct_identifier(&class.class_name);
        (ClassTokens::Reference(to_uppercase(ident.as_str())), breakpoint, false)
    } else {
        let selector = build_pseudo_selector(&class.variant, &class.pseudo_classes);
        let content = needs_generated_content(selector.as_str());
        let raw_ident = class_name_to_raw_identifier(&class.class_name);
        let prefix = sanitize_class_prefix(&class.class_name);
        (
            ClassTokens::PseudoClass {
                prefix,
                selector,
                generated_content: content,
                body: RawBody::Static(raw_ident),
            },
            breakpoint,
            true,
        )
    }
}


pub open spec fn rendered_view(r: (ClassTokens, Option<BreakpointInfo>, bool)) -> (
    ClassTokensView,
    Option<BreakpointInfoView>,
    bool,
) {
    (r.0@, opt_info_view(r.1), r.2)
}

pub open spec fn spec_rendered(c: DwindClassSelectorView) -> (
    ClassTokensView,
    Option<BreakpointInfoView>,
    bool,
) {
    (spec_render_class(c).0, spec_class_breakpoint(c), spec_render_class(c).1)
}

/// Renders every class of a class string, in order.
pub fn render_classes(classes: Vec<DwindClassSelector>) -> (r: Vec<
    (ClassTokens, Option<BreakpointInfo>, bool),
>)
    requires
        forall|k: int| 0 <= k < classes@.len() ==> renderable(#[trigger] classes@[k]),
    ensures
        r@.len() == classes@.len(),
        forall|k: int|
            0 <= k < classes@.len() ==> rendered_view(#[trigger] r@[k]) == spec_rendered(
                classes@[k]@,
            ),
{
    let ghost all = classes@;
    let mut classes = classes;
    let mut r: Vec<(ClassTokens, Option<BreakpointInfo>, bool)> = Vec::new();
    let mut done: usize = 0;
    assert(all.len() == classes.len());
    while classes.len() > 0
        invariant
            all.len() <= usize::MAX,
            done + classes.len() == all.len(),
            classes@ == all.skip(done as int),
            forall|k: int| 0 <= k < all.len() ==> renderable(#[trigger] all[k]),
            r@.len() == done,
            forall|k: int| 0 <= k < done ==> rendered_view(#[trigger] r@[k]) == spec_rendered(all[k]@),
        decreases classes.len(),
    {
        let c = classes.remove(0);
        assert(all.skip(done as int)[0] == c);
        assert(classes@ =~= all.skip(done + 1));
        assert(renderable(all[done as int]));
        r.push(render_dwind_class(c));
        done += 1;
    }
    r
}

/// What `dwgenerate!` declares: a named class whose raw declarations are
/// those of another class definition.
#[derive(Debug, PartialEq, Eq)]
pub struct GeneratedClass {
    /// The static holding the class.
    pub ident: String,
    /// The static holding the raw declarations.
    pub raw_ident: String,
    /// What the raw static is set to.
    pub raw: RawBody,
    /// The class itself.
    pub class: ClassTokens,
}

pub struct GeneratedClassView {
    pub ident: Seq<char>,
    pub raw_ident: Seq<char>,
    pub raw: RawBodyView,
    pub class: ClassTokensView,
}

impl View for GeneratedClass {
    type V = GeneratedClassView;

    open spec fn view(&self) -> GeneratedClassView {
        GeneratedClassView {
            ident: self.ident@,
            raw_ident: self.raw_ident@,
            raw: self.raw@,
            class: self.class@,
        }
    }
}

pub open spec fn spec_generate_dwind_class(
    class_name: Seq<char>,
    c: DwindClassSelectorView,
) -> GeneratedClassView {
    GeneratedClassView {
        ident: spec_struct_identifier(class_name),
        raw_ident: spec_raw_identifier(class_name),
        raw: if c.generator_params.len() > 0 {
            RawBodyView::GeneratorCall(
                unicode_lowercase(c.class_name + "generator"@),
                c.generator_params,
            )
        } else {
            RawBodyView::Static(spec_raw_identifier(c.class_name))
        },
        class: spec_render_class(c).0,
    }
}

/// `dwgenerate!`: names a class definition. An arbitrary declaration has no
/// reusable class to alias, so it cannot be named.
pub fn render_generate_dwind_class(class_name: String, class: DwindClassSelector) -> (r:
    GeneratedClass)
    requires
        class.arbitrary is None,
        renderable(class),
    ensures
        r@ == spec_generate_dwind_class(class_name@, class@),
{
    let ident = class_name_to_struct_identifier(&class_name);
    let raw_ident = class_name_to_raw_identifier(&class_name);
    let raw = if class.is_generator() {
        generator_call(&class).1
    } else {
        RawBody::Static(class_name_to_raw_identifier(&class.class_name))
    };
    let rendered = render_dwind_class(class).0;
    GeneratedClass { ident, raw_ident, raw, class: rendered }
}

} // verus!
