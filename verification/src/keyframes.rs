use vstd::prelude::*;
use crate::text::{chars_of, string_of, extend_chars, join};
use crate::grammar::opt_view;
use crate::string_rendering::{
    unicode_uppercase, to_uppercase, replace_char, replace_chars, spec_struct_identifier,
    class_name_to_struct_identifier,
};

verus! {

/// The frames of one `@keyframes` rule.
#[derive(Debug, PartialEq, Eq)]
pub enum KeyframesBody {
    /// `name { "from" => "…", "to" => "…" }`: `(selector, declarations)` stops.
    Stops(Vec<(String, String)>),
    /// `name = "from { … } to { … }";` — verbatim, for pasting existing CSS.
    Raw(String),
}

/// One declared `@keyframes` rule.
#[derive(Debug, PartialEq, Eq)]
pub struct KeyframesEntry {
    /// `#[name = "spin"]` — pins the exact CSS name, skipping the prefix.
    pub name_override: Option<String>,
    /// `#[animation("1s linear infinite")]` — also mint an `animate-<name>`
    /// utility class with this shorthand.
    pub animation: Option<String>,
    /// The Rust identifier the rule is declared under.
    pub ident: String,
    pub body: KeyframesBody,
}

/// The CSS name of a rule.
#[derive(Debug, PartialEq, Eq)]
pub enum KeyframesName {
    /// A fixed name.
    Literal(String),
    /// The consuming crate's name followed by this suffix.
    CrateScoped(String),
}

/// The utility class minted for `#[animation(..)]`.
#[derive(Debug, PartialEq, Eq)]
pub struct AnimationUtility {
    /// `animate-<name>`
    pub class_name: String,
    /// The static holding the class.
    pub class_ident: String,
    /// The static holding the `animation` declaration.
    pub raw_ident: String,
    /// The class prefix.
    pub class_prefix: String,
    /// ` <shorthand>;`, what follows the name in the declaration.
    pub shorthand: String,
}

/// What is declared for one rule.
#[derive(Debug, PartialEq, Eq)]
pub struct RenderedKeyframes {
    /// `<IDENT>_KEYFRAMES`: the handle that injects the rule.
    pub handle: String,
    /// `<handle>_NAME`
    pub name_ident: String,
    /// `<handle>_BODY`
    pub body_ident: String,
    pub name: KeyframesName,
    /// The rule's body as one string.
    pub body: String,
    pub animation: Option<AnimationUtility>,
}

pub open spec fn stop_text(stop: (Seq<char>, Seq<char>)) -> Seq<char> {
    stop.0 + " { "@ + stop.1 + " }"@
}

/// The `@keyframes` body: a raw body verbatim, else every stop as
/// `selector { declarations }`, separated by single spaces.
pub open spec fn spec_body_literal(body: KeyframesBody) -> Seq<char> {
    match body {
        KeyframesBody::Raw(raw) => raw@,
        KeyframesBody::Stops(stops) => join(
            stops@.map_values(|s: (String, String)| stop_text((s.0@, s.1@))),
            seq![' '],
        ),
    }
}

pub fn body_literal(entry: &KeyframesEntry) -> (r: String)
    ensures
        r@ == spec_body_literal(entry.body),
{
    match &entry.body {
        KeyframesBody::Raw(raw) => raw.clone(),
        KeyframesBody::Stops(stops) => {
            let ghost parts = stops@.map_values(|s: (String, String)| stop_text((s.0@, s.1@)));
            let mut out: Vec<char> = Vec::new();
            let mut i: usize = 0;
            while i < stops.len()
                invariant
                    i <= stops.len(),
                    parts == stops@.map_values(|s: (String, String)| stop_text((s.0@, s.1@))),
                    out@ == join(parts.take(i as int), seq![' ']),
                decreases stops.len() - i,
            {
                let ghost before = out@;
                assert(parts.take(i + 1).drop_last() =~= parts.take(i as int));
                if i > 0 {
                    out.push(' ');
                }
                let (sel, decl) = (&stops[i].0, &stops[i].1);
                extend_chars(&mut out, &chars_of(sel.as_str()));
                extend_chars(&mut out, &chars_of(" { "));
                extend_chars(&mut out, &chars_of(decl.as_str()));
                extend_chars(&mut out, &chars_of(" }"));
                proof {
                    assert(parts[i as int] == stop_text((stops@[i as int].0@, stops@[i as int].1@)));
                    if i == 0 {
                        assert(join(parts.take(1), seq![' ']) == parts.take(1)[0]);
                    }
                    assert(out@ =~= join(parts.take(i + 1), seq![' ']));
                }
                i += 1;
            }
            assert(parts.take(stops.len() as int) =~= parts);
            string_of(&out)
        },
    }
}

/// `fade_up` -> `fade-up`, the CSS-facing spelling.
pub open spec fn spec_kebab(ident: Seq<char>) -> Seq<char> {
    replace_char(ident, '_', seq!['-'])
}

pub fn kebab(ident: &String) -> (r: String)
    ensures
        r@ == spec_kebab(ident@),
{
    proof {
        reveal_strlit("-");
        assert("-"@ =~= seq!['-']);
    }
    replace_chars(ident, '_', "-")
}

/// `fade_up` -> `FADE_UP_KEYFRAMES`
pub open spec fn spec_handle_ident(ident: Seq<char>) -> Seq<char> {
    unicode_uppercase(ident) + "_KEYFRAMES"@
}

pub fn handle_ident(entry: &KeyframesEntry) -> (r: String)
    ensures
        r@ == spec_handle_ident(entry.ident@),
{
    let up = to_uppercase(entry.ident.as_str());
    let mut v = chars_of(up.as_str());
    extend_chars(&mut v, &chars_of("_KEYFRAMES"));
    string_of(&v)
}

pub enum KeyframesNameView {
    Literal(Seq<char>),
    CrateScoped(Seq<char>),
}

/// The CSS name: a pinned name as written; else the prefix, `-` and the
/// kebab-cased identifier; without a prefix, the consuming crate's name
/// followed by `-` and the kebab-cased identifier.
pub open spec fn spec_keyframes_name(
    name_override: Option<Seq<char>>,
    prefix: Option<Seq<char>>,
    ident: Seq<char>,
) -> KeyframesNameView {
    match (name_override, prefix) {
        (Some(exact), _) => KeyframesNameView::Literal(exact),
        (None, Some(p)) => KeyframesNameView::Literal(p + seq!['-'] + spec_kebab(ident)),
        (None, None) => KeyframesNameView::CrateScoped(seq!['-'] + spec_kebab(ident)),
    }
}

impl View for KeyframesName {
    type V = KeyframesNameView;

    open spec fn view(&self) -> KeyframesNameView {
        match self {
            KeyframesName::Literal(s) => KeyframesNameView::Literal(s@),
            KeyframesName::CrateScoped(s) => KeyframesNameView::CrateScoped(s@),
        }
    }
}

pub struct AnimationUtilityView {
    pub class_name: Seq<char>,
    pub class_ident: Seq<char>,
    pub raw_ident: Seq<char>,
    pub class_prefix: Seq<char>,
    pub shorthand: Seq<char>,
}

impl View for AnimationUtility {
    type V = AnimationUtilityView;

    open spec fn view(&self) -> AnimationUtilityView {
        AnimationUtilityView {
            class_name: self.class_name@,
            class_ident: self.class_ident@,
            raw_ident: self.raw_ident@,
            class_prefix: self.class_prefix@,
            shorthand: self.shorthand@,
        }
    }
}

/// The `animate-<name>` utility of a rule with an animation shorthand.
pub open spec fn spec_animation_utility(ident: Seq<char>, shorthand: Seq<char>) -> AnimationUtilityView {
    let class_name = "animate-"@ + spec_kebab(ident);
    let class_ident = spec_struct_identifier(class_name);
    AnimationUtilityView {
        class_name,
        class_ident,
        raw_ident: class_ident + "_RAW"@,
        class_prefix: replace_char(class_name, '-', seq!['_']),
        shorthand: seq![' '] + shorthand + seq![';'],
    }
}

pub struct RenderedKeyframesView {
    pub handle: Seq<char>,
    pub name_ident: Seq<char>,
    pub body_ident: Seq<char>,
    pub name: KeyframesNameView,
    pub body: Seq<char>,
    pub animation: Option<AnimationUtilityView>,
}

impl View for RenderedKeyframes {
    type V = RenderedKeyframesView;

    open spec fn view(&self) -> RenderedKeyframesView {
        RenderedKeyframesView {
            handle: self.handle@,
            name_ident: self.name_ident@,
            body_ident: self.body_ident@,
            name: self.name@,
            body: self.body@,
            animation: match self.animation {
                Some(a) => Some(a@),
                None => None,
            },
        }
    }
}

pub open spec fn spec_render_entry(entry: KeyframesEntry, prefix: Option<Seq<char>>) -> RenderedKeyframesView {
    let handle = spec_handle_ident(entry.ident@);
    RenderedKeyframesView {
        handle,
        name_ident: handle + "_NAME"@,
        body_ident: handle + "_BODY"@,
        name: spec_keyframes_name(opt_view(entry.name_override), prefix, entry.ident@),
        body: spec_body_literal(entry.body),
        animation: match entry.animation {
            Some(s) => Some(spec_animation_utility(entry.ident@, s@)),
            None => None,
        },
    }
}

fn with_suffix(base: &String, suffix: &str) -> (r: String)
    ensures
        r@ == base@ + suffix@,
{
    let mut v = chars_of(base.as_str());
    extend_chars(&mut v, &chars_of(suffix));
    string_of(&v)
}

/// Everything declared for one keyframes rule.
pub fn render_entry(entry: &KeyframesEntry, prefix: Option<&str>) -> (r: RenderedKeyframes)
    ensures
        r@ == spec_render_entry(
            *entry,
            match prefix {
                Some(p) => Some(p@),
                None => None,
            },
        ),
{
    let handle = handle_ident(entry);
    let name_ident = with_suffix(&handle, "_NAME");
    let body_ident = with_suffix(&handle, "_BODY");
    let kebab_ident = kebab(&entry.ident);
    let name = match (&entry.name_override, prefix) {
        (Some(exact), _) => KeyframesName::Literal(exact.clone()),
        (None, Some(p)) => {
            let mut v = chars_of(p);
            v.push('-');
            extend_chars(&mut v, &chars_of(kebab_ident.as_str()));
            assert(v@ =~= p@ + seq!['-'] + spec_kebab(entry.ident@));
            KeyframesName::Literal(string_of(&v))
        },
        (None, None) => {
            let mut v: Vec<char> = Vec::new();
            v.push('-');
            extend_chars(&mut v, &chars_of(kebab_ident.as_str()));
            assert(v@ =~= seq!['-'] + spec_kebab(entry.ident@));
            KeyframesName::CrateScoped(string_of(&v))
        },
    };
    let body = body_literal(entry);
    let animation = match &entry.animation {
        Some(shorthand) => {
            let mut cn = chars_of("animate-");
            extend_chars(&mut cn, &chars_of(kebab_ident.as_str()));
            let class_name = string_of(&cn);
            let class_ident = class_name_to_struct_identifier(&class_name);
            let raw_ident = with_suffix(&class_ident, "_RAW");
            proof {
                reveal_strlit("_");
                assert("_"@ =~= seq!['_']);
            }
            let class_prefix = replace_chars(&class_name, '-', "_");
            let mut sh: Vec<char> = Vec::new();
            sh.push(' ');
            extend_chars(&mut sh, &chars_of(shorthand.as_str()));
            sh.push(';');
            assert(sh@ =~= seq![' '] + shorthand@ + seq![';']);
            Some(
                AnimationUtility {
                    class_name,
                    class_ident,
                    raw_ident,
                    class_prefix,
                    shorthand: string_of(&sh),
                },
            )
        },
        None => None,
    };
    RenderedKeyframes { handle, name_ident, body_ident, name, body, animation }
}

/// Renders every rule of a `dwkeyframes!` block, and the handles that a
/// register function ensures, in declaration order.
pub fn render_entries(entries: &Vec<KeyframesEntry>, prefix: Option<&str>) -> (r: Vec<RenderedKeyframes>)
    ensures
        r@.len() == entries@.len(),
        forall|k: int|
            0 <= k < entries@.len() ==> (#[trigger] r@[k])@ == spec_render_entry(
                entries@[k],
                match prefix {
                    Some(p) => Some(p@),
                    None => None,
                },
            ),
{
    let mut r: Vec<RenderedKeyframes> = Vec::new();
    let mut i: usize = 0;
    while i < entries.len()
        invariant
            i <= entries.len(),
            r@.len() == i,
            forall|k: int|
                0 <= k < i ==> (#[trigger] r@[k])@ == spec_render_entry(
                    entries@[k],
                    match prefix {
                        Some(p) => Some(p@),
                        None => None,
                    },
                ),
        decreases entries.len() - i,
    {
        r.push(render_entry(&entries[i], prefix));
        i += 1;
    }
    r
}

/// An inner option of a `dwkeyframes!` block: `#![prefix = ..]`,
/// `#![register_fn = ..]` or `#![path = ..]`.
#[derive(Copy, Clone, Debug, PartialEq, Eq, Structural)]
pub enum KeyframesOption {
    Prefix,
    RegisterFn,
    Path,
}

/// The option an inner attribute name stands for; any other name is refused
/// ("unknown dwkeyframes! option").
pub fn keyframes_option(name: &str) -> (r: Option<KeyframesOption>)
    ensures
        r == (if name@ == "prefix"@ {
            Some(KeyframesOption::Prefix)
        } else if name@ == "register_fn"@ {
            Some(KeyframesOption::RegisterFn)
        } else if name@ == "path"@ {
            Some(KeyframesOption::Path)
        } else {
            None
        }),
{
    if crate::text::str_eq(name, "prefix") {
        Some(KeyframesOption::Prefix)
    } else if crate::text::str_eq(name, "register_fn") {
        Some(KeyframesOption::RegisterFn)
    } else if crate::text::str_eq(name, "path") {
        Some(KeyframesOption::Path)
    } else {
        None
    }
}

/// An attribute on one rule: a doc comment, `#[name = ..]` or
/// `#[animation(..)]`.
#[derive(Copy, Clone, Debug, PartialEq, Eq, Structural)]
pub enum EntryAttribute {
    Doc,
    Name,
    Animation,
}

/// The attribute a rule's attribute name stands for; any other name is
/// refused ("unknown keyframes attribute").
pub fn entry_attribute(name: &str) -> (r: Option<EntryAttribute>)
    ensures
        r == (if name@ == "doc"@ {
            Some(EntryAttribute::Doc)
        } else if name@ == "name"@ {
            Some(EntryAttribute::Name)
        } else if name@ == "animation"@ {
            Some(EntryAttribute::Animation)
        } else {
            None
        }),
{
    if crate::text::str_eq(name, "doc") {
        Some(EntryAttribute::Doc)
    } else if crate::text::str_eq(name, "name") {
        Some(EntryAttribute::Name)
    } else if crate::text::str_eq(name, "animation") {
        Some(EntryAttribute::Animation)
    } else {
        None
    }
}

} // verus!
