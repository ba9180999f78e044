use vstd::prelude::*;
use crate::text::{chars_of, string_of};
use crate::parse::views;
use crate::scan::CharClass;
use crate::grammar::{DwindClassSelector, opt_view};

verus! {

/// A responsive breakpoint, or a literal media query.
#[derive(Clone, Debug, PartialEq, Eq)]
pub enum Breakpoint {
    VerySmall,
    Small,
    Medium,
    Large,
    VeryLarge,
    MediaQuery(String),
}

pub enum BreakpointView {
    VerySmall,
    Small,
    Medium,
    Large,
    VeryLarge,
    MediaQuery(Seq<char>),
}

impl View for Breakpoint {
    type V = BreakpointView;

    open spec fn view(&self) -> BreakpointView {
        match self {
            Breakpoint::VerySmall => BreakpointView::VerySmall,
            Breakpoint::Small => BreakpointView::Small,
            Breakpoint::Medium => BreakpointView::Medium,
            Breakpoint::Large => BreakpointView::Large,
            Breakpoint::VeryLarge => BreakpointView::VeryLarge,
            Breakpoint::MediaQuery(q) => BreakpointView::MediaQuery(q@),
        }
    }
}

/// The breakpoint a `@name` conditional stands for.
pub open spec fn named_breakpoint(v: Seq<char>) -> Option<BreakpointView> {
    if v.len() == 3 && v[0] == '@' {
        if v[1] == 'x' && v[2] == 's' {
            Some(BreakpointView::VerySmall)
        } else if v[1] == 's' && v[2] == 'm' {
            Some(BreakpointView::Small)
        } else if v[1] == 'm' && v[2] == 'd' {
            Some(BreakpointView::Medium)
        } else if v[1] == 'l' && v[2] == 'g' {
            Some(BreakpointView::Large)
        } else if v[1] == 'x' && v[2] == 'l' {
            Some(BreakpointView::VeryLarge)
        } else {
            None
        }
    } else {
        None
    }
}

impl Breakpoint {
    /// `@xs`, `@sm`, `@md`, `@lg` and `@xl`; anything else is not a breakpoint.
    pub fn try_from_str(value: &str) -> (r: Option<Breakpoint>)
        ensures
            match named_breakpoint(value@) {
                Some(b) => r matches Some(c) && c@ == b,
                None => r is None,
            },
    {
        let v = chars_of(value);
        if v.len() == 3 && v[0] == '@' {
            if v[1] == 'x' && v[2] == 's' {
                Some(Breakpoint::VerySmall)
            } else if v[1] == 's' && v[2] == 'm' {
                Some(Breakpoint::Small)
            } else if v[1] == 'm' && v[2] == 'd' {
                Some(Breakpoint::Medium)
            } else if v[1] == 'l' && v[2] == 'g' {
                Some(Breakpoint::Large)
            } else if v[1] == 'x' && v[2] == 'l' {
                Some(Breakpoint::VeryLarge)
            } else {
                None
            }
        } else {
            None
        }
    }
}


/// A breakpoint condition of a class, and how to apply it.
#[derive(Clone, Debug, PartialEq, Eq)]
pub struct BreakpointInfo {
    pub breakpoint: Breakpoint,
    /// `Some("<")` for a `@<name` condition: below the breakpoint.
    pub modifier: Option<String>,
    pub is_media_query: bool,
}

pub struct BreakpointInfoView {
    pub breakpoint: BreakpointView,
    pub modifier: Option<Seq<char>>,
    pub is_media_query: bool,
}

impl View for BreakpointInfo {
    type V = BreakpointInfoView;

    open spec fn view(&self) -> BreakpointInfoView {
        BreakpointInfoView {
            breakpoint: self.breakpoint@,
            modifier: opt_view(self.modifier),
            is_media_query: self.is_media_query,
        }
    }
}

/// `s` without leading and trailing whitespace, as `str::trim` gives it.
pub open spec fn trimmed(s: Seq<char>) -> Seq<char> {
    crate::scan::trim_class(s, CharClass::Space)
}

/// Bytes that a character takes in UTF-8.
pub open spec fn utf8_len(c: char) -> nat {
    let u = c as u32;
    if u < 0x80 {
        1
    } else if u < 0x800 {
        2
    } else if u < 0x10000 {
        3
    } else {
        4
    }
}

/// A conditional whose trimmed text reads `@( .. )`: a literal media query.
pub open spec fn is_media_query(v: Seq<char>) -> bool {
    let t = trimmed(v);
    t.len() >= 3 && t[0] == '@' && t[1] == '(' && t.last() == ')'
}

/// The character at which the query text starts: after the first two bytes.
pub open spec fn query_start(v: Seq<char>) -> int {
    if utf8_len(v[0]) == 2 {
        1
    } else {
        2
    }
}

/// The query text is cut out between byte 2 and the last byte; both must fall
/// on character boundaries.
pub open spec fn query_cut_ok(v: Seq<char>) -> bool {
    &&& v.len() >= 3
    &&& (utf8_len(v[0]) == 2 || (utf8_len(v[0]) == 1 && utf8_len(v[1]) == 1))
    &&& utf8_len(v.last()) == 1
}

pub open spec fn starts_below(v: Seq<char>) -> bool {
    v.len() >= 2 && v[0] == '@' && v[1] == '<'
}

/// A conditional whose breakpoint can be read.
pub open spec fn breakpoint_defined(v: Seq<char>) -> bool {
    !starts_below(v) && is_media_query(v) ==> query_cut_ok(v)
}

/// The breakpoint a conditional stands for, if any.
pub open spec fn breakpoint_of(v: Seq<char>) -> Option<BreakpointInfoView> {
    if starts_below(v) {
        match named_breakpoint(v.remove(1)) {
            Some(b) => Some(
                BreakpointInfoView { breakpoint: b, modifier: Some(seq!['<']), is_media_query: false },
            ),
            None => None,
        }
    } else if is_media_query(v) {
        Some(
            BreakpointInfoView {
                breakpoint: BreakpointView::MediaQuery(v.subrange(query_start(v), v.len() - 1)),
                modifier: None,
                is_media_query: true,
            },
        )
    } else {
        match named_breakpoint(v) {
            Some(b) => Some(BreakpointInfoView { breakpoint: b, modifier: None, is_media_query: false }),
            None => None,
        }
    }
}

/// The breakpoints among some conditionals, in order.
pub open spec fn spec_breakpoints(conds: Seq<Seq<char>>) -> Seq<BreakpointInfoView>
    decreases conds.len(),
{
    if conds.len() == 0 {
        Seq::empty()
    } else {
        let r = spec_breakpoints(conds.drop_last());
        match breakpoint_of(conds.last()) {
            Some(b) => r.push(b),
            None => r,
        }
    }
}

fn utf8_len_exec(c: char) -> (n: usize)
    ensures
        n == utf8_len(c),
{
    let u = c as u32;
    if u < 0x80 {
        1
    } else if u < 0x800 {
        2
    } else if u < 0x10000 {
        3
    } else {
        4
    }
}

fn is_media_query_exec(v: &Vec<char>) -> (b: bool)
    ensures
        b == is_media_query(v@),
{
    let t = crate::scan::trim_chars(v, CharClass::Space);
    t.len() >= 3 && t[0] == '@' && t[1] == '(' && t[t.len() - 1] == ')'
}

/// Whether the breakpoint of a conditional can be read.
pub fn breakpoint_defined_exec(c: &String) -> (b: bool)
    ensures
        b == breakpoint_defined(c@),
{
    let v = chars_of(c.as_str());
    let below = v.len() >= 2 && v[0] == '@' && v[1] == '<';
    if below || !is_media_query_exec(&v) {
        true
    } else {
        v.len() >= 3 && (utf8_len_exec(v[0]) == 2 || (utf8_len_exec(v[0]) == 1 && utf8_len_exec(v[1])
            == 1)) && utf8_len_exec(v[v.len() - 1]) == 1
    }
}

fn breakpoint_of_exec(c: &String) -> (r: Option<BreakpointInfo>)
    requires
        breakpoint_defined(c@),
    ensures
        match breakpoint_of(c@) {
            Some(b) => r matches Some(i) && i@ == b,
            None => r is None,
        },
{
    let v = chars_of(c.as_str());
    if v.len() >= 2 && v[0] == '@' && v[1] == '<' {
        let mut w = v;
        let ghost old_w = w@;
        w.remove(1);
        assert(w@ =~= old_w.remove(1));
        let name = string_of(&w);
        match Breakpoint::try_from_str(name.as_str()) {
            Some(b) => {
                let mut m: Vec<char> = Vec::new();
                m.push('<');
                assert(m@ =~= seq!['<']);
                Some(BreakpointInfo { breakpoint: b, modifier: Some(string_of(&m)), is_media_query: false })
            },
            None => None,
        }
    } else if is_media_query_exec(&v) {
        let start: usize = if utf8_len_exec(v[0]) == 2 { 1 } else { 2 };
        let q = crate::parse::copy_range(&v, start, v.len() - 1);
        Some(
            BreakpointInfo {
                breakpoint: Breakpoint::MediaQuery(string_of(&q)),
                modifier: None,
                is_media_query: true,
            },
        )
    } else {
        match Breakpoint::try_from_str(c.as_str()) {
            Some(b) => Some(BreakpointInfo { breakpoint: b, modifier: None, is_media_query: false }),
            None => None,
        }
    }
}

pub open spec fn info_views(v: Seq<BreakpointInfo>) -> Seq<BreakpointInfoView> {
    v.map_values(|b: BreakpointInfo| b@)
}

impl DwindClassSelector {
    /// Every conditional of this class has a readable breakpoint (a literal
    /// media query must be cut out on character boundaries).
    pub open spec fn conditionals_defined(&self) -> bool {
        forall|k: int|
            0 <= k < self.conditionals@.len() ==> #[trigger] breakpoint_defined(
                self.conditionals@[k]@,
            )
    }

    pub fn conditionals_are_defined(&self) -> (b: bool)
        ensures
            b == self.conditionals_defined(),
    {
        let mut i: usize = 0;
        while i < self.conditionals.len()
            invariant
                i <= self.conditionals.len(),
                forall|k: int| 0 <= k < i ==> #[trigger] breakpoint_defined(self.conditionals@[k]@),
            decreases self.conditionals.len() - i,
        {
            if !breakpoint_defined_exec(&self.conditionals[i]) {
                return false;
            }
            i += 1;
        }
        true
    }

    /// The breakpoints among this class's conditionals, in order.
    pub fn breakpoints(&self) -> (r: Vec<BreakpointInfo>)
        requires
            self.conditionals_defined(),
        ensures
            info_views(r@) == spec_breakpoints(views(self.conditionals@)),
    {
        let mut r: Vec<BreakpointInfo> = Vec::new();
        let mut i: usize = 0;
        while i < self.conditionals.len()
            invariant
                i <= self.conditionals.len(),
                self.conditionals_defined(),
                info_views(r@) == spec_breakpoints(views(self.conditionals@).take(i as int)),
            decreases self.conditionals.len() - i,
        {
            let ghost before = views(self.conditionals@).take(i as int);
            let ghost after = views(self.conditionals@).take(i + 1);
            assert(after.drop_last() =~= before);
            assert(after.last() == self.conditionals@[i as int]@);
            assert(breakpoint_defined(self.conditionals@[i as int]@));
            match breakpoint_of_exec(&self.conditionals[i]) {
                Some(b) => {
                    let ghost old_r = r@;
                    r.push(b);
                    assert(info_views(r@) =~= info_views(old_r).push(b@));
                },
                None => {},
            }
            i += 1;
        }
        assert(views(self.conditionals@).take(self.conditionals.len() as int) =~= views(
            self.conditionals@,
        ));
        r
    }

    /// The single breakpoint of this class, if it has one.
    pub fn get_breakpoint(&self) -> (r: Option<BreakpointInfo>)
        requires
            self.conditionals_defined(),
            spec_breakpoints(views(self.conditionals@)).len() <= 1,
        ensures
            spec_breakpoints(views(self.conditionals@)).len() == 0 ==> r is None,
            spec_breakpoints(views(self.conditionals@)).len() == 1 ==> (r matches Some(b) && b@
                == spec_breakpoints(views(self.conditionals@))[0]),
    {
        let mut bps = self.breakpoints();
        if bps.len() == 0 {
            None
        } else {
            let ghost all = bps@;
            let b = bps.remove(0);
            assert(b@ == info_views(all)[0]);
            Some(b)
        }
    }
}

} // verus!
