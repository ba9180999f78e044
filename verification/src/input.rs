use vstd::prelude::*;
use crate::text::{chars_of, contains_chars, contains_text, str_eq};
use crate::string_rendering::{to_lowercase, unicode_lowercase};

verus! {

/// One choice of a select, radio group or combobox.
#[derive(Debug, PartialEq)]
pub struct GlassSelectOption {
    pub label: String,
    pub value: String,
}

impl Clone for GlassSelectOption {
    fn clone(&self) -> (r: Self)
        ensures
            r@ == self@,
    {
        GlassSelectOption { label: self.label.clone(), value: self.value.clone() }
    }
}

impl View for GlassSelectOption {
    type V = (Seq<char>, Seq<char>);

    /// `(label, value)`
    open spec fn view(&self) -> (Seq<char>, Seq<char>) {
        (self.label@, self.value@)
    }
}

pub open spec fn option_views(v: Seq<GlassSelectOption>) -> Seq<(Seq<char>, Seq<char>)> {
    v.map_values(|o: GlassSelectOption| o@)
}

/// The label of the first option whose value is `value`.
pub open spec fn spec_label_of(options: Seq<(Seq<char>, Seq<char>)>, value: Seq<char>) -> Option<
    Seq<char>,
>
    decreases options.len(),
{
    if options.len() == 0 {
        None
    } else if options[0].1 == value {
        Some(options[0].0)
    } else {
        spec_label_of(options.drop_first(), value)
    }
}

/// The label of the first option whose value is `value`.
pub fn label_of(options: &Vec<GlassSelectOption>, value: &str) -> (r: Option<String>)
    ensures
        match spec_label_of(option_views(options@), value@) {
            Some(l) => r matches Some(s) && s@ == l,
            None => r is None,
        },
{
    let ghost all = option_views(options@);
    assert(all.skip(0) =~= all);
    let mut i: usize = 0;
    while i < options.len()
        invariant
            i <= options.len(),
            all == option_views(options@),
            spec_label_of(all, value@) == spec_label_of(all.skip(i as int), value@),
        decreases options.len() - i,
    {
        let ghost rest = all.skip(i as int);
        assert(rest[0] == options@[i as int]@);
        assert(rest.drop_first() =~= all.skip(i + 1));
        if str_eq(options[i].value.as_str(), value) {
            return Some(options[i].label.clone());
        }
        i += 1;
    }
    assert(all.skip(i as int) =~= Seq::<(Seq<char>, Seq<char>)>::empty());
    None
}

/// What a combobox shows for the selected value: its option's label, or
/// nothing when no option (or no value) is selected.
pub open spec fn spec_combobox_display(
    options: Seq<(Seq<char>, Seq<char>)>,
    selected: Option<Seq<char>>,
) -> Seq<char> {
    match selected {
        Some(v) => match spec_label_of(options, v) {
            Some(l) => l,
            None => Seq::empty(),
        },
        None => Seq::empty(),
    }
}

pub fn combobox_display(options: &Vec<GlassSelectOption>, selected: &Option<String>) -> (r: String)
    ensures
        r@ == spec_combobox_display(option_views(options@), crate::grammar::opt_view(*selected)),
{
    match selected {
        Some(v) => match label_of(options, v.as_str()) {
            Some(l) => l,
            None => String::new(),
        },
        None => String::new(),
    }
}

/// What a select shows: the selected option's label, the raw value when no
/// option has it, or the placeholder when nothing is selected.
pub open spec fn spec_select_display(
    options: Seq<(Seq<char>, Seq<char>)>,
    selected: Option<Seq<char>>,
    placeholder: Seq<char>,
) -> Seq<char> {
    match selected {
        Some(v) => match spec_label_of(options, v) {
            Some(l) => l,
            None => v,
        },
        None => placeholder,
    }
}

pub fn select_display(
    options: &Vec<GlassSelectOption>,
    selected: &Option<String>,
    placeholder: &String,
) -> (r: String)
    ensures
        r@ == spec_select_display(
            option_views(options@),
            crate::grammar::opt_view(*selected),
            placeholder@,
        ),
{
    match selected {
        Some(v) => match label_of(options, v.as_str()) {
            Some(l) => l,
            None => v.clone(),
        },
        None => placeholder.clone(),
    }
}

/// The options a combobox lists for a search: all of them for an empty
/// search, else those whose lowercased label contains the lowercased search.
pub open spec fn spec_filter_options(
    options: Seq<(Seq<char>, Seq<char>)>,
    query: Seq<char>,
) -> Seq<(Seq<char>, Seq<char>)>
    decreases options.len(),
{
    if unicode_lowercase(query).len() == 0 {
        options
    } else if options.len() == 0 {
        Seq::empty()
    } else {
        let r = spec_filter_options(options.drop_last(), query);
        if contains_text(unicode_lowercase(options.last().0), unicode_lowercase(query)) {
            r.push(options.last())
        } else {
            r
        }
    }
}

pub fn filter_options(options: &Vec<GlassSelectOption>, query: &str) -> (r: Vec<GlassSelectOption>)
    ensures
        option_views(r@) == spec_filter_options(option_views(options@), query@),
{
    let q = to_lowercase(query);
    let qv = chars_of(q.as_str());
    let mut r: Vec<GlassSelectOption> = Vec::new();
    let mut i: usize = 0;
    while i < options.len()
        invariant
            i <= options.len(),
            qv@ == unicode_lowercase(query@),
            option_views(r@) == if qv@.len() == 0 {
                option_views(options@).take(i as int)
            } else {
                spec_filter_options(option_views(options@).take(i as int), query@)
            },
        decreases options.len() - i,
    {
        let ghost before = option_views(options@).take(i as int);
        let ghost after = option_views(options@).take(i + 1);
        assert(after.drop_last() =~= before);
        assert(after.last() == options@[i as int]@);
        let keep = if qv.len() == 0 {
            true
        } else {
            let label = to_lowercase(options[i].label.as_str());
            contains_chars(&chars_of(label.as_str()), &qv)
        };
        if keep {
            let ghost old_r = r@;
            let o = options[i].clone();
            r.push(o);
            assert(option_views(r@) =~= option_views(old_r).push(options@[i as int]@));
        }
        proof {
            if qv@.len() == 0 {
                assert(option_views(r@) =~= after);
            }
        }
        i += 1;
    }
    assert(option_views(options@).take(options.len() as int) =~= option_views(options@));
    r
}

} // verus!
