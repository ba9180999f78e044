use vstd::prelude::*;
use crate::text::{chars_of, string_of, extend_chars, owned};
use crate::parse::views;

verus! {

/// Color palette for chart series, mapping color indices to CSS color strings.
#[derive(Debug)]
pub struct ChartPalette {
    pub colors: Vec<String>,
    pub highlight: Vec<String>,
}

/// The glass palette's series colors.
pub open spec fn glass_colors() -> Seq<Seq<char>> {
    seq![
        "var(--glass-accent)"@,
        "var(--glass-success)"@,
        "var(--glass-warning)"@,
        "var(--glass-error)"@,
        "var(--glass-info)"@,
        "rgba(168, 85, 247, 1)"@,
        "rgba(236, 72, 153, 1)"@,
        "rgba(20, 184, 166, 1)"@,
    ]
}

/// The glass palette's highlight colors.
pub open spec fn glass_highlights() -> Seq<Seq<char>> {
    seq![
        "var(--glass-accent-hover)"@,
        "rgba(52, 211, 153, 0.85)"@,
        "rgba(251, 191, 36, 0.85)"@,
        "rgba(248, 113, 113, 0.85)"@,
        "rgba(96, 165, 250, 0.85)"@,
        "rgba(192, 132, 252, 0.85)"@,
        "rgba(244, 114, 182, 0.85)"@,
        "rgba(45, 212, 191, 0.85)"@,
    ]
}

/// Position of the last `c` in `s`.
pub open spec fn last_index_of(s: Seq<char>, c: char) -> Option<int>
    decreases s.len(),
{
    if s.len() == 0 {
        None
    } else if s.last() == c {
        Some(s.len() - 1)
    } else {
        last_index_of(s.drop_last(), c)
    }
}

/// `base` begins with the text `p`.
pub open spec fn begins_with(base: Seq<char>, p: Seq<char>) -> bool {
    base.len() >= p.len() && base.take(p.len() as int) == p
}

/// A color mixed at 30% with transparent.
pub open spec fn faded_mix(base: Seq<char>) -> Seq<char> {
    "color-mix(in srgb, "@ + base + " 30%, transparent)"@
}

/// A color with reduced opacity, for area fills: an `rgba(..)` color keeps
/// its channels and gets alpha `0.2` in place of its last component; an
/// `rgb(..)` color with comma-separated channels becomes `rgba(..)` with the
/// same channels and alpha `0.2`; any other color (a CSS variable, a name, a
/// hex value) is mixed at 30% with transparent.
pub open spec fn spec_area_color(base: Seq<char>) -> Seq<char> {
    let stripped = base.drop_last();
    if base.len() > 0 && base.last() == ')' && begins_with(base, "rgba("@) && last_index_of(
        stripped,
        ',',
    ) is Some {
        stripped.take(last_index_of(stripped, ',').unwrap()) + ", 0.2)"@
    } else if base.len() > 0 && base.last() == ')' && begins_with(base, "rgb("@)
        && last_index_of(stripped, ',') is Some {
        "rgba("@ + stripped.skip(4) + ", 0.2)"@
    } else {
        faded_mix(base)
    }
}

/// Whether `b` begins with `p`.
fn begins_with_exec(b: &Vec<char>, p: &Vec<char>) -> (r: bool)
    ensures
        r == begins_with(b@, p@),
{
    if b.len() < p.len() {
        return false;
    }
    let mut k: usize = 0;
    while k < p.len()
        invariant
            k <= p.len() <= b.len(),
            forall|j: int| 0 <= j < k ==> b@[j] == p@[j],
        decreases p.len() - k,
    {
        if b[k] != p[k] {
            assert(b@.take(p.len() as int)[k as int] != p@[k as int]);
            return false;
        }
        k += 1;
    }
    assert(b@.take(p.len() as int) =~= p@);
    true
}

/// The position of the last `,` in `b` before `end`, if any.
fn last_comma(b: &Vec<char>, end: usize) -> (r: Option<usize>)
    requires
        end <= b.len(),
    ensures
        match r {
            Some(k) => k < end && last_index_of(b@.take(end as int), ',') == Some(k as int),
            None => last_index_of(b@.take(end as int), ',') is None,
        },
{
    let mut j = end;
    while j > 0 && b[j - 1] != ','
        invariant
            j <= end <= b.len(),
            last_index_of(b@.take(end as int), ',') == last_index_of(b@.take(j as int), ','),
        decreases j,
    {
        assert(b@.take(j as int).drop_last() =~= b@.take(j - 1));
        j -= 1;
    }
    if j == 0 {
        assert(b@.take(0) =~= Seq::<char>::empty());
        None
    } else {
        assert(b@.take(j as int).last() == ',');
        Some(j - 1)
    }
}

fn strings_of(lits: &Vec<&str>) -> (r: Vec<String>)
    ensures
        views(r@) == lits@.map_values(|s: &str| s@),
{
    let mut r: Vec<String> = Vec::new();
    let mut i: usize = 0;
    while i < lits.len()
        invariant
            i <= lits.len(),
            views(r@) == lits@.map_values(|s: &str| s@).take(i as int),
        decreases lits.len() - i,
    {
        let ghost old_r = r@;
        let x = owned(lits[i]);
        r.push(x);
        assert(views(r@) =~= views(old_r).push(x@));
        assert(lits@.map_values(|s: &str| s@).take(i + 1) =~= lits@.map_values(|s: &str| s@).take(
            i as int,
        ).push(lits@[i as int]@));
        i += 1;
    }
    assert(lits@.map_values(|s: &str| s@).take(lits.len() as int) =~= lits@.map_values(
        |s: &str| s@,
    ));
    r
}

impl ChartPalette {
    /// Default palette using glass theme semantic colors + extended set.
    pub fn glass() -> (r: Self)
        ensures
            views(r.colors@) == glass_colors(),
            views(r.highlight@) == glass_highlights(),
    {
        let colors = vec![
            "var(--glass-accent)",
            "var(--glass-success)",
            "var(--glass-warning)",
            "var(--glass-error)",
            "var(--glass-info)",
            "rgba(168, 85, 247, 1)",
            "rgba(236, 72, 153, 1)",
            "rgba(20, 184, 166, 1)",
        ];
        let highlight = vec![
            "var(--glass-accent-hover)",
            "rgba(52, 211, 153, 0.85)",
            "rgba(251, 191, 36, 0.85)",
            "rgba(248, 113, 113, 0.85)",
            "rgba(96, 165, 250, 0.85)",
            "rgba(192, 132, 252, 0.85)",
            "rgba(244, 114, 182, 0.85)",
            "rgba(45, 212, 191, 0.85)",
        ];
        let c = strings_of(&colors);
        let h = strings_of(&highlight);
        assert(colors@.map_values(|s: &str| s@) =~= glass_colors());
        assert(highlight@.map_values(|s: &str| s@) =~= glass_highlights());
        ChartPalette { colors: c, highlight: h }
    }

    /// The series color for `index`, cycling through the palette.
    pub fn color(&self, index: usize) -> (r: &str)
        requires
            self.colors@.len() > 0,
        ensures
            r@ == self.colors@[index as int % self.colors@.len() as int]@,
    {
        self.colors[index % self.colors.len()].as_str()
    }

    /// The highlight color for `index`, cycling through the highlights.
    pub fn highlight_color(&self, index: usize) -> (r: &str)
        requires
            self.highlight@.len() > 0,
        ensures
            r@ == self.highlight@[index as int % self.highlight@.len() as int]@,
    {
        self.highlight[index % self.highlight.len()].as_str()
    }

    /// The series color for `index` with reduced opacity, for area fills.
    pub fn area_color(&self, index: usize) -> (r: String)
        requires
            self.colors@.len() > 0,
        ensures
            r@ == spec_area_color(self.colors@[index as int % self.colors@.len() as int]@),
    {
        let base = self.color(index);
        let b = chars_of(base);
        if b.len() > 0 && b[b.len() - 1] == ')' {
            let n = b.len() - 1;
            let ghost stripped = b@.drop_last();
            assert(stripped =~= b@.take(n as int));
            let is_rgba = begins_with_exec(&b, &chars_of("rgba("));
            let is_rgb = begins_with_exec(&b, &chars_of("rgb("));
            match last_comma(&b, n) {
                Some(k) => {
                    if is_rgba {
                        let mut out = crate::parse::copy_range(&b, 0, k);
                        assert(stripped.take(k as int) =~= b@.subrange(0, k as int));
                        extend_chars(&mut out, &chars_of(", 0.2)"));
                        return string_of(&out);
                    } else if is_rgb {
                        proof {
                            reveal_strlit("rgb(");
                            assert(b@.take(4)[3] == '(');
                            assert(b@[3] == '(');
                        }
                        let mut out = chars_of("rgba(");
                        extend_chars(&mut out, &crate::parse::copy_range(&b, 4, n));
                        assert(stripped.skip(4) =~= b@.subrange(4, n as int));
                        extend_chars(&mut out, &chars_of(", 0.2)"));
                        return string_of(&out);
                    }
                },
                None => {},
            }
        }
        let mut out = chars_of("color-mix(in srgb, ");
        extend_chars(&mut out, &b);
        extend_chars(&mut out, &chars_of(" 30%, transparent)"));
        string_of(&out)
    }
}

impl Default for ChartPalette {
    fn default() -> (r: Self)
        ensures
            views(r.colors@) == glass_colors(),
            views(r.highlight@) == glass_highlights(),
    {
        Self::glass()
    }
}

/// Configuration for bar chart layout.
#[derive(Debug, Clone, Copy, PartialEq, Eq)]
pub enum BarOrientation {
    Vertical,
    Horizontal,
}

#[derive(Debug, Clone, Copy, PartialEq, Eq)]
pub enum BarMode {
    Grouped,
    Stacked,
}

} // verus!
