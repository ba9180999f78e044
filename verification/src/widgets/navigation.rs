use vstd::prelude::*;

verus! {

#[derive(Debug)]
pub struct TabStyles {
    /// `border-bottom-color`: the underline of the tab
    pub underline: &'static str,
    pub color: &'static str,
    pub aria_selected: &'static str,
    /// `display` of the tab's panel
    pub panel_display: &'static str,
}

/// The tab at `index`, when the tab at `active` is shown: the active tab is
/// underlined with the accent and only its panel is displayed; another tab
/// shows a faint underline while hovered.
pub fn tab_styles(index: usize, active: usize, hovered: bool) -> (r: TabStyles)
    ensures
        r.underline@ == (if index == active {
            "var(--glass-accent)"@
        } else if hovered {
            "var(--glass-border-color-hover)"@
        } else {
            "transparent"@
        }),
        r.color@ == (if index == active {
            "var(--glass-accent)"@
        } else if hovered {
            "var(--glass-text-primary)"@
        } else {
            "var(--glass-text-secondary)"@
        }),
        r.aria_selected@ == (if index == active { "true"@ } else { "false"@ }),
        r.panel_display@ == (if index == active { "block"@ } else { "none"@ }),
{
    if index == active {
        TabStyles {
            underline: "var(--glass-accent)",
            color: "var(--glass-accent)",
            aria_selected: "true",
            panel_display: "block",
        }
    } else if hovered {
        TabStyles {
            underline: "var(--glass-border-color-hover)",
            color: "var(--glass-text-primary)",
            aria_selected: "false",
            panel_display: "none",
        }
    } else {
        TabStyles {
            underline: "transparent",
            color: "var(--glass-text-secondary)",
            aria_selected: "false",
            panel_display: "none",
        }
    }
}

#[derive(Debug)]
pub struct NavItemStyles {
    pub background: &'static str,
    pub color: &'static str,
    pub padding: &'static str,
    pub gap: &'static str,
    pub justify_content: &'static str,
    /// `opacity` of the label and of the badge
    pub label_opacity: &'static str,
    /// `max-width` of the label
    pub label_max_width: &'static str,
    /// `max-width` of the badge
    pub badge_max_width: &'static str,
}

/// A navigation entry: a disabled one is plain, the active one is tinted
/// with the accent, a hovered one lightens. Collapsed, it centres its icon
/// and hides its label and badge.
pub fn nav_item_styles(active: bool, hovered: bool, disabled: bool, collapsed: bool) -> (r:
    NavItemStyles)
    ensures
        r.background@ == (if disabled {
            "transparent"@
        } else if active {
            "var(--glass-accent-muted)"@
        } else if hovered {
            "rgba(255, 255, 255, 0.06)"@
        } else {
            "transparent"@
        }),
        r.color@ == (if disabled {
            "var(--glass-text-tertiary)"@
        } else if active {
            "var(--glass-accent)"@
        } else if hovered {
            "var(--glass-text-primary)"@
        } else {
            "var(--glass-text-secondary)"@
        }),
        r.padding@ == (if collapsed { "8px"@ } else { "8px 12px"@ }),
        r.gap@ == (if collapsed { "0px"@ } else { "12px"@ }),
        r.justify_content@ == (if collapsed { "center"@ } else { "flex-start"@ }),
        r.label_opacity@ == (if collapsed { "0"@ } else { "1"@ }),
        r.label_max_width@ == (if collapsed { "0px"@ } else { "200px"@ }),
        r.badge_max_width@ == (if collapsed { "0px"@ } else { "100px"@ }),
{
    let (background, color) = if disabled {
        ("transparent", "var(--glass-text-tertiary)")
    } else if active {
        ("var(--glass-accent-muted)", "var(--glass-accent)")
    } else if hovered {
        ("rgba(255, 255, 255, 0.06)", "var(--glass-text-primary)")
    } else {
        ("transparent", "var(--glass-text-secondary)")
    };
    if collapsed {
        NavItemStyles {
            background,
            color,
            padding: "8px",
            gap: "0px",
            justify_content: "center",
            label_opacity: "0",
            label_max_width: "0px",
            badge_max_width: "0px",
        }
    } else {
        NavItemStyles {
            background,
            color,
            padding: "8px 12px",
            gap: "12px",
            justify_content: "flex-start",
            label_opacity: "1",
            label_max_width: "200px",
            badge_max_width: "100px",
        }
    }
}

/// `position` and `top` of the navigation bar: a sticky bar stays at the
/// top of the page.
pub fn navbar_position(sticky: bool) -> (r: (&'static str, &'static str))
    ensures
        r.0@ == (if sticky { "sticky"@ } else { "relative"@ }),
        r.1@ == (if sticky { "0"@ } else { "auto"@ }),
{
    if sticky {
        ("sticky", "0")
    } else {
        ("relative", "auto")
    }
}

/// The width of the sidebar.
pub fn sidebar_width(collapsed: bool) -> (r: &'static str)
    ensures
        r@ == (if collapsed { "4rem"@ } else { "16rem"@ }),
{
    if collapsed {
        "4rem"
    } else {
        "16rem"
    }
}

/// One element of a breadcrumb trail.
#[derive(Copy, Clone, Debug, PartialEq, Eq, Structural)]
pub enum Crumb {
    /// The `/` between two items.
    Separator,
    /// The item at this index is the current page.
    Current(usize),
    /// The item at this index can be clicked.
    Link(usize),
    /// The item at this index is plain text.
    Text(usize),
}

/// The elements for item `i` of a trail of `n` items, `clickable` saying
/// whether it has a click handler.
pub open spec fn spec_crumb(i: int, n: int, clickable: bool) -> Crumb {
    if i == n - 1 {
        Crumb::Current(i as usize)
    } else if clickable {
        Crumb::Link(i as usize)
    } else {
        Crumb::Text(i as usize)
    }
}

/// The trail of the first `k` items: a separator in front of each item but
/// the first.
pub open spec fn spec_breadcrumbs(clickable: Seq<bool>, k: int) -> Seq<Crumb>
    decreases k,
{
    if k <= 0 {
        Seq::empty()
    } else {
        let i = k - 1;
        let front = spec_breadcrumbs(clickable, i);
        let front = if i > 0 {
            front.push(Crumb::Separator)
        } else {
            front
        };
        front.push(spec_crumb(i, clickable.len() as int, clickable[i]))
    }
}

/// A breadcrumb trail for items of which `clickable` says which have a
/// click handler: the last item is the current page, the others are links
/// or plain text, with a separator between each two.
pub fn breadcrumbs(clickable: &Vec<bool>) -> (r: Vec<Crumb>)
    ensures
        r@ == spec_breadcrumbs(clickable@, clickable@.len() as int),
{
    let n = clickable.len();
    let mut r: Vec<Crumb> = Vec::new();
    let mut i: usize = 0;
    while i < n
        invariant
            n == clickable.len(),
            i <= n,
            r@ == spec_breadcrumbs(clickable@, i as int),
        decreases n - i,
    {
        if i > 0 {
            r.push(Crumb::Separator);
        }
        let c = if i == n - 1 {
            Crumb::Current(i)
        } else if clickable[i] {
            Crumb::Link(i)
        } else {
            Crumb::Text(i)
        };
        r.push(c);
        i += 1;
    }
    r
}

#[derive(Copy, Clone, Eq, PartialEq, Debug, Structural)]
pub enum MenuItemVariant {
    Default,
    Danger,
}

#[derive(Debug)]
pub struct MenuItemStyles {
    pub background: &'static str,
    pub color: &'static str,
    /// `opacity` and `pointer-events` of a disabled entry, none otherwise.
    pub disabled: Option<(&'static str, &'static str)>,
}

/// One entry of a menu: it lightens while hovered unless disabled; a
/// disabled entry is dimmed and deaf to the pointer; a dangerous one is red.
pub fn menu_item_styles(variant: MenuItemVariant, disabled: bool, hovered: bool) -> (r:
    MenuItemStyles)
    ensures
        r.background@ == (if hovered && !disabled {
            "rgba(255, 255, 255, 0.06)"@
        } else {
            "transparent"@
        }),
        r.color@ == (if disabled {
            "var(--glass-text-tertiary)"@
        } else if variant == MenuItemVariant::Danger {
            "var(--glass-error)"@
        } else {
            "var(--glass-text-primary)"@
        }),
        disabled ==> (r.disabled matches Some(p) && p.0@ == "0.5"@ && p.1@ == "none"@),
        !disabled ==> r.disabled is None,
{
    let background = if hovered && !disabled {
        "rgba(255, 255, 255, 0.06)"
    } else {
        "transparent"
    };
    let color = if disabled {
        "var(--glass-text-tertiary)"
    } else if variant == MenuItemVariant::Danger {
        "var(--glass-error)"
    } else {
        "var(--glass-text-primary)"
    };
    let d = if disabled {
        Some(("0.5", "none"))
    } else {
        None
    };
    MenuItemStyles { background, color, disabled: d }
}

} // verus!
