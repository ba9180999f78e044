use vstd::prelude::*;

verus! {

#[derive(Copy, Clone, Eq, PartialEq, Debug, Structural)]
pub enum CardVariant {
    /// Standard elevated glass card.
    Default,
    /// More prominent elevation with heavier blur.
    Elevated,
    /// Recessed/inset appearance.
    Inset,
}

#[derive(Debug)]
pub struct CardStyles {
    pub background: &'static str,
    pub backdrop_filter: &'static str,
    pub box_shadow: &'static str,
}

/// A card's surface: a light gradient over the elevated background (the
/// inset card has none), blurred glass, and a shadow that grows while the
/// card is hovered (not for the inset card).
pub fn card_styles(variant: CardVariant, hovered: bool) -> (r: CardStyles)
    ensures
        r.background@ == match variant {
            CardVariant::Default => "linear-gradient(to bottom, rgba(255, 255, 255, 0.06) 0%, transparent 50%), var(--glass-bg-elevated)"@,
            CardVariant::Elevated => "linear-gradient(to bottom, rgba(255, 255, 255, 0.09) 0%, transparent 40%), var(--glass-bg-elevated)"@,
            CardVariant::Inset => "var(--glass-bg-inset)"@,
        },
        r.backdrop_filter@ == match variant {
            CardVariant::Elevated => "blur(var(--glass-blur-heavy)) saturate(var(--glass-saturation))"@,
            _ => "blur(var(--glass-blur)) saturate(var(--glass-saturation))"@,
        },
        r.box_shadow@ == match variant {
            CardVariant::Default => if hovered {
                "var(--glass-shadow-lg), 0 0 0 1px rgba(255, 255, 255, 0.08)"@
            } else {
                "var(--glass-shadow)"@
            },
            CardVariant::Elevated => if hovered {
                "var(--glass-shadow-xl), 0 0 0 1px rgba(255, 255, 255, 0.08)"@
            } else {
                "var(--glass-shadow-lg)"@
            },
            CardVariant::Inset => "var(--glass-shadow-inset)"@,
        },
{
    let background = match variant {
        CardVariant::Default => "linear-gradient(to bottom, rgba(255, 255, 255, 0.06) 0%, transparent 50%), var(--glass-bg-elevated)",
        CardVariant::Elevated => "linear-gradient(to bottom, rgba(255, 255, 255, 0.09) 0%, transparent 40%), var(--glass-bg-elevated)",
        CardVariant::Inset => "var(--glass-bg-inset)",
    };
    let backdrop_filter = match variant {
        CardVariant::Elevated => "blur(var(--glass-blur-heavy)) saturate(var(--glass-saturation))",
        CardVariant::Default => "blur(var(--glass-blur)) saturate(var(--glass-saturation))",
        CardVariant::Inset => "blur(var(--glass-blur)) saturate(var(--glass-saturation))",
    };
    let box_shadow = match (variant, hovered) {
        (CardVariant::Default, false) => "var(--glass-shadow)",
        (CardVariant::Default, true) => "var(--glass-shadow-lg), 0 0 0 1px rgba(255, 255, 255, 0.08)",
        (CardVariant::Elevated, false) => "var(--glass-shadow-lg)",
        (CardVariant::Elevated, true) => "var(--glass-shadow-xl), 0 0 0 1px rgba(255, 255, 255, 0.08)",
        (CardVariant::Inset, _) => "var(--glass-shadow-inset)",
    };
    CardStyles { background, backdrop_filter, box_shadow }
}

#[derive(Copy, Clone, Eq, PartialEq, Debug, Structural)]
pub enum BadgeVariant {
    Default,
    Success,
    Warning,
    Error,
    Info,
    Accent,
}

#[derive(Debug)]
pub struct BadgeColors {
    pub background: &'static str,
    pub color: &'static str,
}

/// A badge is tinted with the muted form of its variant's color and written
/// in the full form.
pub fn badge_colors(variant: BadgeVariant) -> (r: BadgeColors)
    ensures
        r.background@ == match variant {
            BadgeVariant::Default => "var(--glass-bg)"@,
            BadgeVariant::Success => "var(--glass-success-muted)"@,
            BadgeVariant::Warning => "var(--glass-warning-muted)"@,
            BadgeVariant::Error => "var(--glass-error-muted)"@,
            BadgeVariant::Info => "var(--glass-info-muted)"@,
            BadgeVariant::Accent => "var(--glass-accent-muted)"@,
        },
        r.color@ == match variant {
            BadgeVariant::Default => "var(--glass-text-secondary)"@,
            BadgeVariant::Success => "var(--glass-success)"@,
            BadgeVariant::Warning => "var(--glass-warning)"@,
            BadgeVariant::Error => "var(--glass-error)"@,
            BadgeVariant::Info => "var(--glass-info)"@,
            BadgeVariant::Accent => "var(--glass-accent)"@,
        },
{
    match variant {
        BadgeVariant::Default => BadgeColors {
            background: "var(--glass-bg)",
            color: "var(--glass-text-secondary)",
        },
        BadgeVariant::Success => BadgeColors {
            background: "var(--glass-success-muted)",
            color: "var(--glass-success)",
        },
        BadgeVariant::Warning => BadgeColors {
            background: "var(--glass-warning-muted)",
            color: "var(--glass-warning)",
        },
        BadgeVariant::Error => BadgeColors {
            background: "var(--glass-error-muted)",
            color: "var(--glass-error)",
        },
        BadgeVariant::Info => BadgeColors {
            background: "var(--glass-info-muted)",
            color: "var(--glass-info)",
        },
        BadgeVariant::Accent => BadgeColors {
            background: "var(--glass-accent-muted)",
            color: "var(--glass-accent)",
        },
    }
}

#[derive(Copy, Clone, Eq, PartialEq, Debug, Structural)]
pub enum ModalSize {
    Small,
    Medium,
    Large,
    Full,
}

#[derive(Debug)]
pub struct ModalStyles {
    /// `width` of the panel
    pub width: &'static str,
    /// `pointer-events` of the overlay
    pub pointer_events: &'static str,
    /// `opacity` of the overlay
    pub opacity: &'static str,
    /// `transform` of the panel
    pub transform: &'static str,
}

/// A modal stays in the document; while closed its overlay is transparent
/// and lets clicks through, and its panel is slightly shrunk.
pub fn modal_styles(size: ModalSize, open: bool) -> (r: ModalStyles)
    ensures
        r.width@ == match size {
            ModalSize::Small => "24rem"@,
            ModalSize::Medium => "36rem"@,
            ModalSize::Large => "56rem"@,
            ModalSize::Full => "90vw"@,
        },
        r.pointer_events@ == (if open { "auto"@ } else { "none"@ }),
        r.opacity@ == (if open { "1"@ } else { "0"@ }),
        r.transform@ == (if open { "scale(1)"@ } else { "scale(0.97)"@ }),
{
    let width = match size {
        ModalSize::Small => "24rem",
        ModalSize::Medium => "36rem",
        ModalSize::Large => "56rem",
        ModalSize::Full => "90vw",
    };
    if open {
        ModalStyles { width, pointer_events: "auto", opacity: "1", transform: "scale(1)" }
    } else {
        ModalStyles { width, pointer_events: "none", opacity: "0", transform: "scale(0.97)" }
    }
}

/// The shadow of a stat card, which lifts while hovered.
pub fn stat_card_shadow(hovered: bool) -> (r: &'static str)
    ensures
        r@ == (if hovered {
            "var(--glass-shadow-lg), 0 0 0 1px rgba(255, 255, 255, 0.08)"@
        } else {
            "var(--glass-shadow)"@
        }),
{
    if hovered {
        "var(--glass-shadow-lg), 0 0 0 1px rgba(255, 255, 255, 0.08)"
    } else {
        "var(--glass-shadow)"
    }
}

/// Which way a statistic moved.
#[derive(Copy, Clone, Eq, PartialEq, Debug, Structural)]
pub enum TrendDirection {
    Up,
    Down,
    Neutral,
}

#[derive(Debug)]
pub struct TrendMarker {
    pub symbol: &'static str,
    pub color: &'static str,
}

/// The arrow and color that mark a trend.
pub fn trend_marker(direction: TrendDirection) -> (r: TrendMarker)
    ensures
        r.symbol@ == match direction {
            TrendDirection::Up => "\u{2191}"@,
            TrendDirection::Down => "\u{2193}"@,
            TrendDirection::Neutral => "\u{2192}"@,
        },
        r.color@ == match direction {
            TrendDirection::Up => "var(--glass-success)"@,
            TrendDirection::Down => "var(--glass-error)"@,
            TrendDirection::Neutral => "var(--glass-text-tertiary)"@,
        },
{
    match direction {
        TrendDirection::Up => TrendMarker { symbol: "\u{2191}", color: "var(--glass-success)" },
        TrendDirection::Down => TrendMarker { symbol: "\u{2193}", color: "var(--glass-error)" },
        TrendDirection::Neutral => TrendMarker {
            symbol: "\u{2192}",
            color: "var(--glass-text-tertiary)",
        },
    }
}

} // verus!
