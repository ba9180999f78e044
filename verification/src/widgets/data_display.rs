use vstd::prelude::*;

verus! {

#[derive(Copy, Clone, Eq, PartialEq, Debug, Structural)]
pub enum AvatarSize {
    Small,
    Medium,
    Large,
}

/// The side of the (square) avatar and the size of its fallback text.
pub fn avatar_metrics(size: AvatarSize) -> (r: (&'static str, &'static str))
    ensures
        r.0@ == match size {
            AvatarSize::Small => "32px"@,
            AvatarSize::Medium => "40px"@,
            AvatarSize::Large => "56px"@,
        },
        r.1@ == match size {
            AvatarSize::Small => "0.75rem"@,
            AvatarSize::Medium => "0.875rem"@,
            AvatarSize::Large => "1.125rem"@,
        },
{
    match size {
        AvatarSize::Small => ("32px", "0.75rem"),
        AvatarSize::Medium => ("40px", "0.875rem"),
        AvatarSize::Large => ("56px", "1.125rem"),
    }
}

#[derive(Copy, Clone, Eq, PartialEq, Debug, Structural)]
pub enum ProgressVariant {
    Accent,
    Success,
    Warning,
    Error,
}

/// The color of the filled part of a progress bar.
pub fn progress_fill(variant: ProgressVariant) -> (r: &'static str)
    ensures
        r@ == match variant {
            ProgressVariant::Accent => "var(--glass-accent)"@,
            ProgressVariant::Success => "var(--glass-success)"@,
            ProgressVariant::Warning => "var(--glass-warning)"@,
            ProgressVariant::Error => "var(--glass-error)"@,
        },
{
    match variant {
        ProgressVariant::Accent => "var(--glass-accent)",
        ProgressVariant::Success => "var(--glass-success)",
        ProgressVariant::Warning => "var(--glass-warning)",
        ProgressVariant::Error => "var(--glass-error)",
    }
}

/// The background of body row `index` of a table: hovered rows lighten,
/// and a striped table tints its odd rows.
pub fn table_row_background(striped: bool, hovered: bool, index: usize) -> (r: &'static str)
    ensures
        r@ == (if hovered {
            "rgba(255, 255, 255, 0.06)"@
        } else if striped && index % 2 == 1 {
            "rgba(255, 255, 255, 0.03)"@
        } else {
            "transparent"@
        }),
{
    if hovered {
        "rgba(255, 255, 255, 0.06)"
    } else if striped && index % 2 == 1 {
        "rgba(255, 255, 255, 0.03)"
    } else {
        "transparent"
    }
}

#[derive(Copy, Clone, Eq, PartialEq, Debug, Structural)]
pub enum TooltipPosition {
    Top,
    Right,
    Bottom,
    Left,
}

/// Where a tooltip sits against its trigger: 8px off one edge (`offset`
/// names the property), centred along the other axis (`center` names it,
/// at 50%), and slid 4px away from the trigger while hidden.
#[derive(Debug)]
pub struct TooltipPlacement {
    pub offset: &'static str,
    pub center: &'static str,
    pub transform: &'static str,
    pub opacity: &'static str,
    pub visibility: &'static str,
}

pub fn tooltip_placement(position: TooltipPosition, visible: bool) -> (r: TooltipPlacement)
    ensures
        r.offset@ == match position {
            TooltipPosition::Top => "bottom"@,
            TooltipPosition::Bottom => "top"@,
            TooltipPosition::Left => "right"@,
            TooltipPosition::Right => "left"@,
        },
        r.center@ == match position {
            TooltipPosition::Top | TooltipPosition::Bottom => "left"@,
            TooltipPosition::Left | TooltipPosition::Right => "top"@,
        },
        r.transform@ == match position {
            TooltipPosition::Top => if visible {
                "translateX(-50%)"@
            } else {
                "translateX(-50%) translateY(4px)"@
            },
            TooltipPosition::Bottom => if visible {
                "translateX(-50%)"@
            } else {
                "translateX(-50%) translateY(-4px)"@
            },
            TooltipPosition::Left => if visible {
                "translateY(-50%)"@
            } else {
                "translateY(-50%) translateX(4px)"@
            },
            TooltipPosition::Right => if visible {
                "translateY(-50%)"@
            } else {
                "translateY(-50%) translateX(-4px)"@
            },
        },
        r.opacity@ == (if visible { "1"@ } else { "0"@ }),
        r.visibility@ == (if visible { "visible"@ } else { "hidden"@ }),
{
    let (offset, center, shown, hidden) = match position {
        TooltipPosition::Top => ("bottom", "left", "translateX(-50%)", "translateX(-50%) translateY(4px)"),
        TooltipPosition::Bottom => ("top", "left", "translateX(-50%)", "translateX(-50%) translateY(-4px)"),
        TooltipPosition::Left => ("right", "top", "translateY(-50%)", "translateY(-50%) translateX(4px)"),
        TooltipPosition::Right => ("left", "top", "translateY(-50%)", "translateY(-50%) translateX(-4px)"),
    };
    if visible {
        TooltipPlacement { offset, center, transform: shown, opacity: "1", visibility: "visible" }
    } else {
        TooltipPlacement { offset, center, transform: hidden, opacity: "0", visibility: "hidden" }
    }
}

} // verus!
