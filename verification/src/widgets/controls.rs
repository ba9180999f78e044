use vstd::prelude::*;
use crate::grammar::opt_view;

verus! {

/// How a control shows that it is disabled: faded, and deaf to the pointer.
#[derive(Debug)]
pub struct DisabledStyles {
    pub opacity: &'static str,
    pub cursor: &'static str,
    pub pointer_events: &'static str,
}

pub fn disabled_styles(disabled: bool) -> (r: DisabledStyles)
    ensures
        r.opacity@ == (if disabled { "0.5"@ } else { "1"@ }),
        r.cursor@ == (if disabled { "not-allowed"@ } else { "pointer"@ }),
        r.pointer_events@ == (if disabled { "none"@ } else { "auto"@ }),
{
    if disabled {
        DisabledStyles { opacity: "0.5", cursor: "not-allowed", pointer_events: "none" }
    } else {
        DisabledStyles { opacity: "1", cursor: "pointer", pointer_events: "auto" }
    }
}

/// The inset ring of a small control (checkbox box, toggle track, radio
/// circle): red when invalid, brighter when hovered while enabled.
pub open spec fn spec_control_ring(hovered: bool, disabled: bool, valid: bool) -> Seq<char> {
    if !valid {
        "var(--glass-shadow-inset), 0 0 0 2px var(--glass-error-muted)"@
    } else if hovered && !disabled {
        "var(--glass-shadow-inset), 0 0 0 1px rgba(255, 255, 255, 0.10)"@
    } else {
        "var(--glass-shadow-inset)"@
    }
}

pub fn control_ring(hovered: bool, disabled: bool, valid: bool) -> (r: &'static str)
    ensures
        r@ == spec_control_ring(hovered, disabled, valid),
{
    if !valid {
        "var(--glass-shadow-inset), 0 0 0 2px var(--glass-error-muted)"
    } else if hovered && !disabled {
        "var(--glass-shadow-inset), 0 0 0 1px rgba(255, 255, 255, 0.10)"
    } else {
        "var(--glass-shadow-inset)"
    }
}

/// The styles of a switch: the track fills with the accent when on, and
/// the thumb slides to the right.
#[derive(Debug)]
pub struct ToggleStyles {
    pub track_background: &'static str,
    pub track_ring: &'static str,
    pub thumb_transform: &'static str,
    pub aria_checked: &'static str,
}

pub fn toggle_styles(checked: bool, hovered: bool, disabled: bool) -> (r: ToggleStyles)
    ensures
        r.track_background@ == (if checked {
            "var(--glass-accent)"@
        } else {
            "var(--glass-bg-inset)"@
        }),
        r.track_ring@ == spec_control_ring(hovered, disabled, true),
        r.thumb_transform@ == (if checked {
            "translateX(22px)"@
        } else {
            "translateX(2px)"@
        }),
        r.aria_checked@ == (if checked { "true"@ } else { "false"@ }),
{
    let track_ring = control_ring(hovered, disabled, true);
    if checked {
        ToggleStyles {
            track_background: "var(--glass-accent)",
            track_ring,
            thumb_transform: "translateX(22px)",
            aria_checked: "true",
        }
    } else {
        ToggleStyles {
            track_background: "var(--glass-bg-inset)",
            track_ring,
            thumb_transform: "translateX(2px)",
            aria_checked: "false",
        }
    }
}

/// The styles of a checkbox: the box fills with the accent when checked,
/// and the check mark grows in.
#[derive(Debug)]
pub struct CheckboxStyles {
    pub box_background: &'static str,
    pub box_ring: &'static str,
    pub mark_opacity: &'static str,
    pub mark_transform: &'static str,
    pub aria_checked: &'static str,
}

pub fn checkbox_styles(checked: bool, hovered: bool, disabled: bool, valid: bool) -> (r:
    CheckboxStyles)
    ensures
        r.box_background@ == (if checked {
            "var(--glass-accent)"@
        } else {
            "var(--glass-bg-inset)"@
        }),
        r.box_ring@ == spec_control_ring(hovered, disabled, valid),
        r.mark_opacity@ == (if checked { "1"@ } else { "0"@ }),
        r.mark_transform@ == (if checked { "scale(1)"@ } else { "scale(0.5)"@ }),
        r.aria_checked@ == (if checked { "true"@ } else { "false"@ }),
{
    let box_ring = control_ring(hovered, disabled, valid);
    if checked {
        CheckboxStyles {
            box_background: "var(--glass-accent)",
            box_ring,
            mark_opacity: "1",
            mark_transform: "scale(1)",
            aria_checked: "true",
        }
    } else {
        CheckboxStyles {
            box_background: "var(--glass-bg-inset)",
            box_ring,
            mark_opacity: "0",
            mark_transform: "scale(0.5)",
            aria_checked: "false",
        }
    }
}

/// Whether the group's value picks the option with value `value`.
pub open spec fn spec_is_selected(selected: Option<Seq<char>>, value: Seq<char>) -> bool {
    selected == Some(value)
}

/// Whether the group's value picks the option with value `value`.
pub fn is_selected(selected: &Option<String>, value: &str) -> (r: bool)
    ensures
        r == spec_is_selected(opt_view(*selected), value@),
{
    match selected {
        Some(s) => crate::text::str_eq(s.as_str(), value),
        None => false,
    }
}

/// The styles of one radio option: its dot shows only while the group's
/// value is this option's value.
#[derive(Debug)]
pub struct RadioStyles {
    pub ring: &'static str,
    pub dot_transform: &'static str,
    pub dot_opacity: &'static str,
    pub aria_checked: &'static str,
}

pub fn radio_styles(selected: &Option<String>, value: &str, hovered: bool, disabled: bool) -> (r:
    RadioStyles)
    ensures
        r.ring@ == spec_control_ring(hovered, disabled, true),
        r.dot_transform@ == (if spec_is_selected(opt_view(*selected), value@) {
            "scale(1)"@
        } else {
            "scale(0)"@
        }),
        r.dot_opacity@ == (if spec_is_selected(opt_view(*selected), value@) {
            "1"@
        } else {
            "0"@
        }),
        r.aria_checked@ == (if spec_is_selected(opt_view(*selected), value@) {
            "true"@
        } else {
            "false"@
        }),
{
    let ring = control_ring(hovered, disabled, true);
    if is_selected(selected, value) {
        RadioStyles { ring, dot_transform: "scale(1)", dot_opacity: "1", aria_checked: "true" }
    } else {
        RadioStyles { ring, dot_transform: "scale(0)", dot_opacity: "0", aria_checked: "false" }
    }
}

/// The ring around a whole radio group: red while the group is invalid.
pub fn radio_group_ring(valid: bool) -> (r: &'static str)
    ensures
        r@ == (if valid { "none"@ } else { "0 0 0 2px var(--glass-error-muted)"@ }),
{
    if !valid {
        "0 0 0 2px var(--glass-error-muted)"
    } else {
        "none"
    }
}

} // verus!
