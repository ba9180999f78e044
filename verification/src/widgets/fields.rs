use vstd::prelude::*;

verus! {

/// The outcome of validating a field's value.
#[derive(Debug)]
pub enum ValidationResult {
    Valid,
    Invalid { message: String },
}

impl ValidationResult {
    pub open spec fn valid(&self) -> bool {
        self is Valid
    }

    pub fn is_valid(&self) -> (r: bool)
        ensures
            r == self.valid(),
    {
        match self {
            ValidationResult::Valid => true,
            ValidationResult::Invalid { .. } => false,
        }
    }

    /// The message shown under an invalid field.
    pub fn message(&self) -> (r: Option<String>)
        ensures
            match self {
                ValidationResult::Valid => r is None,
                ValidationResult::Invalid { message } => r matches Some(m) && m@ == message@,
            },
    {
        match self {
            ValidationResult::Valid => None,
            ValidationResult::Invalid { message } => Some(message.clone()),
        }
    }
}

/// What a text field reports: a value it could not take in comes first, then
/// what the owner of the field said about it.
pub fn merge_validation(parsed: ValidationResult, external: ValidationResult) -> (r:
    ValidationResult)
    ensures
        r == (if !parsed.valid() {
            parsed
        } else if !external.valid() {
            external
        } else {
            ValidationResult::Valid
        }),
{
    if !parsed.is_valid() {
        parsed
    } else if !external.is_valid() {
        external
    } else {
        ValidationResult::Valid
    }
}

/// The ring around an input box. A disabled box shows none; an invalid one
/// is red; one in use (focused, or open) glows with the accent; hovering
/// brightens the border.
pub open spec fn spec_field_ring(disabled: bool, valid: bool, engaged: bool, hovered: bool) -> Seq<
    char,
> {
    if disabled {
        "var(--glass-shadow-inset)"@
    } else if !valid {
        "var(--glass-shadow-inset), 0 0 0 2px var(--glass-error-muted)"@
    } else if engaged {
        "var(--glass-shadow-inset), 0 0 0 2px var(--glass-accent-muted)"@
    } else if hovered {
        "var(--glass-shadow-inset), 0 0 0 1px var(--glass-border-color-hover)"@
    } else {
        "var(--glass-shadow-inset)"@
    }
}

/// The color of a field's label: red when invalid, the accent when raised.
pub open spec fn spec_label_color(valid: bool, raised: bool) -> Seq<char> {
    if !valid {
        "var(--glass-error)"@
    } else if raised {
        "var(--glass-accent)"@
    } else {
        "var(--glass-text-secondary)"@
    }
}

#[derive(Debug)]
pub struct FieldStyles {
    /// `color` of the label above the box
    pub label_color: &'static str,
    /// `box-shadow` of the box
    pub ring: &'static str,
}

fn field_styles(disabled: bool, valid: bool, engaged: bool, hovered: bool, raised: bool) -> (r:
    FieldStyles)
    ensures
        r.ring@ == spec_field_ring(disabled, valid, engaged, hovered),
        r.label_color@ == spec_label_color(valid, raised),
{
    let ring = if disabled {
        "var(--glass-shadow-inset)"
    } else if !valid {
        "var(--glass-shadow-inset), 0 0 0 2px var(--glass-error-muted)"
    } else if engaged {
        "var(--glass-shadow-inset), 0 0 0 2px var(--glass-accent-muted)"
    } else if hovered {
        "var(--glass-shadow-inset), 0 0 0 1px var(--glass-border-color-hover)"
    } else {
        "var(--glass-shadow-inset)"
    };
    let label_color = if !valid {
        "var(--glass-error)"
    } else if raised {
        "var(--glass-accent)"
    } else {
        "var(--glass-text-secondary)"
    };
    FieldStyles { label_color, ring }
}

/// A text input's label is raised while the input is focused, holds a
/// value, or is invalid.
pub fn text_input_styles(valid: bool, focused: bool, hovered: bool, has_value: bool) -> (r:
    FieldStyles)
    ensures
        r.ring@ == spec_field_ring(false, valid, focused, hovered),
        r.label_color@ == spec_label_color(valid, focused || has_value || !valid),
{
    field_styles(false, valid, focused, hovered, focused || has_value || !valid)
}

/// A select's label is raised while it is open or holds a value.
pub fn select_field_styles(
    valid: bool,
    open: bool,
    hovered: bool,
    disabled: bool,
    has_selection: bool,
) -> (r: FieldStyles)
    ensures
        r.ring@ == spec_field_ring(disabled, valid, open, hovered),
        r.label_color@ == spec_label_color(valid, open || has_selection),
{
    field_styles(disabled, valid, open, hovered, open || has_selection)
}

/// A combobox's label is raised while it is open, holds a value, or has
/// search text typed into it.
pub fn combobox_field_styles(
    valid: bool,
    open: bool,
    hovered: bool,
    disabled: bool,
    has_selection: bool,
    query: &str,
) -> (r: FieldStyles)
    ensures
        r.ring@ == spec_field_ring(disabled, valid, open, hovered),
        r.label_color@ == spec_label_color(valid, open || has_selection || query@.len() > 0),
{
    let typed = query.unicode_len() > 0;
    field_styles(disabled, valid, open, hovered, open || has_selection || typed)
}

/// The text color of a select's trigger: dimmed while it shows the
/// placeholder.
pub fn select_value_color(has_selection: bool) -> (r: &'static str)
    ensures
        r@ == (if has_selection {
            "var(--glass-text-primary)"@
        } else {
            "var(--glass-text-tertiary)"@
        }),
{
    if has_selection {
        "var(--glass-text-primary)"
    } else {
        "var(--glass-text-tertiary)"
    }
}

/// The styles of one row in a dropdown list.
#[derive(Debug)]
pub struct OptionStyles {
    pub background: &'static str,
    pub color: &'static str,
    pub aria_selected: &'static str,
}

/// The selected row is tinted with the accent; another row lightens while
/// hovered.
pub fn option_styles(selected: bool, hovered: bool) -> (r: OptionStyles)
    ensures
        r.background@ == (if selected {
            "var(--glass-accent-muted)"@
        } else if hovered {
            "rgba(255, 255, 255, 0.06)"@
        } else {
            "transparent"@
        }),
        r.color@ == (if selected { "var(--glass-accent)"@ } else { "var(--glass-text-primary)"@ }),
        r.aria_selected@ == (if selected { "true"@ } else { "false"@ }),
{
    if selected {
        OptionStyles {
            background: "var(--glass-accent-muted)",
            color: "var(--glass-accent)",
            aria_selected: "true",
        }
    } else if hovered {
        OptionStyles {
            background: "rgba(255, 255, 255, 0.06)",
            color: "var(--glass-text-primary)",
            aria_selected: "false",
        }
    } else {
        OptionStyles {
            background: "transparent",
            color: "var(--glass-text-primary)",
            aria_selected: "false",
        }
    }
}

/// The styles of a dropdown panel (select, combobox, menu): it stays in the
/// document and fades and slides in when open.
#[derive(Debug)]
pub struct PanelStyles {
    pub opacity: &'static str,
    pub visibility: &'static str,
    pub pointer_events: &'static str,
    pub transform: &'static str,
    /// `transform` of the chevron of the trigger
    pub chevron: &'static str,
}

pub fn panel_styles(open: bool) -> (r: PanelStyles)
    ensures
        r.opacity@ == (if open { "1"@ } else { "0"@ }),
        r.visibility@ == (if open { "visible"@ } else { "hidden"@ }),
        r.pointer_events@ == (if open { "auto"@ } else { "none"@ }),
        r.transform@ == (if open { "translateY(0)"@ } else { "translateY(-4px)"@ }),
        r.chevron@ == (if open { "rotate(180deg)"@ } else { "rotate(0deg)"@ }),
{
    if open {
        PanelStyles {
            opacity: "1",
            visibility: "visible",
            pointer_events: "auto",
            transform: "translateY(0)",
            chevron: "rotate(180deg)",
        }
    } else {
        PanelStyles {
            opacity: "0",
            visibility: "hidden",
            pointer_events: "none",
            transform: "translateY(-4px)",
            chevron: "rotate(0deg)",
        }
    }
}

} // verus!
