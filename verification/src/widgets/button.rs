use vstd::prelude::*;

verus! {

#[derive(Copy, Clone, Eq, PartialEq, Debug, Structural)]
pub enum ButtonVariant {
    /// Accent-colored filled button.
    Filled,
    /// Transparent frosted glass with border.
    Glass,
    /// No background, text only.
    TextOnly,
    /// Error-colored for destructive actions.
    Danger,
}

#[derive(Copy, Clone, Eq, PartialEq, Debug, Structural)]
pub enum ButtonSize {
    Small,
    Medium,
    Large,
}

/// What a button looks like in a given state: dwind classes for its size,
/// and the inline style values that follow the theme variables.
#[derive(Debug)]
pub struct ButtonStyles {
    pub size_classes: &'static str,
    pub border_radius: &'static str,
    pub background: &'static str,
    pub backdrop_filter: &'static str,
    pub box_shadow: &'static str,
    pub color: &'static str,
    pub transform: &'static str,
}

pub open spec fn spec_button_size_classes(size: ButtonSize) -> Seq<char> {
    match size {
        ButtonSize::Small => "h-8 px-3 text-sm gap-1"@,
        ButtonSize::Medium => "h-10 px-4 text-base gap-2"@,
        ButtonSize::Large => "h-12 px-6 text-lg gap-2"@,
    }
}

pub open spec fn spec_button_radius(size: ButtonSize) -> Seq<char> {
    match size {
        ButtonSize::Small => "var(--glass-border-radius-sm)"@,
        ButtonSize::Medium => "var(--glass-border-radius)"@,
        ButtonSize::Large => "var(--glass-border-radius-lg)"@,
    }
}

/// The resting surface of a variant; a disabled button keeps it too.
pub open spec fn spec_button_rest_background(variant: ButtonVariant) -> Seq<char> {
    match variant {
        ButtonVariant::Glass => "var(--glass-bg)"@,
        ButtonVariant::TextOnly => "transparent"@,
        ButtonVariant::Filled => "var(--glass-accent)"@,
        ButtonVariant::Danger => "var(--glass-error)"@,
    }
}

pub open spec fn spec_button_hover_background(variant: ButtonVariant) -> Seq<char> {
    match variant {
        ButtonVariant::Glass => "rgba(255, 255, 255, 0.14)"@,
        ButtonVariant::TextOnly => "var(--glass-bg)"@,
        ButtonVariant::Filled => "var(--glass-accent-hover)"@,
        ButtonVariant::Danger => "rgba(248, 113, 113, 0.85)"@,
    }
}

/// Hovering changes the surface of an enabled button only.
pub open spec fn spec_button_background(variant: ButtonVariant, hovered: bool, disabled: bool) -> Seq<
    char,
> {
    if hovered && !disabled {
        spec_button_hover_background(variant)
    } else {
        spec_button_rest_background(variant)
    }
}

/// The styles of a button of `variant` and `size`, hovered or pressed or
/// disabled as given.
pub fn button_styles(
    variant: ButtonVariant,
    size: ButtonSize,
    hovered: bool,
    pressed: bool,
    disabled: bool,
) -> (r: ButtonStyles)
    ensures
        r.size_classes@ == spec_button_size_classes(size),
        r.border_radius@ == spec_button_radius(size),
        r.background@ == spec_button_background(variant, hovered, disabled),
        r.backdrop_filter@ == (if variant == ButtonVariant::Glass {
            "blur(var(--glass-blur)) saturate(var(--glass-saturation))"@
        } else {
            "none"@
        }),
        r.box_shadow@ == (if variant == ButtonVariant::Glass {
            "var(--glass-shadow-sm)"@
        } else {
            "none"@
        }),
        r.color@ == (if variant == ButtonVariant::Filled || variant == ButtonVariant::Danger {
            "var(--glass-text-on-accent)"@
        } else {
            "var(--glass-text-primary)"@
        }),
        r.transform@ == (if pressed {
            "scale(0.98)"@
        } else {
            "scale(1)"@
        }),
{
    let size_classes = match size {
        ButtonSize::Small => "h-8 px-3 text-sm gap-1",
        ButtonSize::Medium => "h-10 px-4 text-base gap-2",
        ButtonSize::Large => "h-12 px-6 text-lg gap-2",
    };
    let border_radius = match size {
        ButtonSize::Small => "var(--glass-border-radius-sm)",
        ButtonSize::Medium => "var(--glass-border-radius)",
        ButtonSize::Large => "var(--glass-border-radius-lg)",
    };
    let background = if disabled || !hovered {
        match variant {
            ButtonVariant::Glass => "var(--glass-bg)",
            ButtonVariant::TextOnly => "transparent",
            ButtonVariant::Filled => "var(--glass-accent)",
            ButtonVariant::Danger => "var(--glass-error)",
        }
    } else {
        match variant {
            ButtonVariant::Glass => "rgba(255, 255, 255, 0.14)",
            ButtonVariant::TextOnly => "var(--glass-bg)",
            ButtonVariant::Filled => "var(--glass-accent-hover)",
            ButtonVariant::Danger => "rgba(248, 113, 113, 0.85)",
        }
    };
    let (backdrop_filter, box_shadow) = match variant {
        ButtonVariant::Glass => (
            "blur(var(--glass-blur)) saturate(var(--glass-saturation))",
            "var(--glass-shadow-sm)",
        ),
        _ => ("none", "none"),
    };
    let color = match variant {
        ButtonVariant::Filled | ButtonVariant::Danger => "var(--glass-text-on-accent)",
        _ => "var(--glass-text-primary)",
    };
    let transform = if pressed {
        "scale(0.98)"
    } else {
        "scale(1)"
    };
    ButtonStyles {
        size_classes,
        border_radius,
        background,
        backdrop_filter,
        box_shadow,
        color,
        transform,
    }
}

/// The attributes that follow a button's disabled and loading states.
#[derive(Debug)]
pub struct ButtonAttributes {
    /// `disabled`: set while the button is disabled or loading.
    pub disabled: Option<&'static str>,
    /// `aria-disabled`: set while the button is disabled or loading.
    pub aria_disabled: Option<&'static str>,
    /// `aria-busy`: set while the button is loading.
    pub aria_busy: Option<&'static str>,
    /// Whether the spinner shows in front of the content.
    pub spinner: bool,
}

/// A loading button refuses clicks as a disabled one does, and also says it
/// is busy and shows a spinner.
pub fn button_attributes(disabled: bool, loading: bool) -> (r: ButtonAttributes)
    ensures
        (disabled || loading) ==> (r.disabled matches Some(d) && d@ == "disabled"@),
        (disabled || loading) ==> (r.aria_disabled matches Some(a) && a@ == "true"@),
        !(disabled || loading) ==> r.disabled is None && r.aria_disabled is None,
        loading ==> (r.aria_busy matches Some(b) && b@ == "true"@),
        !loading ==> r.aria_busy is None,
        r.spinner == loading,
{
    let inert = disabled || loading;
    ButtonAttributes {
        disabled: if inert { Some("disabled") } else { None },
        aria_disabled: if inert { Some("true") } else { None },
        aria_busy: if loading { Some("true") } else { None },
        spinner: loading,
    }
}

} // verus!
