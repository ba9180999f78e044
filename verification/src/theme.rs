use vstd::prelude::*;
use crate::text::{chars_of, string_of, extend_chars, owned};

verus! {

/// Complete glassmorphic theme configuration.
/// Controls all visual appearance through CSS custom properties (`--glass-*`).
#[derive(Debug)]
pub struct GlassTheme {
    // Surface
    pub blur: String,
    pub blur_heavy: String,
    pub saturation: String,
    pub bg: String,
    pub bg_elevated: String,
    pub bg_inset: String,
    pub tint: String,
    // Borders
    pub border_color: String,
    pub border_color_hover: String,
    pub border_color_focus: String,
    pub border_width: String,
    pub border_radius_sm: String,
    pub border_radius: String,
    pub border_radius_lg: String,
    pub border_radius_xl: String,
    pub border_radius_full: String,
    // Accent colors
    pub accent: String,
    pub accent_hover: String,
    pub accent_muted: String,
    // Text colors
    pub text_primary: String,
    pub text_secondary: String,
    pub text_tertiary: String,
    pub text_on_accent: String,
    // Semantic colors
    pub success: String,
    pub success_muted: String,
    pub warning: String,
    pub warning_muted: String,
    pub error: String,
    pub error_muted: String,
    pub info: String,
    pub info_muted: String,
    // Shadows
    pub shadow_sm: String,
    pub shadow: String,
    pub shadow_lg: String,
    pub shadow_xl: String,
    pub shadow_inset: String,
    // Motion
    pub transition_fast: String,
    pub transition: String,
    pub transition_slow: String,
    pub ease: String,
}

/// Number of theme values, and of `--glass-*` variables.
pub const THEME_VALUES: usize = 40;

/// The name of the `k`-th theme variable, after `--glass-`.
pub open spec fn var_name(k: int) -> Seq<char> {
    if k == 0 {
        "blur"@
    } else if k == 1 {
        "blur-heavy"@
    } else if k == 2 {
        "saturation"@
    } else if k == 3 {
        "bg"@
    } else if k == 4 {
        "bg-elevated"@
    } else if k == 5 {
        "bg-inset"@
    } else if k == 6 {
        "tint"@
    } else if k == 7 {
        "border-color"@
    } else if k == 8 {
        "border-color-hover"@
    } else if k == 9 {
        "border-color-focus"@
    } else if k == 10 {
        "border-width"@
    } else if k == 11 {
        "border-radius-sm"@
    } else if k == 12 {
        "border-radius"@
    } else if k == 13 {
        "border-radius-lg"@
    } else if k == 14 {
        "border-radius-xl"@
    } else if k == 15 {
        "border-radius-full"@
    } else if k == 16 {
        "accent"@
    } else if k == 17 {
        "accent-hover"@
    } else if k == 18 {
        "accent-muted"@
    } else if k == 19 {
        "text-primary"@
    } else if k == 20 {
        "text-secondary"@
    } else if k == 21 {
        "text-tertiary"@
    } else if k == 22 {
        "text-on-accent"@
    } else if k == 23 {
        "success"@
    } else if k == 24 {
        "success-muted"@
    } else if k == 25 {
        "warning"@
    } else if k == 26 {
        "warning-muted"@
    } else if k == 27 {
        "error"@
    } else if k == 28 {
        "error-muted"@
    } else if k == 29 {
        "info"@
    } else if k == 30 {
        "info-muted"@
    } else if k == 31 {
        "shadow-sm"@
    } else if k == 32 {
        "shadow"@
    } else if k == 33 {
        "shadow-lg"@
    } else if k == 34 {
        "shadow-xl"@
    } else if k == 35 {
        "shadow-inset"@
    } else if k == 36 {
        "transition-fast"@
    } else if k == 37 {
        "transition"@
    } else if k == 38 {
        "transition-slow"@
    } else {
        "ease"@
    }
}

/// The `k`-th value of the dark theme.
pub open spec fn dark_value(k: int) -> Seq<char> {
    if k == 0 {
        "8px"@
    } else if k == 1 {
        "16px"@
    } else if k == 2 {
        "120%"@
    } else if k == 3 {
        "rgba(255, 255, 255, 0.08)"@
    } else if k == 4 {
        "rgba(255, 255, 255, 0.12)"@
    } else if k == 5 {
        "rgba(0, 0, 0, 0.15)"@
    } else if k == 6 {
        "rgba(255, 255, 255, 0.03)"@
    } else if k == 7 {
        "rgba(255, 255, 255, 0.06)"@
    } else if k == 8 {
        "rgba(255, 255, 255, 0.10)"@
    } else if k == 9 {
        "rgba(255, 255, 255, 0.15)"@
    } else if k == 10 {
        "1px"@
    } else if k == 11 {
        "0.5rem"@
    } else if k == 12 {
        "0.75rem"@
    } else if k == 13 {
        "1rem"@
    } else if k == 14 {
        "1.5rem"@
    } else if k == 15 {
        "9999px"@
    } else if k == 16 {
        "rgba(99, 102, 241, 1)"@
    } else if k == 17 {
        "rgba(129, 132, 255, 1)"@
    } else if k == 18 {
        "rgba(99, 102, 241, 0.3)"@
    } else if k == 19 {
        "rgba(255, 255, 255, 0.95)"@
    } else if k == 20 {
        "rgba(255, 255, 255, 0.65)"@
    } else if k == 21 {
        "rgba(255, 255, 255, 0.40)"@
    } else if k == 22 {
        "rgba(255, 255, 255, 1.0)"@
    } else if k == 23 {
        "rgba(52, 211, 153, 1)"@
    } else if k == 24 {
        "rgba(52, 211, 153, 0.15)"@
    } else if k == 25 {
        "rgba(251, 191, 36, 1)"@
    } else if k == 26 {
        "rgba(251, 191, 36, 0.15)"@
    } else if k == 27 {
        "rgba(248, 113, 113, 1)"@
    } else if k == 28 {
        "rgba(248, 113, 113, 0.15)"@
    } else if k == 29 {
        "rgba(96, 165, 250, 1)"@
    } else if k == 30 {
        "rgba(96, 165, 250, 0.15)"@
    } else if k == 31 {
        "inset 0 0.5px 0 0 rgba(255, 255, 255, 0.08), 0 1px 2px rgba(0, 0, 0, 0.2)"@
    } else if k == 32 {
        "inset 0 0.5px 0 0 rgba(255, 255, 255, 0.1), 0 4px 16px rgba(0, 0, 0, 0.15)"@
    } else if k == 33 {
        "inset 0 0.5px 0 0 rgba(255, 255, 255, 0.12), 0 8px 32px rgba(0, 0, 0, 0.2)"@
    } else if k == 34 {
        "inset 0 1px 0 0 rgba(255, 255, 255, 0.14), 0 16px 48px rgba(0, 0, 0, 0.25)"@
    } else if k == 35 {
        "inset 0 1px 3px rgba(0, 0, 0, 0.15), inset 0 -0.5px 0 0 rgba(255, 255, 255, 0.06)"@
    } else if k == 36 {
        "100ms"@
    } else if k == 37 {
        "200ms"@
    } else if k == 38 {
        "400ms"@
    } else {
        "cubic-bezier(0.16, 1, 0.3, 1)"@
    }
}

/// The `k`-th value of the light theme.
pub open spec fn light_value(k: int) -> Seq<char> {
    if k == 0 {
        "8px"@
    } else if k == 1 {
        "16px"@
    } else if k == 2 {
        "120%"@
    } else if k == 3 {
        "rgba(255, 255, 255, 0.60)"@
    } else if k == 4 {
        "rgba(255, 255, 255, 0.70)"@
    } else if k == 5 {
        "rgba(0, 0, 0, 0.05)"@
    } else if k == 6 {
        "rgba(255, 255, 255, 0.10)"@
    } else if k == 7 {
        "rgba(0, 0, 0, 0.04)"@
    } else if k == 8 {
        "rgba(0, 0, 0, 0.08)"@
    } else if k == 9 {
        "rgba(0, 0, 0, 0.12)"@
    } else if k == 10 {
        "1px"@
    } else if k == 11 {
        "0.5rem"@
    } else if k == 12 {
        "0.75rem"@
    } else if k == 13 {
        "1rem"@
    } else if k == 14 {
        "1.5rem"@
    } else if k == 15 {
        "9999px"@
    } else if k == 16 {
        "rgba(99, 102, 241, 1)"@
    } else if k == 17 {
        "rgba(129, 132, 255, 1)"@
    } else if k == 18 {
        "rgba(99, 102, 241, 0.3)"@
    } else if k == 19 {
        "rgba(0, 0, 0, 0.90)"@
    } else if k == 20 {
        "rgba(0, 0, 0, 0.60)"@
    } else if k == 21 {
        "rgba(0, 0, 0, 0.35)"@
    } else if k == 22 {
        "rgba(255, 255, 255, 1.0)"@
    } else if k == 23 {
        "rgba(52, 211, 153, 1)"@
    } else if k == 24 {
        "rgba(52, 211, 153, 0.15)"@
    } else if k == 25 {
        "rgba(251, 191, 36, 1)"@
    } else if k == 26 {
        "rgba(251, 191, 36, 0.15)"@
    } else if k == 27 {
        "rgba(248, 113, 113, 1)"@
    } else if k == 28 {
        "rgba(248, 113, 113, 0.15)"@
    } else if k == 29 {
        "rgba(96, 165, 250, 1)"@
    } else if k == 30 {
        "rgba(96, 165, 250, 0.15)"@
    } else if k == 31 {
        "inset 0 0.5px 0 0 rgba(255, 255, 255, 0.4), 0 1px 2px rgba(0, 0, 0, 0.06)"@
    } else if k == 32 {
        "inset 0 0.5px 0 0 rgba(255, 255, 255, 0.5), 0 4px 16px rgba(0, 0, 0, 0.08)"@
    } else if k == 33 {
        "inset 0 0.5px 0 0 rgba(255, 255, 255, 0.5), 0 8px 32px rgba(0, 0, 0, 0.10)"@
    } else if k == 34 {
        "inset 0 1px 0 0 rgba(255, 255, 255, 0.6), 0 16px 48px rgba(0, 0, 0, 0.12)"@
    } else if k == 35 {
        "inset 0 1px 3px rgba(0, 0, 0, 0.06), inset 0 -0.5px 0 0 rgba(255, 255, 255, 0.3)"@
    } else if k == 36 {
        "100ms"@
    } else if k == 37 {
        "200ms"@
    } else if k == 38 {
        "400ms"@
    } else {
        "cubic-bezier(0.16, 1, 0.3, 1)"@
    }
}

/// The dark theme's values, in field order.
pub open spec fn dark_values() -> Seq<Seq<char>> {
    Seq::new(THEME_VALUES as nat, |k: int| dark_value(k))
}

/// The light theme's values, in field order.
pub open spec fn light_values() -> Seq<Seq<char>> {
    Seq::new(THEME_VALUES as nat, |k: int| light_value(k))
}

impl GlassTheme {
    /// The `k`-th value, in field order.
    pub open spec fn value(&self, k: int) -> Seq<char> {
        if k == 0 {
            self.blur@
        } else if k == 1 {
            self.blur_heavy@
        } else if k == 2 {
            self.saturation@
        } else if k == 3 {
            self.bg@
        } else if k == 4 {
            self.bg_elevated@
        } else if k == 5 {
            self.bg_inset@
        } else if k == 6 {
            self.tint@
        } else if k == 7 {
            self.border_color@
        } else if k == 8 {
            self.border_color_hover@
        } else if k == 9 {
            self.border_color_focus@
        } else if k == 10 {
            self.border_width@
        } else if k == 11 {
            self.border_radius_sm@
        } else if k == 12 {
            self.border_radius@
        } else if k == 13 {
            self.border_radius_lg@
        } else if k == 14 {
            self.border_radius_xl@
        } else if k == 15 {
            self.border_radius_full@
        } else if k == 16 {
            self.accent@
        } else if k == 17 {
            self.accent_hover@
        } else if k == 18 {
            self.accent_muted@
        } else if k == 19 {
            self.text_primary@
        } else if k == 20 {
            self.text_secondary@
        } else if k == 21 {
            self.text_tertiary@
        } else if k == 22 {
            self.text_on_accent@
        } else if k == 23 {
            self.success@
        } else if k == 24 {
            self.success_muted@
        } else if k == 25 {
            self.warning@
        } else if k == 26 {
            self.warning_muted@
        } else if k == 27 {
            self.error@
        } else if k == 28 {
            self.error_muted@
        } else if k == 29 {
            self.info@
        } else if k == 30 {
            self.info_muted@
        } else if k == 31 {
            self.shadow_sm@
        } else if k == 32 {
            self.shadow@
        } else if k == 33 {
            self.shadow_lg@
        } else if k == 34 {
            self.shadow_xl@
        } else if k == 35 {
            self.shadow_inset@
        } else if k == 36 {
            self.transition_fast@
        } else if k == 37 {
            self.transition@
        } else if k == 38 {
            self.transition_slow@
        } else {
            self.ease@
        }
    }
}

impl View for GlassTheme {
    type V = Seq<Seq<char>>;

    /// The theme's values, in field order.
    open spec fn view(&self) -> Seq<Seq<char>> {
        Seq::new(THEME_VALUES as nat, |k: int| self.value(k))
    }
}

/// One variable declaration: `--glass-<name>: <value>;`.
pub open spec fn var_decl(name: Seq<char>, value: Seq<char>) -> Seq<char> {
    "--glass-"@ + name + ": "@ + value + ";"@
}

/// The declarations of the first `n` variables, one after the other.
pub open spec fn var_decls(values: Seq<Seq<char>>, n: int) -> Seq<char>
    decreases n,
{
    if n <= 0 {
        Seq::empty()
    } else {
        var_decls(values, n - 1) + var_decl(var_name(n - 1), values[n - 1])
    }
}

/// The raw CSS of a theme: every variable, in field order.
pub open spec fn style_sheet(values: Seq<Seq<char>>) -> Seq<char> {
    var_decls(values, values.len() as int)
}

fn var_name_at(k: usize) -> (r: &'static str)
    requires
        k < THEME_VALUES,
    ensures
        r@ == var_name(k as int),
{
    if k == 0 {
        "blur"
    } else if k == 1 {
        "blur-heavy"
    } else if k == 2 {
        "saturation"
    } else if k == 3 {
        "bg"
    } else if k == 4 {
        "bg-elevated"
    } else if k == 5 {
        "bg-inset"
    } else if k == 6 {
        "tint"
    } else if k == 7 {
        "border-color"
    } else if k == 8 {
        "border-color-hover"
    } else if k == 9 {
        "border-color-focus"
    } else if k == 10 {
        "border-width"
    } else if k == 11 {
        "border-radius-sm"
    } else if k == 12 {
        "border-radius"
    } else if k == 13 {
        "border-radius-lg"
    } else if k == 14 {
        "border-radius-xl"
    } else if k == 15 {
        "border-radius-full"
    } else if k == 16 {
        "accent"
    } else if k == 17 {
        "accent-hover"
    } else if k == 18 {
        "accent-muted"
    } else if k == 19 {
        "text-primary"
    } else if k == 20 {
        "text-secondary"
    } else if k == 21 {
        "text-tertiary"
    } else if k == 22 {
        "text-on-accent"
    } else if k == 23 {
        "success"
    } else if k == 24 {
        "success-muted"
    } else if k == 25 {
        "warning"
    } else if k == 26 {
        "warning-muted"
    } else if k == 27 {
        "error"
    } else if k == 28 {
        "error-muted"
    } else if k == 29 {
        "info"
    } else if k == 30 {
        "info-muted"
    } else if k == 31 {
        "shadow-sm"
    } else if k == 32 {
        "shadow"
    } else if k == 33 {
        "shadow-lg"
    } else if k == 34 {
        "shadow-xl"
    } else if k == 35 {
        "shadow-inset"
    } else if k == 36 {
        "transition-fast"
    } else if k == 37 {
        "transition"
    } else if k == 38 {
        "transition-slow"
    } else {
        "ease"
    }
}

impl GlassTheme {
    fn value_at(&self, k: usize) -> (r: &String)
        requires
            k < THEME_VALUES,
        ensures
            r@ == self.value(k as int),
    {
        if k == 0 {
            &self.blur
        } else if k == 1 {
            &self.blur_heavy
        } else if k == 2 {
            &self.saturation
        } else if k == 3 {
            &self.bg
        } else if k == 4 {
            &self.bg_elevated
        } else if k == 5 {
            &self.bg_inset
        } else if k == 6 {
            &self.tint
        } else if k == 7 {
            &self.border_color
        } else if k == 8 {
            &self.border_color_hover
        } else if k == 9 {
            &self.border_color_focus
        } else if k == 10 {
            &self.border_width
        } else if k == 11 {
            &self.border_radius_sm
        } else if k == 12 {
            &self.border_radius
        } else if k == 13 {
            &self.border_radius_lg
        } else if k == 14 {
            &self.border_radius_xl
        } else if k == 15 {
            &self.border_radius_full
        } else if k == 16 {
            &self.accent
        } else if k == 17 {
            &self.accent_hover
        } else if k == 18 {
            &self.accent_muted
        } else if k == 19 {
            &self.text_primary
        } else if k == 20 {
            &self.text_secondary
        } else if k == 21 {
            &self.text_tertiary
        } else if k == 22 {
            &self.text_on_accent
        } else if k == 23 {
            &self.success
        } else if k == 24 {
            &self.success_muted
        } else if k == 25 {
            &self.warning
        } else if k == 26 {
            &self.warning_muted
        } else if k == 27 {
            &self.error
        } else if k == 28 {
            &self.error_muted
        } else if k == 29 {
            &self.info
        } else if k == 30 {
            &self.info_muted
        } else if k == 31 {
            &self.shadow_sm
        } else if k == 32 {
            &self.shadow
        } else if k == 33 {
            &self.shadow_lg
        } else if k == 34 {
            &self.shadow_xl
        } else if k == 35 {
            &self.shadow_inset
        } else if k == 36 {
            &self.transition_fast
        } else if k == 37 {
            &self.transition
        } else if k == 38 {
            &self.transition_slow
        } else {
            &self.ease
        }
    }

    /// Default dark glassmorphic theme (visionOS-inspired).
    pub fn dark() -> (r: Self)
        ensures
            r@ == dark_values(),
    {
        let r = Self {
            blur: owned("8px"),
            blur_heavy: owned("16px"),
            saturation: owned("120%"),
            bg: owned("rgba(255, 255, 255, 0.08)"),
            bg_elevated: owned("rgba(255, 255, 255, 0.12)"),
            bg_inset: owned("rgba(0, 0, 0, 0.15)"),
            tint: owned("rgba(255, 255, 255, 0.03)"),
            border_color: owned("rgba(255, 255, 255, 0.06)"),
            border_color_hover: owned("rgba(255, 255, 255, 0.10)"),
            border_color_focus: owned("rgba(255, 255, 255, 0.15)"),
            border_width: owned("1px"),
            border_radius_sm: owned("0.5rem"),
            border_radius: owned("0.75rem"),
            border_radius_lg: owned("1rem"),
            border_radius_xl: owned("1.5rem"),
            border_radius_full: owned("9999px"),
            accent: owned("rgba(99, 102, 241, 1)"),
            accent_hover: owned("rgba(129, 132, 255, 1)"),
            accent_muted: owned("rgba(99, 102, 241, 0.3)"),
            text_primary: owned("rgba(255, 255, 255, 0.95)"),
            text_secondary: owned("rgba(255, 255, 255, 0.65)"),
            text_tertiary: owned("rgba(255, 255, 255, 0.40)"),
            text_on_accent: owned("rgba(255, 255, 255, 1.0)"),
            success: owned("rgba(52, 211, 153, 1)"),
            success_muted: owned("rgba(52, 211, 153, 0.15)"),
            warning: owned("rgba(251, 191, 36, 1)"),
            warning_muted: owned("rgba(251, 191, 36, 0.15)"),
            error: owned("rgba(248, 113, 113, 1)"),
            error_muted: owned("rgba(248, 113, 113, 0.15)"),
            info: owned("rgba(96, 165, 250, 1)"),
            info_muted: owned("rgba(96, 165, 250, 0.15)"),
            shadow_sm: owned("inset 0 0.5px 0 0 rgba(255, 255, 255, 0.08), 0 1px 2px rgba(0, 0, 0, 0.2)"),
            shadow: owned("inset 0 0.5px 0 0 rgba(255, 255, 255, 0.1), 0 4px 16px rgba(0, 0, 0, 0.15)"),
            shadow_lg: owned("inset 0 0.5px 0 0 rgba(255, 255, 255, 0.12), 0 8px 32px rgba(0, 0, 0, 0.2)"),
            shadow_xl: owned("inset 0 1px 0 0 rgba(255, 255, 255, 0.14), 0 16px 48px rgba(0, 0, 0, 0.25)"),
            shadow_inset: owned("inset 0 1px 3px rgba(0, 0, 0, 0.15), inset 0 -0.5px 0 0 rgba(255, 255, 255, 0.06)"),
            transition_fast: owned("100ms"),
            transition: owned("200ms"),
            transition_slow: owned("400ms"),
            ease: owned("cubic-bezier(0.16, 1, 0.3, 1)"),
        };
        assert(r@ =~= dark_values());
        r
    }

    /// Light glassmorphic theme for use on light backgrounds: the dark theme
    /// with lighter surfaces, borders, text and shadows.
    pub fn light() -> (r: Self)
        ensures
            r@ == light_values(),
    {
        let r = Self {
            blur: owned("8px"),
            blur_heavy: owned("16px"),
            saturation: owned("120%"),
            bg: owned("rgba(255, 255, 255, 0.60)"),
            bg_elevated: owned("rgba(255, 255, 255, 0.70)"),
            bg_inset: owned("rgba(0, 0, 0, 0.05)"),
            tint: owned("rgba(255, 255, 255, 0.10)"),
            border_color: owned("rgba(0, 0, 0, 0.04)"),
            border_color_hover: owned("rgba(0, 0, 0, 0.08)"),
            border_color_focus: owned("rgba(0, 0, 0, 0.12)"),
            border_width: owned("1px"),
            border_radius_sm: owned("0.5rem"),
            border_radius: owned("0.75rem"),
            border_radius_lg: owned("1rem"),
            border_radius_xl: owned("1.5rem"),
            border_radius_full: owned("9999px"),
            accent: owned("rgba(99, 102, 241, 1)"),
            accent_hover: owned("rgba(129, 132, 255, 1)"),
            accent_muted: owned("rgba(99, 102, 241, 0.3)"),
            text_primary: owned("rgba(0, 0, 0, 0.90)"),
            text_secondary: owned("rgba(0, 0, 0, 0.60)"),
            text_tertiary: owned("rgba(0, 0, 0, 0.35)"),
            text_on_accent: owned("rgba(255, 255, 255, 1.0)"),
            success: owned("rgba(52, 211, 153, 1)"),
            success_muted: owned("rgba(52, 211, 153, 0.15)"),
            warning: owned("rgba(251, 191, 36, 1)"),
            warning_muted: owned("rgba(251, 191, 36, 0.15)"),
            error: owned("rgba(248, 113, 113, 1)"),
            error_muted: owned("rgba(248, 113, 113, 0.15)"),
            info: owned("rgba(96, 165, 250, 1)"),
            info_muted: owned("rgba(96, 165, 250, 0.15)"),
            shadow_sm: owned("inset 0 0.5px 0 0 rgba(255, 255, 255, 0.4), 0 1px 2px rgba(0, 0, 0, 0.06)"),
            shadow: owned("inset 0 0.5px 0 0 rgba(255, 255, 255, 0.5), 0 4px 16px rgba(0, 0, 0, 0.08)"),
            shadow_lg: owned("inset 0 0.5px 0 0 rgba(255, 255, 255, 0.5), 0 8px 32px rgba(0, 0, 0, 0.10)"),
            shadow_xl: owned("inset 0 1px 0 0 rgba(255, 255, 255, 0.6), 0 16px 48px rgba(0, 0, 0, 0.12)"),
            shadow_inset: owned("inset 0 1px 3px rgba(0, 0, 0, 0.06), inset 0 -0.5px 0 0 rgba(255, 255, 255, 0.3)"),
            transition_fast: owned("100ms"),
            transition: owned("200ms"),
            transition_slow: owned("400ms"),
            ease: owned("cubic-bezier(0.16, 1, 0.3, 1)"),
        };
        assert(r@ =~= light_values());
        r
    }

    /// Convert to raw CSS variable declarations.
    pub fn to_style_sheet_raw(&self) -> (r: String)
        ensures
            r@ == style_sheet(self@),
    {
        let mut out: Vec<char> = Vec::new();
        let mut k: usize = 0;
        while k < THEME_VALUES
            invariant
                k <= THEME_VALUES,
                out@ == var_decls(self@, k as int),
            decreases THEME_VALUES - k,
        {
            extend_chars(&mut out, &chars_of("--glass-"));
            extend_chars(&mut out, &chars_of(var_name_at(k)));
            extend_chars(&mut out, &chars_of(": "));
            extend_chars(&mut out, &chars_of(self.value_at(k).as_str()));
            extend_chars(&mut out, &chars_of(";"));
            assert(self@[k as int] == self.value(k as int));
            assert(out@ =~= var_decls(self@, k + 1));
            k += 1;
        }
        string_of(&out)
    }

    pub fn with_accent(self, accent: &str) -> (r: Self)
        ensures
            r@ == self@.update(16, accent@),
    {
        let mut s = self;
        s.accent = owned(accent);
        assert(s@ =~= self@.update(16, accent@));
        s
    }

    pub fn with_accent_hover(self, accent_hover: &str) -> (r: Self)
        ensures
            r@ == self@.update(17, accent_hover@),
    {
        let mut s = self;
        s.accent_hover = owned(accent_hover);
        assert(s@ =~= self@.update(17, accent_hover@));
        s
    }

    pub fn with_blur(self, blur: &str) -> (r: Self)
        ensures
            r@ == self@.update(0, blur@),
    {
        let mut s = self;
        s.blur = owned(blur);
        assert(s@ =~= self@.update(0, blur@));
        s
    }

    pub fn with_blur_heavy(self, blur_heavy: &str) -> (r: Self)
        ensures
            r@ == self@.update(1, blur_heavy@),
    {
        let mut s = self;
        s.blur_heavy = owned(blur_heavy);
        assert(s@ =~= self@.update(1, blur_heavy@));
        s
    }

    pub fn with_bg(self, bg: &str) -> (r: Self)
        ensures
            r@ == self@.update(3, bg@),
    {
        let mut s = self;
        s.bg = owned(bg);
        assert(s@ =~= self@.update(3, bg@));
        s
    }

    pub fn with_border_radius(self, radius: &str) -> (r: Self)
        ensures
            r@ == self@.update(12, radius@),
    {
        let mut s = self;
        s.border_radius = owned(radius);
        assert(s@ =~= self@.update(12, radius@));
        s
    }

}

impl Default for GlassTheme {
    fn default() -> (r: Self)
        ensures
            r@ == dark_values(),
    {
        Self::dark()
    }
}

} // verus!
