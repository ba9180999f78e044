use vstd::prelude::*;
use crate::text::{chars_of, string_of, extend_chars, owned};

verus! {

#[derive(Copy, Clone, Eq, PartialEq, Debug)]
pub enum GlassSurfaceLevel {
    /// Default surface — subtle frosted glass.
    Base,
    /// Elevated surface — cards, modals, dropdowns. More blur and opacity.
    Elevated,
    /// Inset/recessed surface — inputs, toggle tracks. Dark inward appearance.
    Inset,
}

/// The inline styles of a glass surface, all referencing `--glass-*`
/// variables so that they follow the active theme.
#[derive(Debug, PartialEq, Eq)]
pub struct SurfaceStyles {
    /// `background`
    pub background: String,
    /// `backdrop-filter` and `-webkit-backdrop-filter`
    pub backdrop_filter: String,
    /// `border`
    pub border: String,
    /// `box-shadow`
    pub box_shadow: String,
}

pub open spec fn surface_background(level: GlassSurfaceLevel) -> Seq<char> {
    match level {
        GlassSurfaceLevel::Base => "var(--glass-bg)"@,
        GlassSurfaceLevel::Elevated => "var(--glass-bg-elevated)"@,
        GlassSurfaceLevel::Inset => "var(--glass-bg-inset)"@,
    }
}

pub open spec fn surface_blur(level: GlassSurfaceLevel) -> Seq<char> {
    match level {
        GlassSurfaceLevel::Base | GlassSurfaceLevel::Inset => "var(--glass-blur)"@,
        GlassSurfaceLevel::Elevated => "var(--glass-blur-heavy)"@,
    }
}

pub open spec fn surface_shadow(level: GlassSurfaceLevel) -> Seq<char> {
    match level {
        GlassSurfaceLevel::Base => "var(--glass-shadow-sm)"@,
        GlassSurfaceLevel::Elevated => "var(--glass-shadow)"@,
        GlassSurfaceLevel::Inset => "var(--glass-shadow-inset)"@,
    }
}

/// The glassmorphic surface effect of a level: `blur(..)` of its blur
/// variable, saturated by the theme's saturation, over its background.
pub fn glass_surface_styles(level: GlassSurfaceLevel) -> (r: SurfaceStyles)
    ensures
        r.background@ == surface_background(level),
        r.backdrop_filter@ == "blur("@ + surface_blur(level) + ") saturate(var(--glass-saturation))"@,
        r.border@ == "none"@,
        r.box_shadow@ == surface_shadow(level),
{
    let bg_var = match level {
        GlassSurfaceLevel::Base => "var(--glass-bg)",
        GlassSurfaceLevel::Elevated => "var(--glass-bg-elevated)",
        GlassSurfaceLevel::Inset => "var(--glass-bg-inset)",
    };
    let blur_var = match level {
        GlassSurfaceLevel::Base | GlassSurfaceLevel::Inset => "var(--glass-blur)",
        GlassSurfaceLevel::Elevated => "var(--glass-blur-heavy)",
    };
    let shadow_var = match level {
        GlassSurfaceLevel::Base => "var(--glass-shadow-sm)",
        GlassSurfaceLevel::Elevated => "var(--glass-shadow)",
        GlassSurfaceLevel::Inset => "var(--glass-shadow-inset)",
    };
    let mut blur = chars_of("blur(");
    extend_chars(&mut blur, &chars_of(blur_var));
    extend_chars(&mut blur, &chars_of(") saturate(var(--glass-saturation))"));
    SurfaceStyles {
        background: owned(bg_var),
        backdrop_filter: string_of(&blur),
        border: owned("none"),
        box_shadow: owned(shadow_var),
    }
}

} // verus!
