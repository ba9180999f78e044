use dwind::input::{combobox_display, filter_options, label_of, select_display, GlassSelectOption};
use dwind::palette::ChartPalette;
use dwind::string_rendering::{
    class_name_to_raw_identifier, class_name_to_struct_identifier, sanitize_class_prefix,
};
use dwind::surface::{glass_surface_styles, GlassSurfaceLevel};
use dwind::theme::GlassTheme;

fn expected_sheet(t: &GlassTheme) -> String {
    format!(
        "\
--glass-blur: {blur};\
--glass-blur-heavy: {blur_heavy};\
--glass-saturation: {saturation};\
--glass-bg: {bg};\
--glass-bg-elevated: {bg_elevated};\
--glass-bg-inset: {bg_inset};\
--glass-tint: {tint};\
--glass-border-color: {border_color};\
--glass-border-color-hover: {border_color_hover};\
--glass-border-color-focus: {border_color_focus};\
--glass-border-width: {border_width};\
--glass-border-radius-sm: {border_radius_sm};\
--glass-border-radius: {border_radius};\
--glass-border-radius-lg: {border_radius_lg};\
--glass-border-radius-xl: {border_radius_xl};\
--glass-border-radius-full: {border_radius_full};\
--glass-accent: {accent};\
--glass-accent-hover: {accent_hover};\
--glass-accent-muted: {accent_muted};\
--glass-text-primary: {text_primary};\
--glass-text-secondary: {text_secondary};\
--glass-text-tertiary: {text_tertiary};\
--glass-text-on-accent: {text_on_accent};\
--glass-success: {success};\
--glass-success-muted: {success_muted};\
--glass-warning: {warning};\
--glass-warning-muted: {warning_muted};\
--glass-error: {error};\
--glass-error-muted: {error_muted};\
--glass-info: {info};\
--glass-info-muted: {info_muted};\
--glass-shadow-sm: {shadow_sm};\
--glass-shadow: {shadow};\
--glass-shadow-lg: {shadow_lg};\
--glass-shadow-xl: {shadow_xl};\
--glass-shadow-inset: {shadow_inset};\
--glass-transition-fast: {transition_fast};\
--glass-transition: {transition};\
--glass-transition-slow: {transition_slow};\
--glass-ease: {ease};",
        blur = t.blur,
        blur_heavy = t.blur_heavy,
        saturation = t.saturation,
        bg = t.bg,
        bg_elevated = t.bg_elevated,
        bg_inset = t.bg_inset,
        tint = t.tint,
        border_color = t.border_color,
        border_color_hover = t.border_color_hover,
        border_color_focus = t.border_color_focus,
        border_width = t.border_width,
        border_radius_sm = t.border_radius_sm,
        border_radius = t.border_radius,
        border_radius_lg = t.border_radius_lg,
        border_radius_xl = t.border_radius_xl,
        border_radius_full = t.border_radius_full,
        accent = t.accent,
        accent_hover = t.accent_hover,
        accent_muted = t.accent_muted,
        text_primary = t.text_primary,
        text_secondary = t.text_secondary,
        text_tertiary = t.text_tertiary,
        text_on_accent = t.text_on_accent,
        success = t.success,
        success_muted = t.success_muted,
        warning = t.warning,
        warning_muted = t.warning_muted,
        error = t.error,
        error_muted = t.error_muted,
        info = t.info,
        info_muted = t.info_muted,
        shadow_sm = t.shadow_sm,
        shadow = t.shadow,
        shadow_lg = t.shadow_lg,
        shadow_xl = t.shadow_xl,
        shadow_inset = t.shadow_inset,
        transition_fast = t.transition_fast,
        transition = t.transition,
        transition_slow = t.transition_slow,
        ease = t.ease,
    )
}

#[test]
fn style_sheet_declares_every_variable() {
    let dark = GlassTheme::dark();
    assert_eq!(dark.to_style_sheet_raw(), expected_sheet(&dark));
    assert!(dark
        .to_style_sheet_raw()
        .starts_with("--glass-blur: 8px;--glass-blur-heavy: 16px;--glass-saturation: 120%;"));
    let light = GlassTheme::light();
    assert_eq!(light.to_style_sheet_raw(), expected_sheet(&light));
}

#[test]
fn light_theme_keeps_the_dark_accents() {
    let dark = GlassTheme::dark();
    let light = GlassTheme::light();
    assert_eq!(light.bg, "rgba(255, 255, 255, 0.60)");
    assert_eq!(light.text_primary, "rgba(0, 0, 0, 0.90)");
    assert_eq!(light.accent, dark.accent);
    assert_eq!(light.blur, dark.blur);
    assert_eq!(light.ease, "cubic-bezier(0.16, 1, 0.3, 1)");
    assert_eq!(GlassTheme::default().bg, dark.bg);
}

#[test]
fn builders_replace_one_value() {
    let t = GlassTheme::dark()
        .with_accent("red")
        .with_accent_hover("pink")
        .with_blur("2px")
        .with_blur_heavy("4px")
        .with_bg("black")
        .with_border_radius("0");
    assert_eq!(t.accent, "red");
    assert_eq!(t.accent_hover, "pink");
    assert_eq!(t.blur, "2px");
    assert_eq!(t.blur_heavy, "4px");
    assert_eq!(t.bg, "black");
    assert_eq!(t.border_radius, "0");
    assert_eq!(t.border_radius_sm, "0.5rem");
    assert!(t.to_style_sheet_raw().contains("--glass-accent: red;"));
}

#[test]
fn palette_cycles_and_fades() {
    let p = ChartPalette::glass();
    assert_eq!(p.color(0), "var(--glass-accent)");
    assert_eq!(p.color(9), "var(--glass-success)");
    assert_eq!(p.highlight_color(8), "var(--glass-accent-hover)");
    assert_eq!(
        p.area_color(0),
        "color-mix(in srgb, var(--glass-accent) 30%, transparent)"
    );
    assert_eq!(p.area_color(5), "rgba(168, 85, 247, 0.2)");
    let custom = ChartPalette {
        colors: vec!["red".to_string(), "f(x)".to_string()],
        highlight: vec!["blue".to_string()],
    };
    assert_eq!(custom.area_color(0), "color-mix(in srgb, red 30%, transparent)");
    assert_eq!(custom.area_color(1), "color-mix(in srgb, f(x) 30%, transparent)");
    let rgb = ChartPalette {
        colors: vec!["rgb(255, 0, 0)".to_string(), "rgba(0, 0, 255, 0.9)".to_string()],
        highlight: vec!["red".to_string()],
    };
    assert_eq!(rgb.area_color(0), "rgba(255, 0, 0, 0.2)");
    assert_eq!(rgb.area_color(1), "rgba(0, 0, 255, 0.2)");
    assert_eq!(ChartPalette::default().colors.len(), 8);
}

#[test]
fn surfaces_follow_their_level() {
    let s = glass_surface_styles(GlassSurfaceLevel::Elevated);
    assert_eq!(s.background, "var(--glass-bg-elevated)");
    assert_eq!(
        s.backdrop_filter,
        "blur(var(--glass-blur-heavy)) saturate(var(--glass-saturation))"
    );
    assert_eq!(s.border, "none");
    assert_eq!(s.box_shadow, "var(--glass-shadow)");
    let s = glass_surface_styles(GlassSurfaceLevel::Inset);
    assert_eq!(s.backdrop_filter, "blur(var(--glass-blur)) saturate(var(--glass-saturation))");
    assert_eq!(s.box_shadow, "var(--glass-shadow-inset)");
}

fn opt(label: &str, value: &str) -> GlassSelectOption {
    GlassSelectOption {
        label: label.to_string(),
        value: value.to_string(),
    }
}

#[test]
fn options_filter_and_display() {
    let options = vec![opt("Apple", "a"), opt("Banana", "b"), opt("Pineapple", "p")];
    let found: Vec<_> = filter_options(&options, "APP").into_iter().map(|o| o.value).collect();
    assert_eq!(found, ["a", "p"]);
    assert_eq!(filter_options(&options, "").len(), 3);
    assert!(filter_options(&options, "kiwi").is_empty());

    assert_eq!(label_of(&options, "b"), Some("Banana".to_string()));
    assert_eq!(label_of(&options, "z"), None);
    assert_eq!(combobox_display(&options, &Some("p".to_string())), "Pineapple");
    assert_eq!(combobox_display(&options, &Some("z".to_string())), "");
    assert_eq!(combobox_display(&options, &None), "");
    assert_eq!(
        select_display(&options, &Some("z".to_string()), &"Pick".to_string()),
        "z"
    );
    assert_eq!(select_display(&options, &None, &"Pick".to_string()), "Pick");
    assert_eq!(
        select_display(&options, &Some("a".to_string()), &"Pick".to_string()),
        "Apple"
    );
}

#[test]
fn identifiers_for_class_names() {
    assert_eq!(
        class_name_to_struct_identifier(&"padding-1/2".to_string()),
        "PADDING_1_OF_2"
    );
    assert_eq!(
        class_name_to_struct_identifier(&"w-0.5".to_string()),
        "W_0_5"
    );
    assert_eq!(
        class_name_to_raw_identifier(&"padding-1/2".to_string()),
        "PADDING_1_2_RAW"
    );
    assert_eq!(sanitize_class_prefix(&"bg-#fff-50%".to_string()), "bg-HBfff-50PP");
}

#[test]
fn identifiers_of_identifiers_are_themselves() {
    for name in ["animate-fade-up", "w-1/2", "w-0.5", "bg-color-#fff"] {
        let y = class_name_to_struct_identifier(&name.to_string());
        assert!(!y.contains('-') && !y.contains('.') && !y.contains('/'));
        assert!(!y.chars().any(|c| c.is_ascii_lowercase()));
        assert_eq!(class_name_to_struct_identifier(&y), y);
    }
    assert_eq!(class_name_to_struct_identifier(&"animate-fade-up".to_string()), "ANIMATE_FADE_UP");
    assert_eq!(class_name_to_struct_identifier(&"w-1/2".to_string()), "W_1_OF_2");
}
