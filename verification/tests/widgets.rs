use dwind::widgets::button::{button_attributes, button_styles, ButtonSize, ButtonVariant};
use dwind::widgets::controls::{
    checkbox_styles, control_ring, disabled_styles, is_selected, radio_group_ring, radio_styles,
    toggle_styles,
};
use dwind::widgets::data_display::{
    avatar_metrics, progress_fill, table_row_background, tooltip_placement, AvatarSize,
    ProgressVariant, TooltipPosition,
};
use dwind::widgets::dropdown::{
    combobox_step, dropdown_step, ComboboxEvent, ComboboxState, DropdownEvent, DropdownState,
};
use dwind::widgets::fields::{
    combobox_field_styles, merge_validation, option_styles, panel_styles, select_field_styles,
    select_value_color, text_input_styles, ValidationResult,
};
use dwind::widgets::navigation::{
    breadcrumbs, menu_item_styles, nav_item_styles, navbar_position, sidebar_width, tab_styles,
    Crumb, MenuItemVariant,
};
use dwind::widgets::surfaces::{
    badge_colors, card_styles, modal_styles, stat_card_shadow, trend_marker, BadgeVariant,
    CardVariant, ModalSize, TrendDirection,
};

#[test]
fn button_sizes_pick_their_classes_and_radius() {
    let s = button_styles(ButtonVariant::Glass, ButtonSize::Small, false, false, false);
    assert_eq!(s.size_classes, "h-8 px-3 text-sm gap-1");
    assert_eq!(s.border_radius, "var(--glass-border-radius-sm)");
    let m = button_styles(ButtonVariant::Glass, ButtonSize::Medium, false, false, false);
    assert_eq!(m.size_classes, "h-10 px-4 text-base gap-2");
    assert_eq!(m.border_radius, "var(--glass-border-radius)");
    let l = button_styles(ButtonVariant::Glass, ButtonSize::Large, false, false, false);
    assert_eq!(l.size_classes, "h-12 px-6 text-lg gap-2");
    assert_eq!(l.border_radius, "var(--glass-border-radius-lg)");
}

#[test]
fn button_hover_changes_an_enabled_surface_only() {
    let rest = button_styles(ButtonVariant::Filled, ButtonSize::Medium, false, false, false);
    assert_eq!(rest.background, "var(--glass-accent)");
    let hover = button_styles(ButtonVariant::Filled, ButtonSize::Medium, true, false, false);
    assert_eq!(hover.background, "var(--glass-accent-hover)");
    let disabled = button_styles(ButtonVariant::Filled, ButtonSize::Medium, true, false, true);
    assert_eq!(disabled.background, "var(--glass-accent)");
    let danger = button_styles(ButtonVariant::Danger, ButtonSize::Medium, true, false, false);
    assert_eq!(danger.background, "rgba(248, 113, 113, 0.85)");
    let text = button_styles(ButtonVariant::TextOnly, ButtonSize::Medium, false, false, false);
    assert_eq!(text.background, "transparent");
    let text_hover = button_styles(ButtonVariant::TextOnly, ButtonSize::Medium, true, false, false);
    assert_eq!(text_hover.background, "var(--glass-bg)");
}

#[test]
fn only_glass_buttons_blur_and_cast_a_shadow() {
    let g = button_styles(ButtonVariant::Glass, ButtonSize::Medium, false, true, false);
    assert_eq!(
        g.backdrop_filter,
        "blur(var(--glass-blur)) saturate(var(--glass-saturation))"
    );
    assert_eq!(g.box_shadow, "var(--glass-shadow-sm)");
    assert_eq!(g.color, "var(--glass-text-primary)");
    assert_eq!(g.transform, "scale(0.98)");
    let f = button_styles(ButtonVariant::Filled, ButtonSize::Medium, false, false, false);
    assert_eq!(f.backdrop_filter, "none");
    assert_eq!(f.box_shadow, "none");
    assert_eq!(f.color, "var(--glass-text-on-accent)");
    assert_eq!(f.transform, "scale(1)");
}

#[test]
fn disabled_controls_fade_and_ignore_the_pointer() {
    let d = disabled_styles(true);
    assert_eq!((d.opacity, d.cursor, d.pointer_events), ("0.5", "not-allowed", "none"));
    let e = disabled_styles(false);
    assert_eq!((e.opacity, e.cursor, e.pointer_events), ("1", "pointer", "auto"));
}

#[test]
fn control_rings() {
    assert_eq!(
        control_ring(true, false, false),
        "var(--glass-shadow-inset), 0 0 0 2px var(--glass-error-muted)"
    );
    assert_eq!(
        control_ring(true, false, true),
        "var(--glass-shadow-inset), 0 0 0 1px rgba(255, 255, 255, 0.10)"
    );
    assert_eq!(control_ring(true, true, true), "var(--glass-shadow-inset)");
    assert_eq!(control_ring(false, false, true), "var(--glass-shadow-inset)");
}

#[test]
fn toggle_and_checkbox_follow_their_value() {
    let on = toggle_styles(true, false, false);
    assert_eq!(on.track_background, "var(--glass-accent)");
    assert_eq!(on.thumb_transform, "translateX(22px)");
    assert_eq!(on.aria_checked, "true");
    let off = toggle_styles(false, true, false);
    assert_eq!(off.track_background, "var(--glass-bg-inset)");
    assert_eq!(off.thumb_transform, "translateX(2px)");
    assert_eq!(
        off.track_ring,
        "var(--glass-shadow-inset), 0 0 0 1px rgba(255, 255, 255, 0.10)"
    );
    let c = checkbox_styles(true, false, false, false);
    assert_eq!(c.box_background, "var(--glass-accent)");
    assert_eq!(c.mark_opacity, "1");
    assert_eq!(c.mark_transform, "scale(1)");
    assert_eq!(
        c.box_ring,
        "var(--glass-shadow-inset), 0 0 0 2px var(--glass-error-muted)"
    );
    let u = checkbox_styles(false, false, false, true);
    assert_eq!(u.mark_opacity, "0");
    assert_eq!(u.mark_transform, "scale(0.5)");
    assert_eq!(u.aria_checked, "false");
}

#[test]
fn a_radio_dot_shows_for_the_selected_value_only() {
    let sel = Some("b".to_string());
    assert!(is_selected(&sel, "b"));
    assert!(!is_selected(&sel, "a"));
    assert!(!is_selected(&None, "a"));
    let b = radio_styles(&sel, "b", false, false);
    assert_eq!((b.dot_transform, b.dot_opacity, b.aria_checked), ("scale(1)", "1", "true"));
    let a = radio_styles(&sel, "a", false, false);
    assert_eq!((a.dot_transform, a.dot_opacity, a.aria_checked), ("scale(0)", "0", "false"));
    assert_eq!(radio_group_ring(false), "0 0 0 2px var(--glass-error-muted)");
    assert_eq!(radio_group_ring(true), "none");
}

#[test]
fn a_rejected_input_is_reported_before_the_owners_verdict() {
    let parsed = ValidationResult::Invalid {
        message: "not a number".to_string(),
    };
    let external = ValidationResult::Invalid {
        message: "too large".to_string(),
    };
    let r = merge_validation(parsed, external);
    assert_eq!(r.message(), Some("not a number".to_string()));
    let r = merge_validation(
        ValidationResult::Valid,
        ValidationResult::Invalid {
            message: "too large".to_string(),
        },
    );
    assert_eq!(r.message(), Some("too large".to_string()));
    assert!(!r.is_valid());
    let r = merge_validation(ValidationResult::Valid, ValidationResult::Valid);
    assert!(r.is_valid());
    assert_eq!(r.message(), None);
}

#[test]
fn field_labels_and_rings() {
    let t = text_input_styles(true, false, false, false);
    assert_eq!(t.label_color, "var(--glass-text-secondary)");
    assert_eq!(t.ring, "var(--glass-shadow-inset)");
    let t = text_input_styles(true, false, true, true);
    assert_eq!(t.label_color, "var(--glass-accent)");
    assert_eq!(
        t.ring,
        "var(--glass-shadow-inset), 0 0 0 1px var(--glass-border-color-hover)"
    );
    let t = text_input_styles(false, true, false, false);
    assert_eq!(t.label_color, "var(--glass-error)");
    assert_eq!(
        t.ring,
        "var(--glass-shadow-inset), 0 0 0 2px var(--glass-error-muted)"
    );
    let s = select_field_styles(true, true, false, false, false);
    assert_eq!(s.label_color, "var(--glass-accent)");
    assert_eq!(
        s.ring,
        "var(--glass-shadow-inset), 0 0 0 2px var(--glass-accent-muted)"
    );
    let s = select_field_styles(false, true, true, true, true);
    assert_eq!(s.ring, "var(--glass-shadow-inset)");
    assert_eq!(s.label_color, "var(--glass-error)");
    let c = combobox_field_styles(true, false, false, false, false, "ab");
    assert_eq!(c.label_color, "var(--glass-accent)");
    let c = combobox_field_styles(true, false, false, false, false, "");
    assert_eq!(c.label_color, "var(--glass-text-secondary)");
    assert_eq!(select_value_color(true), "var(--glass-text-primary)");
    assert_eq!(select_value_color(false), "var(--glass-text-tertiary)");
}

#[test]
fn dropdown_rows_and_panel() {
    let s = option_styles(true, true);
    assert_eq!(
        (s.background, s.color, s.aria_selected),
        ("var(--glass-accent-muted)", "var(--glass-accent)", "true")
    );
    let h = option_styles(false, true);
    assert_eq!(h.background, "rgba(255, 255, 255, 0.06)");
    assert_eq!(h.color, "var(--glass-text-primary)");
    let n = option_styles(false, false);
    assert_eq!(n.background, "transparent");
    let open = panel_styles(true);
    assert_eq!(
        (open.opacity, open.visibility, open.pointer_events, open.transform, open.chevron),
        ("1", "visible", "auto", "translateY(0)", "rotate(180deg)")
    );
    let closed = panel_styles(false);
    assert_eq!(
        (closed.opacity, closed.visibility, closed.pointer_events, closed.transform, closed.chevron),
        ("0", "hidden", "none", "translateY(-4px)", "rotate(0deg)")
    );
}

#[test]
fn the_click_that_opens_a_dropdown_does_not_close_it() {
    let s = DropdownState::closed();
    let s = dropdown_step(s, DropdownEvent::TriggerClick);
    assert!(s.open && s.just_opened);
    let s = dropdown_step(s, DropdownEvent::DocumentClick);
    assert!(s.open && !s.just_opened);
    let s = dropdown_step(s, DropdownEvent::DocumentClick);
    assert!(!s.open);
}

#[test]
fn trigger_escape_and_choice_close_an_open_dropdown() {
    let open = DropdownState {
        open: true,
        just_opened: false,
    };
    let t = dropdown_step(open, DropdownEvent::TriggerClick);
    assert!(!t.open);
    let t = dropdown_step(t, DropdownEvent::DocumentClick);
    assert!(!t.open);
    assert!(!dropdown_step(open, DropdownEvent::Escape).open);
    assert!(!dropdown_step(open, DropdownEvent::Chosen).open);
}

#[test]
fn a_combobox_searches_picks_and_closes() {
    let s = ComboboxState {
        open: false,
        query: String::new(),
        selected: None,
    };
    let s = combobox_step(s, ComboboxEvent::Focused);
    assert!(s.open);
    let s = combobox_step(s, ComboboxEvent::Typed("ap".to_string()));
    assert!(s.open);
    assert_eq!(s.query, "ap");
    let s = combobox_step(s, ComboboxEvent::Picked("apple".to_string()));
    assert!(!s.open);
    assert_eq!(s.query, "");
    assert_eq!(s.selected, Some("apple".to_string()));
    let s = combobox_step(s, ComboboxEvent::Typed("x".to_string()));
    let s = combobox_step(s, ComboboxEvent::Escape);
    assert!(!s.open);
    assert_eq!(s.query, "");
    assert_eq!(s.selected, Some("apple".to_string()));
    let s = combobox_step(s, ComboboxEvent::Focused);
    let s = combobox_step(s, ComboboxEvent::FocusLost);
    assert!(!s.open);
}

#[test]
fn card_badge_and_modal_styles() {
    let d = card_styles(CardVariant::Default, false);
    assert_eq!(
        d.background,
        "linear-gradient(to bottom, rgba(255, 255, 255, 0.06) 0%, transparent 50%), var(--glass-bg-elevated)"
    );
    assert_eq!(d.box_shadow, "var(--glass-shadow)");
    let e = card_styles(CardVariant::Elevated, true);
    assert_eq!(
        e.backdrop_filter,
        "blur(var(--glass-blur-heavy)) saturate(var(--glass-saturation))"
    );
    assert_eq!(
        e.box_shadow,
        "var(--glass-shadow-xl), 0 0 0 1px rgba(255, 255, 255, 0.08)"
    );
    let i = card_styles(CardVariant::Inset, true);
    assert_eq!(i.background, "var(--glass-bg-inset)");
    assert_eq!(i.box_shadow, "var(--glass-shadow-inset)");
    let b = badge_colors(BadgeVariant::Warning);
    assert_eq!(
        (b.background, b.color),
        ("var(--glass-warning-muted)", "var(--glass-warning)")
    );
    let b = badge_colors(BadgeVariant::Default);
    assert_eq!((b.background, b.color), ("var(--glass-bg)", "var(--glass-text-secondary)"));
    let m = modal_styles(ModalSize::Full, false);
    assert_eq!(
        (m.width, m.pointer_events, m.opacity, m.transform),
        ("90vw", "none", "0", "scale(0.97)")
    );
    let m = modal_styles(ModalSize::Small, true);
    assert_eq!(
        (m.width, m.pointer_events, m.opacity, m.transform),
        ("24rem", "auto", "1", "scale(1)")
    );
    assert_eq!(stat_card_shadow(false), "var(--glass-shadow)");
    let up = trend_marker(TrendDirection::Up);
    assert_eq!((up.symbol, up.color), ("\u{2191}", "var(--glass-success)"));
    let flat = trend_marker(TrendDirection::Neutral);
    assert_eq!((flat.symbol, flat.color), ("\u{2192}", "var(--glass-text-tertiary)"));
}

#[test]
fn tabs_and_navigation_items() {
    let a = tab_styles(2, 2, false);
    assert_eq!(
        (a.underline, a.color, a.aria_selected, a.panel_display),
        ("var(--glass-accent)", "var(--glass-accent)", "true", "block")
    );
    let h = tab_styles(1, 2, true);
    assert_eq!(
        (h.underline, h.color, h.aria_selected, h.panel_display),
        ("var(--glass-border-color-hover)", "var(--glass-text-primary)", "false", "none")
    );
    let n = nav_item_styles(true, true, false, true);
    assert_eq!(n.background, "var(--glass-accent-muted)");
    assert_eq!(n.color, "var(--glass-accent)");
    assert_eq!((n.padding, n.gap, n.justify_content), ("8px", "0px", "center"));
    assert_eq!((n.label_opacity, n.label_max_width, n.badge_max_width), ("0", "0px", "0px"));
    let d = nav_item_styles(true, true, true, false);
    assert_eq!((d.background, d.color), ("transparent", "var(--glass-text-tertiary)"));
    assert_eq!((d.label_max_width, d.badge_max_width), ("200px", "100px"));
    assert_eq!(navbar_position(true), ("sticky", "0"));
    assert_eq!(navbar_position(false), ("relative", "auto"));
    assert_eq!(sidebar_width(true), "4rem");
    assert_eq!(sidebar_width(false), "16rem");
}

#[test]
fn breadcrumb_trail() {
    assert_eq!(breadcrumbs(&vec![]), vec![]);
    assert_eq!(breadcrumbs(&vec![true]), vec![Crumb::Current(0)]);
    assert_eq!(
        breadcrumbs(&vec![true, false, true]),
        vec![
            Crumb::Link(0),
            Crumb::Separator,
            Crumb::Text(1),
            Crumb::Separator,
            Crumb::Current(2)
        ]
    );
}

#[test]
fn menu_entries() {
    let d = menu_item_styles(MenuItemVariant::Danger, false, true);
    assert_eq!(d.background, "rgba(255, 255, 255, 0.06)");
    assert_eq!(d.color, "var(--glass-error)");
    assert_eq!(d.disabled, None);
    let x = menu_item_styles(MenuItemVariant::Danger, true, true);
    assert_eq!(x.background, "transparent");
    assert_eq!(x.color, "var(--glass-text-tertiary)");
    assert_eq!(x.disabled, Some(("0.5", "none")));
    let p = menu_item_styles(MenuItemVariant::Default, false, false);
    assert_eq!(p.color, "var(--glass-text-primary)");
}

#[test]
fn data_display_styles() {
    assert_eq!(avatar_metrics(AvatarSize::Small), ("32px", "0.75rem"));
    assert_eq!(avatar_metrics(AvatarSize::Large), ("56px", "1.125rem"));
    assert_eq!(progress_fill(ProgressVariant::Error), "var(--glass-error)");
    assert_eq!(table_row_background(true, false, 3), "rgba(255, 255, 255, 0.03)");
    assert_eq!(table_row_background(true, false, 2), "transparent");
    assert_eq!(table_row_background(false, false, 3), "transparent");
    assert_eq!(table_row_background(false, true, 2), "rgba(255, 255, 255, 0.06)");
    let t = tooltip_placement(TooltipPosition::Left, false);
    assert_eq!(
        (t.offset, t.center, t.transform, t.opacity, t.visibility),
        ("right", "top", "translateY(-50%) translateX(4px)", "0", "hidden")
    );
    let t = tooltip_placement(TooltipPosition::Bottom, true);
    assert_eq!(
        (t.offset, t.center, t.transform, t.opacity, t.visibility),
        ("top", "left", "translateX(-50%)", "1", "visible")
    );
}

#[test]
fn loading_buttons_are_busy_and_refuse_clicks() {
    let idle = button_attributes(false, false);
    assert_eq!((idle.disabled, idle.aria_disabled, idle.aria_busy, idle.spinner), (None, None, None, false));
    let loading = button_attributes(false, true);
    assert_eq!(
        (loading.disabled, loading.aria_disabled, loading.aria_busy, loading.spinner),
        (Some("disabled"), Some("true"), Some("true"), true)
    );
    let disabled = button_attributes(true, false);
    assert_eq!(
        (disabled.disabled, disabled.aria_disabled, disabled.aria_busy, disabled.spinner),
        (Some("disabled"), Some("true"), None, false)
    );
}
