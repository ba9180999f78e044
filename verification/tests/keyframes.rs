use dwind::keyframes::{
    body_literal, entry_attribute, handle_ident, kebab, keyframes_option, render_entries,
    render_entry, EntryAttribute, KeyframesBody, KeyframesEntry, KeyframesName, KeyframesOption,
};

fn stops(entries: &[(&str, &str)]) -> KeyframesBody {
    KeyframesBody::Stops(
        entries
            .iter()
            .map(|(s, d)| (s.to_string(), d.to_string()))
            .collect(),
    )
}

fn entry(ident: &str, body: KeyframesBody) -> KeyframesEntry {
    KeyframesEntry {
        name_override: None,
        animation: None,
        ident: ident.to_string(),
        body,
    }
}

#[test]
fn stops_become_one_keyframes_body() {
    let e = entry("fade_up", stops(&[("from", "opacity: 0;"), ("to", "opacity: 1;")]));
    let out = render_entry(&e, None);

    assert_eq!(out.body, "from { opacity: 0; } to { opacity: 1; }");
    assert_eq!(out.handle, "FADE_UP_KEYFRAMES");
    assert!(out.animation.is_none());
}

#[test]
fn comma_separated_percentage_stops_survive_verbatim() {
    let e = entry(
        "aurora",
        stops(&[
            ("0%, 100%", "transform: translate3d(0, 0, 0) scale(1);"),
            ("33%", "transform: translate3d(6%, -8%, 0) scale(1.15);"),
        ]),
    );
    let out = body_literal(&e);

    assert!(out.contains("0%, 100% {"), "{out}");
    assert!(out.contains("translate3d(6%, -8%, 0) scale(1.15)"), "{out}");
}

#[test]
fn animation_attribute_mints_a_utility_class() {
    let mut e = entry("fade_up", stops(&[("from", "opacity: 0;")]));
    e.animation = Some("900ms ease-out both".to_string());
    let out = render_entry(&e, None);
    let animation = out.animation.unwrap();

    assert_eq!(animation.raw_ident, "ANIMATE_FADE_UP_RAW");
    assert_eq!(animation.class_ident, "ANIMATE_FADE_UP");
    assert_eq!(animation.shorthand, " 900ms ease-out both;");
    assert_eq!(animation.class_name, "animate-fade-up");
    assert_eq!(animation.class_prefix, "animate_fade_up");
}

#[test]
fn names_are_namespaced_by_default_and_pinnable() {
    let e = entry("fade_up", stops(&[("from", "opacity: 0;")]));
    assert_eq!(
        render_entry(&e, None).name,
        KeyframesName::CrateScoped("-fade-up".to_string())
    );
    assert_eq!(
        render_entry(&e, Some("app")).name,
        KeyframesName::Literal("app-fade-up".to_string())
    );

    let mut e = entry("spin", stops(&[("from", "opacity: 0;")]));
    e.name_override = Some("spin".to_string());
    assert_eq!(
        render_entry(&e, None).name,
        KeyframesName::Literal("spin".to_string())
    );
}

#[test]
fn register_fn_ensures_every_declared_rule() {
    let entries = vec![
        entry("a", stops(&[("from", "opacity: 0;")])),
        entry("b", stops(&[("from", "opacity: 0;")])),
    ];
    let out = render_entries(&entries, None);
    let handles: Vec<_> = out.iter().map(|r| r.handle.clone()).collect();
    assert_eq!(handles, ["A_KEYFRAMES", "B_KEYFRAMES"]);
    assert_eq!(handle_ident(&entries[1]), "B_KEYFRAMES");
}

#[test]
fn raw_bodies_pass_through_untouched() {
    let e = entry(
        "marquee",
        KeyframesBody::Raw("from { left: 0; } to { left: -50%; }".to_string()),
    );
    let out = render_entry(&e, None);
    assert_eq!(out.body, "from { left: 0; } to { left: -50%; }");
    assert_eq!(out.name_ident, "MARQUEE_KEYFRAMES_NAME");
    assert_eq!(out.body_ident, "MARQUEE_KEYFRAMES_BODY");
}

#[test]
fn kebab_case_names() {
    assert_eq!(kebab(&"fade_up_slow".to_string()), "fade-up-slow");
    assert_eq!(kebab(&"spin".to_string()), "spin");
}

#[test]
fn only_known_options_and_attributes_are_taken() {
    assert_eq!(keyframes_option("prefix"), Some(KeyframesOption::Prefix));
    assert_eq!(keyframes_option("register_fn"), Some(KeyframesOption::RegisterFn));
    assert_eq!(keyframes_option("path"), Some(KeyframesOption::Path));
    assert_eq!(keyframes_option("bogus"), None);
    assert_eq!(entry_attribute("doc"), Some(EntryAttribute::Doc));
    assert_eq!(entry_attribute("name"), Some(EntryAttribute::Name));
    assert_eq!(entry_attribute("animation"), Some(EntryAttribute::Animation));
    assert_eq!(entry_attribute("prefix"), None);
}
