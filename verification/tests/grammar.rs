use dwind::grammar::{
    class_string_parses, css_identifier, generator_parameters, parse_class_string,
    pseudo_selector, selectors,
    DwindClassSelector,
};

#[test]
fn media_query_parser() {
    let v = selectors("foo @((max-width: 500px) and (max-height: 500px)):bar @is[white]:bg-[5px] ")
        .unwrap();
    assert_eq!(v.1.len(), 3);
    assert_eq!(v.1[1].1[0], "@((max-width: 500px) and (max-height: 500px))")
}

#[test]
fn verify_selectors_parser() {
    let v = selectors("foo @sm:bar @is[white]:bg-[5px] ").unwrap();
    assert_eq!(v.1.len(), 3);
    let v = selectors("@sm:@is[dark]:@is[selected]:foo @<sm:bar").unwrap();
    assert_eq!(v.1.len(), 2);
}

#[test]
fn verify_conditionals_parser() {
    assert_eq!(
        parse_class_string("@sm:@is[dark]:padding-5").unwrap(),
        vec![DwindClassSelector {
            class_name: "padding_5".to_string(),
            pseudo_classes: vec![],
            conditionals: vec!["@sm".to_string(), "@is[dark]".to_string()],
            generator_params: vec![],
            variant: None,
            ..Default::default()
        }]
    );
}

#[test]
fn verify_parser() {
    assert_eq!(
        parse_class_string("padding-[5px]").unwrap(),
        vec![DwindClassSelector {
            class_name: "padding_".to_string(),
            pseudo_classes: vec![],
            conditionals: vec![],
            generator_params: vec!["5px".to_string()],
            variant: None,
            ..Default::default()
        }]
    );

    assert_eq!(
        parse_class_string("foo/0.25").unwrap(),
        vec![DwindClassSelector {
            class_name: "foo/0.25".to_string(),
            pseudo_classes: vec![],
            conditionals: vec![],
            generator_params: vec![],
            variant: None,
            ..Default::default()
        }]
    );

    assert_eq!(
        parse_class_string("foo[1/2]").unwrap(),
        vec![DwindClassSelector {
            class_name: "foo".to_string(),
            pseudo_classes: vec![],
            conditionals: vec![],
            generator_params: vec!["1/2".to_string()],
            variant: None,
            ..Default::default()
        }]
    );
}

#[test]
fn verify_generator_parser() {
    assert_eq!(
        generator_parameters("[foobar-test]").unwrap().1,
        vec!["foobar-test".to_string()]
    );
    assert_eq!(
        generator_parameters("[a%,5px,42]").unwrap().1,
        vec!["a%", "5px", "42"]
    );
}

#[test]
fn verify_class_list_parser() {
    let classes = parse_class_string("hover:foo bar nth-child(1):baz").unwrap();
    let class_names = classes
        .into_iter()
        .map(|v| v.class_name)
        .collect::<Vec<_>>();

    assert_eq!(class_names, ["foo", "bar", "baz"])
}

#[test]
fn verify_pseudo_selector() {
    assert_eq!(pseudo_selector("foo:").unwrap().1, "foo".to_string());
    assert_eq!(pseudo_selector("foo(1):").unwrap().1, "foo(1)".to_string());
    assert_eq!(
        pseudo_selector("is(:not(:nth-child(1)) *):").unwrap().1,
        "is(:not(:nth-child(1)) *)".to_string()
    );
}

#[test]
fn verify_css_identifier() {
    assert_eq!(css_identifier("foo").unwrap().1, "foo".to_string());
    assert_eq!(css_identifier("foo-bar").unwrap().1, "foo-bar".to_string());
    assert_eq!(css_identifier("foo_baz").unwrap().1, "foo_baz".to_string());
    assert_eq!(css_identifier("foo/0.2").unwrap().1, "foo/0.2".to_string());
}

#[test]
fn verify_child_selector_parser() {
    let parsed = parse_class_string("a [& > *]:is(p):b c").unwrap();
    assert_eq!(parsed.len(), 3);
    assert_eq!(parsed[1].variant, Some(" > *".to_string()));

    let parsed = parse_class_string("[& > *:is(span):hover]:is(p):b").unwrap();
    assert_eq!(parsed[0].variant, Some(" > *:is(span):hover".to_string()));
}

#[test]
fn pins_documented_variant_forms() {
    let parsed = parse_class_string("[& > *]:nth-child(2):bg-candlelight-500").unwrap();
    assert_eq!(parsed.len(), 1);
    assert_eq!(parsed[0].variant, Some(" > *".to_string()));
    assert_eq!(parsed[0].pseudo_classes, vec!["nth-child(2)".to_string()]);
    assert_eq!(parsed[0].class_name, "bg_candlelight_500");

    let parsed = parse_class_string("[> span]:text-apple-300").unwrap();
    assert_eq!(parsed[0].variant, Some("> span".to_string()));
    assert_eq!(parsed[0].class_name, "text_apple_300");
}

#[test]
fn pins_pseudo_element_variants() {
    let parsed = parse_class_string("[&::before]:opacity-0").unwrap();
    assert_eq!(parsed.len(), 1);
    assert_eq!(parsed[0].variant, Some("::before".to_string()));
    assert_eq!(parsed[0].class_name, "opacity_0");

    let parsed = parse_class_string("[&.reveal-in > *]:opacity-100").unwrap();
    assert_eq!(parsed[0].variant, Some(".reveal-in > *".to_string()));
}

#[test]
fn pins_breakpoint_forms() {
    let parsed = parse_class_string("@sm:flex-row").unwrap();
    assert_eq!(parsed[0].conditionals, vec!["@sm".to_string()]);

    let parsed = parse_class_string("@<sm:flex-col").unwrap();
    assert_eq!(parsed[0].conditionals, vec!["@<sm".to_string()]);

    let parsed = parse_class_string("@((max-width: 700px)):hidden").unwrap();
    assert_eq!(
        parsed[0].conditionals,
        vec!["@((max-width: 700px))".to_string()]
    );

    let parsed = parse_class_string("@((prefers-reduced-motion: reduce)):animate-none").unwrap();
    assert_eq!(
        parsed[0].conditionals,
        vec!["@((prefers-reduced-motion: reduce))".to_string()]
    );
    assert_eq!(parsed[0].class_name, "animate_none");
}

#[test]
fn arbitrary_declaration_is_distinct_from_a_variant() {
    let parsed = parse_class_string("[mask-composite:exclude]").unwrap();
    assert_eq!(parsed.len(), 1);
    assert_eq!(
        parsed[0].arbitrary,
        Some("mask-composite:exclude".to_string())
    );
    assert_eq!(parsed[0].class_name, "");
    assert_eq!(parsed[0].variant, None);
    assert!(parsed[0].is_arbitrary());

    let parsed = parse_class_string("[& > *]:opacity-0").unwrap();
    assert_eq!(parsed[0].variant, Some(" > *".to_string()));
    assert_eq!(parsed[0].arbitrary, None);
    assert_eq!(parsed[0].class_name, "opacity_0");
}

#[test]
fn arbitrary_declarations_cover_the_awkward_characters() {
    let parsed = parse_class_string("[--sx:50%]").unwrap();
    assert_eq!(parsed[0].arbitrary, Some("--sx:50%".to_string()));

    let parsed = parse_class_string("[grid-template-columns:repeat(2,minmax(0,1fr))]").unwrap();
    assert_eq!(
        parsed[0].arbitrary,
        Some("grid-template-columns:repeat(2,minmax(0,1fr))".to_string())
    );

    let parsed = parse_class_string("[content:\"x\"]").unwrap();
    assert_eq!(parsed[0].arbitrary, Some("content:\"x\"".to_string()));
}

#[test]
fn arbitrary_declarations_compose_with_modifiers() {
    let parsed = parse_class_string("hover:[color:red]").unwrap();
    assert_eq!(parsed[0].pseudo_classes, vec!["hover".to_string()]);
    assert_eq!(parsed[0].arbitrary, Some("color:red".to_string()));

    let parsed = parse_class_string("[&::before]:[mask-composite:exclude]").unwrap();
    assert_eq!(parsed[0].variant, Some("::before".to_string()));
    assert_eq!(
        parsed[0].arbitrary,
        Some("mask-composite:exclude".to_string())
    );

    let parsed = parse_class_string("@sm:[color:red]").unwrap();
    assert_eq!(parsed[0].conditionals, vec!["@sm".to_string()]);
    assert_eq!(parsed[0].arbitrary, Some("color:red".to_string()));
}

#[test]
fn arbitrary_declarations_no_longer_truncate_the_class_list() {
    let parsed = parse_class_string("foo [mask-composite:exclude] bar").unwrap();

    assert_eq!(parsed.len(), 3);
    assert_eq!(parsed[0].class_name, "foo");
    assert_eq!(
        parsed[1].arbitrary,
        Some("mask-composite:exclude".to_string())
    );
    assert_eq!(parsed[2].class_name, "bar");
}

#[test]
fn classes_may_be_separated_by_any_whitespace() {
    let parsed = parse_class_string("foo  bar\n  baz\tqux").unwrap();
    let names = parsed.into_iter().map(|v| v.class_name).collect::<Vec<_>>();

    assert_eq!(names, ["foo", "bar", "baz", "qux"]);
}

#[test]
fn arbitrary_declarations_accept_any_css_value() {
    let parsed = parse_class_string("before:[content:'→'] before:m-r-2").unwrap();
    assert_eq!(parsed.len(), 2, "{parsed:?}");
    assert_eq!(parsed[0].arbitrary, Some("content:'→'".to_string()));
    assert_eq!(parsed[1].class_name, "m_r_2");

    let parsed = parse_class_string("[color:var(--brand_color)]").unwrap();
    assert_eq!(
        parsed[0].arbitrary,
        Some("color:var(--brand_color)".to_string())
    );

    let parsed = parse_class_string("[transition:opacity 650ms ease] flex").unwrap();
    assert_eq!(parsed.len(), 2);
    assert_eq!(
        parsed[0].arbitrary,
        Some("transition:opacity 650ms ease".to_string())
    );
    assert_eq!(parsed[1].class_name, "flex");
}

#[test]
fn pins_generator_forms() {
    let parsed = parse_class_string("padding-[20px]").unwrap();
    assert_eq!(parsed[0].class_name, "padding_");
    assert_eq!(parsed[0].generator_params, vec!["20px".to_string()]);
    assert!(parsed[0].is_generator());
}

#[test]
fn unparseable_input_is_refused() {
    assert!(!class_string_parses("foo ((bad)) bar"));
    assert!(!class_string_parses("foo [bar"));
    assert!(class_string_parses("foo  bar\n"));
    assert!(class_string_parses(""));
}

#[test]
fn prefixed_classes_read_alike_whatever_whitespace_separates_them() {
    let whole = parse_class_string("hover:foo\u{2003}@sm:bar\n\t@<md:hover:baz-qux").unwrap();
    let mut pieces = parse_class_string("hover:foo").unwrap();
    pieces.extend(parse_class_string("@sm:bar").unwrap());
    pieces.extend(parse_class_string("@<md:hover:baz-qux").unwrap());
    assert_eq!(whole, pieces);
    assert_eq!(whole[2].class_name, "baz_qux");
    assert_eq!(whole[2].pseudo_classes, vec!["hover".to_string()]);
    assert_eq!(whole[2].conditionals, vec!["@<md".to_string()]);
}

#[test]
fn bracketed_classes_read_alike_whatever_whitespace_separates_them() {
    let whole = parse_class_string("[& > *]:bg-color-[#fff,50%]\n\t[transition:opacity 650ms ease]  hover:[content:'x'] ")
        .unwrap();
    let mut pieces = parse_class_string("[& > *]:bg-color-[#fff,50%]").unwrap();
    pieces.extend(parse_class_string("[transition:opacity 650ms ease]").unwrap());
    pieces.extend(parse_class_string("hover:[content:'x']").unwrap());
    assert_eq!(whole.len(), 3);
    assert_eq!(whole, pieces);
    assert_eq!(whole[1].arbitrary, Some("transition:opacity 650ms ease".to_string()));
}
