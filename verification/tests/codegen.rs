use dwind::codegen::{
    build_pseudo_selector, declaration_prefix, is_renderable, is_valid_declaration,
    needs_generated_content, normalise_declaration, pseudo_element_alias, render_classes,
    render_dwind_class, render_generate_dwind_class, ClassTokens, RawBody,
};
use dwind::grammar::{parse_class_string, parse_selector};

fn body_text(body: &RawBody) -> String {
    match body {
        RawBody::Css(css) => format!("{:?}", css),
        RawBody::Static(ident) => format!("& * {}", ident),
        RawBody::GeneratorCall(name, params) => format!(
            "{} ! ({})",
            name,
            params.iter().map(|p| format!("{:?}", p)).collect::<Vec<_>>().join(" , ")
        ),
    }
}

/// The code a class stands for, spelled the way the macro emits it.
fn tokens_text(tokens: &ClassTokens) -> String {
    match tokens {
        ClassTokens::Reference(ident) => format!("& * {}", ident),
        ClassTokens::Class { prefix, body } => format!(
            "dominator :: class ! {{ # ! [prefix = {:?}] . raw ({}) }}",
            prefix,
            body_text(body)
        ),
        ClassTokens::PseudoClass { prefix, selector, generated_content, body } => format!(
            "dominator :: class ! {{ # ! [prefix = {:?}] . dominator :: pseudo ! ({:?} , {{ {} . raw ({}) }}) }}",
            prefix,
            selector,
            if *generated_content { ". raw (\"content: var(--dw-content, \\\"\\\");\")" } else { "" },
            body_text(body)
        ),
    }
}

fn render(input: &str) -> String {
    let mut classes = parse_class_string(input).unwrap();

    assert_eq!(classes.len(), 1, "expected exactly one class in {input:?}");

    tokens_text(&render_dwind_class(classes.remove(0)).0)
}

#[test]
fn pseudo_elements_get_generated_content() {
    let rendered = render("[&::before]:opacity-0");

    assert!(rendered.contains("\"::before\""), "{rendered}");
    assert!(rendered.contains("content"), "{rendered}");
}

#[test]
fn pseudo_classes_do_not_get_generated_content() {
    let rendered = render("hover:opacity-0");

    assert!(rendered.contains("\":hover\""), "{rendered}");
    assert!(!rendered.contains("content"), "{rendered}");
}

#[test]
fn content_follows_the_last_compound_not_the_first() {
    let rendered = render("[&::before]:hover:opacity-0");
    assert!(rendered.contains("content"), "{rendered}");

    assert!(!needs_generated_content("::before p"));
    assert!(!needs_generated_content("::before > span"));
    assert!(needs_generated_content("::after"));
}

#[test]
fn before_and_after_aliases_expand_to_pseudo_elements() {
    let rendered = render("before:opacity-0");

    assert!(rendered.contains("\"::before\""), "{rendered}");
    assert!(rendered.contains("content"), "{rendered}");

    let rendered = render("after:opacity-0");
    assert!(rendered.contains("\"::after\""), "{rendered}");
}

#[test]
fn placeholder_alias_expands_but_needs_no_content() {
    let rendered = render("placeholder:opacity-0");

    assert!(rendered.contains("\"::placeholder\""), "{rendered}");
    assert!(!rendered.contains("content"), "{rendered}");
}

#[test]
fn generators_keep_their_variant() {
    let rendered = render("[&::before]:padding-[4px]");

    assert!(rendered.contains("pseudo"), "{rendered}");
    assert!(rendered.contains("\"::before\""), "{rendered}");
    assert!(rendered.contains("content"), "{rendered}");
}

#[test]
fn plain_classes_stay_a_bare_reference() {
    let rendered = render("opacity-0");

    assert!(rendered.contains("OPACITY_0"), "{rendered}");
    assert!(!rendered.contains("pseudo"), "{rendered}");
}

#[test]
fn arbitrary_declarations_are_normalised() {
    let rendered = render("[mask-composite:exclude]");

    assert!(
        rendered.contains("\"mask-composite: exclude;\""),
        "{rendered}"
    );
    assert!(!rendered.contains("pseudo"), "{rendered}");
}

#[test]
fn arbitrary_declaration_values_pass_through_verbatim() {
    let rendered = render("[transition:opacity 650ms ease]");
    assert!(
        rendered.contains("\"transition: opacity 650ms ease;\""),
        "{rendered}"
    );

    let rendered = render("[color:var(--brand_color)]");
    assert!(
        rendered.contains("\"color: var(--brand_color);\""),
        "{rendered}"
    );
}

#[test]
fn arbitrary_declarations_accept_non_ascii_values() {
    let rendered = render("[content:'→']");
    assert!(rendered.contains('→'), "{rendered}");

    let rendered = render("[transform:rotate(45deg)]");
    assert!(
        rendered.contains("\"transform: rotate(45deg);\""),
        "{rendered}"
    );
}

#[test]
fn pseudo_element_content_goes_through_the_custom_property() {
    let rendered = render("before:[content:'x']");
    assert!(rendered.contains("--dw-content: 'x';"), "{rendered}");
    assert!(rendered.contains("content: var(--dw-content"), "{rendered}");

    let rendered = render("[content:'x']");
    assert!(rendered.contains("\"content: 'x';\""), "{rendered}");
    assert!(!rendered.contains("--dw-content"), "{rendered}");
}

#[test]
fn arbitrary_declarations_honour_modifiers() {
    let rendered = render("hover:[color:red]");
    assert!(rendered.contains("\":hover\""), "{rendered}");
    assert!(rendered.contains("\"color: red;\""), "{rendered}");

    let rendered = render("[&::after]:[mask-composite:exclude]");
    assert!(rendered.contains("\"::after\""), "{rendered}");
    assert!(rendered.contains("content"), "{rendered}");
}

#[test]
fn a_bracket_group_with_no_colon_is_not_renderable() {
    let mut classes = parse_class_string("[nonsense]").unwrap();
    assert_eq!(classes.len(), 1);
    assert!(!is_valid_declaration(&"nonsense".to_string()));
    assert!(!is_renderable(&classes.remove(0)));
    assert!(!is_valid_declaration(&"color:".to_string()));
    assert!(!is_valid_declaration(&" :red".to_string()));
}

#[test]
fn child_variants_are_unchanged() {
    let rendered = render("[& > *]:opacity-0");

    assert!(rendered.contains("\" > *\""), "{rendered}");
    assert!(!rendered.contains("content"), "{rendered}");
}

#[test]
fn pseudo_selectors_join_variant_and_prefixes() {
    let selector = build_pseudo_selector(
        &Some("> span".to_string()),
        &vec!["hover".to_string(), "before".to_string(), "first_line".to_string()],
    );
    assert_eq!(selector, "> span:hover::before::first-line");
    assert_eq!(build_pseudo_selector(&None, &vec![]), "");
    assert_eq!(build_pseudo_selector(&Some(" > *".to_string()), &vec![]), " > *");
    assert_eq!(pseudo_element_alias("marker"), Some(":marker".to_string()));
    assert_eq!(pseudo_element_alias("hover"), None);
}

#[test]
fn declarations_are_trimmed_and_content_redirected() {
    assert_eq!(
        normalise_declaration(&" color : red ".to_string(), false),
        "color: red;"
    );
    assert_eq!(
        normalise_declaration(&"content:'x'".to_string(), true),
        "--dw-content: 'x';"
    );
    assert_eq!(
        normalise_declaration(&"grid-area:1/2:3".to_string(), false),
        "grid-area: 1/2:3;"
    );
}

#[test]
fn declaration_prefixes_are_identifier_safe() {
    assert_eq!(declaration_prefix(&"mask-composite:exclude".to_string()), "mask_composite_exclude");
    assert_eq!(declaration_prefix(&"--sx:50%".to_string()), "sx_50");
    assert_eq!(declaration_prefix(&"::".to_string()), "arbitrary");
    let long = "a".repeat(60);
    assert_eq!(declaration_prefix(&long), "a".repeat(40));
}

#[test]
fn generator_classes_call_their_generator() {
    let mut classes = parse_class_string("bg-color-[#fff,50%]").unwrap();
    let (tokens, breakpoint, minted) = render_dwind_class(classes.remove(0));
    assert!(minted);
    assert!(breakpoint.is_none());
    assert_eq!(
        tokens,
        ClassTokens::Class {
            prefix: "bg_color_generator".to_string(),
            body: RawBody::GeneratorCall(
                "bg_color_generator".to_string(),
                vec!["#fff".to_string(), "50%".to_string()]
            ),
        }
    );

    let mut classes = parse_class_string("hover:bg-color-[#fff]").unwrap();
    let (tokens, _, _) = render_dwind_class(classes.remove(0));
    match tokens {
        ClassTokens::PseudoClass { prefix, selector, generated_content, .. } => {
            assert_eq!(prefix, "bg_color_HBfff");
            assert_eq!(selector, ":hover");
            assert!(!generated_content);
        }
        other => panic!("unexpected {other:?}"),
    }
}

#[test]
fn breakpoints_travel_with_the_class() {
    let classes = parse_class_string("@sm:flex @<md:hidden plain").unwrap();
    let rendered = render_classes(classes);
    assert_eq!(rendered.len(), 3);
    assert_eq!(
        rendered[0].1.as_ref().map(|b| b.breakpoint.clone()),
        Some(dwind::media_queries::Breakpoint::Small)
    );
    assert_eq!(
        rendered[1].1.as_ref().and_then(|b| b.modifier.clone()),
        Some("<".to_string())
    );
    assert!(rendered[2].1.is_none());
    assert_eq!(rendered[2].0, ClassTokens::Reference("PLAIN".to_string()));
    assert!(!rendered[2].2);
}

#[test]
fn dwgenerate_names_a_definition() {
    let (_, class) = parse_selector("nth-child(2):hover:padding-[20px]").unwrap();
    let generated = render_generate_dwind_class("nth-2-padding".to_string(), class);
    assert_eq!(generated.ident, "NTH_2_PADDING");
    assert_eq!(generated.raw_ident, "NTH_2_PADDING_RAW");
    assert_eq!(
        generated.raw,
        RawBody::GeneratorCall("padding_generator".to_string(), vec!["20px".to_string()])
    );
    match generated.class {
        ClassTokens::PseudoClass { selector, .. } => assert_eq!(selector, ":nth-child(2):hover"),
        other => panic!("unexpected {other:?}"),
    }

    let (rest, class) = parse_selector("hover:opacity-0 rest").unwrap();
    assert_eq!(rest, " rest");
    let generated = render_generate_dwind_class("fade".to_string(), class);
    assert_eq!(generated.raw, RawBody::Static("OPACITY_0_RAW".to_string()));
}

#[test]
fn generator_names_are_lowercased() {
    let mut classes = parse_class_string("Bg-Color-[red]").unwrap();
    let (tokens, _, minted) = render_dwind_class(classes.remove(0));
    assert!(minted);
    assert_eq!(
        tokens,
        ClassTokens::Class {
            prefix: "bg_color_generator".to_string(),
            body: RawBody::GeneratorCall("bg_color_generator".to_string(), vec!["red".to_string()]),
        }
    );
}
