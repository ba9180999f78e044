use dwind::grammar::{parse_class_string, DwindClassSelector};
use dwind::media_queries::Breakpoint;

fn first(input: &str) -> DwindClassSelector {
    parse_class_string(input).unwrap().remove(0)
}

#[test]
fn named_breakpoints() {
    assert_eq!(Breakpoint::try_from_str("@xs"), Some(Breakpoint::VerySmall));
    assert_eq!(Breakpoint::try_from_str("@sm"), Some(Breakpoint::Small));
    assert_eq!(Breakpoint::try_from_str("@md"), Some(Breakpoint::Medium));
    assert_eq!(Breakpoint::try_from_str("@lg"), Some(Breakpoint::Large));
    assert_eq!(Breakpoint::try_from_str("@xl"), Some(Breakpoint::VeryLarge));
    assert_eq!(Breakpoint::try_from_str("@is[dark]"), None);
}

#[test]
fn class_breakpoints() {
    let c = first("@sm:@is[dark]:padding-5");
    assert!(c.conditionals_are_defined());
    let bp = c.get_breakpoint().unwrap();
    assert_eq!(bp.breakpoint, Breakpoint::Small);
    assert_eq!(bp.modifier, None);
    assert!(!bp.is_media_query);

    let bp = first("@<md:flex-col").get_breakpoint().unwrap();
    assert_eq!(bp.breakpoint, Breakpoint::Medium);
    assert_eq!(bp.modifier, Some("<".to_string()));

    let bp = first("@((max-width: 700px)):hidden").get_breakpoint().unwrap();
    assert_eq!(
        bp.breakpoint,
        Breakpoint::MediaQuery("(max-width: 700px)".to_string())
    );
    assert!(bp.is_media_query);

    assert!(first("hover:flex").get_breakpoint().is_none());
    assert_eq!(first("@sm:@lg:flex").breakpoints().len(), 2);
}
