use twm_core::candidate::{parse_class_name, sort_modifiers};

#[test]
fn parses_simple() {
    let p = parse_class_name("hover:p-2", None);
    assert_eq!(p.modifiers, vec!["hover"]);
    assert_eq!(p.base_class_name, "p-2");
    assert!(!p.has_important);
    assert_eq!(p.maybe_postfix_position, None);
}

#[test]
fn parses_important_and_postfix() {
    let p = parse_class_name("hover:focus:!inset-x-1", None);
    assert_eq!(p.modifiers, vec!["hover", "focus"]);
    assert!(p.has_important);
    assert_eq!(p.base_class_name, "inset-x-1");
    let p = parse_class_name("text-lg/7", None);
    assert_eq!(p.base_without_postfix(), "text-lg");
    assert_eq!(p.maybe_postfix_position, Some(7));
}

#[test]
fn ignores_brackets_and_parens() {
    let p = parse_class_name("[&>*]:[color:red]", None);
    assert_eq!(p.modifiers, vec!["[&>*]"]);
    assert_eq!(p.base_class_name, "[color:red]");
    let p = parse_class_name("bg-(--my-color)", None);
    assert_eq!(p.base_class_name, "bg-(--my-color)");
}

fn strings(v: &[&str]) -> Vec<String> {
    v.iter().map(|s| s.to_string()).collect()
}

#[test]
fn sorts_modifiers() {
    assert_eq!(sort_modifiers(&strings(&["c", "d", "e"])), strings(&["c", "d", "e"]));
    assert_eq!(sort_modifiers(&strings(&["*", "before"])), strings(&["*", "before"]));
    assert_eq!(
        sort_modifiers(&strings(&["x", "y", "*", "z"])),
        strings(&["x", "y", "*", "z"])
    );
    assert_eq!(
        sort_modifiers(&strings(&["hover", "[&>*]", "dark"])),
        strings(&["hover", "[&>*]", "dark"])
    );
}

#[test]
fn prefix() {
    let p = parse_class_name("tw:block", Some("tw"));
    assert_eq!(p.base_class_name, "block");
    assert!(!p.is_external);
    let p = parse_class_name("block", Some("tw"));
    assert!(p.is_external);
}

#[test]
fn sorts_plain_modifiers_alphabetically() {
    assert_eq!(
        sort_modifiers(&strings(&["hover", "focus", "dark"])),
        strings(&["dark", "focus", "hover"])
    );
}

#[test]
fn sorting_keeps_segments_between_anchors() {
    assert_eq!(
        sort_modifiers(&strings(&["z", "a", "*", "y", "b"])),
        strings(&["a", "z", "*", "b", "y"])
    );
    assert_eq!(
        sort_modifiers(&strings(&["hover", "[&>*]", "dark", "before", "b", "a"])),
        strings(&["hover", "[&>*]", "dark", "before", "a", "b"])
    );
}

#[test]
fn sorting_is_idempotent_on_an_example() {
    let once = sort_modifiers(&strings(&["y", "x", "before", "w", "v"]));
    let twice = sort_modifiers(&once);
    assert_eq!(once, twice);
}

#[test]
fn important_suffix_is_recognised() {
    let p = parse_class_name("p-2!", None);
    assert!(p.has_important);
    assert_eq!(p.base_class_name, "p-2");
}

#[test]
fn postfix_without_position_when_slash_leads() {
    let p = parse_class_name("w-1/2", None);
    assert_eq!(p.maybe_postfix_position, Some(3));
    assert_eq!(p.base_without_postfix(), "w-1");
}

#[test]
fn postfix_counts_within_the_base_after_a_leading_bang() {
    let p = parse_class_name("!text-lg/7", None);
    assert!(p.has_important);
    assert_eq!(p.base_class_name, "text-lg/7");
    assert_eq!(p.maybe_postfix_position, Some(7));
    assert_eq!(p.base_without_postfix(), "text-lg");
    let p = parse_class_name("hover:!text-lg/7", None);
    assert_eq!(p.maybe_postfix_position, Some(7));
    assert_eq!(p.base_without_postfix(), "text-lg");
}

#[test]
fn prefixed_class_parses_like_its_rest() {
    let a = parse_class_name("tw:hover:!p-2/5", Some("tw"));
    let b = parse_class_name("hover:!p-2/5", None);
    assert_eq!(a, b);
    let c = parse_class_name("hover:p-2", Some("tw"));
    assert!(c.is_external);
    assert!(c.modifiers.is_empty());
    assert_eq!(c.base_class_name, "hover:p-2");
}

#[test]
fn order_sensitive_list() {
    let l = twm_core::candidate::order_sensitive_modifiers();
    assert_eq!(l.len(), 12);
    assert!(l.contains(&"before") && l.contains(&"*") && !l.contains(&"hover"));
    assert!(twm_core::candidate::is_order_sensitive("selection"));
}
