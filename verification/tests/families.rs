use twm_core::families::{conflict_edges, prop_family, utility_override};

#[test]
fn box_families() {
    assert_eq!(prop_family("padding", "p-*"), "p");
    assert_eq!(prop_family("padding-inline", "px-*"), "px");
    assert_eq!(prop_family("padding-inline-start", "ps-*"), "ps");
    assert_eq!(prop_family("margin-block-start", "mbs-*"), "mbs");
    assert_eq!(prop_family("inset-inline", "inset-x-*"), "inset-x");
    assert_eq!(prop_family("border-top-width", "border-t-*"), "border-w-t");
    assert_eq!(
        prop_family("border-inline-start-color", "border-s-*"),
        "border-color-s"
    );
}

#[test]
fn overrides() {
    assert_eq!(prop_family("box-shadow", "shadow-*"), "shadow");
    assert_eq!(prop_family("box-shadow", "ring-*"), "ring");
    assert_eq!(prop_family("--tw-ring-width", "ring-*"), "ring");
    assert_eq!(prop_family("--tw-ring-color", "ring-*"), "ring-color");
    assert_eq!(prop_family("filter", "blur-*"), "blur");
    assert_eq!(prop_family("filter", "grayscale"), "grayscale");
    assert_eq!(prop_family("touch-action", "touch-pan-right"), "touch-x");
    assert_eq!(prop_family("touch-action", "touch-pan-y"), "touch-y");
}

#[test]
fn unknown_properties_get_their_own_family() {
    assert_eq!(prop_family("--my-prop", "x-*"), "custom..--my-prop");
    assert_eq!(prop_family("writing-mode", "x"), "arbitrary..writing-mode");
}

#[test]
fn color_family_depends_on_utility() {
    assert_eq!(prop_family("color", "text-*"), "text-color");
    assert_eq!(prop_family("color", "outline-*"), "outline-color");
    assert_eq!(prop_family("color", "accent-*"), "color");
    assert_eq!(prop_family("touch-action", "touch-pinch-zoom"), "touch-pz");
    assert_eq!(prop_family("touch-action", "touch-none"), "touch");
}

#[test]
fn override_table_entries() {
    assert_eq!(
        utility_override("border"),
        Some(("border-w".to_string(), Some(vec!["border-width".to_string()])))
    );
    assert_eq!(utility_override("sr-only"), Some(("sr".to_string(), Some(vec![]))));
    assert_eq!(utility_override("size-*"), Some(("size".to_string(), None)));
    assert_eq!(utility_override("p-*"), None);
}

#[test]
fn edges_of_shorthands() {
    assert_eq!(conflict_edges("px"), vec!["pr", "pl"]);
    assert_eq!(conflict_edges("touch-x"), vec!["touch"]);
    assert_eq!(conflict_edges("size"), vec!["w", "h"]);
    assert!(conflict_edges("pr").is_empty());
}
