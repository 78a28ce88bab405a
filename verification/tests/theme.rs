use twm_core::css;
use twm_core::design_system_with_css;
use twm_core::theme::Theme;

#[test]
fn spacing_scale_is_derived_from_spacing() {
    let prog = css::parse("@theme { --spacing: 0.25rem; --color-red: red; }");
    let t = Theme::from_program(&prog);
    assert!(t.has_key("--spacing-4"));
    assert!(t.has_key("--spacing-px"));
    assert!(t.has_key_with_prefix("--color-", "red"));
    assert!(!t.has_key_with_prefix("--color-", "blue"));
    assert!(!t.has_key("--spacing-13"));
}

#[test]
fn no_spacing_scale_without_spacing() {
    let prog = css::parse("@theme { --color-red: red; }");
    let t = Theme::from_program(&prog);
    assert!(!t.has_key("--spacing-4"));
    assert!(t.has_key("--color-red"));
}

#[test]
fn design_system_from_three_sources() {
    let ds = design_system_with_css(
        "@theme { --spacing: 0.25rem; }",
        "@utility p-* { padding: --value(--spacing, <length>); }",
        "@utility block { display: block; }",
        &[("rtl-x".to_string(), vec![("--twmo-family:rtl.x".to_string(), String::new())])],
    );
    assert_eq!(ds.resolve("p-4").unwrap().family, "p");
    assert_eq!(ds.resolve("block").unwrap().family, "display");
    assert_eq!(ds.resolve("rtl-x").unwrap().family, "rtl.x");
}
