use twm_core::css;
use twm_core::theme::Theme;
use twm_core::utility::{parse_marker, DesignSystem, SpecItem};

fn ds() -> DesignSystem {
    let css = r#"
        @theme { --text-2xl: 1.5rem; --text-2xl--line-height: 2rem; --spacing: 0.25rem; }
        @utility p-* { padding: --value(--spacing, <length>); }
        @utility w-* { width: --value(--spacing, <fraction>, auto, full); }
        @utility text-* { font-size: --value(--text-*, <tshirt>, <length>, <percentage>); }
        @utility text-* { color: --value(<color>); }
        @utility block { display: block; }
    "#;
    let prog = css::parse(css);
    DesignSystem::from_css(Theme::from_program(&prog), prog.utilities)
}

#[test]
fn resolves_static_and_wildcards() {
    let ds = ds();
    let r = ds.resolve("block").unwrap();
    assert_eq!(r.family, "display");
    let r = ds.resolve("p-2").unwrap();
    assert_eq!(r.family, "p");
    let r = ds.resolve("w-1/2").unwrap();
    assert_eq!(r.family, "w");
    let r = ds.resolve("text-2xl").unwrap();
    assert_eq!(r.family, "font-size");
    let r = ds.resolve("text-red").unwrap();
    assert_eq!(r.family, "text-color");
    assert!(ds.resolve("nope").is_none());
    assert!(ds.resolve("p-xyz").is_none());
}

#[test]
fn resolves_keywords_and_arbitrary_values() {
    let ds = ds();
    assert_eq!(ds.resolve("w-auto").unwrap().family, "w");
    assert_eq!(ds.resolve("p-[3px]").unwrap().family, "p");
    assert_eq!(ds.resolve("p-(--gap)").unwrap().family, "p");
    assert!(ds.resolve("w-half").is_none());
}

#[test]
fn marker_items_are_classified() {
    let items = parse_marker("--spacing, <length>, auto");
    assert_eq!(items.len(), 3);
    assert_eq!(
        items[0],
        SpecItem::ThemeKey { prefix: "--spacing".to_string(), has_star: false }
    );
    assert_eq!(items[1], SpecItem::Type("length"));
    assert_eq!(items[2], SpecItem::Keyword("auto".to_string()));
    let items = parse_marker(",<length>");
    assert_eq!(items, vec![SpecItem::Keyword(String::new()), SpecItem::Type("length")]);
}

#[test]
fn spacing_scale_takes_px_numbers_and_arbitrary_forms() {
    let ds = ds();
    let s = SpecItem::ThemeKey { prefix: "--spacing".to_string(), has_star: false };
    assert!(s.matches(&ds, "4"));
    assert!(s.matches(&ds, "px"));
    assert!(s.matches(&ds, "(--gap)"));
    assert!(s.matches(&ds, "[3px]"));
    assert!(!s.matches(&ds, "red"));
    let t = SpecItem::ThemeKey { prefix: "--text-".to_string(), has_star: true };
    assert!(t.matches(&ds, "2xl"));
    assert!(!t.matches(&ds, "[2xl]"));
}

#[test]
fn negative_and_arbitrary_property_forms() {
    let ds = ds();
    assert_eq!(ds.resolve("-p-2").unwrap().family, ds.resolve("p-2").unwrap().family);
    assert!(ds.resolve("-nope").is_none());
    let r = ds.resolve("[mask-type:luminance]").unwrap();
    assert_eq!(r.family, "arbitrary..mask-type");
    assert_eq!(r.prop_families, vec!["arbitrary..mask-type".to_string()]);
    assert!(ds.resolve("[:red]").is_none());
}

#[test]
fn longest_wildcard_prefix_wins_and_static_names_come_first() {
    let css = r#"
        @utility border-* { border-width: --value(<length>, <number>); }
        @utility border-x-* { border-inline-width: --value(<length>, <number>); }
        @utility border-x { border-inline-width: 1px; }
    "#;
    let prog = css::parse(css);
    let mut rules = prog.utilities.clone();
    rules.push(("größe-*".to_string(), vec![("width".to_string(), "--value(<length>)".to_string())]));
    let ds = DesignSystem::from_css(Theme::from_program(&prog), rules);
    let long = ds.resolve("border-x-2").unwrap();
    assert_eq!(long.prop_families, vec!["border-w-x".to_string()]);
    assert_ne!(ds.resolve("border-2").unwrap().prop_families, long.prop_families);
    assert!(ds.resolve("border-x").is_some());
    assert!(ds.resolve("größe-[3px]").is_some());
    assert!(ds.resolve("größe-x").is_none());
    assert!(ds.resolve("border-x-").is_none());
    assert!(ds.resolve("größ").is_none());
}
