use twm_core::css::{parse, try_parse};

#[test]
fn parses_theme_and_utilities() {
    let css = r#"
        /* comment */
        @theme default {
            --spacing: 0.25rem;
            --color-red-500: #ef4444;
        }
        @utility p-* {
            padding: --value(--spacing, <length>);
        }
        @utility block { display: block; }
        @variant hover;
        @media (min-width: 1px) { .x { color: red; } }
        .plain { margin: 0; }
    "#;
    let prog = parse(css);
    assert_eq!(prog.theme_var("--spacing").unwrap(), "0.25rem");
    assert_eq!(prog.theme_var("--color-red-500").unwrap(), "#ef4444");
    assert_eq!(prog.utilities.len(), 2);
    assert_eq!(prog.utilities[0].0, "p-*");
    assert_eq!(
        prog.utilities[0].1[0],
        ("padding".into(), "--value(--spacing, <length>)".into())
    );
    assert_eq!(prog.utilities[1].0, "block");
    assert_eq!(prog.variant_names, vec!["hover"]);
}

#[test]
fn skips_unknown_at_rules() {
    let css = "@unknown foo { a { b: c; } } @utility flex { display: flex; }";
    let prog = parse(css);
    assert_eq!(prog.utilities.len(), 1);
    assert_eq!(prog.utilities[0].0, "flex");
}

#[test]
fn later_theme_value_replaces_earlier_one() {
    let prog = parse("@theme { --a: 1; --b: 2; } @theme { --a: 3; }");
    assert_eq!(prog.theme_vars.len(), 2);
    assert_eq!(prog.theme_var("--a").unwrap(), "3");
    assert_eq!(prog.theme_var("--b").unwrap(), "2");
    assert!(prog.theme_var("--c").is_none());
}

#[test]
fn custom_variant_names_are_collected() {
    let prog = parse("@custom-variant dark (&:where(.dark, .dark *)); @variant focus;");
    assert_eq!(prog.variant_names, vec!["dark", "focus"]);
}

#[test]
fn empty_sheet_gives_empty_program() {
    let prog = try_parse("").unwrap();
    assert!(prog.theme_vars.is_empty());
    assert!(prog.utilities.is_empty());
    assert!(prog.variant_names.is_empty());
}
