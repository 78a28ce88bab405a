use twm_core::conflict::ConflictTable;
use twm_core::css;
use twm_core::merge::{tw_join, tw_merge, JoinValue};
use twm_core::theme::Theme;
use twm_core::utility::DesignSystem;

fn design_system() -> DesignSystem {
    let css = r#"
        @theme { --spacing: 0.25rem; }
        @utility block { display: block; }
        @utility hidden { display: none; }
        @utility p-* { padding: --value(--spacing, <length>); }
        @utility right-* { right: --value(--spacing, <length>); }
        @utility inset-* { inset: --value(--spacing, <length>); }
    "#;
    let prog = css::parse(css);
    DesignSystem::from_css(Theme::from_program(&prog), prog.utilities)
}

fn merge_with_prefix(classes: &[String], list: &str, prefix: &str) -> String {
    let ds = design_system();
    let table = ConflictTable::from_classes(&ds, classes, Some(prefix));
    tw_merge(&table, list, Some(prefix))
}

#[test]
fn prefixes() {
    let classes: Vec<String> = [
        "tw:block",
        "tw:hidden",
        "block",
        "hidden",
        "tw:p-3",
        "tw:p-2",
        "p-3",
        "p-2",
        "tw:right-0!",
        "tw:inset-0!",
        "tw:hover:focus:right-0!",
        "tw:focus:hover:inset-0!",
    ]
    .iter()
    .map(|s| s.to_string())
    .collect();
    assert_eq!(merge_with_prefix(&classes, "tw:block tw:hidden", "tw"), "tw:hidden");
    assert_eq!(merge_with_prefix(&classes, "block hidden", "tw"), "block hidden");
    assert_eq!(merge_with_prefix(&classes, "tw:p-3 tw:p-2", "tw"), "tw:p-2");
    assert_eq!(merge_with_prefix(&classes, "p-3 p-2", "tw"), "p-3 p-2");
    assert_eq!(merge_with_prefix(&classes, "tw:right-0! tw:inset-0!", "tw"), "tw:inset-0!");
    assert_eq!(
        merge_with_prefix(&classes, "tw:hover:focus:right-0! tw:focus:hover:inset-0!", "tw"),
        "tw:focus:hover:inset-0!"
    );
}

fn run_join(cases: &[(&'static str, &'static str)]) {
    for (input, expected) in cases {
        let got = tw_join(&[JoinValue::Str(input)]);
        assert_eq!(got, *expected, "join case: {input:?}");
    }
}

#[test]
fn tw_join_strings() {
    run_join(&[("", ""), ("foo", "foo"), ("foo", "foo"), ("", "")]);
}

#[test]
fn tw_join_variadic() {
    run_join(&[
        ("", ""),
        ("foo bar", "foo bar"),
        ("foo baz", "foo baz"),
        ("bar baz", "bar baz"),
    ]);
}

#[test]
fn tw_join_arrays() {
    run_join(&[
        ("", ""),
        ("foo", "foo"),
        ("foo bar", "foo bar"),
        ("foo baz", "foo baz"),
    ]);
}

#[test]
fn tw_join_nested_arrays() {
    run_join(&[
        ("", ""),
        ("foo", "foo"),
        ("foo", "foo"),
        ("foo bar baz", "foo bar baz"),
    ]);
}

#[test]
fn tw_join_variadic_arrays() {
    run_join(&[("", ""), ("foo bar", "foo bar"), ("foo baz", "foo baz")]);
}

#[test]
fn join_skips_empty_values_at_every_depth() {
    let v = vec![
        JoinValue::Str(""),
        JoinValue::Nested(vec![]),
        JoinValue::Str("a"),
        JoinValue::Nested(vec![JoinValue::Str(""), JoinValue::Nested(vec![JoinValue::Str("b")])]),
        JoinValue::Str(""),
    ];
    assert_eq!(tw_join(&v), "a b");
    assert_eq!(tw_join(&[]), "");
}
