use twm_core::conflict::ConflictTable;
use twm_core::css;
use twm_core::merge::{check_drops, tw_join, tw_merge, JoinValue};
use twm_core::theme::Theme;
use twm_core::utility::DesignSystem;

fn ds() -> DesignSystem {
    let css = r#"
        @theme { --spacing: 0.25rem; --text-2xl: 1.5rem; --text-2xl--line-height: 2rem; }
        @utility p-* { padding: --value(--spacing, <length>); }
        @utility px-* { padding-inline: --value(--spacing, <length>); }
        @utility pr-* { padding-right: --value(--spacing, <length>); }
        @utility block { display: block; }
        @utility inline { display: inline; }
        @utility text-* { font-size: --value(--text-*, <tshirt>, <length>, <percentage>); }
        @utility text-* { color: --value(<color>); }
        @utility leading-* { line-height: --value(--leading-*, <length>, <number>, <percentage>, none); }
    "#;
    let prog = css::parse(css);
    DesignSystem::from_css(Theme::from_program(&prog), prog.utilities)
}

fn table(classes: &[&str]) -> ConflictTable {
    let ds = ds();
    let classes: Vec<String> = classes.iter().map(|s| s.to_string()).collect();
    ConflictTable::from_classes(&ds, &classes, None)
}

#[test]
fn merges_basic() {
    let t = table(&["inline", "block"]);
    assert_eq!(tw_merge(&t, "inline block", None), "block");
    let t = table(&["p-2", "p-4"]);
    assert_eq!(tw_merge(&t, "p-2 p-4", None), "p-4");
}

#[test]
fn merges_sides() {
    let t = table(&["px-2", "pr-4", "p-1"]);
    assert_eq!(tw_merge(&t, "pr-4 px-2", None), "px-2");
    assert_eq!(tw_merge(&t, "px-2 pr-4", None), "px-2 pr-4");
    assert_eq!(tw_merge(&t, "px-2 p-1", None), "p-1");
    assert_eq!(tw_merge(&t, "p-1 px-2", None), "p-1 px-2");
}

#[test]
fn modifiers() {
    let t = table(&[
        "hover:p-2",
        "hover:focus:p-2",
        "focus:hover:p-2",
        "hover:focus:p-3",
        "hover:focus:p-4",
        "focus:hover:p-4",
    ]);
    assert_eq!(
        tw_merge(&t, "hover:focus:p-2 focus:hover:p-4", None),
        "focus:hover:p-4"
    );
    assert_eq!(
        tw_merge(&t, "hover:focus:p-2 hover:focus:p-3", None),
        "hover:focus:p-3"
    );
}

#[test]
fn joins() {
    let nested = vec![
        JoinValue::Str("foo"),
        JoinValue::Nested(vec![JoinValue::Str("bar"), JoinValue::Str("")]),
    ];
    assert_eq!(tw_join(&[JoinValue::Str("a"), JoinValue::Nested(nested)]), "a foo bar");
    assert_eq!(tw_join(&[JoinValue::Str("")]), "");
}

#[test]
fn merge_trims_and_collapses_whitespace() {
    let t = table(&["p-2", "block"]);
    assert_eq!(tw_merge(&t, "  p-2 \n\t block  ", None), "p-2 block");
    assert_eq!(tw_merge(&t, "   ", None), "");
}

#[test]
fn unknown_classes_are_kept() {
    let t = table(&["p-2", "p-4"]);
    assert_eq!(tw_merge(&t, "foo p-2 foo p-4", None), "foo foo p-4");
}

#[test]
fn merge_is_idempotent_on_an_example() {
    let t = table(&["px-2", "pr-4", "p-1", "block", "inline"]);
    let once = tw_merge(&t, "pr-4 block px-2 inline p-1", None);
    assert_eq!(once, "inline p-1");
    assert_eq!(tw_merge(&t, &once, None), once);
}

#[test]
fn important_and_plain_do_not_conflict() {
    let t = table(&["p-2", "p-4", "!p-4", "p-2!"]);
    assert_eq!(tw_merge(&t, "!p-4 p-2", None), "!p-4 p-2");
    assert_eq!(tw_merge(&t, "!p-4 p-2!", None), "p-2!");
}

#[test]
fn drops_reported_right_to_left() {
    let classes: Vec<String> = ["p-2", "block", "p-4", "inline", "px-2"]
        .iter()
        .map(|s| s.to_string())
        .collect();
    let t = ConflictTable::from_classes(&ds(), &classes, None);
    assert_eq!(check_drops(&t, &classes, None), vec![1, 0]);
}
