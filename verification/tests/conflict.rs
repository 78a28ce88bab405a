use twm_core::config::{parse_config_json, PluginConfig};
use twm_core::conflict::{apply_plugin_config, conflict_key, ConflictTable, ARBITRARY_PREFIX};
use twm_core::css;
use twm_core::merge::tw_merge;
use twm_core::theme::Theme;
use twm_core::utility::DesignSystem;

fn fixture() -> (DesignSystem, PluginConfig) {
    let css = r#"
        @theme { --spacing: 0.25rem; }
        @utility p-* { padding: --value(--spacing, <length>); }
        @utility block { display: block; }
    "#;
    let prog = css::parse(css);
    let cfg = parse_config_json(
        r#"{
            "classGroups": {
                "rtl.ps": ["rtl-ps-4", { "ps-rtl": ["<length>"] }],
                "rtl.pe": [{ "pe-rtl": ["<length>"] }],
                "rtl.border-w-s": [{ "border-s": ["", "<length>"] }],
                "g": ["block"]
            },
            "conflictingClassGroups": {
                "p": ["rtl.ps"],
                "rtl.ps": ["p", "rtl.pe"],
                "rtl.pe": ["p"]
            }
        }"#,
    )
    .unwrap();
    let ds = DesignSystem::from_css_with_plugin(
        Theme::from_program(&prog),
        prog.utilities,
        &cfg.to_synthetic_utilities(),
    );
    (ds, cfg)
}

#[test]
fn plugin_classes_resolve() {
    let (ds, _) = fixture();
    let r = ds.resolve("rtl-ps-4").unwrap();
    assert_eq!(r.family, "rtl.ps");
    let r = ds.resolve("ps-rtl-2px").unwrap();
    assert_eq!(r.family, "rtl.ps");
    assert!(ds.resolve("ps-rtl-xyz").is_none());
    let r = ds.resolve("border-s").unwrap();
    assert_eq!(r.family, "rtl.border-w-s");
    let r = ds.resolve("border-s-2px").unwrap();
    assert_eq!(r.family, "rtl.border-w-s");
}

#[test]
fn empty_keyword_does_not_match_nonempty_suffixes() {
    let css = r#"
        @theme { --spacing: 0.25rem; }
        @utility p-* { padding: --value(--spacing, <length>); }
    "#;
    let prog = css::parse(css);
    let cfg = parse_config_json(r#"{ "classGroups": { "x": [{ "x": [""] }] } }"#).unwrap();
    let ds = DesignSystem::from_css_with_plugin(
        Theme::from_program(&prog),
        prog.utilities,
        &cfg.to_synthetic_utilities(),
    );
    assert!(ds.resolve("x").is_some());
    assert!(ds.resolve("x-2").is_none());
    assert!(ds.resolve("x-anything").is_none());
}

#[test]
fn applies_statics_and_edges() {
    let (ds, cfg) = fixture();
    let classes: Vec<String> = vec!["p-2".to_string(), "block".to_string()];
    let mut t = ConflictTable::from_classes(&ds, &classes, None);
    let unresolved = apply_plugin_config(&mut t, &ds, &cfg, None);
    assert_eq!(
        unresolved,
        vec![
            ("rtl.pe".to_string(), vec!["p".to_string()]),
            ("rtl.ps".to_string(), vec!["p".to_string(), "rtl.pe".to_string()]),
        ]
    );
    assert_eq!(t.key_of("rtl-ps-4", None).unwrap().family, "rtl.ps");
    assert_eq!(t.key_of("block", None).unwrap().family, "display");
    let f = t.family_conflicts();
    let p = t.family_id_of("p") as usize;
    let ps = t.family_id_of("rtl.ps") as usize;
    assert!(f[p].contains(&(ps as u16)));
    assert!(f[ps].contains(&(p as u16)));
    assert_eq!(f[p][0] as usize, p);
    assert_eq!(f[ps][0] as usize, ps);
}

#[test]
fn merges_plugin_conflicts() {
    let (ds, cfg) = fixture();
    let classes: Vec<String> = vec!["p-2".to_string(), "rtl-ps-4".to_string()];
    let mut t = ConflictTable::from_classes(&ds, &classes, None);
    apply_plugin_config(&mut t, &ds, &cfg, None);
    assert_eq!(tw_merge(&t, "p-2 rtl-ps-4", None), "rtl-ps-4");
    assert_eq!(tw_merge(&t, "rtl-ps-4 p-2", None), "p-2");
}

fn strings(v: &[&str]) -> Vec<String> {
    v.iter().map(|s| s.to_string()).collect()
}

#[test]
fn conflict_keys_sort_modifiers() {
    assert_eq!(conflict_key(&[], false, "p"), "p");
    assert_eq!(conflict_key(&strings(&["hover"]), true, "p"), "hover!p");
    assert_eq!(conflict_key(&strings(&["hover", "focus"]), false, "p"), "focus:hoverp");
    assert_eq!(
        conflict_key(&strings(&["hover", "focus"]), false, "p"),
        conflict_key(&strings(&["focus", "hover"]), false, "p")
    );
}

#[test]
fn keys_of_unknown_and_arbitrary_classes() {
    let (ds, _) = fixture();
    let classes: Vec<String> = strings(&["p-2", "p-[3px]", "[color:red]"]);
    let t = ConflictTable::from_classes(&ds, &classes, None);
    assert!(t.key_of("nope", None).is_none());
    assert_eq!(t.key_of("p-[7px]", None).unwrap().family, "p");
    assert_eq!(t.key_of("[color:red]", None).unwrap().family, format!("{ARBITRARY_PREFIX}color"));
    assert_eq!(t.key_of("hover:p-2/50", None).unwrap().family, "p");
}

#[test]
fn catalog_static_wins_over_plugin_static() {
    let (ds, _) = fixture();
    assert_eq!(ds.resolve("block").unwrap().family, "display");
}

#[test]
fn repeated_class_keeps_only_the_last() {
    let (ds, cfg) = fixture();
    let classes = strings(&["p-2", "rtl-ps-4", "block"]);
    let mut t = ConflictTable::from_classes(&ds, &classes, None);
    apply_plugin_config(&mut t, &ds, &cfg, None);
    assert_eq!(tw_merge(&t, "block p-2 block", None), "p-2 block");
    assert_eq!(tw_merge(&t, "hover:p-2 block hover:p-2", None), "block hover:p-2");
}

#[test]
fn conflict_key_ignores_any_order_of_plain_modifiers() {
    let a = conflict_key(&strings(&["hover", "focus", "dark", "md"]), false, "p");
    let b = conflict_key(&strings(&["md", "dark", "hover", "focus"]), false, "p");
    assert_eq!(a, b);
    assert_eq!(a, "dark:focus:hover:mdp");
}

#[test]
fn table_families_are_distinct_and_cover_keys() {
    let (ds, _) = fixture();
    let classes = strings(&["p-2", "block", "p-4", "rtl-ps-4"]);
    let t = ConflictTable::from_classes(&ds, &classes, None);
    for (i, a) in t.family_names.iter().enumerate() {
        for b in &t.family_names[i + 1..] {
            assert_ne!(a, b);
        }
    }
    assert!(t.key_of("p-2", None).is_some() && t.key_of("p-4", None).is_some());
    let f = t.family_conflicts();
    let p = t.family_id_of("p") as usize;
    for id in t.key_of("p-2", None).unwrap().conflict_ids {
        assert!(f[p].contains(&id));
    }
}
