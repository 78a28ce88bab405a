use twm_core::config::{parse_config_json, GroupItem, GroupSpec, PluginConfig, Wildcard};
use twm_core::css;
use twm_core::theme::Theme;
use twm_core::utility::{parse_marker, DesignSystem, SpecItem};

fn sample() -> PluginConfig {
    parse_config_json(
        r#"{
            "classGroups": {
                "rtl.ps": [{ "ps": ["<length>"] }],
                "rtl.border-w-s": [{ "border-s": ["", "<length>"] }],
                "rtl.static": ["rtl-start"],
                "rtl.multi": ["a", "b"],
                "rtl.color": [{ "bg-rtl": ["<color>"] }],
                "rtl.theme": [{ "text-rtl": ["--color-*", "--spacing", "auto"] }]
            },
            "conflictingClassGroups": {
                "p": ["rtl.ps", "rtl.pe"]
            },
            "extend": {
                "classGroups": { "rtl.pe": [{ "pe": ["<length>"] }] }
            }
        }"#,
    )
    .unwrap()
}

fn group<'a>(cfg: &'a PluginConfig, name: &str) -> &'a Vec<GroupItem> {
    &cfg.class_groups.iter().find(|(n, _)| n == name).unwrap().1
}

#[test]
fn parses_groups() {
    let cfg = sample();
    assert_eq!(
        group(&cfg, "rtl.ps"),
        &vec![GroupItem::Wildcard(Wildcard {
            prefix: "ps".into(),
            specs: vec![GroupSpec::Type("length".into())],
        })]
    );
    assert_eq!(
        group(&cfg, "rtl.border-w-s"),
        &vec![GroupItem::Wildcard(Wildcard {
            prefix: "border-s".into(),
            specs: vec![GroupSpec::Keyword(String::new()), GroupSpec::Type("length".into())],
        })]
    );
    assert_eq!(group(&cfg, "rtl.static"), &vec![GroupItem::Static("rtl-start".into())]);
    assert_eq!(
        group(&cfg, "rtl.multi"),
        &vec![GroupItem::Static("a".into()), GroupItem::Static("b".into())]
    );
    assert_eq!(
        group(&cfg, "rtl.color"),
        &vec![GroupItem::Wildcard(Wildcard {
            prefix: "bg-rtl".into(),
            specs: vec![GroupSpec::Type("any".into())],
        })]
    );
    assert_eq!(
        group(&cfg, "rtl.theme"),
        &vec![GroupItem::Wildcard(Wildcard {
            prefix: "text-rtl".into(),
            specs: vec![
                GroupSpec::ThemeKey { prefix: "--color-".into(), has_star: true },
                GroupSpec::ThemeKey { prefix: "--spacing".into(), has_star: false },
                GroupSpec::Keyword("auto".into()),
            ],
        })]
    );
    // extend entries are appended
    assert!(cfg.class_groups.iter().any(|(n, _)| n == "rtl.pe"));
    assert_eq!(
        cfg.conflicting_class_groups,
        vec![("p".to_string(), vec!["rtl.ps".to_string(), "rtl.pe".to_string()])]
    );
}

#[test]
fn synthetic_utilities() {
    let cfg = sample();
    let utils = cfg.to_synthetic_utilities();
    assert!(utils.contains(&(
        "rtl-start".to_string(),
        vec![("--twmo-family:rtl.static".to_string(), String::new())]
    )));
    assert!(utils.contains(&(
        "ps-*".to_string(),
        vec![("--twmo-family:rtl.ps".to_string(), "--value(<length>)".to_string())]
    )));
    assert!(utils.contains(&(
        "border-s-*".to_string(),
        vec![(
            "--twmo-family:rtl.border-w-s".to_string(),
            "--value(,<length>)".to_string()
        )]
    )));
    assert!(utils.contains(&(
        "text-rtl-*".to_string(),
        vec![(
            "--twmo-family:rtl.theme".to_string(),
            "--value(--color-*,--spacing,auto)".to_string()
        )]
    )));
}

#[test]
fn empty_keyword_roundtrips_through_value_marker() {
    let cfg = parse_config_json(
        r#"{ "classGroups": { "rtl.border-w-s": [{ "border-s": ["", "<length>"] }] } }"#,
    )
    .unwrap();
    let (name, props) = cfg
        .to_synthetic_utilities()
        .into_iter()
        .find(|(n, _)| n == "border-s-*")
        .unwrap();
    assert_eq!(name, "border-s-*");
    let marker = props
        .into_iter()
        .find(|(p, _)| p == "--twmo-family:rtl.border-w-s")
        .unwrap()
        .1;
    assert_eq!(marker, "--value(,<length>)");
    let inner = &marker["--value(".len()..marker.len() - 1];
    let items = parse_marker(inner);
    assert_eq!(
        items,
        vec![SpecItem::Keyword(String::new()), SpecItem::Type("length")],
        "leading empty marker item must stay an explicit empty keyword"
    );
    let prog = css::parse(
        r#"@theme { --spacing: 0.25rem; }
           @utility p-* { padding: --value(--spacing, <length>); }"#,
    );
    let ds = DesignSystem::from_css_with_plugin(
        Theme::from_program(&prog),
        prog.utilities,
        &cfg.to_synthetic_utilities(),
    );
    assert_eq!(ds.resolve("border-s").unwrap().family, "rtl.border-w-s");
    assert_eq!(ds.resolve("border-s-2px").unwrap().family, "rtl.border-w-s");
    assert!(ds.resolve("border-s-2").is_none(), "<length> needs units");
}

#[test]
fn rejects_unsupported_keys() {
    for key in [
        "prefix",
        "theme",
        "cacheSize",
        "conflictingClassGroupModifiers",
        "orderSensitiveModifiers",
        "getPostfixModifiers",
    ] {
        let err = parse_config_json(&format!(r#"{{ "{key}": {{}} }}"#)).unwrap_err();
        assert!(err.contains(key), "error for {key}: {err}");
        assert!(err.contains("unsupported"));
    }
}

#[test]
fn rejects_unknown_type() {
    let err = parse_config_json(r#"{ "classGroups": { "g": [{ "x": ["<bogus>"] }] } }"#)
        .unwrap_err();
    assert!(err.contains("<bogus>"));
}

#[test]
fn rejects_malformed_json() {
    assert!(parse_config_json("{ not json").is_err());
    assert!(parse_config_json("[1,2]").is_err());
}

#[test]
fn error_messages_name_the_problem() {
    assert!(parse_config_json("{ not json").unwrap_err().starts_with("invalid JSON: "));
    assert_eq!(parse_config_json("[1,2]").unwrap_err(), "config must be a JSON object");
    assert_eq!(
        parse_config_json(r#"{ "extend": 3 }"#).unwrap_err(),
        "extend must be a JSON object"
    );
    assert_eq!(
        parse_config_json(r#"{ "classGroups": { "g": [1] } }"#).unwrap_err(),
        "group item must be a string or an object, got number"
    );
    assert_eq!(
        parse_config_json(r#"{ "classGroups": { "g": [{ "a": [], "b": [] }] } }"#).unwrap_err(),
        "group item object must have exactly one key (the class prefix), got 2"
    );
    assert_eq!(
        parse_config_json(r#"{ "conflictingClassGroups": { "g": [true] } }"#).unwrap_err(),
        "conflicting class group target must be a string"
    );
    assert_eq!(
        parse_config_json(r#"{ "extend": { "prefix": "tw" } }"#).unwrap_err(),
        "unsupported config key: prefix"
    );
}

#[test]
fn static_string_group_and_single_object_group() {
    let cfg = parse_config_json(r#"{ "classGroups": { "a": "x", "b": { "y": ["--s-*"] } } }"#)
        .unwrap();
    assert_eq!(group(&cfg, "a"), &vec![GroupItem::Static("x".into())]);
    assert_eq!(
        group(&cfg, "b"),
        &vec![GroupItem::Wildcard(Wildcard {
            prefix: "y".into(),
            specs: vec![GroupSpec::ThemeKey { prefix: "--s-".into(), has_star: true }],
        })]
    );
}
