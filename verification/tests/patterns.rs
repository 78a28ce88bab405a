use twm_core::css;
use twm_core::patterns::{type_code, PatternTable, KW_OFFSET, TH_OFFSET, TYPE_NEVER};
use twm_core::theme::Theme;
use twm_core::utility::DesignSystem;

fn ds() -> DesignSystem {
    let css = r#"
        @theme { --spacing: 0.25rem; --text-sm: 0.875rem; --text-lg: 1.125rem; }
        @utility p-* { padding: --value(--spacing, <length>, auto); }
        @utility px-* { padding-inline: --value(--spacing, <length>); }
        @utility block { display: block; }
        @utility text-* { font-size: --value(--text-*); }
    "#;
    let prog = css::parse(css);
    DesignSystem::from_css(Theme::from_program(&prog), prog.utilities)
}

#[test]
fn type_codes() {
    assert_eq!(type_code("any"), 1);
    assert_eq!(type_code("length"), 7);
    assert_eq!(type_code("spacing"), 18);
    assert_eq!(type_code("bogus"), TYPE_NEVER);
}

#[test]
fn utilities_are_ordered_statics_first_then_longer_wildcards() {
    let t = PatternTable::from_design_system(&ds());
    let names: Vec<&str> = t.utilities.iter().map(|u| u.name.as_str()).collect();
    assert_eq!(names, vec!["block", "text-*", "px-*", "p-*"]);
    assert!(!t.utilities[0].wildcard);
    assert!(t.utilities[3].wildcard);
}

#[test]
fn families_and_conflict_sets() {
    let t = PatternTable::from_design_system(&ds());
    assert_eq!(t.family_names[0], "display");
    assert_eq!(t.family_names[1], "font-size");
    assert_eq!(t.family_names[2], "px");
    let p = &t.utilities[3].alts[0];
    assert_eq!(t.family_names[p.family_id as usize], "p");
    let set = &t.conflict_sets[p.conflict_wid as usize];
    assert!(set.windows(2).all(|w| w[0] < w[1]));
    assert_eq!(set.len(), 11);
    assert!(t.family_names.iter().any(|f| f == "container-named"));
    assert_eq!(t.font_size, Some(1));
    assert_eq!(t.leading, None);
}

#[test]
fn spec_codes_of_items() {
    let t = PatternTable::from_design_system(&ds());
    let p = &t.utilities[3].alts[0];
    assert_eq!(p.groups, vec![vec![18u16, 7, KW_OFFSET as u16]]);
    assert_eq!(t.keywords, vec!["auto"]);
    let text = &t.utilities[1].alts[0];
    assert_eq!(text.groups, vec![vec![TH_OFFSET as u16]]);
    assert_eq!(t.theme_sets, vec![vec!["lg".to_string(), "sm".to_string()]]);
}

#[test]
fn arbitrary_property_families_are_sorted() {
    let t = PatternTable::from_design_system(&ds());
    let props: Vec<&str> = t.prop_family.iter().map(|(p, _)| p.as_str()).collect();
    assert_eq!(props, vec!["display", "font-size", "padding", "padding-inline"]);
}

#[test]
fn per_family_conflicts_are_sorted_and_hold_the_family() {
    let t = PatternTable::from_design_system(&ds());
    let f = t.family_conflicts();
    assert_eq!(f.len(), t.family_names.len());
    for (i, list) in f.iter().enumerate() {
        assert!(list.contains(&(i as u16)));
        assert!(list.windows(2).all(|w| w[0] < w[1]));
    }
    let px = t.family_names.iter().position(|n| n == "px").unwrap();
    let pr = t.family_names.iter().position(|n| n == "pr").unwrap();
    let pl = t.family_names.iter().position(|n| n == "pl").unwrap();
    let mut expected = vec![px as u16, pr as u16, pl as u16];
    expected.sort();
    assert_eq!(f[px], expected);
}

#[test]
fn color_items_are_encoded_as_any() {
    let prog = css::parse("@utility bg-* { background-color: --value(<color>); }");
    let ds = DesignSystem::from_css(Theme::from_program(&prog), prog.utilities);
    let t = PatternTable::from_design_system(&ds);
    let bg = t.utilities.iter().find(|u| u.name == "bg-*").unwrap();
    assert_eq!(bg.alts[0].groups, vec![vec![type_code("any") as u16, type_code("a-any") as u16, type_code("v-any") as u16]]);
}

#[test]
fn conflict_sets_are_distinct_and_ascending() {
    let t = PatternTable::from_design_system(&ds());
    for (i, s) in t.conflict_sets.iter().enumerate() {
        assert!(s.windows(2).all(|w| w[0] < w[1]));
        for o in &t.conflict_sets[i + 1..] {
            assert_ne!(s, o);
        }
    }
    for u in &t.utilities {
        assert_eq!(u.wildcard, u.name.ends_with('*'));
        for a in &u.alts {
            assert!(t.conflict_sets[a.conflict_wid as usize].contains(&a.family_id));
        }
    }
}

#[test]
fn the_type_list_numbers_the_codes() {
    let names = twm_core::patterns::types();
    assert_eq!(names.len(), 57);
    for (i, n) in names.iter().enumerate() {
        assert_eq!(type_code(n), i + 1);
    }
    assert_eq!(names[0], "any");
    assert_eq!(names[56], "v-any");
}

#[test]
fn every_catalog_utility_with_alternatives_is_listed() {
    let d = ds();
    let t = PatternTable::from_design_system(&d);
    for (name, alts) in &d.utilities {
        let listed = t.utilities.iter().filter(|u| &u.name == name).count();
        if alts.is_empty() {
            assert_eq!(listed, 0);
        } else {
            assert_eq!(listed, 1);
        }
    }
    assert_eq!(t.utilities.len(), d.utilities.iter().filter(|(_, a)| !a.is_empty()).count());
}

#[test]
fn per_family_conflicts_name_known_families_only() {
    let t = PatternTable::from_design_system(&ds());
    let f = t.family_conflicts();
    for list in &f {
        for id in list {
            assert!((*id as usize) < f.len());
        }
    }
}

#[test]
fn keyword_codes_index_the_keyword_list() {
    let prog = css::parse("@utility w-* { width: --value(auto, full, <length>); } @utility h-* { height: --value(full, min); }");
    let ds = DesignSystem::from_css(Theme::from_program(&prog), prog.utilities);
    let t = PatternTable::from_design_system(&ds);
    for u in &t.utilities {
        for a in &u.alts {
            for g in &a.groups {
                for code in g {
                    let c = *code as usize;
                    if c >= KW_OFFSET && c < TH_OFFSET {
                        assert!(c - KW_OFFSET < t.keywords.len());
                    }
                }
            }
        }
    }
    let h = t.utilities.iter().find(|u| u.name == "h-*").unwrap();
    let words: Vec<&str> = h.alts[0].groups[0].iter().map(|c| t.keywords[*c as usize - KW_OFFSET].as_str()).collect();
    assert_eq!(words, vec!["full", "min"]);
}
