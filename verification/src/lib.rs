//! twm_core: a Tailwind class-merge engine that derives conflict groups from
//! the CSS a design system generates.

pub mod text;
pub mod values;
pub mod candidate;
pub mod families;
pub mod css;
pub mod theme;
pub mod utility;
pub mod config;
pub mod conflict;
pub mod merge;
pub mod patterns;
pub mod scan;
pub mod trie;
pub mod shorthands;

pub use candidate::{parse_class_name, sort_modifiers, ParsedClass};
pub use conflict::{conflict_key, ClassKey, ConflictTable};
pub use merge::{tw_join, tw_merge, JoinValue};
pub use patterns::{type_code, PatternAlt, PatternTable, PatternUtility};
pub use theme::Theme;
pub use utility::{Alternative, DesignSystem, Resolved, SpecItem, ValueSpec};

use vstd::prelude::*;
use crate::css::{css_parse, CssModel};
use crate::text::enc;
use crate::theme::theme_of;
use crate::utility::{CatalogModel, catalog, catalog_from};

verus! {

/// The design system of explicit CSS sources: the theme of `theme_css`,
/// the `@utility` rules of `utilities_css` then `extra_css` (later sources
/// add resolution alternatives), then the plugin rules (the catalog's
/// alternatives are tried first).
pub open spec fn design_system_spec(
    theme: CssModel,
    utilities: CssModel,
    extra: CssModel,
    plugin: Seq<(Seq<char>, Seq<(Seq<char>, Seq<char>)>)>,
) -> CatalogModel {
    CatalogModel {
        theme: theme_of(theme.theme_vars),
        utilities: catalog_from(catalog(utilities.utilities + extra.utilities), plugin),
    }
}

/// Build a design system from explicit CSS sources.
pub fn design_system_with_css(
    theme_css: &str,
    utilities_css: &str,
    extra_css: &str,
    plugin: &[(String, Vec<(String, String)>)],
) -> (r: DesignSystem)
    requires
        enc(theme_css@).len() + 3 <= usize::MAX,
        enc(utilities_css@).len() + 3 <= usize::MAX,
        enc(extra_css@).len() + 3 <= usize::MAX,
        css_parse(enc(theme_css@)) is Some,
        css_parse(enc(utilities_css@)) is Some,
        css_parse(enc(extra_css@)) is Some,
    ensures
        r@ == design_system_spec(
            css_parse(enc(theme_css@))->0,
            css_parse(enc(utilities_css@))->0,
            css_parse(enc(extra_css@))->0,
            crate::css::rules(plugin@),
        ),
        r.wf(),
{
    let theme_prog = css::parse(theme_css);
    let mut utilities = css::parse(utilities_css).utilities;
    let mut extra = css::parse(extra_css).utilities;
    let ghost u1 = crate::css::rules(utilities@);
    let ghost u2 = crate::css::rules(extra@);
    utilities.append(&mut extra);
    assert(crate::css::rules(utilities@) =~= u1 + u2);
    DesignSystem::from_css_with_plugin(Theme::from_program(&theme_prog), utilities, plugin)
}

} // verus!
