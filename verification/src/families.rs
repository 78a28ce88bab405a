//! Family derivation: CSS property -> conflict family, the per-utility
//! overrides, and the directed conflict edges between families.
//!
//! Two classes conflict when the later one's own family is in the conflict
//! set accumulated from earlier classes. Side variants of a box property get
//! distinct families (`padding` -> `p`, `padding-inline` -> `px`), so
//! `p-4 px-2` keeps both while `px-2 pr-4` merges; the directed edges make a
//! shorthand win over its sides but not the other way round.

use vstd::prelude::*;
use crate::text::{enc, has_prefix, str_eq, starts_with, owned, concat, substr, lemma_after_ascii};
use crate::css::text;

verus! {

broadcast use {vstd::utf8::encode_utf8_valid_utf8, vstd::utf8::encode_utf8_decode_utf8};

/// Family prefix of arbitrary properties (`[prop:value]`).
pub const ARBITRARY_PROPERTY_PREFIX: &'static str = "arbitrary..";

/// The property a plugin rule declares its family with: `--twmo-family:{group}`.
pub const PLUGIN_FAMILY_PROP: &'static str = "--twmo-family:";

/// One block of the fixed property table.
pub open spec fn prop_table_0(prop: Seq<char>) -> Option<Seq<char>> {
    if prop == "--tw-ring-width"@ { Some("ring"@) } else
    if prop == "--tw-ring-color"@ { Some("ring-color"@) } else
    if prop == "--tw-ring-inset"@ { Some("ring-w-inset"@) } else
    if prop == "--tw-inset-ring-width"@ { Some("inset-ring"@) } else
    if prop == "--tw-inset-ring-color"@ { Some("inset-ring-color"@) } else
    if prop == "text-shadow"@ { Some("text-shadow"@) } else
    if prop == "text-shadow-color"@ { Some("text-shadow-color"@) } else
    if prop == "--tw-gradient-from"@ { Some("gradient-from"@) } else
    if prop == "--tw-gradient-from-position"@ { Some("gradient-from-pos"@) } else
    if prop == "--tw-gradient-via"@ { Some("gradient-via"@) } else
    if prop == "--tw-gradient-via-position"@ { Some("gradient-via-pos"@) } else
    if prop == "--tw-gradient-to"@ { Some("gradient-to"@) } else
    if prop == "--tw-gradient-to-position"@ { Some("gradient-to-pos"@) } else
    if prop == "scale"@ { Some("scale"@) } else
    if prop == "--tw-translate-x"@ { Some("translate-x"@) } else
    if prop == "--tw-translate-y"@ { Some("translate-y"@) } else
    if prop == "--tw-rotate-x"@ { Some("rotate-x"@) } else
    if prop == "--tw-rotate-y"@ { Some("rotate-y"@) } else
    if prop == "--tw-scale-x"@ { Some("scale"@) } else
    if prop == "--tw-scale-y"@ { Some("scale"@) } else
    if prop == "transform-origin"@ { Some("origin"@) } else
    if prop == "transform-style"@ { Some("transform-style"@) } else
    if prop == "perspective"@ { Some("perspective"@) } else
    if prop == "perspective-origin"@ { Some("perspective-origin"@) } else
    if prop == "--tw-mask-linear-pos"@ { Some("mask-image-linear-pos"@) } else
    if prop == "--tw-mask-linear-from-pos"@ { Some("mask-image-linear-from-pos"@) } else
    if prop == "--tw-mask-linear-to-pos"@ { Some("mask-image-linear-to-pos"@) } else
    if prop == "--tw-mask-linear-from-color"@ { Some("mask-image-linear-from-color"@) } else
    if prop == "--tw-mask-linear-to-color"@ { Some("mask-image-linear-to-color"@) } else
    if prop == "--tw-mask-t-from-pos"@ { Some("mask-image-t-from-pos"@) } else
    if prop == "--tw-mask-t-to-pos"@ { Some("mask-image-t-to-pos"@) } else
    if prop == "--tw-mask-t-from-color"@ { Some("mask-image-t-from-color"@) } else
    if prop == "--tw-mask-t-to-color"@ { Some("mask-image-t-to-color"@) } else
    if prop == "--tw-mask-radial-pos"@ { Some("mask-image-radial"@) } else
    if prop == "--tw-mask-radial-from-pos"@ { Some("mask-image-radial-from-pos"@) } else
    if prop == "--tw-mask-radial-to-pos"@ { Some("mask-image-radial-to-pos"@) } else
    if prop == "--tw-mask-radial-from-color"@ { Some("mask-image-radial-from-color"@) } else
    if prop == "--tw-mask-radial-to-color"@ { Some("mask-image-radial-to-color"@) } else
    if prop == "mask-image"@ { Some("mask-image"@) } else
    if prop == "mask-position"@ { Some("mask-position"@) } else { prop_table_1(prop) }
}

fn lookup_prop_table_0(prop: &str) -> (r: Option<String>)
    ensures
        r matches Some(f) ==> prop_table_0(prop@) == Some(f@),
        r is None ==> prop_table_0(prop@) is None,
{
    if str_eq(prop, "--tw-ring-width") { Some(owned("ring")) } else
    if str_eq(prop, "--tw-ring-color") { Some(owned("ring-color")) } else
    if str_eq(prop, "--tw-ring-inset") { Some(owned("ring-w-inset")) } else
    if str_eq(prop, "--tw-inset-ring-width") { Some(owned("inset-ring")) } else
    if str_eq(prop, "--tw-inset-ring-color") { Some(owned("inset-ring-color")) } else
    if str_eq(prop, "text-shadow") { Some(owned("text-shadow")) } else
    if str_eq(prop, "text-shadow-color") { Some(owned("text-shadow-color")) } else
    if str_eq(prop, "--tw-gradient-from") { Some(owned("gradient-from")) } else
    if str_eq(prop, "--tw-gradient-from-position") { Some(owned("gradient-from-pos")) } else
    if str_eq(prop, "--tw-gradient-via") { Some(owned("gradient-via")) } else
    if str_eq(prop, "--tw-gradient-via-position") { Some(owned("gradient-via-pos")) } else
    if str_eq(prop, "--tw-gradient-to") { Some(owned("gradient-to")) } else
    if str_eq(prop, "--tw-gradient-to-position") { Some(owned("gradient-to-pos")) } else
    if str_eq(prop, "scale") { Some(owned("scale")) } else
    if str_eq(prop, "--tw-translate-x") { Some(owned("translate-x")) } else
    if str_eq(prop, "--tw-translate-y") { Some(owned("translate-y")) } else
    if str_eq(prop, "--tw-rotate-x") { Some(owned("rotate-x")) } else
    if str_eq(prop, "--tw-rotate-y") { Some(owned("rotate-y")) } else
    if str_eq(prop, "--tw-scale-x") { Some(owned("scale")) } else
    if str_eq(prop, "--tw-scale-y") { Some(owned("scale")) } else
    if str_eq(prop, "transform-origin") { Some(owned("origin")) } else
    if str_eq(prop, "transform-style") { Some(owned("transform-style")) } else
    if str_eq(prop, "perspective") { Some(owned("perspective")) } else
    if str_eq(prop, "perspective-origin") { Some(owned("perspective-origin")) } else
    if str_eq(prop, "--tw-mask-linear-pos") { Some(owned("mask-image-linear-pos")) } else
    if str_eq(prop, "--tw-mask-linear-from-pos") { Some(owned("mask-image-linear-from-pos")) } else
    if str_eq(prop, "--tw-mask-linear-to-pos") { Some(owned("mask-image-linear-to-pos")) } else
    if str_eq(prop, "--tw-mask-linear-from-color") { Some(owned("mask-image-linear-from-color")) } else
    if str_eq(prop, "--tw-mask-linear-to-color") { Some(owned("mask-image-linear-to-color")) } else
    if str_eq(prop, "--tw-mask-t-from-pos") { Some(owned("mask-image-t-from-pos")) } else
    if str_eq(prop, "--tw-mask-t-to-pos") { Some(owned("mask-image-t-to-pos")) } else
    if str_eq(prop, "--tw-mask-t-from-color") { Some(owned("mask-image-t-from-color")) } else
    if str_eq(prop, "--tw-mask-t-to-color") { Some(owned("mask-image-t-to-color")) } else
    if str_eq(prop, "--tw-mask-radial-pos") { Some(owned("mask-image-radial")) } else
    if str_eq(prop, "--tw-mask-radial-from-pos") { Some(owned("mask-image-radial-from-pos")) } else
    if str_eq(prop, "--tw-mask-radial-to-pos") { Some(owned("mask-image-radial-to-pos")) } else
    if str_eq(prop, "--tw-mask-radial-from-color") { Some(owned("mask-image-radial-from-color")) } else
    if str_eq(prop, "--tw-mask-radial-to-color") { Some(owned("mask-image-radial-to-color")) } else
    if str_eq(prop, "mask-image") { Some(owned("mask-image")) } else
    if str_eq(prop, "mask-position") { Some(owned("mask-position")) } else { lookup_prop_table_1(prop) }
}

/// One block of the fixed property table.
pub open spec fn prop_table_1(prop: Seq<char>) -> Option<Seq<char>> {
    if prop == "mask-size"@ { Some("mask-size"@) } else
    if prop == "mask-type"@ { Some("mask-type"@) } else
    if prop == "mask-composite"@ { Some("mask-composite"@) } else
    if prop == "width"@ { Some("w"@) } else
    if prop == "height"@ { Some("h"@) } else
    if prop == "min-width"@ { Some("min-w"@) } else
    if prop == "min-height"@ { Some("min-h"@) } else
    if prop == "max-width"@ { Some("max-w"@) } else
    if prop == "max-height"@ { Some("max-h"@) } else
    if prop == "inline-size"@ { Some("inline-size"@) } else
    if prop == "block-size"@ { Some("block-size"@) } else
    if prop == "min-inline-size"@ { Some("min-inline-size"@) } else
    if prop == "max-inline-size"@ { Some("max-inline-size"@) } else
    if prop == "min-block-size"@ { Some("min-block-size"@) } else
    if prop == "max-block-size"@ { Some("max-block-size"@) } else
    if prop == "margin"@ { Some("m"@) } else
    if prop == "margin-inline"@ { Some("mx"@) } else
    if prop == "margin-block"@ { Some("my"@) } else
    if prop == "margin-inline-start"@ { Some("ms"@) } else
    if prop == "margin-inline-end"@ { Some("me"@) } else
    if prop == "margin-block-start"@ { Some("mbs"@) } else
    if prop == "margin-block-end"@ { Some("mbe"@) } else
    if prop == "margin-top"@ { Some("mt"@) } else
    if prop == "margin-right"@ { Some("mr"@) } else
    if prop == "margin-bottom"@ { Some("mb"@) } else
    if prop == "margin-left"@ { Some("ml"@) } else
    if prop == "padding"@ { Some("p"@) } else
    if prop == "padding-inline"@ { Some("px"@) } else
    if prop == "padding-block"@ { Some("py"@) } else
    if prop == "padding-inline-start"@ { Some("ps"@) } else
    if prop == "padding-inline-end"@ { Some("pe"@) } else
    if prop == "padding-block-start"@ { Some("pbs"@) } else
    if prop == "padding-block-end"@ { Some("pbe"@) } else
    if prop == "padding-top"@ { Some("pt"@) } else
    if prop == "padding-right"@ { Some("pr"@) } else
    if prop == "padding-bottom"@ { Some("pb"@) } else
    if prop == "padding-left"@ { Some("pl"@) } else
    if prop == "inset"@ { Some("inset"@) } else
    if prop == "inset-inline"@ { Some("inset-x"@) } else
    if prop == "inset-block"@ { Some("inset-y"@) } else { prop_table_2(prop) }
}

fn lookup_prop_table_1(prop: &str) -> (r: Option<String>)
    ensures
        r matches Some(f) ==> prop_table_1(prop@) == Some(f@),
        r is None ==> prop_table_1(prop@) is None,
{
    if str_eq(prop, "mask-size") { Some(owned("mask-size")) } else
    if str_eq(prop, "mask-type") { Some(owned("mask-type")) } else
    if str_eq(prop, "mask-composite") { Some(owned("mask-composite")) } else
    if str_eq(prop, "width") { Some(owned("w")) } else
    if str_eq(prop, "height") { Some(owned("h")) } else
    if str_eq(prop, "min-width") { Some(owned("min-w")) } else
    if str_eq(prop, "min-height") { Some(owned("min-h")) } else
    if str_eq(prop, "max-width") { Some(owned("max-w")) } else
    if str_eq(prop, "max-height") { Some(owned("max-h")) } else
    if str_eq(prop, "inline-size") { Some(owned("inline-size")) } else
    if str_eq(prop, "block-size") { Some(owned("block-size")) } else
    if str_eq(prop, "min-inline-size") { Some(owned("min-inline-size")) } else
    if str_eq(prop, "max-inline-size") { Some(owned("max-inline-size")) } else
    if str_eq(prop, "min-block-size") { Some(owned("min-block-size")) } else
    if str_eq(prop, "max-block-size") { Some(owned("max-block-size")) } else
    if str_eq(prop, "margin") { Some(owned("m")) } else
    if str_eq(prop, "margin-inline") { Some(owned("mx")) } else
    if str_eq(prop, "margin-block") { Some(owned("my")) } else
    if str_eq(prop, "margin-inline-start") { Some(owned("ms")) } else
    if str_eq(prop, "margin-inline-end") { Some(owned("me")) } else
    if str_eq(prop, "margin-block-start") { Some(owned("mbs")) } else
    if str_eq(prop, "margin-block-end") { Some(owned("mbe")) } else
    if str_eq(prop, "margin-top") { Some(owned("mt")) } else
    if str_eq(prop, "margin-right") { Some(owned("mr")) } else
    if str_eq(prop, "margin-bottom") { Some(owned("mb")) } else
    if str_eq(prop, "margin-left") { Some(owned("ml")) } else
    if str_eq(prop, "padding") { Some(owned("p")) } else
    if str_eq(prop, "padding-inline") { Some(owned("px")) } else
    if str_eq(prop, "padding-block") { Some(owned("py")) } else
    if str_eq(prop, "padding-inline-start") { Some(owned("ps")) } else
    if str_eq(prop, "padding-inline-end") { Some(owned("pe")) } else
    if str_eq(prop, "padding-block-start") { Some(owned("pbs")) } else
    if str_eq(prop, "padding-block-end") { Some(owned("pbe")) } else
    if str_eq(prop, "padding-top") { Some(owned("pt")) } else
    if str_eq(prop, "padding-right") { Some(owned("pr")) } else
    if str_eq(prop, "padding-bottom") { Some(owned("pb")) } else
    if str_eq(prop, "padding-left") { Some(owned("pl")) } else
    if str_eq(prop, "inset") { Some(owned("inset")) } else
    if str_eq(prop, "inset-inline") { Some(owned("inset-x")) } else
    if str_eq(prop, "inset-block") { Some(owned("inset-y")) } else { lookup_prop_table_2(prop) }
}

/// One block of the fixed property table.
pub open spec fn prop_table_2(prop: Seq<char>) -> Option<Seq<char>> {
    if prop == "inset-inline-start"@ { Some("inset-s"@) } else
    if prop == "inset-inline-end"@ { Some("inset-e"@) } else
    if prop == "inset-block-start"@ { Some("inset-bs"@) } else
    if prop == "inset-block-end"@ { Some("inset-be"@) } else
    if prop == "top"@ { Some("top"@) } else
    if prop == "right"@ { Some("right"@) } else
    if prop == "bottom"@ { Some("bottom"@) } else
    if prop == "left"@ { Some("left"@) } else
    if prop == "scroll-margin"@ { Some("scroll-m"@) } else
    if prop == "scroll-margin-inline"@ { Some("scroll-mx"@) } else
    if prop == "scroll-margin-block"@ { Some("scroll-my"@) } else
    if prop == "scroll-margin-inline-start"@ { Some("scroll-ms"@) } else
    if prop == "scroll-margin-inline-end"@ { Some("scroll-me"@) } else
    if prop == "scroll-margin-block-start"@ { Some("scroll-mbs"@) } else
    if prop == "scroll-margin-block-end"@ { Some("scroll-mbe"@) } else
    if prop == "scroll-margin-top"@ { Some("scroll-mt"@) } else
    if prop == "scroll-margin-right"@ { Some("scroll-mr"@) } else
    if prop == "scroll-margin-bottom"@ { Some("scroll-mb"@) } else
    if prop == "scroll-margin-left"@ { Some("scroll-ml"@) } else
    if prop == "scroll-padding"@ { Some("scroll-p"@) } else
    if prop == "scroll-padding-inline"@ { Some("scroll-px"@) } else
    if prop == "scroll-padding-block"@ { Some("scroll-py"@) } else
    if prop == "scroll-padding-inline-start"@ { Some("scroll-ps"@) } else
    if prop == "scroll-padding-inline-end"@ { Some("scroll-pe"@) } else
    if prop == "scroll-padding-block-start"@ { Some("scroll-pbs"@) } else
    if prop == "scroll-padding-block-end"@ { Some("scroll-pbe"@) } else
    if prop == "scroll-padding-top"@ { Some("scroll-pt"@) } else
    if prop == "scroll-padding-right"@ { Some("scroll-pr"@) } else
    if prop == "scroll-padding-bottom"@ { Some("scroll-pb"@) } else
    if prop == "scroll-padding-left"@ { Some("scroll-pl"@) } else
    if prop == "border-width"@ { Some("border-w"@) } else
    if prop == "border-inline-width"@ { Some("border-w-x"@) } else
    if prop == "border-block-width"@ { Some("border-w-y"@) } else
    if prop == "border-inline-start-width"@ { Some("border-w-s"@) } else
    if prop == "border-inline-end-width"@ { Some("border-w-e"@) } else
    if prop == "border-block-start-width"@ { Some("border-w-bs"@) } else
    if prop == "border-block-end-width"@ { Some("border-w-be"@) } else
    if prop == "border-top-width"@ { Some("border-w-t"@) } else
    if prop == "border-right-width"@ { Some("border-w-r"@) } else
    if prop == "border-bottom-width"@ { Some("border-w-b"@) } else { prop_table_3(prop) }
}

fn lookup_prop_table_2(prop: &str) -> (r: Option<String>)
    ensures
        r matches Some(f) ==> prop_table_2(prop@) == Some(f@),
        r is None ==> prop_table_2(prop@) is None,
{
    if str_eq(prop, "inset-inline-start") { Some(owned("inset-s")) } else
    if str_eq(prop, "inset-inline-end") { Some(owned("inset-e")) } else
    if str_eq(prop, "inset-block-start") { Some(owned("inset-bs")) } else
    if str_eq(prop, "inset-block-end") { Some(owned("inset-be")) } else
    if str_eq(prop, "top") { Some(owned("top")) } else
    if str_eq(prop, "right") { Some(owned("right")) } else
    if str_eq(prop, "bottom") { Some(owned("bottom")) } else
    if str_eq(prop, "left") { Some(owned("left")) } else
    if str_eq(prop, "scroll-margin") { Some(owned("scroll-m")) } else
    if str_eq(prop, "scroll-margin-inline") { Some(owned("scroll-mx")) } else
    if str_eq(prop, "scroll-margin-block") { Some(owned("scroll-my")) } else
    if str_eq(prop, "scroll-margin-inline-start") { Some(owned("scroll-ms")) } else
    if str_eq(prop, "scroll-margin-inline-end") { Some(owned("scroll-me")) } else
    if str_eq(prop, "scroll-margin-block-start") { Some(owned("scroll-mbs")) } else
    if str_eq(prop, "scroll-margin-block-end") { Some(owned("scroll-mbe")) } else
    if str_eq(prop, "scroll-margin-top") { Some(owned("scroll-mt")) } else
    if str_eq(prop, "scroll-margin-right") { Some(owned("scroll-mr")) } else
    if str_eq(prop, "scroll-margin-bottom") { Some(owned("scroll-mb")) } else
    if str_eq(prop, "scroll-margin-left") { Some(owned("scroll-ml")) } else
    if str_eq(prop, "scroll-padding") { Some(owned("scroll-p")) } else
    if str_eq(prop, "scroll-padding-inline") { Some(owned("scroll-px")) } else
    if str_eq(prop, "scroll-padding-block") { Some(owned("scroll-py")) } else
    if str_eq(prop, "scroll-padding-inline-start") { Some(owned("scroll-ps")) } else
    if str_eq(prop, "scroll-padding-inline-end") { Some(owned("scroll-pe")) } else
    if str_eq(prop, "scroll-padding-block-start") { Some(owned("scroll-pbs")) } else
    if str_eq(prop, "scroll-padding-block-end") { Some(owned("scroll-pbe")) } else
    if str_eq(prop, "scroll-padding-top") { Some(owned("scroll-pt")) } else
    if str_eq(prop, "scroll-padding-right") { Some(owned("scroll-pr")) } else
    if str_eq(prop, "scroll-padding-bottom") { Some(owned("scroll-pb")) } else
    if str_eq(prop, "scroll-padding-left") { Some(owned("scroll-pl")) } else
    if str_eq(prop, "border-width") { Some(owned("border-w")) } else
    if str_eq(prop, "border-inline-width") { Some(owned("border-w-x")) } else
    if str_eq(prop, "border-block-width") { Some(owned("border-w-y")) } else
    if str_eq(prop, "border-inline-start-width") { Some(owned("border-w-s")) } else
    if str_eq(prop, "border-inline-end-width") { Some(owned("border-w-e")) } else
    if str_eq(prop, "border-block-start-width") { Some(owned("border-w-bs")) } else
    if str_eq(prop, "border-block-end-width") { Some(owned("border-w-be")) } else
    if str_eq(prop, "border-top-width") { Some(owned("border-w-t")) } else
    if str_eq(prop, "border-right-width") { Some(owned("border-w-r")) } else
    if str_eq(prop, "border-bottom-width") { Some(owned("border-w-b")) } else { lookup_prop_table_3(prop) }
}

/// One block of the fixed property table.
pub open spec fn prop_table_3(prop: Seq<char>) -> Option<Seq<char>> {
    if prop == "border-left-width"@ { Some("border-w-l"@) } else
    if prop == "border-color"@ { Some("border-color"@) } else
    if prop == "border-inline-color"@ { Some("border-color-x"@) } else
    if prop == "border-block-color"@ { Some("border-color-y"@) } else
    if prop == "border-inline-start-color"@ { Some("border-color-s"@) } else
    if prop == "border-inline-end-color"@ { Some("border-color-e"@) } else
    if prop == "border-block-start-color"@ { Some("border-color-bs"@) } else
    if prop == "border-block-end-color"@ { Some("border-color-be"@) } else
    if prop == "border-top-color"@ { Some("border-color-t"@) } else
    if prop == "border-right-color"@ { Some("border-color-r"@) } else
    if prop == "border-bottom-color"@ { Some("border-color-b"@) } else
    if prop == "border-left-color"@ { Some("border-color-l"@) } else
    if prop == "border-style"@ { Some("border-style"@) } else
    if prop == "border-spacing"@ { Some("border-spacing"@) } else
    if prop == "border-radius"@ { Some("rounded"@) } else
    if prop == "border-start-start-radius"@ { Some("rounded-ss"@) } else
    if prop == "border-start-end-radius"@ { Some("rounded-se"@) } else
    if prop == "border-end-start-radius"@ { Some("rounded-es"@) } else
    if prop == "border-end-end-radius"@ { Some("rounded-ee"@) } else
    if prop == "border-top-left-radius"@ { Some("rounded-tl"@) } else
    if prop == "border-top-right-radius"@ { Some("rounded-tr"@) } else
    if prop == "border-bottom-right-radius"@ { Some("rounded-br"@) } else
    if prop == "border-bottom-left-radius"@ { Some("rounded-bl"@) } else
    if prop == "font-family"@ { Some("font-family"@) } else
    if prop == "font-weight"@ { Some("font-weight"@) } else
    if prop == "font-size"@ { Some("font-size"@) } else
    if prop == "line-height"@ { Some("leading"@) } else
    if prop == "letter-spacing"@ { Some("tracking"@) } else
    if prop == "text-indent"@ { Some("indent"@) } else
    if prop == "vertical-align"@ { Some("vertical-align"@) } else
    if prop == "text-align"@ { Some("text-alignment"@) } else
    if prop == "text-transform"@ { Some("text-transform"@) } else
    if prop == "text-wrap"@ { Some("text-wrap"@) } else
    if prop == "text-overflow"@ { Some("text-overflow"@) } else
    if prop == "text-decoration-line"@ { Some("text-decoration"@) } else
    if prop == "text-decoration-thickness"@ { Some("text-decoration-thickness"@) } else
    if prop == "text-decoration-color"@ { Some("text-decoration-color"@) } else
    if prop == "text-decoration-style"@ { Some("text-decoration-style"@) } else
    if prop == "text-underline-offset"@ { Some("underline-offset"@) } else
    if prop == "font-style"@ { Some("font-style"@) } else { prop_table_4(prop) }
}

fn lookup_prop_table_3(prop: &str) -> (r: Option<String>)
    ensures
        r matches Some(f) ==> prop_table_3(prop@) == Some(f@),
        r is None ==> prop_table_3(prop@) is None,
{
    if str_eq(prop, "border-left-width") { Some(owned("border-w-l")) } else
    if str_eq(prop, "border-color") { Some(owned("border-color")) } else
    if str_eq(prop, "border-inline-color") { Some(owned("border-color-x")) } else
    if str_eq(prop, "border-block-color") { Some(owned("border-color-y")) } else
    if str_eq(prop, "border-inline-start-color") { Some(owned("border-color-s")) } else
    if str_eq(prop, "border-inline-end-color") { Some(owned("border-color-e")) } else
    if str_eq(prop, "border-block-start-color") { Some(owned("border-color-bs")) } else
    if str_eq(prop, "border-block-end-color") { Some(owned("border-color-be")) } else
    if str_eq(prop, "border-top-color") { Some(owned("border-color-t")) } else
    if str_eq(prop, "border-right-color") { Some(owned("border-color-r")) } else
    if str_eq(prop, "border-bottom-color") { Some(owned("border-color-b")) } else
    if str_eq(prop, "border-left-color") { Some(owned("border-color-l")) } else
    if str_eq(prop, "border-style") { Some(owned("border-style")) } else
    if str_eq(prop, "border-spacing") { Some(owned("border-spacing")) } else
    if str_eq(prop, "border-radius") { Some(owned("rounded")) } else
    if str_eq(prop, "border-start-start-radius") { Some(owned("rounded-ss")) } else
    if str_eq(prop, "border-start-end-radius") { Some(owned("rounded-se")) } else
    if str_eq(prop, "border-end-start-radius") { Some(owned("rounded-es")) } else
    if str_eq(prop, "border-end-end-radius") { Some(owned("rounded-ee")) } else
    if str_eq(prop, "border-top-left-radius") { Some(owned("rounded-tl")) } else
    if str_eq(prop, "border-top-right-radius") { Some(owned("rounded-tr")) } else
    if str_eq(prop, "border-bottom-right-radius") { Some(owned("rounded-br")) } else
    if str_eq(prop, "border-bottom-left-radius") { Some(owned("rounded-bl")) } else
    if str_eq(prop, "font-family") { Some(owned("font-family")) } else
    if str_eq(prop, "font-weight") { Some(owned("font-weight")) } else
    if str_eq(prop, "font-size") { Some(owned("font-size")) } else
    if str_eq(prop, "line-height") { Some(owned("leading")) } else
    if str_eq(prop, "letter-spacing") { Some(owned("tracking")) } else
    if str_eq(prop, "text-indent") { Some(owned("indent")) } else
    if str_eq(prop, "vertical-align") { Some(owned("vertical-align")) } else
    if str_eq(prop, "text-align") { Some(owned("text-alignment")) } else
    if str_eq(prop, "text-transform") { Some(owned("text-transform")) } else
    if str_eq(prop, "text-wrap") { Some(owned("text-wrap")) } else
    if str_eq(prop, "text-overflow") { Some(owned("text-overflow")) } else
    if str_eq(prop, "text-decoration-line") { Some(owned("text-decoration")) } else
    if str_eq(prop, "text-decoration-thickness") { Some(owned("text-decoration-thickness")) } else
    if str_eq(prop, "text-decoration-color") { Some(owned("text-decoration-color")) } else
    if str_eq(prop, "text-decoration-style") { Some(owned("text-decoration-style")) } else
    if str_eq(prop, "text-underline-offset") { Some(owned("underline-offset")) } else
    if str_eq(prop, "font-style") { Some(owned("font-style")) } else { lookup_prop_table_4(prop) }
}

/// One block of the fixed property table.
pub open spec fn prop_table_4(prop: Seq<char>) -> Option<Seq<char>> {
    if prop == "font-stretch"@ { Some("font-stretch"@) } else
    if prop == "font-feature-settings"@ { Some("font-features"@) } else
    if prop == "font-variant-numeric"@ { Some("fvn"@) } else
    if prop == "white-space"@ { Some("whitespace"@) } else
    if prop == "overflow-wrap"@ { Some("break"@) } else
    if prop == "word-break"@ { Some("break"@) } else
    if prop == "hyphens"@ { Some("hyphens"@) } else
    if prop == "caption-side"@ { Some("caption"@) } else
    if prop == "list-style-image"@ { Some("list-image"@) } else
    if prop == "display"@ { Some("display"@) } else
    if prop == "position"@ { Some("position"@) } else
    if prop == "visibility"@ { Some("visibility"@) } else
    if prop == "isolation"@ { Some("isolation"@) } else
    if prop == "box-sizing"@ { Some("box"@) } else
    if prop == "float"@ { Some("float"@) } else
    if prop == "clear"@ { Some("clear"@) } else
    if prop == "aspect-ratio"@ { Some("aspect"@) } else
    if prop == "z-index"@ { Some("z"@) } else
    if prop == "order"@ { Some("order"@) } else
    if prop == "flex"@ { Some("flex"@) } else
    if prop == "flex-basis"@ { Some("basis"@) } else
    if prop == "flex-grow"@ { Some("grow"@) } else
    if prop == "flex-shrink"@ { Some("shrink"@) } else
    if prop == "flex-direction"@ { Some("flex-direction"@) } else
    if prop == "grid-template-columns"@ { Some("grid-cols"@) } else
    if prop == "grid-template-rows"@ { Some("grid-rows"@) } else
    if prop == "grid-column"@ { Some("col"@) } else
    if prop == "grid-row"@ { Some("row"@) } else
    if prop == "grid-column-start"@ { Some("col-start"@) } else
    if prop == "grid-column-end"@ { Some("col-end"@) } else
    if prop == "grid-row-start"@ { Some("row-start"@) } else
    if prop == "grid-row-end"@ { Some("row-end"@) } else
    if prop == "gap"@ { Some("gap"@) } else
    if prop == "column-gap"@ { Some("gap-x"@) } else
    if prop == "row-gap"@ { Some("gap-y"@) } else
    if prop == "columns"@ { Some("columns"@) } else
    if prop == "align-items"@ { Some("align-items"@) } else
    if prop == "align-content"@ { Some("align-content"@) } else
    if prop == "align-self"@ { Some("align-self"@) } else
    if prop == "justify-content"@ { Some("justify-content"@) } else { prop_table_5(prop) }
}

fn lookup_prop_table_4(prop: &str) -> (r: Option<String>)
    ensures
        r matches Some(f) ==> prop_table_4(prop@) == Some(f@),
        r is None ==> prop_table_4(prop@) is None,
{
    if str_eq(prop, "font-stretch") { Some(owned("font-stretch")) } else
    if str_eq(prop, "font-feature-settings") { Some(owned("font-features")) } else
    if str_eq(prop, "font-variant-numeric") { Some(owned("fvn")) } else
    if str_eq(prop, "white-space") { Some(owned("whitespace")) } else
    if str_eq(prop, "overflow-wrap") { Some(owned("break")) } else
    if str_eq(prop, "word-break") { Some(owned("break")) } else
    if str_eq(prop, "hyphens") { Some(owned("hyphens")) } else
    if str_eq(prop, "caption-side") { Some(owned("caption")) } else
    if str_eq(prop, "list-style-image") { Some(owned("list-image")) } else
    if str_eq(prop, "display") { Some(owned("display")) } else
    if str_eq(prop, "position") { Some(owned("position")) } else
    if str_eq(prop, "visibility") { Some(owned("visibility")) } else
    if str_eq(prop, "isolation") { Some(owned("isolation")) } else
    if str_eq(prop, "box-sizing") { Some(owned("box")) } else
    if str_eq(prop, "float") { Some(owned("float")) } else
    if str_eq(prop, "clear") { Some(owned("clear")) } else
    if str_eq(prop, "aspect-ratio") { Some(owned("aspect")) } else
    if str_eq(prop, "z-index") { Some(owned("z")) } else
    if str_eq(prop, "order") { Some(owned("order")) } else
    if str_eq(prop, "flex") { Some(owned("flex")) } else
    if str_eq(prop, "flex-basis") { Some(owned("basis")) } else
    if str_eq(prop, "flex-grow") { Some(owned("grow")) } else
    if str_eq(prop, "flex-shrink") { Some(owned("shrink")) } else
    if str_eq(prop, "flex-direction") { Some(owned("flex-direction")) } else
    if str_eq(prop, "grid-template-columns") { Some(owned("grid-cols")) } else
    if str_eq(prop, "grid-template-rows") { Some(owned("grid-rows")) } else
    if str_eq(prop, "grid-column") { Some(owned("col")) } else
    if str_eq(prop, "grid-row") { Some(owned("row")) } else
    if str_eq(prop, "grid-column-start") { Some(owned("col-start")) } else
    if str_eq(prop, "grid-column-end") { Some(owned("col-end")) } else
    if str_eq(prop, "grid-row-start") { Some(owned("row-start")) } else
    if str_eq(prop, "grid-row-end") { Some(owned("row-end")) } else
    if str_eq(prop, "gap") { Some(owned("gap")) } else
    if str_eq(prop, "column-gap") { Some(owned("gap-x")) } else
    if str_eq(prop, "row-gap") { Some(owned("gap-y")) } else
    if str_eq(prop, "columns") { Some(owned("columns")) } else
    if str_eq(prop, "align-items") { Some(owned("align-items")) } else
    if str_eq(prop, "align-content") { Some(owned("align-content")) } else
    if str_eq(prop, "align-self") { Some(owned("align-self")) } else
    if str_eq(prop, "justify-content") { Some(owned("justify-content")) } else { lookup_prop_table_5(prop) }
}

/// One block of the fixed property table.
pub open spec fn prop_table_5(prop: Seq<char>) -> Option<Seq<char>> {
    if prop == "place-items"@ { Some("place-items"@) } else
    if prop == "place-content"@ { Some("place-content"@) } else
    if prop == "place-self"@ { Some("place-self"@) } else
    if prop == "background-color"@ { Some("bg-color"@) } else
    if prop == "background-image"@ { Some("bg-image"@) } else
    if prop == "background-position"@ { Some("bg-position"@) } else
    if prop == "background-size"@ { Some("bg-size"@) } else
    if prop == "background-repeat"@ { Some("bg-repeat"@) } else
    if prop == "background-attachment"@ { Some("bg-attachment"@) } else
    if prop == "background-clip"@ { Some("bg-clip"@) } else
    if prop == "background-origin"@ { Some("bg-origin"@) } else
    if prop == "outline-width"@ { Some("outline-w"@) } else
    if prop == "outline-color"@ { Some("outline-color"@) } else
    if prop == "outline-style"@ { Some("outline-style"@) } else
    if prop == "outline-offset"@ { Some("outline-offset"@) } else
    if prop == "outline"@ { Some("outline-style"@) } else
    if prop == "opacity"@ { Some("opacity"@) } else
    if prop == "mix-blend-mode"@ { Some("mix-blend"@) } else
    if prop == "background-blend-mode"@ { Some("bg-blend"@) } else
    if prop == "clip-path"@ { Some("clip"@) } else
    if prop == "transition-property"@ { Some("transition"@) } else
    if prop == "transition-duration"@ { Some("duration"@) } else
    if prop == "transition-delay"@ { Some("delay"@) } else
    if prop == "transition-timing-function"@ { Some("ease"@) } else
    if prop == "animation"@ { Some("animate"@) } else
    if prop == "container-type"@ { Some("container-type"@) } else
    if prop == "container-name"@ { Some("container-named"@) } else
    if prop == "content"@ { Some("content"@) } else
    if prop == "fill"@ { Some("fill"@) } else
    if prop == "stroke"@ { Some("stroke"@) } else
    if prop == "stroke-width"@ { Some("stroke-w"@) } else
    if prop == "-webkit-line-clamp"@ { Some("line-clamp"@) } else
    if prop == "-webkit-box-orient"@ { Some("line-clamp"@) } else
    if prop == "zoom"@ { Some("zoom"@) } else
    if prop == "tab-size"@ { Some("tab-size"@) } else
    if prop == "cursor"@ { Some("cursor"@) } else
    if prop == "pointer-events"@ { Some("pointer-events"@) } else
    if prop == "user-select"@ { Some("select"@) } else
    if prop == "resize"@ { Some("resize"@) } else
    if prop == "scroll-behavior"@ { Some("scroll-behavior"@) } else { prop_table_6(prop) }
}

fn lookup_prop_table_5(prop: &str) -> (r: Option<String>)
    ensures
        r matches Some(f) ==> prop_table_5(prop@) == Some(f@),
        r is None ==> prop_table_5(prop@) is None,
{
    if str_eq(prop, "place-items") { Some(owned("place-items")) } else
    if str_eq(prop, "place-content") { Some(owned("place-content")) } else
    if str_eq(prop, "place-self") { Some(owned("place-self")) } else
    if str_eq(prop, "background-color") { Some(owned("bg-color")) } else
    if str_eq(prop, "background-image") { Some(owned("bg-image")) } else
    if str_eq(prop, "background-position") { Some(owned("bg-position")) } else
    if str_eq(prop, "background-size") { Some(owned("bg-size")) } else
    if str_eq(prop, "background-repeat") { Some(owned("bg-repeat")) } else
    if str_eq(prop, "background-attachment") { Some(owned("bg-attachment")) } else
    if str_eq(prop, "background-clip") { Some(owned("bg-clip")) } else
    if str_eq(prop, "background-origin") { Some(owned("bg-origin")) } else
    if str_eq(prop, "outline-width") { Some(owned("outline-w")) } else
    if str_eq(prop, "outline-color") { Some(owned("outline-color")) } else
    if str_eq(prop, "outline-style") { Some(owned("outline-style")) } else
    if str_eq(prop, "outline-offset") { Some(owned("outline-offset")) } else
    if str_eq(prop, "outline") { Some(owned("outline-style")) } else
    if str_eq(prop, "opacity") { Some(owned("opacity")) } else
    if str_eq(prop, "mix-blend-mode") { Some(owned("mix-blend")) } else
    if str_eq(prop, "background-blend-mode") { Some(owned("bg-blend")) } else
    if str_eq(prop, "clip-path") { Some(owned("clip")) } else
    if str_eq(prop, "transition-property") { Some(owned("transition")) } else
    if str_eq(prop, "transition-duration") { Some(owned("duration")) } else
    if str_eq(prop, "transition-delay") { Some(owned("delay")) } else
    if str_eq(prop, "transition-timing-function") { Some(owned("ease")) } else
    if str_eq(prop, "animation") { Some(owned("animate")) } else
    if str_eq(prop, "container-type") { Some(owned("container-type")) } else
    if str_eq(prop, "container-name") { Some(owned("container-named")) } else
    if str_eq(prop, "content") { Some(owned("content")) } else
    if str_eq(prop, "fill") { Some(owned("fill")) } else
    if str_eq(prop, "stroke") { Some(owned("stroke")) } else
    if str_eq(prop, "stroke-width") { Some(owned("stroke-w")) } else
    if str_eq(prop, "-webkit-line-clamp") { Some(owned("line-clamp")) } else
    if str_eq(prop, "-webkit-box-orient") { Some(owned("line-clamp")) } else
    if str_eq(prop, "zoom") { Some(owned("zoom")) } else
    if str_eq(prop, "tab-size") { Some(owned("tab-size")) } else
    if str_eq(prop, "cursor") { Some(owned("cursor")) } else
    if str_eq(prop, "pointer-events") { Some(owned("pointer-events")) } else
    if str_eq(prop, "user-select") { Some(owned("select")) } else
    if str_eq(prop, "resize") { Some(owned("resize")) } else
    if str_eq(prop, "scroll-behavior") { Some(owned("scroll-behavior")) } else { lookup_prop_table_6(prop) }
}

/// One block of the fixed property table.
pub open spec fn prop_table_6(prop: Seq<char>) -> Option<Seq<char>> {
    if prop == "scrollbar-gutter"@ { Some("scrollbar-gutter"@) } else
    if prop == "scrollbar-width"@ { Some("scrollbar-w"@) } else
    if prop == "scrollbar-color"@ { Some("scrollbar-color"@) } else
    if prop == "forced-color-adjust"@ { Some("forced-color-adjust"@) } else
    if prop == "appearance"@ { Some("appearance"@) } else
    if prop == "color-scheme"@ { Some("color-scheme"@) } else
    if prop == "field-sizing"@ { Some("field-sizing"@) } else
    if prop == "text-wrap-style"@ { Some("wrap"@) } else
    if prop == "overflow"@ { Some("overflow"@) } else
    if prop == "overflow-x"@ { Some("overflow-x"@) } else
    if prop == "overflow-y"@ { Some("overflow-y"@) } else
    if prop == "overscroll-behavior"@ { Some("overscroll"@) } else
    if prop == "overscroll-behavior-x"@ { Some("overscroll-x"@) } else
    if prop == "overscroll-behavior-y"@ { Some("overscroll-y"@) } else
    if prop == "clip"@ { Some("clip"@) } else { None }
}

fn lookup_prop_table_6(prop: &str) -> (r: Option<String>)
    ensures
        r matches Some(f) ==> prop_table_6(prop@) == Some(f@),
        r is None ==> prop_table_6(prop@) is None,
{
    if str_eq(prop, "scrollbar-gutter") { Some(owned("scrollbar-gutter")) } else
    if str_eq(prop, "scrollbar-width") { Some(owned("scrollbar-w")) } else
    if str_eq(prop, "scrollbar-color") { Some(owned("scrollbar-color")) } else
    if str_eq(prop, "forced-color-adjust") { Some(owned("forced-color-adjust")) } else
    if str_eq(prop, "appearance") { Some(owned("appearance")) } else
    if str_eq(prop, "color-scheme") { Some(owned("color-scheme")) } else
    if str_eq(prop, "field-sizing") { Some(owned("field-sizing")) } else
    if str_eq(prop, "text-wrap-style") { Some(owned("wrap")) } else
    if str_eq(prop, "overflow") { Some(owned("overflow")) } else
    if str_eq(prop, "overflow-x") { Some(owned("overflow-x")) } else
    if str_eq(prop, "overflow-y") { Some(owned("overflow-y")) } else
    if str_eq(prop, "overscroll-behavior") { Some(owned("overscroll")) } else
    if str_eq(prop, "overscroll-behavior-x") { Some(owned("overscroll-x")) } else
    if str_eq(prop, "overscroll-behavior-y") { Some(owned("overscroll-y")) } else
    if str_eq(prop, "clip") { Some(owned("clip")) } else { None }
}

/// The conflict family of a generated CSS property, given the utility that
/// generates it: side variants of a box property get their own family, and
/// shadow, filter, transform, touch, mask and color properties are told
/// apart by the utility's name. A plugin rule's `--twmo-family:{group}`
/// property stands for the family `{group}`.
pub open spec fn spec_prop_family(prop: Seq<char>, utility: Seq<char>) -> Seq<char> {
    if prop == "box-shadow"@ {
        if has_prefix(utility, "ring"@) { "ring"@ } else if has_prefix(utility, "inset-ring"@) { "inset-ring"@ } else if has_prefix(utility, "text-shadow"@) { "text-shadow"@ } else { "shadow"@ }
    } else if prop == "filter"@ {
        if has_prefix(utility, "blur"@) { "blur"@ } else if has_prefix(utility, "brightness"@) { "brightness"@ } else if has_prefix(utility, "contrast"@) { "contrast"@ } else if has_prefix(utility, "grayscale"@) { "grayscale"@ } else if has_prefix(utility, "hue-rotate"@) { "hue-rotate"@ } else if has_prefix(utility, "invert"@) { "invert"@ } else if has_prefix(utility, "saturate"@) { "saturate"@ } else if has_prefix(utility, "sepia"@) { "sepia"@ } else if has_prefix(utility, "drop-shadow"@) { "drop-shadow"@ } else { "filter"@ }
    } else if prop == "translate"@ {
        if has_prefix(utility, "translate-x"@) { "translate-x"@ } else if has_prefix(utility, "translate-y"@) { "translate-y"@ } else if has_prefix(utility, "translate-z"@) { "translate-z"@ } else { "translate"@ }
    } else if prop == "rotate"@ {
        if has_prefix(utility, "rotate-x"@) { "rotate-x"@ } else if has_prefix(utility, "rotate-y"@) { "rotate-y"@ } else if has_prefix(utility, "rotate-z"@) { "rotate-z"@ } else { "rotate"@ }
    } else if prop == "skew"@ {
        if has_prefix(utility, "skew-x"@) { "skew-x"@ } else if has_prefix(utility, "skew-y"@) { "skew-y"@ } else { "skew"@ }
    } else if prop == "color"@ {
        if has_prefix(utility, "text-"@) { "text-color"@ } else if has_prefix(utility, "decoration-"@) { "text-decoration-color"@ } else if has_prefix(utility, "shadow-"@) { "shadow-color"@ } else if has_prefix(utility, "ring-"@) { "ring-color"@ } else if has_prefix(utility, "inset-ring-"@) { "inset-ring-color"@ } else if has_prefix(utility, "outline-"@) { "outline-color"@ } else { "color"@ }
    } else if prop == "touch-action"@ {
        if has_prefix(utility, "touch-pan-"@) {
            if utility == "touch-pan-x"@ || utility == "touch-pan-left"@ || utility == "touch-pan-right"@ { "touch-x"@ } else { "touch-y"@ }
        } else if has_prefix(utility, "touch-pinch"@) { "touch-pz"@ } else { "touch"@ }
    } else if prop == "mask"@ && has_prefix(utility, "mask-"@) {
        "mask-image"@
    } else {
        match prop_table_0(prop) {
            Some(f) => f,
            None => if has_prefix(prop, PLUGIN_FAMILY_PROP@) {
                text(enc(prop), 14, enc(prop).len() as int)
            } else if has_prefix(prop, "--"@) {
                "custom.."@ + prop
            } else {
                "arbitrary.."@ + prop
            },
        }
    }
}

/// Maps a generated CSS property to its conflict family.
pub fn prop_family(prop: &str, utility: &str) -> (r: String)
    ensures
        r@ == spec_prop_family(prop@, utility@),
{
    if str_eq(prop, "box-shadow") {
        if starts_with(utility, "ring") { owned("ring") } else if starts_with(utility, "inset-ring") { owned("inset-ring") } else if starts_with(utility, "text-shadow") { owned("text-shadow") } else { owned("shadow") }
    } else if str_eq(prop, "filter") {
        if starts_with(utility, "blur") { owned("blur") } else if starts_with(utility, "brightness") { owned("brightness") } else if starts_with(utility, "contrast") { owned("contrast") } else if starts_with(utility, "grayscale") { owned("grayscale") } else if starts_with(utility, "hue-rotate") { owned("hue-rotate") } else if starts_with(utility, "invert") { owned("invert") } else if starts_with(utility, "saturate") { owned("saturate") } else if starts_with(utility, "sepia") { owned("sepia") } else if starts_with(utility, "drop-shadow") { owned("drop-shadow") } else { owned("filter") }
    } else if str_eq(prop, "translate") {
        if starts_with(utility, "translate-x") { owned("translate-x") } else if starts_with(utility, "translate-y") { owned("translate-y") } else if starts_with(utility, "translate-z") { owned("translate-z") } else { owned("translate") }
    } else if str_eq(prop, "rotate") {
        if starts_with(utility, "rotate-x") { owned("rotate-x") } else if starts_with(utility, "rotate-y") { owned("rotate-y") } else if starts_with(utility, "rotate-z") { owned("rotate-z") } else { owned("rotate") }
    } else if str_eq(prop, "skew") {
        if starts_with(utility, "skew-x") { owned("skew-x") } else if starts_with(utility, "skew-y") { owned("skew-y") } else { owned("skew") }
    } else if str_eq(prop, "color") {
        if starts_with(utility, "text-") { owned("text-color") } else if starts_with(utility, "decoration-") { owned("text-decoration-color") } else if starts_with(utility, "shadow-") { owned("shadow-color") } else if starts_with(utility, "ring-") { owned("ring-color") } else if starts_with(utility, "inset-ring-") { owned("inset-ring-color") } else if starts_with(utility, "outline-") { owned("outline-color") } else { owned("color") }
    } else if str_eq(prop, "touch-action") {
        if starts_with(utility, "touch-pan-") {
            if str_eq(utility, "touch-pan-x") || str_eq(utility, "touch-pan-left") || str_eq(utility, "touch-pan-right") { owned("touch-x") } else { owned("touch-y") }
        } else if starts_with(utility, "touch-pinch") { owned("touch-pz") } else { owned("touch") }
    } else if str_eq(prop, "mask") && starts_with(utility, "mask-") {
        owned("mask-image")
    } else {
        match lookup_prop_table_0(prop) {
            Some(f) => f,
            None => if starts_with(prop, PLUGIN_FAMILY_PROP) {
                let b = prop.as_bytes();
                proof {
                    reveal_strlit("--twmo-family:");
                    vstd::utf8::is_ascii_chars_encode_utf8(PLUGIN_FAMILY_PROP@);
                    assert(b@[13] == enc(PLUGIN_FAMILY_PROP@)[13]);
                    lemma_after_ascii(b@, 13);
                }
                owned(substr(prop, 14, b.len()))
            } else if starts_with(prop, "--") {
                concat("custom..", prop)
            } else {
                concat("arbitrary..", prop)
            },
        }
    }
}

/// Utilities whose own family is not derived from their properties: the
/// own family and, where given, the only properties that take part in
/// conflicts.
pub open spec fn spec_utility_override(utility: Seq<char>) -> Option<(Seq<char>, Option<Seq<Seq<char>>>)> {
    if utility == "border"@ {
        Some(("border-w"@, Some(seq!["border-width"@])))
    } else if utility == "truncate"@ {
        Some(("text-overflow"@, Some(seq!["text-overflow"@])))
    } else if utility == "sr-only"@ || utility == "not-sr-only"@ {
        Some(("sr"@, Some(Seq::<Seq<char>>::empty())))
    } else if utility == "outline-none"@ {
        Some(("outline-style"@, Some(seq!["outline-style"@])))
    } else if utility == "outline"@ {
        Some(("outline-w"@, Some(seq!["outline-width"@])))
    } else if utility == "size-*"@ || utility == "size-auto"@ || utility == "size-full"@ || utility == "size-min"@ || utility == "size-max"@ || utility == "size-fit"@ || utility == "size-px"@ {
        Some(("size"@, None))
    } else if utility == "line-clamp-*"@ {
        Some(("line-clamp"@, None))
    } else if utility == "scrollbar-thumb-*"@ {
        Some(("scrollbar-thumb-color"@, Some(seq!["scrollbar-color"@])))
    } else if utility == "scrollbar-track-*"@ {
        Some(("scrollbar-track-color"@, Some(seq!["scrollbar-color"@])))
    } else if utility == "space-x-*"@ {
        Some(("space-x"@, Some(Seq::<Seq<char>>::empty())))
    } else if utility == "space-y-*"@ {
        Some(("space-y"@, Some(Seq::<Seq<char>>::empty())))
    } else if utility == "normal-nums"@ {
        Some(("fvn-normal"@, Some(seq!["font-variant-numeric"@])))
    } else if utility == "ordinal"@ {
        Some(("fvn-ordinal"@, Some(seq!["font-variant-numeric"@])))
    } else if utility == "slashed-zero"@ {
        Some(("fvn-slashed-zero"@, Some(seq!["font-variant-numeric"@])))
    } else if utility == "lining-nums"@ || utility == "oldstyle-nums"@ {
        Some(("fvn-figure"@, Some(seq!["font-variant-numeric"@])))
    } else if utility == "proportional-nums"@ || utility == "tabular-nums"@ {
        Some(("fvn-spacing"@, Some(seq!["font-variant-numeric"@])))
    } else if utility == "diagonal-fractions"@ || utility == "stacked-fractions"@ {
        Some(("fvn-fraction"@, Some(seq!["font-variant-numeric"@])))
    } else {
        None
    }
}

pub fn utility_override(utility: &str) -> (r: Option<(String, Option<Vec<String>>)>)
    ensures
        r is Some <==> spec_utility_override(utility@) is Some,
        r matches Some((own, keep)) ==> spec_utility_override(utility@) == Some((own@, match keep {
            Some(k) => Some(k.deep_view()),
            None => None,
        })),
{
    if str_eq(utility, "border") {
        Some((owned("border-w"), Some(vec![owned("border-width")])))
    } else if str_eq(utility, "truncate") {
        Some((owned("text-overflow"), Some(vec![owned("text-overflow")])))
    } else if str_eq(utility, "sr-only") || str_eq(utility, "not-sr-only") {
        Some((owned("sr"), Some(vec![])))
    } else if str_eq(utility, "outline-none") {
        Some((owned("outline-style"), Some(vec![owned("outline-style")])))
    } else if str_eq(utility, "outline") {
        Some((owned("outline-w"), Some(vec![owned("outline-width")])))
    } else if str_eq(utility, "size-*") || str_eq(utility, "size-auto") || str_eq(utility, "size-full") || str_eq(utility, "size-min") || str_eq(utility, "size-max") || str_eq(utility, "size-fit") || str_eq(utility, "size-px") {
        Some((owned("size"), None))
    } else if str_eq(utility, "line-clamp-*") {
        Some((owned("line-clamp"), None))
    } else if str_eq(utility, "scrollbar-thumb-*") {
        Some((owned("scrollbar-thumb-color"), Some(vec![owned("scrollbar-color")])))
    } else if str_eq(utility, "scrollbar-track-*") {
        Some((owned("scrollbar-track-color"), Some(vec![owned("scrollbar-color")])))
    } else if str_eq(utility, "space-x-*") {
        Some((owned("space-x"), Some(vec![])))
    } else if str_eq(utility, "space-y-*") {
        Some((owned("space-y"), Some(vec![])))
    } else if str_eq(utility, "normal-nums") {
        Some((owned("fvn-normal"), Some(vec![owned("font-variant-numeric")])))
    } else if str_eq(utility, "ordinal") {
        Some((owned("fvn-ordinal"), Some(vec![owned("font-variant-numeric")])))
    } else if str_eq(utility, "slashed-zero") {
        Some((owned("fvn-slashed-zero"), Some(vec![owned("font-variant-numeric")])))
    } else if str_eq(utility, "lining-nums") || str_eq(utility, "oldstyle-nums") {
        Some((owned("fvn-figure"), Some(vec![owned("font-variant-numeric")])))
    } else if str_eq(utility, "proportional-nums") || str_eq(utility, "tabular-nums") {
        Some((owned("fvn-spacing"), Some(vec![owned("font-variant-numeric")])))
    } else if str_eq(utility, "diagonal-fractions") || str_eq(utility, "stacked-fractions") {
        Some((owned("fvn-fraction"), Some(vec![owned("font-variant-numeric")])))
    } else {
        None
    }
}

/// Directed conflict edges: a class whose own family is the source drops
/// earlier classes of the target families (a shorthand overrides its parts).
pub open spec fn spec_conflict_edges(family: Seq<char>) -> Seq<Seq<char>> {
    if family == "container-named"@ {
        seq!["container-type"@]
    } else if family == "overflow"@ {
        seq!["overflow-x"@, "overflow-y"@]
    } else if family == "overscroll"@ {
        seq!["overscroll-x"@, "overscroll-y"@]
    } else if family == "inset"@ {
        seq!["inset-x"@, "inset-y"@, "inset-bs"@, "inset-be"@, "inset-s"@, "inset-e"@, "top"@, "right"@, "bottom"@, "left"@]
    } else if family == "inset-x"@ {
        seq!["right"@, "left"@]
    } else if family == "inset-y"@ {
        seq!["top"@, "bottom"@]
    } else if family == "flex"@ {
        seq!["basis"@, "grow"@, "shrink"@]
    } else if family == "gap"@ {
        seq!["gap-x"@, "gap-y"@]
    } else if family == "p"@ {
        seq!["px"@, "py"@, "ps"@, "pe"@, "pbs"@, "pbe"@, "pt"@, "pr"@, "pb"@, "pl"@]
    } else if family == "px"@ {
        seq!["pr"@, "pl"@]
    } else if family == "py"@ {
        seq!["pt"@, "pb"@]
    } else if family == "m"@ {
        seq!["mx"@, "my"@, "ms"@, "me"@, "mbs"@, "mbe"@, "mt"@, "mr"@, "mb"@, "ml"@]
    } else if family == "mx"@ {
        seq!["mr"@, "ml"@]
    } else if family == "my"@ {
        seq!["mt"@, "mb"@]
    } else if family == "size"@ {
        seq!["w"@, "h"@]
    } else if family == "fvn-normal"@ {
        seq!["fvn-ordinal"@, "fvn-slashed-zero"@, "fvn-figure"@, "fvn-spacing"@, "fvn-fraction"@]
    } else if family == "fvn-ordinal"@ {
        seq!["fvn-normal"@]
    } else if family == "fvn-slashed-zero"@ {
        seq!["fvn-normal"@]
    } else if family == "fvn-figure"@ {
        seq!["fvn-normal"@]
    } else if family == "fvn-spacing"@ {
        seq!["fvn-normal"@]
    } else if family == "fvn-fraction"@ {
        seq!["fvn-normal"@]
    } else if family == "line-clamp"@ {
        seq!["display"@, "overflow"@]
    } else if family == "rounded"@ {
        seq!["rounded-s"@, "rounded-e"@, "rounded-t"@, "rounded-r"@, "rounded-b"@, "rounded-l"@, "rounded-ss"@, "rounded-se"@, "rounded-ee"@, "rounded-es"@, "rounded-tl"@, "rounded-tr"@, "rounded-br"@, "rounded-bl"@]
    } else if family == "rounded-s"@ {
        seq!["rounded-ss"@, "rounded-es"@]
    } else if family == "rounded-e"@ {
        seq!["rounded-se"@, "rounded-ee"@]
    } else if family == "rounded-t"@ {
        seq!["rounded-tl"@, "rounded-tr"@]
    } else if family == "rounded-r"@ {
        seq!["rounded-tr"@, "rounded-br"@]
    } else if family == "rounded-b"@ {
        seq!["rounded-br"@, "rounded-bl"@]
    } else if family == "rounded-l"@ {
        seq!["rounded-tl"@, "rounded-bl"@]
    } else if family == "border-spacing"@ {
        seq!["border-spacing-x"@, "border-spacing-y"@]
    } else if family == "border-w"@ {
        seq!["border-w-x"@, "border-w-y"@, "border-w-s"@, "border-w-e"@, "border-w-bs"@, "border-w-be"@, "border-w-t"@, "border-w-r"@, "border-w-b"@, "border-w-l"@]
    } else if family == "border-w-x"@ {
        seq!["border-w-r"@, "border-w-l"@]
    } else if family == "border-w-y"@ {
        seq!["border-w-t"@, "border-w-b"@]
    } else if family == "border-color"@ {
        seq!["border-color-x"@, "border-color-y"@, "border-color-s"@, "border-color-e"@, "border-color-bs"@, "border-color-be"@, "border-color-t"@, "border-color-r"@, "border-color-b"@, "border-color-l"@]
    } else if family == "border-color-x"@ {
        seq!["border-color-r"@, "border-color-l"@]
    } else if family == "border-color-y"@ {
        seq!["border-color-t"@, "border-color-b"@]
    } else if family == "translate"@ {
        seq!["translate-x"@, "translate-y"@, "translate-none"@]
    } else if family == "translate-none"@ {
        seq!["translate"@, "translate-x"@, "translate-y"@, "translate-z"@]
    } else if family == "scroll-m"@ {
        seq!["scroll-mx"@, "scroll-my"@, "scroll-ms"@, "scroll-me"@, "scroll-mbs"@, "scroll-mbe"@, "scroll-mt"@, "scroll-mr"@, "scroll-mb"@, "scroll-ml"@]
    } else if family == "scroll-mx"@ {
        seq!["scroll-mr"@, "scroll-ml"@]
    } else if family == "scroll-my"@ {
        seq!["scroll-mt"@, "scroll-mb"@]
    } else if family == "scroll-p"@ {
        seq!["scroll-px"@, "scroll-py"@, "scroll-ps"@, "scroll-pe"@, "scroll-pbs"@, "scroll-pbe"@, "scroll-pt"@, "scroll-pr"@, "scroll-pb"@, "scroll-pl"@]
    } else if family == "scroll-px"@ {
        seq!["scroll-pr"@, "scroll-pl"@]
    } else if family == "scroll-py"@ {
        seq!["scroll-pt"@, "scroll-pb"@]
    } else if family == "touch"@ {
        seq!["touch-x"@, "touch-y"@, "touch-pz"@]
    } else if family == "touch-x"@ {
        seq!["touch"@]
    } else if family == "touch-y"@ {
        seq!["touch"@]
    } else if family == "touch-pz"@ {
        seq!["touch"@]
    } else {
        Seq::empty()
    }
}

pub fn conflict_edges(family: &str) -> (r: Vec<String>)
    ensures
        r.deep_view() == spec_conflict_edges(family@),
{
    if str_eq(family, "container-named") {
        vec![owned("container-type")]
    } else if str_eq(family, "overflow") {
        vec![owned("overflow-x"), owned("overflow-y")]
    } else if str_eq(family, "overscroll") {
        vec![owned("overscroll-x"), owned("overscroll-y")]
    } else if str_eq(family, "inset") {
        vec![owned("inset-x"), owned("inset-y"), owned("inset-bs"), owned("inset-be"), owned("inset-s"), owned("inset-e"), owned("top"), owned("right"), owned("bottom"), owned("left")]
    } else if str_eq(family, "inset-x") {
        vec![owned("right"), owned("left")]
    } else if str_eq(family, "inset-y") {
        vec![owned("top"), owned("bottom")]
    } else if str_eq(family, "flex") {
        vec![owned("basis"), owned("grow"), owned("shrink")]
    } else if str_eq(family, "gap") {
        vec![owned("gap-x"), owned("gap-y")]
    } else if str_eq(family, "p") {
        vec![owned("px"), owned("py"), owned("ps"), owned("pe"), owned("pbs"), owned("pbe"), owned("pt"), owned("pr"), owned("pb"), owned("pl")]
    } else if str_eq(family, "px") {
        vec![owned("pr"), owned("pl")]
    } else if str_eq(family, "py") {
        vec![owned("pt"), owned("pb")]
    } else if str_eq(family, "m") {
        vec![owned("mx"), owned("my"), owned("ms"), owned("me"), owned("mbs"), owned("mbe"), owned("mt"), owned("mr"), owned("mb"), owned("ml")]
    } else if str_eq(family, "mx") {
        vec![owned("mr"), owned("ml")]
    } else if str_eq(family, "my") {
        vec![owned("mt"), owned("mb")]
    } else if str_eq(family, "size") {
        vec![owned("w"), owned("h")]
    } else if str_eq(family, "fvn-normal") {
        vec![owned("fvn-ordinal"), owned("fvn-slashed-zero"), owned("fvn-figure"), owned("fvn-spacing"), owned("fvn-fraction")]
    } else if str_eq(family, "fvn-ordinal") {
        vec![owned("fvn-normal")]
    } else if str_eq(family, "fvn-slashed-zero") {
        vec![owned("fvn-normal")]
    } else if str_eq(family, "fvn-figure") {
        vec![owned("fvn-normal")]
    } else if str_eq(family, "fvn-spacing") {
        vec![owned("fvn-normal")]
    } else if str_eq(family, "fvn-fraction") {
        vec![owned("fvn-normal")]
    } else if str_eq(family, "line-clamp") {
        vec![owned("display"), owned("overflow")]
    } else if str_eq(family, "rounded") {
        vec![owned("rounded-s"), owned("rounded-e"), owned("rounded-t"), owned("rounded-r"), owned("rounded-b"), owned("rounded-l"), owned("rounded-ss"), owned("rounded-se"), owned("rounded-ee"), owned("rounded-es"), owned("rounded-tl"), owned("rounded-tr"), owned("rounded-br"), owned("rounded-bl")]
    } else if str_eq(family, "rounded-s") {
        vec![owned("rounded-ss"), owned("rounded-es")]
    } else if str_eq(family, "rounded-e") {
        vec![owned("rounded-se"), owned("rounded-ee")]
    } else if str_eq(family, "rounded-t") {
        vec![owned("rounded-tl"), owned("rounded-tr")]
    } else if str_eq(family, "rounded-r") {
        vec![owned("rounded-tr"), owned("rounded-br")]
    } else if str_eq(family, "rounded-b") {
        vec![owned("rounded-br"), owned("rounded-bl")]
    } else if str_eq(family, "rounded-l") {
        vec![owned("rounded-tl"), owned("rounded-bl")]
    } else if str_eq(family, "border-spacing") {
        vec![owned("border-spacing-x"), owned("border-spacing-y")]
    } else if str_eq(family, "border-w") {
        vec![owned("border-w-x"), owned("border-w-y"), owned("border-w-s"), owned("border-w-e"), owned("border-w-bs"), owned("border-w-be"), owned("border-w-t"), owned("border-w-r"), owned("border-w-b"), owned("border-w-l")]
    } else if str_eq(family, "border-w-x") {
        vec![owned("border-w-r"), owned("border-w-l")]
    } else if str_eq(family, "border-w-y") {
        vec![owned("border-w-t"), owned("border-w-b")]
    } else if str_eq(family, "border-color") {
        vec![owned("border-color-x"), owned("border-color-y"), owned("border-color-s"), owned("border-color-e"), owned("border-color-bs"), owned("border-color-be"), owned("border-color-t"), owned("border-color-r"), owned("border-color-b"), owned("border-color-l")]
    } else if str_eq(family, "border-color-x") {
        vec![owned("border-color-r"), owned("border-color-l")]
    } else if str_eq(family, "border-color-y") {
        vec![owned("border-color-t"), owned("border-color-b")]
    } else if str_eq(family, "translate") {
        vec![owned("translate-x"), owned("translate-y"), owned("translate-none")]
    } else if str_eq(family, "translate-none") {
        vec![owned("translate"), owned("translate-x"), owned("translate-y"), owned("translate-z")]
    } else if str_eq(family, "scroll-m") {
        vec![owned("scroll-mx"), owned("scroll-my"), owned("scroll-ms"), owned("scroll-me"), owned("scroll-mbs"), owned("scroll-mbe"), owned("scroll-mt"), owned("scroll-mr"), owned("scroll-mb"), owned("scroll-ml")]
    } else if str_eq(family, "scroll-mx") {
        vec![owned("scroll-mr"), owned("scroll-ml")]
    } else if str_eq(family, "scroll-my") {
        vec![owned("scroll-mt"), owned("scroll-mb")]
    } else if str_eq(family, "scroll-p") {
        vec![owned("scroll-px"), owned("scroll-py"), owned("scroll-ps"), owned("scroll-pe"), owned("scroll-pbs"), owned("scroll-pbe"), owned("scroll-pt"), owned("scroll-pr"), owned("scroll-pb"), owned("scroll-pl")]
    } else if str_eq(family, "scroll-px") {
        vec![owned("scroll-pr"), owned("scroll-pl")]
    } else if str_eq(family, "scroll-py") {
        vec![owned("scroll-pt"), owned("scroll-pb")]
    } else if str_eq(family, "touch") {
        vec![owned("touch-x"), owned("touch-y"), owned("touch-pz")]
    } else if str_eq(family, "touch-x") {
        vec![owned("touch")]
    } else if str_eq(family, "touch-y") {
        vec![owned("touch")]
    } else if str_eq(family, "touch-pz") {
        vec![owned("touch")]
    } else {
        Vec::new()
    }
}

// ---------------------------------------------------------------------------
// Box properties: a shorthand and its side longhands
// ---------------------------------------------------------------------------

/// The sides of a box property, logical then physical.
pub open spec fn box_sides() -> Seq<Seq<char>> {
    seq!["inline"@, "block"@, "inline-start"@, "inline-end"@, "block-start"@, "block-end"@, "top"@, "right"@, "bottom"@, "left"@]
}

/// The longhand of box property `base` for one side: `margin-top`, or
/// `border-top-width` for the border width and color.
pub open spec fn box_longhand(base: Seq<char>, side: Seq<char>) -> Seq<char> {
    if base == "border-width"@ {
        "border-"@ + side + "-width"@
    } else if base == "border-color"@ {
        "border-"@ + side + "-color"@
    } else {
        base + "-"@ + side
    }
}

/// The box shorthands.
pub open spec fn is_box_shorthand(base: Seq<char>) -> bool {
    base == "margin"@ || base == "padding"@ || base == "scroll-margin"@ || base == "scroll-padding"@ || base == "border-width"@ || base == "border-color"@
}

/// The properties that start with `mar`, `pad`, `scr` or `bor`.
pub open spec fn box_prefixed(q: Seq<char>) -> bool {
    q.len() >= 3 && ((q[0] == 'm' && q[1] == 'a' && q[2] == 'r') || (q[0] == 'p' && q[1] == 'a' && q[2] == 'd') || (q[0] == 's' && q[1] == 'c' && q[2] == 'r') || (q[0] == 'b' && q[1] == 'o' && q[2] == 'r'))
}

/// A box-prefixed property passes the special cases of `spec_prop_family`
/// and the first block of the property table.
#[verifier::rlimit(80)]
proof fn lemma_box_prop_skips_table_0(q: Seq<char>, u: Seq<char>)
    requires
        box_prefixed(q),
    ensures
        prop_table_0(q) == prop_table_1(q),
        prop_table_1(q) is Some ==> spec_prop_family(q, u) == prop_table_1(q)->0,
{
    reveal_strlit("box-shadow");
    reveal_strlit("filter");
    reveal_strlit("translate");
    reveal_strlit("rotate");
    reveal_strlit("skew");
    reveal_strlit("color");
    reveal_strlit("touch-action");
    reveal_strlit("mask");
    reveal_strlit("--tw-ring-width");
    reveal_strlit("--tw-ring-color");
    reveal_strlit("--tw-ring-inset");
    reveal_strlit("--tw-inset-ring-width");
    reveal_strlit("--tw-inset-ring-color");
    reveal_strlit("text-shadow");
    reveal_strlit("text-shadow-color");
    reveal_strlit("--tw-gradient-from");
    reveal_strlit("--tw-gradient-from-position");
    reveal_strlit("--tw-gradient-via");
    reveal_strlit("--tw-gradient-via-position");
    reveal_strlit("--tw-gradient-to");
    reveal_strlit("--tw-gradient-to-position");
    reveal_strlit("scale");
    reveal_strlit("--tw-translate-x");
    reveal_strlit("--tw-translate-y");
    reveal_strlit("--tw-rotate-x");
    reveal_strlit("--tw-rotate-y");
    reveal_strlit("--tw-scale-x");
    reveal_strlit("--tw-scale-y");
    reveal_strlit("transform-origin");
    reveal_strlit("transform-style");
    reveal_strlit("perspective");
    reveal_strlit("perspective-origin");
    reveal_strlit("--tw-mask-linear-pos");
    reveal_strlit("--tw-mask-linear-from-pos");
    reveal_strlit("--tw-mask-linear-to-pos");
    reveal_strlit("--tw-mask-linear-from-color");
    reveal_strlit("--tw-mask-linear-to-color");
    reveal_strlit("--tw-mask-t-from-pos");
    reveal_strlit("--tw-mask-t-to-pos");
    reveal_strlit("--tw-mask-t-from-color");
    reveal_strlit("--tw-mask-t-to-color");
    reveal_strlit("--tw-mask-radial-pos");
    reveal_strlit("--tw-mask-radial-from-pos");
    reveal_strlit("--tw-mask-radial-to-pos");
    reveal_strlit("--tw-mask-radial-from-color");
    reveal_strlit("--tw-mask-radial-to-color");
    reveal_strlit("mask-image");
    reveal_strlit("mask-position");
}

/// A `scr`- or `bor`-prefixed property passes the second block of the
/// property table.
#[verifier::rlimit(80)]
proof fn lemma_box_prop_skips_table_1(q: Seq<char>)
    requires
        q.len() >= 3,
        (q[0] == 's' && q[1] == 'c' && q[2] == 'r') || (q[0] == 'b' && q[1] == 'o' && q[2] == 'r'),
    ensures
        prop_table_1(q) == prop_table_2(q),
{
    reveal_strlit("mask-size");
    reveal_strlit("mask-type");
    reveal_strlit("mask-composite");
    reveal_strlit("width");
    reveal_strlit("height");
    reveal_strlit("min-width");
    reveal_strlit("min-height");
    reveal_strlit("max-width");
    reveal_strlit("max-height");
    reveal_strlit("inline-size");
    reveal_strlit("block-size");
    reveal_strlit("min-inline-size");
    reveal_strlit("max-inline-size");
    reveal_strlit("min-block-size");
    reveal_strlit("max-block-size");
    reveal_strlit("margin");
    reveal_strlit("margin-inline");
    reveal_strlit("margin-block");
    reveal_strlit("margin-inline-start");
    reveal_strlit("margin-inline-end");
    reveal_strlit("margin-block-start");
    reveal_strlit("margin-block-end");
    reveal_strlit("margin-top");
    reveal_strlit("margin-right");
    reveal_strlit("margin-bottom");
    reveal_strlit("margin-left");
    reveal_strlit("padding");
    reveal_strlit("padding-inline");
    reveal_strlit("padding-block");
    reveal_strlit("padding-inline-start");
    reveal_strlit("padding-inline-end");
    reveal_strlit("padding-block-start");
    reveal_strlit("padding-block-end");
    reveal_strlit("padding-top");
    reveal_strlit("padding-right");
    reveal_strlit("padding-bottom");
    reveal_strlit("padding-left");
    reveal_strlit("inset");
    reveal_strlit("inset-inline");
    reveal_strlit("inset-block");
}

/// The families the property table gives the margin and padding properties.
#[verifier::rlimit(100)]
proof fn lemma_box_table_1()
    ensures
        prop_table_1("margin"@) == Some("m"@),
        prop_table_1("margin-inline"@) == Some("mx"@),
        prop_table_1("margin-block"@) == Some("my"@),
        prop_table_1("margin-inline-start"@) == Some("ms"@),
        prop_table_1("margin-inline-end"@) == Some("me"@),
        prop_table_1("margin-block-start"@) == Some("mbs"@),
        prop_table_1("margin-block-end"@) == Some("mbe"@),
        prop_table_1("margin-top"@) == Some("mt"@),
        prop_table_1("margin-right"@) == Some("mr"@),
        prop_table_1("margin-bottom"@) == Some("mb"@),
        prop_table_1("margin-left"@) == Some("ml"@),
        prop_table_1("padding"@) == Some("p"@),
        prop_table_1("padding-inline"@) == Some("px"@),
        prop_table_1("padding-block"@) == Some("py"@),
        prop_table_1("padding-inline-start"@) == Some("ps"@),
        prop_table_1("padding-inline-end"@) == Some("pe"@),
        prop_table_1("padding-block-start"@) == Some("pbs"@),
        prop_table_1("padding-block-end"@) == Some("pbe"@),
        prop_table_1("padding-top"@) == Some("pt"@),
        prop_table_1("padding-right"@) == Some("pr"@),
        prop_table_1("padding-bottom"@) == Some("pb"@),
        prop_table_1("padding-left"@) == Some("pl"@),
{
    reveal_strlit("mask-size");
    reveal_strlit("mask-type");
    reveal_strlit("mask-composite");
    reveal_strlit("width");
    reveal_strlit("height");
    reveal_strlit("min-width");
    reveal_strlit("min-height");
    reveal_strlit("max-width");
    reveal_strlit("max-height");
    reveal_strlit("inline-size");
    reveal_strlit("block-size");
    reveal_strlit("min-inline-size");
    reveal_strlit("max-inline-size");
    reveal_strlit("min-block-size");
    reveal_strlit("max-block-size");
    reveal_strlit("margin");
    reveal_strlit("margin-inline");
    reveal_strlit("margin-block");
    reveal_strlit("margin-inline-start");
    reveal_strlit("margin-inline-end");
    reveal_strlit("margin-block-start");
    reveal_strlit("margin-block-end");
    reveal_strlit("margin-top");
    reveal_strlit("margin-right");
    reveal_strlit("margin-bottom");
    reveal_strlit("margin-left");
    reveal_strlit("padding");
    reveal_strlit("padding-inline");
    reveal_strlit("padding-block");
    reveal_strlit("padding-inline-start");
    reveal_strlit("padding-inline-end");
    reveal_strlit("padding-block-start");
    reveal_strlit("padding-block-end");
    reveal_strlit("padding-top");
    reveal_strlit("padding-right");
    reveal_strlit("padding-bottom");
    reveal_strlit("padding-left");
    reveal_strlit("inset");
    reveal_strlit("inset-inline");
    reveal_strlit("inset-block");
    assert("margin"@.len() == 6 && "margin"@[0] == 'm' && "margin"@[1] == 'a' && "margin"@[2] == 'r' && "margin"@[3] == 'g' && "margin"@[4] == 'i' && "margin"@[5] == 'n');
    assert("margin-inline"@.len() == 13 && "margin-inline"@[0] == 'm' && "margin-inline"@[1] == 'a' && "margin-inline"@[2] == 'r' && "margin-inline"@[3] == 'g' && "margin-inline"@[4] == 'i' && "margin-inline"@[5] == 'n' && "margin-inline"@[6] == '-' && "margin-inline"@[7] == 'i' && "margin-inline"@[8] == 'n' && "margin-inline"@[9] == 'l' && "margin-inline"@[10] == 'i' && "margin-inline"@[11] == 'n' && "margin-inline"@[12] == 'e');
    assert("margin-block"@.len() == 12 && "margin-block"@[0] == 'm' && "margin-block"@[1] == 'a' && "margin-block"@[2] == 'r' && "margin-block"@[3] == 'g' && "margin-block"@[4] == 'i' && "margin-block"@[5] == 'n' && "margin-block"@[6] == '-' && "margin-block"@[7] == 'b' && "margin-block"@[8] == 'l' && "margin-block"@[9] == 'o' && "margin-block"@[10] == 'c' && "margin-block"@[11] == 'k');
    assert("margin-inline-start"@.len() == 19 && "margin-inline-start"@[0] == 'm' && "margin-inline-start"@[1] == 'a' && "margin-inline-start"@[2] == 'r' && "margin-inline-start"@[3] == 'g' && "margin-inline-start"@[4] == 'i' && "margin-inline-start"@[5] == 'n' && "margin-inline-start"@[6] == '-' && "margin-inline-start"@[7] == 'i' && "margin-inline-start"@[8] == 'n' && "margin-inline-start"@[9] == 'l' && "margin-inline-start"@[10] == 'i' && "margin-inline-start"@[11] == 'n' && "margin-inline-start"@[12] == 'e' && "margin-inline-start"@[13] == '-' && "margin-inline-start"@[14] == 's' && "margin-inline-start"@[15] == 't' && "margin-inline-start"@[16] == 'a' && "margin-inline-start"@[17] == 'r' && "margin-inline-start"@[18] == 't');
    assert("margin-inline-end"@.len() == 17 && "margin-inline-end"@[0] == 'm' && "margin-inline-end"@[1] == 'a' && "margin-inline-end"@[2] == 'r' && "margin-inline-end"@[3] == 'g' && "margin-inline-end"@[4] == 'i' && "margin-inline-end"@[5] == 'n' && "margin-inline-end"@[6] == '-' && "margin-inline-end"@[7] == 'i' && "margin-inline-end"@[8] == 'n' && "margin-inline-end"@[9] == 'l' && "margin-inline-end"@[10] == 'i' && "margin-inline-end"@[11] == 'n' && "margin-inline-end"@[12] == 'e' && "margin-inline-end"@[13] == '-' && "margin-inline-end"@[14] == 'e' && "margin-inline-end"@[15] == 'n' && "margin-inline-end"@[16] == 'd');
    assert("margin-block-start"@.len() == 18 && "margin-block-start"@[0] == 'm' && "margin-block-start"@[1] == 'a' && "margin-block-start"@[2] == 'r' && "margin-block-start"@[3] == 'g' && "margin-block-start"@[4] == 'i' && "margin-block-start"@[5] == 'n' && "margin-block-start"@[6] == '-' && "margin-block-start"@[7] == 'b' && "margin-block-start"@[8] == 'l' && "margin-block-start"@[9] == 'o' && "margin-block-start"@[10] == 'c' && "margin-block-start"@[11] == 'k' && "margin-block-start"@[12] == '-' && "margin-block-start"@[13] == 's' && "margin-block-start"@[14] == 't' && "margin-block-start"@[15] == 'a' && "margin-block-start"@[16] == 'r' && "margin-block-start"@[17] == 't');
    assert("margin-block-end"@.len() == 16 && "margin-block-end"@[0] == 'm' && "margin-block-end"@[1] == 'a' && "margin-block-end"@[2] == 'r' && "margin-block-end"@[3] == 'g' && "margin-block-end"@[4] == 'i' && "margin-block-end"@[5] == 'n' && "margin-block-end"@[6] == '-' && "margin-block-end"@[7] == 'b' && "margin-block-end"@[8] == 'l' && "margin-block-end"@[9] == 'o' && "margin-block-end"@[10] == 'c' && "margin-block-end"@[11] == 'k' && "margin-block-end"@[12] == '-' && "margin-block-end"@[13] == 'e' && "margin-block-end"@[14] == 'n' && "margin-block-end"@[15] == 'd');
    assert("margin-top"@.len() == 10 && "margin-top"@[0] == 'm' && "margin-top"@[1] == 'a' && "margin-top"@[2] == 'r' && "margin-top"@[3] == 'g' && "margin-top"@[4] == 'i' && "margin-top"@[5] == 'n' && "margin-top"@[6] == '-' && "margin-top"@[7] == 't' && "margin-top"@[8] == 'o' && "margin-top"@[9] == 'p');
    assert("margin-right"@.len() == 12 && "margin-right"@[0] == 'm' && "margin-right"@[1] == 'a' && "margin-right"@[2] == 'r' && "margin-right"@[3] == 'g' && "margin-right"@[4] == 'i' && "margin-right"@[5] == 'n' && "margin-right"@[6] == '-' && "margin-right"@[7] == 'r' && "margin-right"@[8] == 'i' && "margin-right"@[9] == 'g' && "margin-right"@[10] == 'h' && "margin-right"@[11] == 't');
    assert("margin-bottom"@.len() == 13 && "margin-bottom"@[0] == 'm' && "margin-bottom"@[1] == 'a' && "margin-bottom"@[2] == 'r' && "margin-bottom"@[3] == 'g' && "margin-bottom"@[4] == 'i' && "margin-bottom"@[5] == 'n' && "margin-bottom"@[6] == '-' && "margin-bottom"@[7] == 'b' && "margin-bottom"@[8] == 'o' && "margin-bottom"@[9] == 't' && "margin-bottom"@[10] == 't' && "margin-bottom"@[11] == 'o' && "margin-bottom"@[12] == 'm');
    assert("margin-left"@.len() == 11 && "margin-left"@[0] == 'm' && "margin-left"@[1] == 'a' && "margin-left"@[2] == 'r' && "margin-left"@[3] == 'g' && "margin-left"@[4] == 'i' && "margin-left"@[5] == 'n' && "margin-left"@[6] == '-' && "margin-left"@[7] == 'l' && "margin-left"@[8] == 'e' && "margin-left"@[9] == 'f' && "margin-left"@[10] == 't');
    assert("padding"@.len() == 7 && "padding"@[0] == 'p' && "padding"@[1] == 'a' && "padding"@[2] == 'd' && "padding"@[3] == 'd' && "padding"@[4] == 'i' && "padding"@[5] == 'n' && "padding"@[6] == 'g');
    assert("padding-inline"@.len() == 14 && "padding-inline"@[0] == 'p' && "padding-inline"@[1] == 'a' && "padding-inline"@[2] == 'd' && "padding-inline"@[3] == 'd' && "padding-inline"@[4] == 'i' && "padding-inline"@[5] == 'n' && "padding-inline"@[6] == 'g' && "padding-inline"@[7] == '-' && "padding-inline"@[8] == 'i' && "padding-inline"@[9] == 'n' && "padding-inline"@[10] == 'l' && "padding-inline"@[11] == 'i' && "padding-inline"@[12] == 'n' && "padding-inline"@[13] == 'e');
    assert("padding-block"@.len() == 13 && "padding-block"@[0] == 'p' && "padding-block"@[1] == 'a' && "padding-block"@[2] == 'd' && "padding-block"@[3] == 'd' && "padding-block"@[4] == 'i' && "padding-block"@[5] == 'n' && "padding-block"@[6] == 'g' && "padding-block"@[7] == '-' && "padding-block"@[8] == 'b' && "padding-block"@[9] == 'l' && "padding-block"@[10] == 'o' && "padding-block"@[11] == 'c' && "padding-block"@[12] == 'k');
    assert("padding-inline-start"@.len() == 20 && "padding-inline-start"@[0] == 'p' && "padding-inline-start"@[1] == 'a' && "padding-inline-start"@[2] == 'd' && "padding-inline-start"@[3] == 'd' && "padding-inline-start"@[4] == 'i' && "padding-inline-start"@[5] == 'n' && "padding-inline-start"@[6] == 'g' && "padding-inline-start"@[7] == '-' && "padding-inline-start"@[8] == 'i' && "padding-inline-start"@[9] == 'n' && "padding-inline-start"@[10] == 'l' && "padding-inline-start"@[11] == 'i' && "padding-inline-start"@[12] == 'n' && "padding-inline-start"@[13] == 'e' && "padding-inline-start"@[14] == '-' && "padding-inline-start"@[15] == 's' && "padding-inline-start"@[16] == 't' && "padding-inline-start"@[17] == 'a' && "padding-inline-start"@[18] == 'r' && "padding-inline-start"@[19] == 't');
    assert("padding-inline-end"@.len() == 18 && "padding-inline-end"@[0] == 'p' && "padding-inline-end"@[1] == 'a' && "padding-inline-end"@[2] == 'd' && "padding-inline-end"@[3] == 'd' && "padding-inline-end"@[4] == 'i' && "padding-inline-end"@[5] == 'n' && "padding-inline-end"@[6] == 'g' && "padding-inline-end"@[7] == '-' && "padding-inline-end"@[8] == 'i' && "padding-inline-end"@[9] == 'n' && "padding-inline-end"@[10] == 'l' && "padding-inline-end"@[11] == 'i' && "padding-inline-end"@[12] == 'n' && "padding-inline-end"@[13] == 'e' && "padding-inline-end"@[14] == '-' && "padding-inline-end"@[15] == 'e' && "padding-inline-end"@[16] == 'n' && "padding-inline-end"@[17] == 'd');
    assert("padding-block-start"@.len() == 19 && "padding-block-start"@[0] == 'p' && "padding-block-start"@[1] == 'a' && "padding-block-start"@[2] == 'd' && "padding-block-start"@[3] == 'd' && "padding-block-start"@[4] == 'i' && "padding-block-start"@[5] == 'n' && "padding-block-start"@[6] == 'g' && "padding-block-start"@[7] == '-' && "padding-block-start"@[8] == 'b' && "padding-block-start"@[9] == 'l' && "padding-block-start"@[10] == 'o' && "padding-block-start"@[11] == 'c' && "padding-block-start"@[12] == 'k' && "padding-block-start"@[13] == '-' && "padding-block-start"@[14] == 's' && "padding-block-start"@[15] == 't' && "padding-block-start"@[16] == 'a' && "padding-block-start"@[17] == 'r' && "padding-block-start"@[18] == 't');
    assert("padding-block-end"@.len() == 17 && "padding-block-end"@[0] == 'p' && "padding-block-end"@[1] == 'a' && "padding-block-end"@[2] == 'd' && "padding-block-end"@[3] == 'd' && "padding-block-end"@[4] == 'i' && "padding-block-end"@[5] == 'n' && "padding-block-end"@[6] == 'g' && "padding-block-end"@[7] == '-' && "padding-block-end"@[8] == 'b' && "padding-block-end"@[9] == 'l' && "padding-block-end"@[10] == 'o' && "padding-block-end"@[11] == 'c' && "padding-block-end"@[12] == 'k' && "padding-block-end"@[13] == '-' && "padding-block-end"@[14] == 'e' && "padding-block-end"@[15] == 'n' && "padding-block-end"@[16] == 'd');
    assert("padding-top"@.len() == 11 && "padding-top"@[0] == 'p' && "padding-top"@[1] == 'a' && "padding-top"@[2] == 'd' && "padding-top"@[3] == 'd' && "padding-top"@[4] == 'i' && "padding-top"@[5] == 'n' && "padding-top"@[6] == 'g' && "padding-top"@[7] == '-' && "padding-top"@[8] == 't' && "padding-top"@[9] == 'o' && "padding-top"@[10] == 'p');
    assert("padding-right"@.len() == 13 && "padding-right"@[0] == 'p' && "padding-right"@[1] == 'a' && "padding-right"@[2] == 'd' && "padding-right"@[3] == 'd' && "padding-right"@[4] == 'i' && "padding-right"@[5] == 'n' && "padding-right"@[6] == 'g' && "padding-right"@[7] == '-' && "padding-right"@[8] == 'r' && "padding-right"@[9] == 'i' && "padding-right"@[10] == 'g' && "padding-right"@[11] == 'h' && "padding-right"@[12] == 't');
    assert("padding-bottom"@.len() == 14 && "padding-bottom"@[0] == 'p' && "padding-bottom"@[1] == 'a' && "padding-bottom"@[2] == 'd' && "padding-bottom"@[3] == 'd' && "padding-bottom"@[4] == 'i' && "padding-bottom"@[5] == 'n' && "padding-bottom"@[6] == 'g' && "padding-bottom"@[7] == '-' && "padding-bottom"@[8] == 'b' && "padding-bottom"@[9] == 'o' && "padding-bottom"@[10] == 't' && "padding-bottom"@[11] == 't' && "padding-bottom"@[12] == 'o' && "padding-bottom"@[13] == 'm');
    assert("padding-left"@.len() == 12 && "padding-left"@[0] == 'p' && "padding-left"@[1] == 'a' && "padding-left"@[2] == 'd' && "padding-left"@[3] == 'd' && "padding-left"@[4] == 'i' && "padding-left"@[5] == 'n' && "padding-left"@[6] == 'g' && "padding-left"@[7] == '-' && "padding-left"@[8] == 'l' && "padding-left"@[9] == 'e' && "padding-left"@[10] == 'f' && "padding-left"@[11] == 't');
}

/// The families the property table gives the scroll margin and padding
/// properties.
#[verifier::rlimit(100)]
proof fn lemma_box_table_2()
    ensures
        prop_table_2("scroll-margin"@) == Some("scroll-m"@),
        prop_table_2("scroll-margin-inline"@) == Some("scroll-mx"@),
        prop_table_2("scroll-margin-block"@) == Some("scroll-my"@),
        prop_table_2("scroll-margin-inline-start"@) == Some("scroll-ms"@),
        prop_table_2("scroll-margin-inline-end"@) == Some("scroll-me"@),
        prop_table_2("scroll-margin-block-start"@) == Some("scroll-mbs"@),
        prop_table_2("scroll-margin-block-end"@) == Some("scroll-mbe"@),
        prop_table_2("scroll-margin-top"@) == Some("scroll-mt"@),
        prop_table_2("scroll-margin-right"@) == Some("scroll-mr"@),
        prop_table_2("scroll-margin-bottom"@) == Some("scroll-mb"@),
        prop_table_2("scroll-margin-left"@) == Some("scroll-ml"@),
        prop_table_2("scroll-padding"@) == Some("scroll-p"@),
        prop_table_2("scroll-padding-inline"@) == Some("scroll-px"@),
        prop_table_2("scroll-padding-block"@) == Some("scroll-py"@),
        prop_table_2("scroll-padding-inline-start"@) == Some("scroll-ps"@),
        prop_table_2("scroll-padding-inline-end"@) == Some("scroll-pe"@),
        prop_table_2("scroll-padding-block-start"@) == Some("scroll-pbs"@),
        prop_table_2("scroll-padding-block-end"@) == Some("scroll-pbe"@),
        prop_table_2("scroll-padding-top"@) == Some("scroll-pt"@),
        prop_table_2("scroll-padding-right"@) == Some("scroll-pr"@),
        prop_table_2("scroll-padding-bottom"@) == Some("scroll-pb"@),
        prop_table_2("scroll-padding-left"@) == Some("scroll-pl"@),
{
    reveal_strlit("inset-inline-start");
    reveal_strlit("inset-inline-end");
    reveal_strlit("inset-block-start");
    reveal_strlit("inset-block-end");
    reveal_strlit("top");
    reveal_strlit("right");
    reveal_strlit("bottom");
    reveal_strlit("left");
    reveal_strlit("scroll-margin");
    reveal_strlit("scroll-margin-inline");
    reveal_strlit("scroll-margin-block");
    reveal_strlit("scroll-margin-inline-start");
    reveal_strlit("scroll-margin-inline-end");
    reveal_strlit("scroll-margin-block-start");
    reveal_strlit("scroll-margin-block-end");
    reveal_strlit("scroll-margin-top");
    reveal_strlit("scroll-margin-right");
    reveal_strlit("scroll-margin-bottom");
    reveal_strlit("scroll-margin-left");
    reveal_strlit("scroll-padding");
    reveal_strlit("scroll-padding-inline");
    reveal_strlit("scroll-padding-block");
    reveal_strlit("scroll-padding-inline-start");
    reveal_strlit("scroll-padding-inline-end");
    reveal_strlit("scroll-padding-block-start");
    reveal_strlit("scroll-padding-block-end");
    reveal_strlit("scroll-padding-top");
    reveal_strlit("scroll-padding-right");
    reveal_strlit("scroll-padding-bottom");
    reveal_strlit("scroll-padding-left");
    reveal_strlit("border-width");
    reveal_strlit("border-inline-width");
    reveal_strlit("border-block-width");
    reveal_strlit("border-inline-start-width");
    reveal_strlit("border-inline-end-width");
    reveal_strlit("border-block-start-width");
    reveal_strlit("border-block-end-width");
    reveal_strlit("border-top-width");
    reveal_strlit("border-right-width");
    reveal_strlit("border-bottom-width");
    assert("scroll-margin"@.len() == 13 && "scroll-margin"@[0] == 's' && "scroll-margin"@[1] == 'c' && "scroll-margin"@[2] == 'r' && "scroll-margin"@[3] == 'o' && "scroll-margin"@[4] == 'l' && "scroll-margin"@[5] == 'l' && "scroll-margin"@[6] == '-' && "scroll-margin"@[7] == 'm' && "scroll-margin"@[8] == 'a' && "scroll-margin"@[9] == 'r' && "scroll-margin"@[10] == 'g' && "scroll-margin"@[11] == 'i' && "scroll-margin"@[12] == 'n');
    assert("scroll-margin-inline"@.len() == 20 && "scroll-margin-inline"@[0] == 's' && "scroll-margin-inline"@[1] == 'c' && "scroll-margin-inline"@[2] == 'r' && "scroll-margin-inline"@[3] == 'o' && "scroll-margin-inline"@[4] == 'l' && "scroll-margin-inline"@[5] == 'l' && "scroll-margin-inline"@[6] == '-' && "scroll-margin-inline"@[7] == 'm' && "scroll-margin-inline"@[8] == 'a' && "scroll-margin-inline"@[9] == 'r' && "scroll-margin-inline"@[10] == 'g' && "scroll-margin-inline"@[11] == 'i' && "scroll-margin-inline"@[12] == 'n' && "scroll-margin-inline"@[13] == '-' && "scroll-margin-inline"@[14] == 'i' && "scroll-margin-inline"@[15] == 'n' && "scroll-margin-inline"@[16] == 'l' && "scroll-margin-inline"@[17] == 'i' && "scroll-margin-inline"@[18] == 'n' && "scroll-margin-inline"@[19] == 'e');
    assert("scroll-margin-block"@.len() == 19 && "scroll-margin-block"@[0] == 's' && "scroll-margin-block"@[1] == 'c' && "scroll-margin-block"@[2] == 'r' && "scroll-margin-block"@[3] == 'o' && "scroll-margin-block"@[4] == 'l' && "scroll-margin-block"@[5] == 'l' && "scroll-margin-block"@[6] == '-' && "scroll-margin-block"@[7] == 'm' && "scroll-margin-block"@[8] == 'a' && "scroll-margin-block"@[9] == 'r' && "scroll-margin-block"@[10] == 'g' && "scroll-margin-block"@[11] == 'i' && "scroll-margin-block"@[12] == 'n' && "scroll-margin-block"@[13] == '-' && "scroll-margin-block"@[14] == 'b' && "scroll-margin-block"@[15] == 'l' && "scroll-margin-block"@[16] == 'o' && "scroll-margin-block"@[17] == 'c' && "scroll-margin-block"@[18] == 'k');
    assert("scroll-margin-inline-start"@.len() == 26 && "scroll-margin-inline-start"@[0] == 's' && "scroll-margin-inline-start"@[1] == 'c' && "scroll-margin-inline-start"@[2] == 'r' && "scroll-margin-inline-start"@[3] == 'o' && "scroll-margin-inline-start"@[4] == 'l' && "scroll-margin-inline-start"@[5] == 'l' && "scroll-margin-inline-start"@[6] == '-' && "scroll-margin-inline-start"@[7] == 'm' && "scroll-margin-inline-start"@[8] == 'a' && "scroll-margin-inline-start"@[9] == 'r' && "scroll-margin-inline-start"@[10] == 'g' && "scroll-margin-inline-start"@[11] == 'i' && "scroll-margin-inline-start"@[12] == 'n' && "scroll-margin-inline-start"@[13] == '-' && "scroll-margin-inline-start"@[14] == 'i' && "scroll-margin-inline-start"@[15] == 'n' && "scroll-margin-inline-start"@[16] == 'l' && "scroll-margin-inline-start"@[17] == 'i' && "scroll-margin-inline-start"@[18] == 'n' && "scroll-margin-inline-start"@[19] == 'e' && "scroll-margin-inline-start"@[20] == '-' && "scroll-margin-inline-start"@[21] == 's' && "scroll-margin-inline-start"@[22] == 't' && "scroll-margin-inline-start"@[23] == 'a' && "scroll-margin-inline-start"@[24] == 'r' && "scroll-margin-inline-start"@[25] == 't');
    assert("scroll-margin-inline-end"@.len() == 24 && "scroll-margin-inline-end"@[0] == 's' && "scroll-margin-inline-end"@[1] == 'c' && "scroll-margin-inline-end"@[2] == 'r' && "scroll-margin-inline-end"@[3] == 'o' && "scroll-margin-inline-end"@[4] == 'l' && "scroll-margin-inline-end"@[5] == 'l' && "scroll-margin-inline-end"@[6] == '-' && "scroll-margin-inline-end"@[7] == 'm' && "scroll-margin-inline-end"@[8] == 'a' && "scroll-margin-inline-end"@[9] == 'r' && "scroll-margin-inline-end"@[10] == 'g' && "scroll-margin-inline-end"@[11] == 'i' && "scroll-margin-inline-end"@[12] == 'n' && "scroll-margin-inline-end"@[13] == '-' && "scroll-margin-inline-end"@[14] == 'i' && "scroll-margin-inline-end"@[15] == 'n' && "scroll-margin-inline-end"@[16] == 'l' && "scroll-margin-inline-end"@[17] == 'i' && "scroll-margin-inline-end"@[18] == 'n' && "scroll-margin-inline-end"@[19] == 'e' && "scroll-margin-inline-end"@[20] == '-' && "scroll-margin-inline-end"@[21] == 'e' && "scroll-margin-inline-end"@[22] == 'n' && "scroll-margin-inline-end"@[23] == 'd');
    assert("scroll-margin-block-start"@.len() == 25 && "scroll-margin-block-start"@[0] == 's' && "scroll-margin-block-start"@[1] == 'c' && "scroll-margin-block-start"@[2] == 'r' && "scroll-margin-block-start"@[3] == 'o' && "scroll-margin-block-start"@[4] == 'l' && "scroll-margin-block-start"@[5] == 'l' && "scroll-margin-block-start"@[6] == '-' && "scroll-margin-block-start"@[7] == 'm' && "scroll-margin-block-start"@[8] == 'a' && "scroll-margin-block-start"@[9] == 'r' && "scroll-margin-block-start"@[10] == 'g' && "scroll-margin-block-start"@[11] == 'i' && "scroll-margin-block-start"@[12] == 'n' && "scroll-margin-block-start"@[13] == '-' && "scroll-margin-block-start"@[14] == 'b' && "scroll-margin-block-start"@[15] == 'l' && "scroll-margin-block-start"@[16] == 'o' && "scroll-margin-block-start"@[17] == 'c' && "scroll-margin-block-start"@[18] == 'k' && "scroll-margin-block-start"@[19] == '-' && "scroll-margin-block-start"@[20] == 's' && "scroll-margin-block-start"@[21] == 't' && "scroll-margin-block-start"@[22] == 'a' && "scroll-margin-block-start"@[23] == 'r' && "scroll-margin-block-start"@[24] == 't');
    assert("scroll-margin-block-end"@.len() == 23 && "scroll-margin-block-end"@[0] == 's' && "scroll-margin-block-end"@[1] == 'c' && "scroll-margin-block-end"@[2] == 'r' && "scroll-margin-block-end"@[3] == 'o' && "scroll-margin-block-end"@[4] == 'l' && "scroll-margin-block-end"@[5] == 'l' && "scroll-margin-block-end"@[6] == '-' && "scroll-margin-block-end"@[7] == 'm' && "scroll-margin-block-end"@[8] == 'a' && "scroll-margin-block-end"@[9] == 'r' && "scroll-margin-block-end"@[10] == 'g' && "scroll-margin-block-end"@[11] == 'i' && "scroll-margin-block-end"@[12] == 'n' && "scroll-margin-block-end"@[13] == '-' && "scroll-margin-block-end"@[14] == 'b' && "scroll-margin-block-end"@[15] == 'l' && "scroll-margin-block-end"@[16] == 'o' && "scroll-margin-block-end"@[17] == 'c' && "scroll-margin-block-end"@[18] == 'k' && "scroll-margin-block-end"@[19] == '-' && "scroll-margin-block-end"@[20] == 'e' && "scroll-margin-block-end"@[21] == 'n' && "scroll-margin-block-end"@[22] == 'd');
    assert("scroll-margin-top"@.len() == 17 && "scroll-margin-top"@[0] == 's' && "scroll-margin-top"@[1] == 'c' && "scroll-margin-top"@[2] == 'r' && "scroll-margin-top"@[3] == 'o' && "scroll-margin-top"@[4] == 'l' && "scroll-margin-top"@[5] == 'l' && "scroll-margin-top"@[6] == '-' && "scroll-margin-top"@[7] == 'm' && "scroll-margin-top"@[8] == 'a' && "scroll-margin-top"@[9] == 'r' && "scroll-margin-top"@[10] == 'g' && "scroll-margin-top"@[11] == 'i' && "scroll-margin-top"@[12] == 'n' && "scroll-margin-top"@[13] == '-' && "scroll-margin-top"@[14] == 't' && "scroll-margin-top"@[15] == 'o' && "scroll-margin-top"@[16] == 'p');
    assert("scroll-margin-right"@.len() == 19 && "scroll-margin-right"@[0] == 's' && "scroll-margin-right"@[1] == 'c' && "scroll-margin-right"@[2] == 'r' && "scroll-margin-right"@[3] == 'o' && "scroll-margin-right"@[4] == 'l' && "scroll-margin-right"@[5] == 'l' && "scroll-margin-right"@[6] == '-' && "scroll-margin-right"@[7] == 'm' && "scroll-margin-right"@[8] == 'a' && "scroll-margin-right"@[9] == 'r' && "scroll-margin-right"@[10] == 'g' && "scroll-margin-right"@[11] == 'i' && "scroll-margin-right"@[12] == 'n' && "scroll-margin-right"@[13] == '-' && "scroll-margin-right"@[14] == 'r' && "scroll-margin-right"@[15] == 'i' && "scroll-margin-right"@[16] == 'g' && "scroll-margin-right"@[17] == 'h' && "scroll-margin-right"@[18] == 't');
    assert("scroll-margin-bottom"@.len() == 20 && "scroll-margin-bottom"@[0] == 's' && "scroll-margin-bottom"@[1] == 'c' && "scroll-margin-bottom"@[2] == 'r' && "scroll-margin-bottom"@[3] == 'o' && "scroll-margin-bottom"@[4] == 'l' && "scroll-margin-bottom"@[5] == 'l' && "scroll-margin-bottom"@[6] == '-' && "scroll-margin-bottom"@[7] == 'm' && "scroll-margin-bottom"@[8] == 'a' && "scroll-margin-bottom"@[9] == 'r' && "scroll-margin-bottom"@[10] == 'g' && "scroll-margin-bottom"@[11] == 'i' && "scroll-margin-bottom"@[12] == 'n' && "scroll-margin-bottom"@[13] == '-' && "scroll-margin-bottom"@[14] == 'b' && "scroll-margin-bottom"@[15] == 'o' && "scroll-margin-bottom"@[16] == 't' && "scroll-margin-bottom"@[17] == 't' && "scroll-margin-bottom"@[18] == 'o' && "scroll-margin-bottom"@[19] == 'm');
    assert("scroll-margin-left"@.len() == 18 && "scroll-margin-left"@[0] == 's' && "scroll-margin-left"@[1] == 'c' && "scroll-margin-left"@[2] == 'r' && "scroll-margin-left"@[3] == 'o' && "scroll-margin-left"@[4] == 'l' && "scroll-margin-left"@[5] == 'l' && "scroll-margin-left"@[6] == '-' && "scroll-margin-left"@[7] == 'm' && "scroll-margin-left"@[8] == 'a' && "scroll-margin-left"@[9] == 'r' && "scroll-margin-left"@[10] == 'g' && "scroll-margin-left"@[11] == 'i' && "scroll-margin-left"@[12] == 'n' && "scroll-margin-left"@[13] == '-' && "scroll-margin-left"@[14] == 'l' && "scroll-margin-left"@[15] == 'e' && "scroll-margin-left"@[16] == 'f' && "scroll-margin-left"@[17] == 't');
    assert("scroll-padding"@.len() == 14 && "scroll-padding"@[0] == 's' && "scroll-padding"@[1] == 'c' && "scroll-padding"@[2] == 'r' && "scroll-padding"@[3] == 'o' && "scroll-padding"@[4] == 'l' && "scroll-padding"@[5] == 'l' && "scroll-padding"@[6] == '-' && "scroll-padding"@[7] == 'p' && "scroll-padding"@[8] == 'a' && "scroll-padding"@[9] == 'd' && "scroll-padding"@[10] == 'd' && "scroll-padding"@[11] == 'i' && "scroll-padding"@[12] == 'n' && "scroll-padding"@[13] == 'g');
    assert("scroll-padding-inline"@.len() == 21 && "scroll-padding-inline"@[0] == 's' && "scroll-padding-inline"@[1] == 'c' && "scroll-padding-inline"@[2] == 'r' && "scroll-padding-inline"@[3] == 'o' && "scroll-padding-inline"@[4] == 'l' && "scroll-padding-inline"@[5] == 'l' && "scroll-padding-inline"@[6] == '-' && "scroll-padding-inline"@[7] == 'p' && "scroll-padding-inline"@[8] == 'a' && "scroll-padding-inline"@[9] == 'd' && "scroll-padding-inline"@[10] == 'd' && "scroll-padding-inline"@[11] == 'i' && "scroll-padding-inline"@[12] == 'n' && "scroll-padding-inline"@[13] == 'g' && "scroll-padding-inline"@[14] == '-' && "scroll-padding-inline"@[15] == 'i' && "scroll-padding-inline"@[16] == 'n' && "scroll-padding-inline"@[17] == 'l' && "scroll-padding-inline"@[18] == 'i' && "scroll-padding-inline"@[19] == 'n' && "scroll-padding-inline"@[20] == 'e');
    assert("scroll-padding-block"@.len() == 20 && "scroll-padding-block"@[0] == 's' && "scroll-padding-block"@[1] == 'c' && "scroll-padding-block"@[2] == 'r' && "scroll-padding-block"@[3] == 'o' && "scroll-padding-block"@[4] == 'l' && "scroll-padding-block"@[5] == 'l' && "scroll-padding-block"@[6] == '-' && "scroll-padding-block"@[7] == 'p' && "scroll-padding-block"@[8] == 'a' && "scroll-padding-block"@[9] == 'd' && "scroll-padding-block"@[10] == 'd' && "scroll-padding-block"@[11] == 'i' && "scroll-padding-block"@[12] == 'n' && "scroll-padding-block"@[13] == 'g' && "scroll-padding-block"@[14] == '-' && "scroll-padding-block"@[15] == 'b' && "scroll-padding-block"@[16] == 'l' && "scroll-padding-block"@[17] == 'o' && "scroll-padding-block"@[18] == 'c' && "scroll-padding-block"@[19] == 'k');
    assert("scroll-padding-inline-start"@.len() == 27 && "scroll-padding-inline-start"@[0] == 's' && "scroll-padding-inline-start"@[1] == 'c' && "scroll-padding-inline-start"@[2] == 'r' && "scroll-padding-inline-start"@[3] == 'o' && "scroll-padding-inline-start"@[4] == 'l' && "scroll-padding-inline-start"@[5] == 'l' && "scroll-padding-inline-start"@[6] == '-' && "scroll-padding-inline-start"@[7] == 'p' && "scroll-padding-inline-start"@[8] == 'a' && "scroll-padding-inline-start"@[9] == 'd' && "scroll-padding-inline-start"@[10] == 'd' && "scroll-padding-inline-start"@[11] == 'i' && "scroll-padding-inline-start"@[12] == 'n' && "scroll-padding-inline-start"@[13] == 'g' && "scroll-padding-inline-start"@[14] == '-' && "scroll-padding-inline-start"@[15] == 'i' && "scroll-padding-inline-start"@[16] == 'n' && "scroll-padding-inline-start"@[17] == 'l' && "scroll-padding-inline-start"@[18] == 'i' && "scroll-padding-inline-start"@[19] == 'n' && "scroll-padding-inline-start"@[20] == 'e' && "scroll-padding-inline-start"@[21] == '-' && "scroll-padding-inline-start"@[22] == 's' && "scroll-padding-inline-start"@[23] == 't' && "scroll-padding-inline-start"@[24] == 'a' && "scroll-padding-inline-start"@[25] == 'r' && "scroll-padding-inline-start"@[26] == 't');
    assert("scroll-padding-inline-end"@.len() == 25 && "scroll-padding-inline-end"@[0] == 's' && "scroll-padding-inline-end"@[1] == 'c' && "scroll-padding-inline-end"@[2] == 'r' && "scroll-padding-inline-end"@[3] == 'o' && "scroll-padding-inline-end"@[4] == 'l' && "scroll-padding-inline-end"@[5] == 'l' && "scroll-padding-inline-end"@[6] == '-' && "scroll-padding-inline-end"@[7] == 'p' && "scroll-padding-inline-end"@[8] == 'a' && "scroll-padding-inline-end"@[9] == 'd' && "scroll-padding-inline-end"@[10] == 'd' && "scroll-padding-inline-end"@[11] == 'i' && "scroll-padding-inline-end"@[12] == 'n' && "scroll-padding-inline-end"@[13] == 'g' && "scroll-padding-inline-end"@[14] == '-' && "scroll-padding-inline-end"@[15] == 'i' && "scroll-padding-inline-end"@[16] == 'n' && "scroll-padding-inline-end"@[17] == 'l' && "scroll-padding-inline-end"@[18] == 'i' && "scroll-padding-inline-end"@[19] == 'n' && "scroll-padding-inline-end"@[20] == 'e' && "scroll-padding-inline-end"@[21] == '-' && "scroll-padding-inline-end"@[22] == 'e' && "scroll-padding-inline-end"@[23] == 'n' && "scroll-padding-inline-end"@[24] == 'd');
    assert("scroll-padding-block-start"@.len() == 26 && "scroll-padding-block-start"@[0] == 's' && "scroll-padding-block-start"@[1] == 'c' && "scroll-padding-block-start"@[2] == 'r' && "scroll-padding-block-start"@[3] == 'o' && "scroll-padding-block-start"@[4] == 'l' && "scroll-padding-block-start"@[5] == 'l' && "scroll-padding-block-start"@[6] == '-' && "scroll-padding-block-start"@[7] == 'p' && "scroll-padding-block-start"@[8] == 'a' && "scroll-padding-block-start"@[9] == 'd' && "scroll-padding-block-start"@[10] == 'd' && "scroll-padding-block-start"@[11] == 'i' && "scroll-padding-block-start"@[12] == 'n' && "scroll-padding-block-start"@[13] == 'g' && "scroll-padding-block-start"@[14] == '-' && "scroll-padding-block-start"@[15] == 'b' && "scroll-padding-block-start"@[16] == 'l' && "scroll-padding-block-start"@[17] == 'o' && "scroll-padding-block-start"@[18] == 'c' && "scroll-padding-block-start"@[19] == 'k' && "scroll-padding-block-start"@[20] == '-' && "scroll-padding-block-start"@[21] == 's' && "scroll-padding-block-start"@[22] == 't' && "scroll-padding-block-start"@[23] == 'a' && "scroll-padding-block-start"@[24] == 'r' && "scroll-padding-block-start"@[25] == 't');
    assert("scroll-padding-block-end"@.len() == 24 && "scroll-padding-block-end"@[0] == 's' && "scroll-padding-block-end"@[1] == 'c' && "scroll-padding-block-end"@[2] == 'r' && "scroll-padding-block-end"@[3] == 'o' && "scroll-padding-block-end"@[4] == 'l' && "scroll-padding-block-end"@[5] == 'l' && "scroll-padding-block-end"@[6] == '-' && "scroll-padding-block-end"@[7] == 'p' && "scroll-padding-block-end"@[8] == 'a' && "scroll-padding-block-end"@[9] == 'd' && "scroll-padding-block-end"@[10] == 'd' && "scroll-padding-block-end"@[11] == 'i' && "scroll-padding-block-end"@[12] == 'n' && "scroll-padding-block-end"@[13] == 'g' && "scroll-padding-block-end"@[14] == '-' && "scroll-padding-block-end"@[15] == 'b' && "scroll-padding-block-end"@[16] == 'l' && "scroll-padding-block-end"@[17] == 'o' && "scroll-padding-block-end"@[18] == 'c' && "scroll-padding-block-end"@[19] == 'k' && "scroll-padding-block-end"@[20] == '-' && "scroll-padding-block-end"@[21] == 'e' && "scroll-padding-block-end"@[22] == 'n' && "scroll-padding-block-end"@[23] == 'd');
    assert("scroll-padding-top"@.len() == 18 && "scroll-padding-top"@[0] == 's' && "scroll-padding-top"@[1] == 'c' && "scroll-padding-top"@[2] == 'r' && "scroll-padding-top"@[3] == 'o' && "scroll-padding-top"@[4] == 'l' && "scroll-padding-top"@[5] == 'l' && "scroll-padding-top"@[6] == '-' && "scroll-padding-top"@[7] == 'p' && "scroll-padding-top"@[8] == 'a' && "scroll-padding-top"@[9] == 'd' && "scroll-padding-top"@[10] == 'd' && "scroll-padding-top"@[11] == 'i' && "scroll-padding-top"@[12] == 'n' && "scroll-padding-top"@[13] == 'g' && "scroll-padding-top"@[14] == '-' && "scroll-padding-top"@[15] == 't' && "scroll-padding-top"@[16] == 'o' && "scroll-padding-top"@[17] == 'p');
    assert("scroll-padding-right"@.len() == 20 && "scroll-padding-right"@[0] == 's' && "scroll-padding-right"@[1] == 'c' && "scroll-padding-right"@[2] == 'r' && "scroll-padding-right"@[3] == 'o' && "scroll-padding-right"@[4] == 'l' && "scroll-padding-right"@[5] == 'l' && "scroll-padding-right"@[6] == '-' && "scroll-padding-right"@[7] == 'p' && "scroll-padding-right"@[8] == 'a' && "scroll-padding-right"@[9] == 'd' && "scroll-padding-right"@[10] == 'd' && "scroll-padding-right"@[11] == 'i' && "scroll-padding-right"@[12] == 'n' && "scroll-padding-right"@[13] == 'g' && "scroll-padding-right"@[14] == '-' && "scroll-padding-right"@[15] == 'r' && "scroll-padding-right"@[16] == 'i' && "scroll-padding-right"@[17] == 'g' && "scroll-padding-right"@[18] == 'h' && "scroll-padding-right"@[19] == 't');
    assert("scroll-padding-bottom"@.len() == 21 && "scroll-padding-bottom"@[0] == 's' && "scroll-padding-bottom"@[1] == 'c' && "scroll-padding-bottom"@[2] == 'r' && "scroll-padding-bottom"@[3] == 'o' && "scroll-padding-bottom"@[4] == 'l' && "scroll-padding-bottom"@[5] == 'l' && "scroll-padding-bottom"@[6] == '-' && "scroll-padding-bottom"@[7] == 'p' && "scroll-padding-bottom"@[8] == 'a' && "scroll-padding-bottom"@[9] == 'd' && "scroll-padding-bottom"@[10] == 'd' && "scroll-padding-bottom"@[11] == 'i' && "scroll-padding-bottom"@[12] == 'n' && "scroll-padding-bottom"@[13] == 'g' && "scroll-padding-bottom"@[14] == '-' && "scroll-padding-bottom"@[15] == 'b' && "scroll-padding-bottom"@[16] == 'o' && "scroll-padding-bottom"@[17] == 't' && "scroll-padding-bottom"@[18] == 't' && "scroll-padding-bottom"@[19] == 'o' && "scroll-padding-bottom"@[20] == 'm');
    assert("scroll-padding-left"@.len() == 19 && "scroll-padding-left"@[0] == 's' && "scroll-padding-left"@[1] == 'c' && "scroll-padding-left"@[2] == 'r' && "scroll-padding-left"@[3] == 'o' && "scroll-padding-left"@[4] == 'l' && "scroll-padding-left"@[5] == 'l' && "scroll-padding-left"@[6] == '-' && "scroll-padding-left"@[7] == 'p' && "scroll-padding-left"@[8] == 'a' && "scroll-padding-left"@[9] == 'd' && "scroll-padding-left"@[10] == 'd' && "scroll-padding-left"@[11] == 'i' && "scroll-padding-left"@[12] == 'n' && "scroll-padding-left"@[13] == 'g' && "scroll-padding-left"@[14] == '-' && "scroll-padding-left"@[15] == 'l' && "scroll-padding-left"@[16] == 'e' && "scroll-padding-left"@[17] == 'f' && "scroll-padding-left"@[18] == 't');
}

/// The families the property table gives the border width and color
/// properties.
#[verifier::rlimit(100)]
proof fn lemma_box_table_border()
    ensures
        prop_table_2("border-width"@) == Some("border-w"@),
        prop_table_2("border-inline-width"@) == Some("border-w-x"@),
        prop_table_2("border-block-width"@) == Some("border-w-y"@),
        prop_table_2("border-inline-start-width"@) == Some("border-w-s"@),
        prop_table_2("border-inline-end-width"@) == Some("border-w-e"@),
        prop_table_2("border-block-start-width"@) == Some("border-w-bs"@),
        prop_table_2("border-block-end-width"@) == Some("border-w-be"@),
        prop_table_2("border-top-width"@) == Some("border-w-t"@),
        prop_table_2("border-right-width"@) == Some("border-w-r"@),
        prop_table_2("border-bottom-width"@) == Some("border-w-b"@),
        prop_table_2("border-left-width"@) == Some("border-w-l"@),
        prop_table_2("border-color"@) == Some("border-color"@),
        prop_table_2("border-inline-color"@) == Some("border-color-x"@),
        prop_table_2("border-block-color"@) == Some("border-color-y"@),
        prop_table_2("border-inline-start-color"@) == Some("border-color-s"@),
        prop_table_2("border-inline-end-color"@) == Some("border-color-e"@),
        prop_table_2("border-block-start-color"@) == Some("border-color-bs"@),
        prop_table_2("border-block-end-color"@) == Some("border-color-be"@),
        prop_table_2("border-top-color"@) == Some("border-color-t"@),
        prop_table_2("border-right-color"@) == Some("border-color-r"@),
        prop_table_2("border-bottom-color"@) == Some("border-color-b"@),
        prop_table_2("border-left-color"@) == Some("border-color-l"@),
{
    reveal_strlit("inset-inline-start");
    reveal_strlit("inset-inline-end");
    reveal_strlit("inset-block-start");
    reveal_strlit("inset-block-end");
    reveal_strlit("top");
    reveal_strlit("right");
    reveal_strlit("bottom");
    reveal_strlit("left");
    reveal_strlit("scroll-margin");
    reveal_strlit("scroll-margin-inline");
    reveal_strlit("scroll-margin-block");
    reveal_strlit("scroll-margin-inline-start");
    reveal_strlit("scroll-margin-inline-end");
    reveal_strlit("scroll-margin-block-start");
    reveal_strlit("scroll-margin-block-end");
    reveal_strlit("scroll-margin-top");
    reveal_strlit("scroll-margin-right");
    reveal_strlit("scroll-margin-bottom");
    reveal_strlit("scroll-margin-left");
    reveal_strlit("scroll-padding");
    reveal_strlit("scroll-padding-inline");
    reveal_strlit("scroll-padding-block");
    reveal_strlit("scroll-padding-inline-start");
    reveal_strlit("scroll-padding-inline-end");
    reveal_strlit("scroll-padding-block-start");
    reveal_strlit("scroll-padding-block-end");
    reveal_strlit("scroll-padding-top");
    reveal_strlit("scroll-padding-right");
    reveal_strlit("scroll-padding-bottom");
    reveal_strlit("scroll-padding-left");
    reveal_strlit("border-width");
    reveal_strlit("border-inline-width");
    reveal_strlit("border-block-width");
    reveal_strlit("border-inline-start-width");
    reveal_strlit("border-inline-end-width");
    reveal_strlit("border-block-start-width");
    reveal_strlit("border-block-end-width");
    reveal_strlit("border-top-width");
    reveal_strlit("border-right-width");
    reveal_strlit("border-bottom-width");
    reveal_strlit("border-left-width");
    reveal_strlit("border-color");
    reveal_strlit("border-inline-color");
    reveal_strlit("border-block-color");
    reveal_strlit("border-inline-start-color");
    reveal_strlit("border-inline-end-color");
    reveal_strlit("border-block-start-color");
    reveal_strlit("border-block-end-color");
    reveal_strlit("border-top-color");
    reveal_strlit("border-right-color");
    reveal_strlit("border-bottom-color");
    reveal_strlit("border-left-color");
    reveal_strlit("border-style");
    reveal_strlit("border-spacing");
    reveal_strlit("border-radius");
    reveal_strlit("border-start-start-radius");
    reveal_strlit("border-start-end-radius");
    reveal_strlit("border-end-start-radius");
    reveal_strlit("border-end-end-radius");
    reveal_strlit("border-top-left-radius");
    reveal_strlit("border-top-right-radius");
    reveal_strlit("border-bottom-right-radius");
    reveal_strlit("border-bottom-left-radius");
    reveal_strlit("font-family");
    reveal_strlit("font-weight");
    reveal_strlit("font-size");
    reveal_strlit("line-height");
    reveal_strlit("letter-spacing");
    reveal_strlit("text-indent");
    reveal_strlit("vertical-align");
    reveal_strlit("text-align");
    reveal_strlit("text-transform");
    reveal_strlit("text-wrap");
    reveal_strlit("text-overflow");
    reveal_strlit("text-decoration-line");
    reveal_strlit("text-decoration-thickness");
    reveal_strlit("text-decoration-color");
    reveal_strlit("text-decoration-style");
    reveal_strlit("text-underline-offset");
    reveal_strlit("font-style");
    assert("border-width"@.len() == 12 && "border-width"@[0] == 'b' && "border-width"@[1] == 'o' && "border-width"@[2] == 'r' && "border-width"@[3] == 'd' && "border-width"@[4] == 'e' && "border-width"@[5] == 'r' && "border-width"@[6] == '-' && "border-width"@[7] == 'w' && "border-width"@[8] == 'i' && "border-width"@[9] == 'd' && "border-width"@[10] == 't' && "border-width"@[11] == 'h');
    assert("border-inline-width"@.len() == 19 && "border-inline-width"@[0] == 'b' && "border-inline-width"@[1] == 'o' && "border-inline-width"@[2] == 'r' && "border-inline-width"@[3] == 'd' && "border-inline-width"@[4] == 'e' && "border-inline-width"@[5] == 'r' && "border-inline-width"@[6] == '-' && "border-inline-width"@[7] == 'i' && "border-inline-width"@[8] == 'n' && "border-inline-width"@[9] == 'l' && "border-inline-width"@[10] == 'i' && "border-inline-width"@[11] == 'n' && "border-inline-width"@[12] == 'e' && "border-inline-width"@[13] == '-' && "border-inline-width"@[14] == 'w' && "border-inline-width"@[15] == 'i' && "border-inline-width"@[16] == 'd' && "border-inline-width"@[17] == 't' && "border-inline-width"@[18] == 'h');
    assert("border-block-width"@.len() == 18 && "border-block-width"@[0] == 'b' && "border-block-width"@[1] == 'o' && "border-block-width"@[2] == 'r' && "border-block-width"@[3] == 'd' && "border-block-width"@[4] == 'e' && "border-block-width"@[5] == 'r' && "border-block-width"@[6] == '-' && "border-block-width"@[7] == 'b' && "border-block-width"@[8] == 'l' && "border-block-width"@[9] == 'o' && "border-block-width"@[10] == 'c' && "border-block-width"@[11] == 'k' && "border-block-width"@[12] == '-' && "border-block-width"@[13] == 'w' && "border-block-width"@[14] == 'i' && "border-block-width"@[15] == 'd' && "border-block-width"@[16] == 't' && "border-block-width"@[17] == 'h');
    assert("border-inline-start-width"@.len() == 25 && "border-inline-start-width"@[0] == 'b' && "border-inline-start-width"@[1] == 'o' && "border-inline-start-width"@[2] == 'r' && "border-inline-start-width"@[3] == 'd' && "border-inline-start-width"@[4] == 'e' && "border-inline-start-width"@[5] == 'r' && "border-inline-start-width"@[6] == '-' && "border-inline-start-width"@[7] == 'i' && "border-inline-start-width"@[8] == 'n' && "border-inline-start-width"@[9] == 'l' && "border-inline-start-width"@[10] == 'i' && "border-inline-start-width"@[11] == 'n' && "border-inline-start-width"@[12] == 'e' && "border-inline-start-width"@[13] == '-' && "border-inline-start-width"@[14] == 's' && "border-inline-start-width"@[15] == 't' && "border-inline-start-width"@[16] == 'a' && "border-inline-start-width"@[17] == 'r' && "border-inline-start-width"@[18] == 't' && "border-inline-start-width"@[19] == '-' && "border-inline-start-width"@[20] == 'w' && "border-inline-start-width"@[21] == 'i' && "border-inline-start-width"@[22] == 'd' && "border-inline-start-width"@[23] == 't' && "border-inline-start-width"@[24] == 'h');
    assert("border-inline-end-width"@.len() == 23 && "border-inline-end-width"@[0] == 'b' && "border-inline-end-width"@[1] == 'o' && "border-inline-end-width"@[2] == 'r' && "border-inline-end-width"@[3] == 'd' && "border-inline-end-width"@[4] == 'e' && "border-inline-end-width"@[5] == 'r' && "border-inline-end-width"@[6] == '-' && "border-inline-end-width"@[7] == 'i' && "border-inline-end-width"@[8] == 'n' && "border-inline-end-width"@[9] == 'l' && "border-inline-end-width"@[10] == 'i' && "border-inline-end-width"@[11] == 'n' && "border-inline-end-width"@[12] == 'e' && "border-inline-end-width"@[13] == '-' && "border-inline-end-width"@[14] == 'e' && "border-inline-end-width"@[15] == 'n' && "border-inline-end-width"@[16] == 'd' && "border-inline-end-width"@[17] == '-' && "border-inline-end-width"@[18] == 'w' && "border-inline-end-width"@[19] == 'i' && "border-inline-end-width"@[20] == 'd' && "border-inline-end-width"@[21] == 't' && "border-inline-end-width"@[22] == 'h');
    assert("border-block-start-width"@.len() == 24 && "border-block-start-width"@[0] == 'b' && "border-block-start-width"@[1] == 'o' && "border-block-start-width"@[2] == 'r' && "border-block-start-width"@[3] == 'd' && "border-block-start-width"@[4] == 'e' && "border-block-start-width"@[5] == 'r' && "border-block-start-width"@[6] == '-' && "border-block-start-width"@[7] == 'b' && "border-block-start-width"@[8] == 'l' && "border-block-start-width"@[9] == 'o' && "border-block-start-width"@[10] == 'c' && "border-block-start-width"@[11] == 'k' && "border-block-start-width"@[12] == '-' && "border-block-start-width"@[13] == 's' && "border-block-start-width"@[14] == 't' && "border-block-start-width"@[15] == 'a' && "border-block-start-width"@[16] == 'r' && "border-block-start-width"@[17] == 't' && "border-block-start-width"@[18] == '-' && "border-block-start-width"@[19] == 'w' && "border-block-start-width"@[20] == 'i' && "border-block-start-width"@[21] == 'd' && "border-block-start-width"@[22] == 't' && "border-block-start-width"@[23] == 'h');
    assert("border-block-end-width"@.len() == 22 && "border-block-end-width"@[0] == 'b' && "border-block-end-width"@[1] == 'o' && "border-block-end-width"@[2] == 'r' && "border-block-end-width"@[3] == 'd' && "border-block-end-width"@[4] == 'e' && "border-block-end-width"@[5] == 'r' && "border-block-end-width"@[6] == '-' && "border-block-end-width"@[7] == 'b' && "border-block-end-width"@[8] == 'l' && "border-block-end-width"@[9] == 'o' && "border-block-end-width"@[10] == 'c' && "border-block-end-width"@[11] == 'k' && "border-block-end-width"@[12] == '-' && "border-block-end-width"@[13] == 'e' && "border-block-end-width"@[14] == 'n' && "border-block-end-width"@[15] == 'd' && "border-block-end-width"@[16] == '-' && "border-block-end-width"@[17] == 'w' && "border-block-end-width"@[18] == 'i' && "border-block-end-width"@[19] == 'd' && "border-block-end-width"@[20] == 't' && "border-block-end-width"@[21] == 'h');
    assert("border-top-width"@.len() == 16 && "border-top-width"@[0] == 'b' && "border-top-width"@[1] == 'o' && "border-top-width"@[2] == 'r' && "border-top-width"@[3] == 'd' && "border-top-width"@[4] == 'e' && "border-top-width"@[5] == 'r' && "border-top-width"@[6] == '-' && "border-top-width"@[7] == 't' && "border-top-width"@[8] == 'o' && "border-top-width"@[9] == 'p' && "border-top-width"@[10] == '-' && "border-top-width"@[11] == 'w' && "border-top-width"@[12] == 'i' && "border-top-width"@[13] == 'd' && "border-top-width"@[14] == 't' && "border-top-width"@[15] == 'h');
    assert("border-right-width"@.len() == 18 && "border-right-width"@[0] == 'b' && "border-right-width"@[1] == 'o' && "border-right-width"@[2] == 'r' && "border-right-width"@[3] == 'd' && "border-right-width"@[4] == 'e' && "border-right-width"@[5] == 'r' && "border-right-width"@[6] == '-' && "border-right-width"@[7] == 'r' && "border-right-width"@[8] == 'i' && "border-right-width"@[9] == 'g' && "border-right-width"@[10] == 'h' && "border-right-width"@[11] == 't' && "border-right-width"@[12] == '-' && "border-right-width"@[13] == 'w' && "border-right-width"@[14] == 'i' && "border-right-width"@[15] == 'd' && "border-right-width"@[16] == 't' && "border-right-width"@[17] == 'h');
    assert("border-bottom-width"@.len() == 19 && "border-bottom-width"@[0] == 'b' && "border-bottom-width"@[1] == 'o' && "border-bottom-width"@[2] == 'r' && "border-bottom-width"@[3] == 'd' && "border-bottom-width"@[4] == 'e' && "border-bottom-width"@[5] == 'r' && "border-bottom-width"@[6] == '-' && "border-bottom-width"@[7] == 'b' && "border-bottom-width"@[8] == 'o' && "border-bottom-width"@[9] == 't' && "border-bottom-width"@[10] == 't' && "border-bottom-width"@[11] == 'o' && "border-bottom-width"@[12] == 'm' && "border-bottom-width"@[13] == '-' && "border-bottom-width"@[14] == 'w' && "border-bottom-width"@[15] == 'i' && "border-bottom-width"@[16] == 'd' && "border-bottom-width"@[17] == 't' && "border-bottom-width"@[18] == 'h');
    assert("border-left-width"@.len() == 17 && "border-left-width"@[0] == 'b' && "border-left-width"@[1] == 'o' && "border-left-width"@[2] == 'r' && "border-left-width"@[3] == 'd' && "border-left-width"@[4] == 'e' && "border-left-width"@[5] == 'r' && "border-left-width"@[6] == '-' && "border-left-width"@[7] == 'l' && "border-left-width"@[8] == 'e' && "border-left-width"@[9] == 'f' && "border-left-width"@[10] == 't' && "border-left-width"@[11] == '-' && "border-left-width"@[12] == 'w' && "border-left-width"@[13] == 'i' && "border-left-width"@[14] == 'd' && "border-left-width"@[15] == 't' && "border-left-width"@[16] == 'h');
    assert("border-color"@.len() == 12 && "border-color"@[0] == 'b' && "border-color"@[1] == 'o' && "border-color"@[2] == 'r' && "border-color"@[3] == 'd' && "border-color"@[4] == 'e' && "border-color"@[5] == 'r' && "border-color"@[6] == '-' && "border-color"@[7] == 'c' && "border-color"@[8] == 'o' && "border-color"@[9] == 'l' && "border-color"@[10] == 'o' && "border-color"@[11] == 'r');
    assert("border-inline-color"@.len() == 19 && "border-inline-color"@[0] == 'b' && "border-inline-color"@[1] == 'o' && "border-inline-color"@[2] == 'r' && "border-inline-color"@[3] == 'd' && "border-inline-color"@[4] == 'e' && "border-inline-color"@[5] == 'r' && "border-inline-color"@[6] == '-' && "border-inline-color"@[7] == 'i' && "border-inline-color"@[8] == 'n' && "border-inline-color"@[9] == 'l' && "border-inline-color"@[10] == 'i' && "border-inline-color"@[11] == 'n' && "border-inline-color"@[12] == 'e' && "border-inline-color"@[13] == '-' && "border-inline-color"@[14] == 'c' && "border-inline-color"@[15] == 'o' && "border-inline-color"@[16] == 'l' && "border-inline-color"@[17] == 'o' && "border-inline-color"@[18] == 'r');
    assert("border-block-color"@.len() == 18 && "border-block-color"@[0] == 'b' && "border-block-color"@[1] == 'o' && "border-block-color"@[2] == 'r' && "border-block-color"@[3] == 'd' && "border-block-color"@[4] == 'e' && "border-block-color"@[5] == 'r' && "border-block-color"@[6] == '-' && "border-block-color"@[7] == 'b' && "border-block-color"@[8] == 'l' && "border-block-color"@[9] == 'o' && "border-block-color"@[10] == 'c' && "border-block-color"@[11] == 'k' && "border-block-color"@[12] == '-' && "border-block-color"@[13] == 'c' && "border-block-color"@[14] == 'o' && "border-block-color"@[15] == 'l' && "border-block-color"@[16] == 'o' && "border-block-color"@[17] == 'r');
    assert("border-inline-start-color"@.len() == 25 && "border-inline-start-color"@[0] == 'b' && "border-inline-start-color"@[1] == 'o' && "border-inline-start-color"@[2] == 'r' && "border-inline-start-color"@[3] == 'd' && "border-inline-start-color"@[4] == 'e' && "border-inline-start-color"@[5] == 'r' && "border-inline-start-color"@[6] == '-' && "border-inline-start-color"@[7] == 'i' && "border-inline-start-color"@[8] == 'n' && "border-inline-start-color"@[9] == 'l' && "border-inline-start-color"@[10] == 'i' && "border-inline-start-color"@[11] == 'n' && "border-inline-start-color"@[12] == 'e' && "border-inline-start-color"@[13] == '-' && "border-inline-start-color"@[14] == 's' && "border-inline-start-color"@[15] == 't' && "border-inline-start-color"@[16] == 'a' && "border-inline-start-color"@[17] == 'r' && "border-inline-start-color"@[18] == 't' && "border-inline-start-color"@[19] == '-' && "border-inline-start-color"@[20] == 'c' && "border-inline-start-color"@[21] == 'o' && "border-inline-start-color"@[22] == 'l' && "border-inline-start-color"@[23] == 'o' && "border-inline-start-color"@[24] == 'r');
    assert("border-inline-end-color"@.len() == 23 && "border-inline-end-color"@[0] == 'b' && "border-inline-end-color"@[1] == 'o' && "border-inline-end-color"@[2] == 'r' && "border-inline-end-color"@[3] == 'd' && "border-inline-end-color"@[4] == 'e' && "border-inline-end-color"@[5] == 'r' && "border-inline-end-color"@[6] == '-' && "border-inline-end-color"@[7] == 'i' && "border-inline-end-color"@[8] == 'n' && "border-inline-end-color"@[9] == 'l' && "border-inline-end-color"@[10] == 'i' && "border-inline-end-color"@[11] == 'n' && "border-inline-end-color"@[12] == 'e' && "border-inline-end-color"@[13] == '-' && "border-inline-end-color"@[14] == 'e' && "border-inline-end-color"@[15] == 'n' && "border-inline-end-color"@[16] == 'd' && "border-inline-end-color"@[17] == '-' && "border-inline-end-color"@[18] == 'c' && "border-inline-end-color"@[19] == 'o' && "border-inline-end-color"@[20] == 'l' && "border-inline-end-color"@[21] == 'o' && "border-inline-end-color"@[22] == 'r');
    assert("border-block-start-color"@.len() == 24 && "border-block-start-color"@[0] == 'b' && "border-block-start-color"@[1] == 'o' && "border-block-start-color"@[2] == 'r' && "border-block-start-color"@[3] == 'd' && "border-block-start-color"@[4] == 'e' && "border-block-start-color"@[5] == 'r' && "border-block-start-color"@[6] == '-' && "border-block-start-color"@[7] == 'b' && "border-block-start-color"@[8] == 'l' && "border-block-start-color"@[9] == 'o' && "border-block-start-color"@[10] == 'c' && "border-block-start-color"@[11] == 'k' && "border-block-start-color"@[12] == '-' && "border-block-start-color"@[13] == 's' && "border-block-start-color"@[14] == 't' && "border-block-start-color"@[15] == 'a' && "border-block-start-color"@[16] == 'r' && "border-block-start-color"@[17] == 't' && "border-block-start-color"@[18] == '-' && "border-block-start-color"@[19] == 'c' && "border-block-start-color"@[20] == 'o' && "border-block-start-color"@[21] == 'l' && "border-block-start-color"@[22] == 'o' && "border-block-start-color"@[23] == 'r');
    assert("border-block-end-color"@.len() == 22 && "border-block-end-color"@[0] == 'b' && "border-block-end-color"@[1] == 'o' && "border-block-end-color"@[2] == 'r' && "border-block-end-color"@[3] == 'd' && "border-block-end-color"@[4] == 'e' && "border-block-end-color"@[5] == 'r' && "border-block-end-color"@[6] == '-' && "border-block-end-color"@[7] == 'b' && "border-block-end-color"@[8] == 'l' && "border-block-end-color"@[9] == 'o' && "border-block-end-color"@[10] == 'c' && "border-block-end-color"@[11] == 'k' && "border-block-end-color"@[12] == '-' && "border-block-end-color"@[13] == 'e' && "border-block-end-color"@[14] == 'n' && "border-block-end-color"@[15] == 'd' && "border-block-end-color"@[16] == '-' && "border-block-end-color"@[17] == 'c' && "border-block-end-color"@[18] == 'o' && "border-block-end-color"@[19] == 'l' && "border-block-end-color"@[20] == 'o' && "border-block-end-color"@[21] == 'r');
    assert("border-top-color"@.len() == 16 && "border-top-color"@[0] == 'b' && "border-top-color"@[1] == 'o' && "border-top-color"@[2] == 'r' && "border-top-color"@[3] == 'd' && "border-top-color"@[4] == 'e' && "border-top-color"@[5] == 'r' && "border-top-color"@[6] == '-' && "border-top-color"@[7] == 't' && "border-top-color"@[8] == 'o' && "border-top-color"@[9] == 'p' && "border-top-color"@[10] == '-' && "border-top-color"@[11] == 'c' && "border-top-color"@[12] == 'o' && "border-top-color"@[13] == 'l' && "border-top-color"@[14] == 'o' && "border-top-color"@[15] == 'r');
    assert("border-right-color"@.len() == 18 && "border-right-color"@[0] == 'b' && "border-right-color"@[1] == 'o' && "border-right-color"@[2] == 'r' && "border-right-color"@[3] == 'd' && "border-right-color"@[4] == 'e' && "border-right-color"@[5] == 'r' && "border-right-color"@[6] == '-' && "border-right-color"@[7] == 'r' && "border-right-color"@[8] == 'i' && "border-right-color"@[9] == 'g' && "border-right-color"@[10] == 'h' && "border-right-color"@[11] == 't' && "border-right-color"@[12] == '-' && "border-right-color"@[13] == 'c' && "border-right-color"@[14] == 'o' && "border-right-color"@[15] == 'l' && "border-right-color"@[16] == 'o' && "border-right-color"@[17] == 'r');
    assert("border-bottom-color"@.len() == 19 && "border-bottom-color"@[0] == 'b' && "border-bottom-color"@[1] == 'o' && "border-bottom-color"@[2] == 'r' && "border-bottom-color"@[3] == 'd' && "border-bottom-color"@[4] == 'e' && "border-bottom-color"@[5] == 'r' && "border-bottom-color"@[6] == '-' && "border-bottom-color"@[7] == 'b' && "border-bottom-color"@[8] == 'o' && "border-bottom-color"@[9] == 't' && "border-bottom-color"@[10] == 't' && "border-bottom-color"@[11] == 'o' && "border-bottom-color"@[12] == 'm' && "border-bottom-color"@[13] == '-' && "border-bottom-color"@[14] == 'c' && "border-bottom-color"@[15] == 'o' && "border-bottom-color"@[16] == 'l' && "border-bottom-color"@[17] == 'o' && "border-bottom-color"@[18] == 'r');
    assert("border-left-color"@.len() == 17 && "border-left-color"@[0] == 'b' && "border-left-color"@[1] == 'o' && "border-left-color"@[2] == 'r' && "border-left-color"@[3] == 'd' && "border-left-color"@[4] == 'e' && "border-left-color"@[5] == 'r' && "border-left-color"@[6] == '-' && "border-left-color"@[7] == 'l' && "border-left-color"@[8] == 'e' && "border-left-color"@[9] == 'f' && "border-left-color"@[10] == 't' && "border-left-color"@[11] == '-' && "border-left-color"@[12] == 'c' && "border-left-color"@[13] == 'o' && "border-left-color"@[14] == 'l' && "border-left-color"@[15] == 'o' && "border-left-color"@[16] == 'r');
}

/// The longhands of a box shorthand, in the order of `box_sides`.
spec fn box_longhands(base: Seq<char>) -> Seq<Seq<char>> {
    if base == "margin"@ {
        seq!["margin-inline"@, "margin-block"@, "margin-inline-start"@, "margin-inline-end"@, "margin-block-start"@, "margin-block-end"@, "margin-top"@, "margin-right"@, "margin-bottom"@, "margin-left"@]
    } else if base == "padding"@ {
        seq!["padding-inline"@, "padding-block"@, "padding-inline-start"@, "padding-inline-end"@, "padding-block-start"@, "padding-block-end"@, "padding-top"@, "padding-right"@, "padding-bottom"@, "padding-left"@]
    } else if base == "scroll-margin"@ {
        seq!["scroll-margin-inline"@, "scroll-margin-block"@, "scroll-margin-inline-start"@, "scroll-margin-inline-end"@, "scroll-margin-block-start"@, "scroll-margin-block-end"@, "scroll-margin-top"@, "scroll-margin-right"@, "scroll-margin-bottom"@, "scroll-margin-left"@]
    } else if base == "scroll-padding"@ {
        seq!["scroll-padding-inline"@, "scroll-padding-block"@, "scroll-padding-inline-start"@, "scroll-padding-inline-end"@, "scroll-padding-block-start"@, "scroll-padding-block-end"@, "scroll-padding-top"@, "scroll-padding-right"@, "scroll-padding-bottom"@, "scroll-padding-left"@]
    } else if base == "border-width"@ {
        seq!["border-inline-width"@, "border-block-width"@, "border-inline-start-width"@, "border-inline-end-width"@, "border-block-start-width"@, "border-block-end-width"@, "border-top-width"@, "border-right-width"@, "border-bottom-width"@, "border-left-width"@]
    } else {
        seq!["border-inline-color"@, "border-block-color"@, "border-inline-start-color"@, "border-inline-end-color"@, "border-block-start-color"@, "border-block-end-color"@, "border-top-color"@, "border-right-color"@, "border-bottom-color"@, "border-left-color"@]
    }
}

/// The side families of a box shorthand, in the order of `box_sides`.
spec fn box_families(base: Seq<char>) -> Seq<Seq<char>> {
    if base == "margin"@ {
        seq!["mx"@, "my"@, "ms"@, "me"@, "mbs"@, "mbe"@, "mt"@, "mr"@, "mb"@, "ml"@]
    } else if base == "padding"@ {
        seq!["px"@, "py"@, "ps"@, "pe"@, "pbs"@, "pbe"@, "pt"@, "pr"@, "pb"@, "pl"@]
    } else if base == "scroll-margin"@ {
        seq!["scroll-mx"@, "scroll-my"@, "scroll-ms"@, "scroll-me"@, "scroll-mbs"@, "scroll-mbe"@, "scroll-mt"@, "scroll-mr"@, "scroll-mb"@, "scroll-ml"@]
    } else if base == "scroll-padding"@ {
        seq!["scroll-px"@, "scroll-py"@, "scroll-ps"@, "scroll-pe"@, "scroll-pbs"@, "scroll-pbe"@, "scroll-pt"@, "scroll-pr"@, "scroll-pb"@, "scroll-pl"@]
    } else if base == "border-width"@ {
        seq!["border-w-x"@, "border-w-y"@, "border-w-s"@, "border-w-e"@, "border-w-bs"@, "border-w-be"@, "border-w-t"@, "border-w-r"@, "border-w-b"@, "border-w-l"@]
    } else {
        seq!["border-color-x"@, "border-color-y"@, "border-color-s"@, "border-color-e"@, "border-color-bs"@, "border-color-be"@, "border-color-t"@, "border-color-r"@, "border-color-b"@, "border-color-l"@]
    }
}

/// The family of a box shorthand itself.
spec fn box_family(base: Seq<char>) -> Seq<char> {
    if base == "margin"@ {
        "m"@
    } else if base == "padding"@ {
        "p"@
    } else if base == "scroll-margin"@ {
        "scroll-m"@
    } else if base == "scroll-padding"@ {
        "scroll-p"@
    } else if base == "border-width"@ {
        "border-w"@
    } else {
        "border-color"@
    }
}

/// A box longhand is spelled as the table spells it.
#[verifier::rlimit(100)]
proof fn lemma_box_longhand_text(base: Seq<char>, i: int)
    requires
        is_box_shorthand(base),
        0 <= i < 10,
    ensures
        box_longhand(base, box_sides()[i]) == box_longhands(base)[i],
{
    reveal_strlit("margin");
    reveal_strlit("padding");
    reveal_strlit("scroll-margin");
    reveal_strlit("scroll-padding");
    reveal_strlit("border-width");
    reveal_strlit("border-color");
    reveal_strlit("-");
    reveal_strlit("border-");
    reveal_strlit("-width");
    reveal_strlit("-color");
    reveal_strlit("inline");
    reveal_strlit("block");
    reveal_strlit("inline-start");
    reveal_strlit("inline-end");
    reveal_strlit("block-start");
    reveal_strlit("block-end");
    reveal_strlit("top");
    reveal_strlit("right");
    reveal_strlit("bottom");
    reveal_strlit("left");
    reveal_strlit("margin");
    reveal_strlit("margin-inline");
    reveal_strlit("margin-block");
    reveal_strlit("margin-inline-start");
    reveal_strlit("margin-inline-end");
    reveal_strlit("margin-block-start");
    reveal_strlit("margin-block-end");
    reveal_strlit("margin-top");
    reveal_strlit("margin-right");
    reveal_strlit("margin-bottom");
    reveal_strlit("margin-left");
    reveal_strlit("padding");
    reveal_strlit("padding-inline");
    reveal_strlit("padding-block");
    reveal_strlit("padding-inline-start");
    reveal_strlit("padding-inline-end");
    reveal_strlit("padding-block-start");
    reveal_strlit("padding-block-end");
    reveal_strlit("padding-top");
    reveal_strlit("padding-right");
    reveal_strlit("padding-bottom");
    reveal_strlit("padding-left");
    reveal_strlit("scroll-margin");
    reveal_strlit("scroll-margin-inline");
    reveal_strlit("scroll-margin-block");
    reveal_strlit("scroll-margin-inline-start");
    reveal_strlit("scroll-margin-inline-end");
    reveal_strlit("scroll-margin-block-start");
    reveal_strlit("scroll-margin-block-end");
    reveal_strlit("scroll-margin-top");
    reveal_strlit("scroll-margin-right");
    reveal_strlit("scroll-margin-bottom");
    reveal_strlit("scroll-margin-left");
    reveal_strlit("scroll-padding");
    reveal_strlit("scroll-padding-inline");
    reveal_strlit("scroll-padding-block");
    reveal_strlit("scroll-padding-inline-start");
    reveal_strlit("scroll-padding-inline-end");
    reveal_strlit("scroll-padding-block-start");
    reveal_strlit("scroll-padding-block-end");
    reveal_strlit("scroll-padding-top");
    reveal_strlit("scroll-padding-right");
    reveal_strlit("scroll-padding-bottom");
    reveal_strlit("scroll-padding-left");
    reveal_strlit("border-width");
    reveal_strlit("border-inline-width");
    reveal_strlit("border-block-width");
    reveal_strlit("border-inline-start-width");
    reveal_strlit("border-inline-end-width");
    reveal_strlit("border-block-start-width");
    reveal_strlit("border-block-end-width");
    reveal_strlit("border-top-width");
    reveal_strlit("border-right-width");
    reveal_strlit("border-bottom-width");
    reveal_strlit("border-left-width");
    reveal_strlit("border-color");
    reveal_strlit("border-inline-color");
    reveal_strlit("border-block-color");
    reveal_strlit("border-inline-start-color");
    reveal_strlit("border-inline-end-color");
    reveal_strlit("border-block-start-color");
    reveal_strlit("border-block-end-color");
    reveal_strlit("border-top-color");
    reveal_strlit("border-right-color");
    reveal_strlit("border-bottom-color");
    reveal_strlit("border-left-color");
    if i == 0 {
        assert(box_longhand(base, box_sides()[0]) =~= box_longhands(base)[0]);
    } else if i == 1 {
        assert(box_longhand(base, box_sides()[1]) =~= box_longhands(base)[1]);
    } else if i == 2 {
        assert(box_longhand(base, box_sides()[2]) =~= box_longhands(base)[2]);
    } else if i == 3 {
        assert(box_longhand(base, box_sides()[3]) =~= box_longhands(base)[3]);
    } else if i == 4 {
        assert(box_longhand(base, box_sides()[4]) =~= box_longhands(base)[4]);
    } else if i == 5 {
        assert(box_longhand(base, box_sides()[5]) =~= box_longhands(base)[5]);
    } else if i == 6 {
        assert(box_longhand(base, box_sides()[6]) =~= box_longhands(base)[6]);
    } else if i == 7 {
        assert(box_longhand(base, box_sides()[7]) =~= box_longhands(base)[7]);
    } else if i == 8 {
        assert(box_longhand(base, box_sides()[8]) =~= box_longhands(base)[8]);
    } else {
        assert(box_longhand(base, box_sides()[9]) =~= box_longhands(base)[9]);
    }
}

/// The families of the box properties.
#[verifier::rlimit(50)]
proof fn lemma_box_families(base: Seq<char>, u: Seq<char>)
    requires
        is_box_shorthand(base),
    ensures
        spec_prop_family(base, u) == box_family(base),
        forall|k: int| 0 <= k < 10 ==> spec_prop_family(#[trigger] box_longhand(base, box_sides()[k]), u) == box_families(base)[k],
{
    lemma_box_table_1();
    lemma_box_table_2();
    lemma_box_table_border();
    reveal_strlit("border-");
    assert("border-"@.len() == 7 && "border-"@[0] == 'b' && "border-"@[1] == 'o' && "border-"@[2] == 'r');
    reveal_strlit("margin");
    reveal_strlit("padding");
    reveal_strlit("scroll-margin");
    reveal_strlit("scroll-padding");
    reveal_strlit("border-width");
    reveal_strlit("border-color");
    assert("margin"@.len() == 6 && "margin"@[0] == 'm' && "margin"@[1] == 'a' && "margin"@[2] == 'r' && "margin"@[3] == 'g' && "margin"@[4] == 'i' && "margin"@[5] == 'n');
    assert("padding"@.len() == 7 && "padding"@[0] == 'p' && "padding"@[1] == 'a' && "padding"@[2] == 'd' && "padding"@[3] == 'd' && "padding"@[4] == 'i' && "padding"@[5] == 'n' && "padding"@[6] == 'g');
    assert("scroll-margin"@.len() == 13 && "scroll-margin"@[0] == 's' && "scroll-margin"@[1] == 'c' && "scroll-margin"@[2] == 'r' && "scroll-margin"@[3] == 'o' && "scroll-margin"@[4] == 'l' && "scroll-margin"@[5] == 'l' && "scroll-margin"@[6] == '-' && "scroll-margin"@[7] == 'm' && "scroll-margin"@[8] == 'a' && "scroll-margin"@[9] == 'r' && "scroll-margin"@[10] == 'g' && "scroll-margin"@[11] == 'i' && "scroll-margin"@[12] == 'n');
    assert("scroll-padding"@.len() == 14 && "scroll-padding"@[0] == 's' && "scroll-padding"@[1] == 'c' && "scroll-padding"@[2] == 'r' && "scroll-padding"@[3] == 'o' && "scroll-padding"@[4] == 'l' && "scroll-padding"@[5] == 'l' && "scroll-padding"@[6] == '-' && "scroll-padding"@[7] == 'p' && "scroll-padding"@[8] == 'a' && "scroll-padding"@[9] == 'd' && "scroll-padding"@[10] == 'd' && "scroll-padding"@[11] == 'i' && "scroll-padding"@[12] == 'n' && "scroll-padding"@[13] == 'g');
    assert("border-width"@.len() == 12 && "border-width"@[0] == 'b' && "border-width"@[1] == 'o' && "border-width"@[2] == 'r' && "border-width"@[3] == 'd' && "border-width"@[4] == 'e' && "border-width"@[5] == 'r' && "border-width"@[6] == '-' && "border-width"@[7] == 'w' && "border-width"@[8] == 'i' && "border-width"@[9] == 'd' && "border-width"@[10] == 't' && "border-width"@[11] == 'h');
    assert("border-color"@.len() == 12 && "border-color"@[0] == 'b' && "border-color"@[1] == 'o' && "border-color"@[2] == 'r' && "border-color"@[3] == 'd' && "border-color"@[4] == 'e' && "border-color"@[5] == 'r' && "border-color"@[6] == '-' && "border-color"@[7] == 'c' && "border-color"@[8] == 'o' && "border-color"@[9] == 'l' && "border-color"@[10] == 'o' && "border-color"@[11] == 'r');
    lemma_box_prop_skips_table_0(base, u);
    if base[0] == 's' || base[0] == 'b' {
        lemma_box_prop_skips_table_1(base);
    }
    assert forall|k: int| 0 <= k < 10 implies spec_prop_family(#[trigger] box_longhand(base, box_sides()[k]), u) == box_families(base)[k] by {
        let q = box_longhand(base, box_sides()[k]);
        assert(q[0] == base[0] && q[1] == base[1] && q[2] == base[2]);
        lemma_box_longhand_text(base, k);
        lemma_box_prop_skips_table_0(q, u);
        if base[0] == 's' || base[0] == 'b' {
            lemma_box_prop_skips_table_1(q);
        }
    }
}

/// The conflict edges of the margin and padding families.
#[verifier::rlimit(100)]
proof fn lemma_box_edges_margin_padding()
    ensures
        spec_conflict_edges("m"@) == seq!["mx"@, "my"@, "ms"@, "me"@, "mbs"@, "mbe"@, "mt"@, "mr"@, "mb"@, "ml"@],
        spec_conflict_edges("mx"@) == seq!["mr"@, "ml"@],
        spec_conflict_edges("my"@) == seq!["mt"@, "mb"@],
        spec_conflict_edges("p"@) == seq!["px"@, "py"@, "ps"@, "pe"@, "pbs"@, "pbe"@, "pt"@, "pr"@, "pb"@, "pl"@],
        spec_conflict_edges("px"@) == seq!["pr"@, "pl"@],
        spec_conflict_edges("py"@) == seq!["pt"@, "pb"@],
{
    reveal_strlit("container-named");
    reveal_strlit("overflow");
    reveal_strlit("overscroll");
    reveal_strlit("inset");
    reveal_strlit("inset-x");
    reveal_strlit("inset-y");
    reveal_strlit("flex");
    reveal_strlit("gap");
    reveal_strlit("p");
    reveal_strlit("px");
    reveal_strlit("py");
    reveal_strlit("m");
    reveal_strlit("mx");
    reveal_strlit("my");
    assert("container-named"@.len() == 15 && "container-named"@[0] == 'c' && "container-named"@[1] == 'o' && "container-named"@[2] == 'n' && "container-named"@[3] == 't' && "container-named"@[4] == 'a' && "container-named"@[5] == 'i' && "container-named"@[6] == 'n' && "container-named"@[7] == 'e' && "container-named"@[8] == 'r' && "container-named"@[9] == '-' && "container-named"@[10] == 'n' && "container-named"@[11] == 'a' && "container-named"@[12] == 'm' && "container-named"@[13] == 'e' && "container-named"@[14] == 'd');
    assert("overflow"@.len() == 8 && "overflow"@[0] == 'o' && "overflow"@[1] == 'v' && "overflow"@[2] == 'e' && "overflow"@[3] == 'r' && "overflow"@[4] == 'f' && "overflow"@[5] == 'l' && "overflow"@[6] == 'o' && "overflow"@[7] == 'w');
    assert("overscroll"@.len() == 10 && "overscroll"@[0] == 'o' && "overscroll"@[1] == 'v' && "overscroll"@[2] == 'e' && "overscroll"@[3] == 'r' && "overscroll"@[4] == 's' && "overscroll"@[5] == 'c' && "overscroll"@[6] == 'r' && "overscroll"@[7] == 'o' && "overscroll"@[8] == 'l' && "overscroll"@[9] == 'l');
    assert("inset"@.len() == 5 && "inset"@[0] == 'i' && "inset"@[1] == 'n' && "inset"@[2] == 's' && "inset"@[3] == 'e' && "inset"@[4] == 't');
    assert("inset-x"@.len() == 7 && "inset-x"@[0] == 'i' && "inset-x"@[1] == 'n' && "inset-x"@[2] == 's' && "inset-x"@[3] == 'e' && "inset-x"@[4] == 't' && "inset-x"@[5] == '-' && "inset-x"@[6] == 'x');
    assert("inset-y"@.len() == 7 && "inset-y"@[0] == 'i' && "inset-y"@[1] == 'n' && "inset-y"@[2] == 's' && "inset-y"@[3] == 'e' && "inset-y"@[4] == 't' && "inset-y"@[5] == '-' && "inset-y"@[6] == 'y');
    assert("flex"@.len() == 4 && "flex"@[0] == 'f' && "flex"@[1] == 'l' && "flex"@[2] == 'e' && "flex"@[3] == 'x');
    assert("gap"@.len() == 3 && "gap"@[0] == 'g' && "gap"@[1] == 'a' && "gap"@[2] == 'p');
    assert("p"@.len() == 1 && "p"@[0] == 'p');
    assert("px"@.len() == 2 && "px"@[0] == 'p' && "px"@[1] == 'x');
    assert("py"@.len() == 2 && "py"@[0] == 'p' && "py"@[1] == 'y');
    assert("m"@.len() == 1 && "m"@[0] == 'm');
    assert("mx"@.len() == 2 && "mx"@[0] == 'm' && "mx"@[1] == 'x');
    assert("my"@.len() == 2 && "my"@[0] == 'm' && "my"@[1] == 'y');
}

/// The conflict edges of the scroll margin and padding and the border
/// width and color families.
#[verifier::rlimit(100)]
proof fn lemma_box_edges_scroll()
    ensures
        spec_conflict_edges("scroll-m"@) == seq!["scroll-mx"@, "scroll-my"@, "scroll-ms"@, "scroll-me"@, "scroll-mbs"@, "scroll-mbe"@, "scroll-mt"@, "scroll-mr"@, "scroll-mb"@, "scroll-ml"@],
        spec_conflict_edges("scroll-mx"@) == seq!["scroll-mr"@, "scroll-ml"@],
        spec_conflict_edges("scroll-my"@) == seq!["scroll-mt"@, "scroll-mb"@],
        spec_conflict_edges("scroll-p"@) == seq!["scroll-px"@, "scroll-py"@, "scroll-ps"@, "scroll-pe"@, "scroll-pbs"@, "scroll-pbe"@, "scroll-pt"@, "scroll-pr"@, "scroll-pb"@, "scroll-pl"@],
        spec_conflict_edges("scroll-px"@) == seq!["scroll-pr"@, "scroll-pl"@],
        spec_conflict_edges("scroll-py"@) == seq!["scroll-pt"@, "scroll-pb"@],
        spec_conflict_edges("border-w"@) == seq!["border-w-x"@, "border-w-y"@, "border-w-s"@, "border-w-e"@, "border-w-bs"@, "border-w-be"@, "border-w-t"@, "border-w-r"@, "border-w-b"@, "border-w-l"@],
        spec_conflict_edges("border-w-x"@) == seq!["border-w-r"@, "border-w-l"@],
        spec_conflict_edges("border-w-y"@) == seq!["border-w-t"@, "border-w-b"@],
        spec_conflict_edges("border-color"@) == seq!["border-color-x"@, "border-color-y"@, "border-color-s"@, "border-color-e"@, "border-color-bs"@, "border-color-be"@, "border-color-t"@, "border-color-r"@, "border-color-b"@, "border-color-l"@],
        spec_conflict_edges("border-color-x"@) == seq!["border-color-r"@, "border-color-l"@],
        spec_conflict_edges("border-color-y"@) == seq!["border-color-t"@, "border-color-b"@],
{
    reveal_strlit("container-named");
    reveal_strlit("overflow");
    reveal_strlit("overscroll");
    reveal_strlit("inset");
    reveal_strlit("inset-x");
    reveal_strlit("inset-y");
    reveal_strlit("flex");
    reveal_strlit("gap");
    reveal_strlit("p");
    reveal_strlit("px");
    reveal_strlit("py");
    reveal_strlit("m");
    reveal_strlit("mx");
    reveal_strlit("my");
    reveal_strlit("size");
    reveal_strlit("fvn-normal");
    reveal_strlit("fvn-ordinal");
    reveal_strlit("fvn-slashed-zero");
    reveal_strlit("fvn-figure");
    reveal_strlit("fvn-spacing");
    reveal_strlit("fvn-fraction");
    reveal_strlit("line-clamp");
    reveal_strlit("rounded");
    reveal_strlit("rounded-s");
    reveal_strlit("rounded-e");
    reveal_strlit("rounded-t");
    reveal_strlit("rounded-r");
    reveal_strlit("rounded-b");
    reveal_strlit("rounded-l");
    reveal_strlit("border-spacing");
    reveal_strlit("border-w");
    reveal_strlit("border-w-x");
    reveal_strlit("border-w-y");
    reveal_strlit("border-color");
    reveal_strlit("border-color-x");
    reveal_strlit("border-color-y");
    reveal_strlit("translate");
    reveal_strlit("translate-none");
    reveal_strlit("scroll-m");
    reveal_strlit("scroll-mx");
    reveal_strlit("scroll-my");
    reveal_strlit("scroll-p");
    reveal_strlit("scroll-px");
    reveal_strlit("scroll-py");
    assert("container-named"@.len() == 15 && "container-named"@[0] == 'c' && "container-named"@[1] == 'o' && "container-named"@[2] == 'n' && "container-named"@[3] == 't' && "container-named"@[4] == 'a' && "container-named"@[5] == 'i' && "container-named"@[6] == 'n' && "container-named"@[7] == 'e' && "container-named"@[8] == 'r' && "container-named"@[9] == '-' && "container-named"@[10] == 'n' && "container-named"@[11] == 'a' && "container-named"@[12] == 'm' && "container-named"@[13] == 'e' && "container-named"@[14] == 'd');
    assert("overflow"@.len() == 8 && "overflow"@[0] == 'o' && "overflow"@[1] == 'v' && "overflow"@[2] == 'e' && "overflow"@[3] == 'r' && "overflow"@[4] == 'f' && "overflow"@[5] == 'l' && "overflow"@[6] == 'o' && "overflow"@[7] == 'w');
    assert("overscroll"@.len() == 10 && "overscroll"@[0] == 'o' && "overscroll"@[1] == 'v' && "overscroll"@[2] == 'e' && "overscroll"@[3] == 'r' && "overscroll"@[4] == 's' && "overscroll"@[5] == 'c' && "overscroll"@[6] == 'r' && "overscroll"@[7] == 'o' && "overscroll"@[8] == 'l' && "overscroll"@[9] == 'l');
    assert("inset"@.len() == 5 && "inset"@[0] == 'i' && "inset"@[1] == 'n' && "inset"@[2] == 's' && "inset"@[3] == 'e' && "inset"@[4] == 't');
    assert("inset-x"@.len() == 7 && "inset-x"@[0] == 'i' && "inset-x"@[1] == 'n' && "inset-x"@[2] == 's' && "inset-x"@[3] == 'e' && "inset-x"@[4] == 't' && "inset-x"@[5] == '-' && "inset-x"@[6] == 'x');
    assert("inset-y"@.len() == 7 && "inset-y"@[0] == 'i' && "inset-y"@[1] == 'n' && "inset-y"@[2] == 's' && "inset-y"@[3] == 'e' && "inset-y"@[4] == 't' && "inset-y"@[5] == '-' && "inset-y"@[6] == 'y');
    assert("flex"@.len() == 4 && "flex"@[0] == 'f' && "flex"@[1] == 'l' && "flex"@[2] == 'e' && "flex"@[3] == 'x');
    assert("gap"@.len() == 3 && "gap"@[0] == 'g' && "gap"@[1] == 'a' && "gap"@[2] == 'p');
    assert("p"@.len() == 1 && "p"@[0] == 'p');
    assert("px"@.len() == 2 && "px"@[0] == 'p' && "px"@[1] == 'x');
    assert("py"@.len() == 2 && "py"@[0] == 'p' && "py"@[1] == 'y');
    assert("m"@.len() == 1 && "m"@[0] == 'm');
    assert("mx"@.len() == 2 && "mx"@[0] == 'm' && "mx"@[1] == 'x');
    assert("my"@.len() == 2 && "my"@[0] == 'm' && "my"@[1] == 'y');
    assert("size"@.len() == 4 && "size"@[0] == 's' && "size"@[1] == 'i' && "size"@[2] == 'z' && "size"@[3] == 'e');
    assert("fvn-normal"@.len() == 10 && "fvn-normal"@[0] == 'f' && "fvn-normal"@[1] == 'v' && "fvn-normal"@[2] == 'n' && "fvn-normal"@[3] == '-' && "fvn-normal"@[4] == 'n' && "fvn-normal"@[5] == 'o' && "fvn-normal"@[6] == 'r' && "fvn-normal"@[7] == 'm' && "fvn-normal"@[8] == 'a' && "fvn-normal"@[9] == 'l');
    assert("fvn-ordinal"@.len() == 11 && "fvn-ordinal"@[0] == 'f' && "fvn-ordinal"@[1] == 'v' && "fvn-ordinal"@[2] == 'n' && "fvn-ordinal"@[3] == '-' && "fvn-ordinal"@[4] == 'o' && "fvn-ordinal"@[5] == 'r' && "fvn-ordinal"@[6] == 'd' && "fvn-ordinal"@[7] == 'i' && "fvn-ordinal"@[8] == 'n' && "fvn-ordinal"@[9] == 'a' && "fvn-ordinal"@[10] == 'l');
    assert("fvn-slashed-zero"@.len() == 16 && "fvn-slashed-zero"@[0] == 'f' && "fvn-slashed-zero"@[1] == 'v' && "fvn-slashed-zero"@[2] == 'n' && "fvn-slashed-zero"@[3] == '-' && "fvn-slashed-zero"@[4] == 's' && "fvn-slashed-zero"@[5] == 'l' && "fvn-slashed-zero"@[6] == 'a' && "fvn-slashed-zero"@[7] == 's' && "fvn-slashed-zero"@[8] == 'h' && "fvn-slashed-zero"@[9] == 'e' && "fvn-slashed-zero"@[10] == 'd' && "fvn-slashed-zero"@[11] == '-' && "fvn-slashed-zero"@[12] == 'z' && "fvn-slashed-zero"@[13] == 'e' && "fvn-slashed-zero"@[14] == 'r' && "fvn-slashed-zero"@[15] == 'o');
    assert("fvn-figure"@.len() == 10 && "fvn-figure"@[0] == 'f' && "fvn-figure"@[1] == 'v' && "fvn-figure"@[2] == 'n' && "fvn-figure"@[3] == '-' && "fvn-figure"@[4] == 'f' && "fvn-figure"@[5] == 'i' && "fvn-figure"@[6] == 'g' && "fvn-figure"@[7] == 'u' && "fvn-figure"@[8] == 'r' && "fvn-figure"@[9] == 'e');
    assert("fvn-spacing"@.len() == 11 && "fvn-spacing"@[0] == 'f' && "fvn-spacing"@[1] == 'v' && "fvn-spacing"@[2] == 'n' && "fvn-spacing"@[3] == '-' && "fvn-spacing"@[4] == 's' && "fvn-spacing"@[5] == 'p' && "fvn-spacing"@[6] == 'a' && "fvn-spacing"@[7] == 'c' && "fvn-spacing"@[8] == 'i' && "fvn-spacing"@[9] == 'n' && "fvn-spacing"@[10] == 'g');
    assert("fvn-fraction"@.len() == 12 && "fvn-fraction"@[0] == 'f' && "fvn-fraction"@[1] == 'v' && "fvn-fraction"@[2] == 'n' && "fvn-fraction"@[3] == '-' && "fvn-fraction"@[4] == 'f' && "fvn-fraction"@[5] == 'r' && "fvn-fraction"@[6] == 'a' && "fvn-fraction"@[7] == 'c' && "fvn-fraction"@[8] == 't' && "fvn-fraction"@[9] == 'i' && "fvn-fraction"@[10] == 'o' && "fvn-fraction"@[11] == 'n');
    assert("line-clamp"@.len() == 10 && "line-clamp"@[0] == 'l' && "line-clamp"@[1] == 'i' && "line-clamp"@[2] == 'n' && "line-clamp"@[3] == 'e' && "line-clamp"@[4] == '-' && "line-clamp"@[5] == 'c' && "line-clamp"@[6] == 'l' && "line-clamp"@[7] == 'a' && "line-clamp"@[8] == 'm' && "line-clamp"@[9] == 'p');
    assert("rounded"@.len() == 7 && "rounded"@[0] == 'r' && "rounded"@[1] == 'o' && "rounded"@[2] == 'u' && "rounded"@[3] == 'n' && "rounded"@[4] == 'd' && "rounded"@[5] == 'e' && "rounded"@[6] == 'd');
    assert("rounded-s"@.len() == 9 && "rounded-s"@[0] == 'r' && "rounded-s"@[1] == 'o' && "rounded-s"@[2] == 'u' && "rounded-s"@[3] == 'n' && "rounded-s"@[4] == 'd' && "rounded-s"@[5] == 'e' && "rounded-s"@[6] == 'd' && "rounded-s"@[7] == '-' && "rounded-s"@[8] == 's');
    assert("rounded-e"@.len() == 9 && "rounded-e"@[0] == 'r' && "rounded-e"@[1] == 'o' && "rounded-e"@[2] == 'u' && "rounded-e"@[3] == 'n' && "rounded-e"@[4] == 'd' && "rounded-e"@[5] == 'e' && "rounded-e"@[6] == 'd' && "rounded-e"@[7] == '-' && "rounded-e"@[8] == 'e');
    assert("rounded-t"@.len() == 9 && "rounded-t"@[0] == 'r' && "rounded-t"@[1] == 'o' && "rounded-t"@[2] == 'u' && "rounded-t"@[3] == 'n' && "rounded-t"@[4] == 'd' && "rounded-t"@[5] == 'e' && "rounded-t"@[6] == 'd' && "rounded-t"@[7] == '-' && "rounded-t"@[8] == 't');
    assert("rounded-r"@.len() == 9 && "rounded-r"@[0] == 'r' && "rounded-r"@[1] == 'o' && "rounded-r"@[2] == 'u' && "rounded-r"@[3] == 'n' && "rounded-r"@[4] == 'd' && "rounded-r"@[5] == 'e' && "rounded-r"@[6] == 'd' && "rounded-r"@[7] == '-' && "rounded-r"@[8] == 'r');
    assert("rounded-b"@.len() == 9 && "rounded-b"@[0] == 'r' && "rounded-b"@[1] == 'o' && "rounded-b"@[2] == 'u' && "rounded-b"@[3] == 'n' && "rounded-b"@[4] == 'd' && "rounded-b"@[5] == 'e' && "rounded-b"@[6] == 'd' && "rounded-b"@[7] == '-' && "rounded-b"@[8] == 'b');
    assert("rounded-l"@.len() == 9 && "rounded-l"@[0] == 'r' && "rounded-l"@[1] == 'o' && "rounded-l"@[2] == 'u' && "rounded-l"@[3] == 'n' && "rounded-l"@[4] == 'd' && "rounded-l"@[5] == 'e' && "rounded-l"@[6] == 'd' && "rounded-l"@[7] == '-' && "rounded-l"@[8] == 'l');
    assert("border-spacing"@.len() == 14 && "border-spacing"@[0] == 'b' && "border-spacing"@[1] == 'o' && "border-spacing"@[2] == 'r' && "border-spacing"@[3] == 'd' && "border-spacing"@[4] == 'e' && "border-spacing"@[5] == 'r' && "border-spacing"@[6] == '-' && "border-spacing"@[7] == 's' && "border-spacing"@[8] == 'p' && "border-spacing"@[9] == 'a' && "border-spacing"@[10] == 'c' && "border-spacing"@[11] == 'i' && "border-spacing"@[12] == 'n' && "border-spacing"@[13] == 'g');
    assert("border-w"@.len() == 8 && "border-w"@[0] == 'b' && "border-w"@[1] == 'o' && "border-w"@[2] == 'r' && "border-w"@[3] == 'd' && "border-w"@[4] == 'e' && "border-w"@[5] == 'r' && "border-w"@[6] == '-' && "border-w"@[7] == 'w');
    assert("border-w-x"@.len() == 10 && "border-w-x"@[0] == 'b' && "border-w-x"@[1] == 'o' && "border-w-x"@[2] == 'r' && "border-w-x"@[3] == 'd' && "border-w-x"@[4] == 'e' && "border-w-x"@[5] == 'r' && "border-w-x"@[6] == '-' && "border-w-x"@[7] == 'w' && "border-w-x"@[8] == '-' && "border-w-x"@[9] == 'x');
    assert("border-w-y"@.len() == 10 && "border-w-y"@[0] == 'b' && "border-w-y"@[1] == 'o' && "border-w-y"@[2] == 'r' && "border-w-y"@[3] == 'd' && "border-w-y"@[4] == 'e' && "border-w-y"@[5] == 'r' && "border-w-y"@[6] == '-' && "border-w-y"@[7] == 'w' && "border-w-y"@[8] == '-' && "border-w-y"@[9] == 'y');
    assert("border-color"@.len() == 12 && "border-color"@[0] == 'b' && "border-color"@[1] == 'o' && "border-color"@[2] == 'r' && "border-color"@[3] == 'd' && "border-color"@[4] == 'e' && "border-color"@[5] == 'r' && "border-color"@[6] == '-' && "border-color"@[7] == 'c' && "border-color"@[8] == 'o' && "border-color"@[9] == 'l' && "border-color"@[10] == 'o' && "border-color"@[11] == 'r');
    assert("border-color-x"@.len() == 14 && "border-color-x"@[0] == 'b' && "border-color-x"@[1] == 'o' && "border-color-x"@[2] == 'r' && "border-color-x"@[3] == 'd' && "border-color-x"@[4] == 'e' && "border-color-x"@[5] == 'r' && "border-color-x"@[6] == '-' && "border-color-x"@[7] == 'c' && "border-color-x"@[8] == 'o' && "border-color-x"@[9] == 'l' && "border-color-x"@[10] == 'o' && "border-color-x"@[11] == 'r' && "border-color-x"@[12] == '-' && "border-color-x"@[13] == 'x');
    assert("border-color-y"@.len() == 14 && "border-color-y"@[0] == 'b' && "border-color-y"@[1] == 'o' && "border-color-y"@[2] == 'r' && "border-color-y"@[3] == 'd' && "border-color-y"@[4] == 'e' && "border-color-y"@[5] == 'r' && "border-color-y"@[6] == '-' && "border-color-y"@[7] == 'c' && "border-color-y"@[8] == 'o' && "border-color-y"@[9] == 'l' && "border-color-y"@[10] == 'o' && "border-color-y"@[11] == 'r' && "border-color-y"@[12] == '-' && "border-color-y"@[13] == 'y');
    assert("translate"@.len() == 9 && "translate"@[0] == 't' && "translate"@[1] == 'r' && "translate"@[2] == 'a' && "translate"@[3] == 'n' && "translate"@[4] == 's' && "translate"@[5] == 'l' && "translate"@[6] == 'a' && "translate"@[7] == 't' && "translate"@[8] == 'e');
    assert("translate-none"@.len() == 14 && "translate-none"@[0] == 't' && "translate-none"@[1] == 'r' && "translate-none"@[2] == 'a' && "translate-none"@[3] == 'n' && "translate-none"@[4] == 's' && "translate-none"@[5] == 'l' && "translate-none"@[6] == 'a' && "translate-none"@[7] == 't' && "translate-none"@[8] == 'e' && "translate-none"@[9] == '-' && "translate-none"@[10] == 'n' && "translate-none"@[11] == 'o' && "translate-none"@[12] == 'n' && "translate-none"@[13] == 'e');
    assert("scroll-m"@.len() == 8 && "scroll-m"@[0] == 's' && "scroll-m"@[1] == 'c' && "scroll-m"@[2] == 'r' && "scroll-m"@[3] == 'o' && "scroll-m"@[4] == 'l' && "scroll-m"@[5] == 'l' && "scroll-m"@[6] == '-' && "scroll-m"@[7] == 'm');
    assert("scroll-mx"@.len() == 9 && "scroll-mx"@[0] == 's' && "scroll-mx"@[1] == 'c' && "scroll-mx"@[2] == 'r' && "scroll-mx"@[3] == 'o' && "scroll-mx"@[4] == 'l' && "scroll-mx"@[5] == 'l' && "scroll-mx"@[6] == '-' && "scroll-mx"@[7] == 'm' && "scroll-mx"@[8] == 'x');
    assert("scroll-my"@.len() == 9 && "scroll-my"@[0] == 's' && "scroll-my"@[1] == 'c' && "scroll-my"@[2] == 'r' && "scroll-my"@[3] == 'o' && "scroll-my"@[4] == 'l' && "scroll-my"@[5] == 'l' && "scroll-my"@[6] == '-' && "scroll-my"@[7] == 'm' && "scroll-my"@[8] == 'y');
    assert("scroll-p"@.len() == 8 && "scroll-p"@[0] == 's' && "scroll-p"@[1] == 'c' && "scroll-p"@[2] == 'r' && "scroll-p"@[3] == 'o' && "scroll-p"@[4] == 'l' && "scroll-p"@[5] == 'l' && "scroll-p"@[6] == '-' && "scroll-p"@[7] == 'p');
    assert("scroll-px"@.len() == 9 && "scroll-px"@[0] == 's' && "scroll-px"@[1] == 'c' && "scroll-px"@[2] == 'r' && "scroll-px"@[3] == 'o' && "scroll-px"@[4] == 'l' && "scroll-px"@[5] == 'l' && "scroll-px"@[6] == '-' && "scroll-px"@[7] == 'p' && "scroll-px"@[8] == 'x');
    assert("scroll-py"@.len() == 9 && "scroll-py"@[0] == 's' && "scroll-py"@[1] == 'c' && "scroll-py"@[2] == 'r' && "scroll-py"@[3] == 'o' && "scroll-py"@[4] == 'l' && "scroll-py"@[5] == 'l' && "scroll-py"@[6] == '-' && "scroll-py"@[7] == 'p' && "scroll-py"@[8] == 'y');
}

/// The families of a box shorthand and of its sides are pairwise distinct.
#[verifier::rlimit(50)]
proof fn lemma_box_families_distinct(base: Seq<char>)
    requires
        is_box_shorthand(base),
    ensures
        forall|a: int, b: int| 0 <= a < b < 10 ==> #[trigger] box_families(base)[a] != #[trigger] box_families(base)[b],
        forall|a: int| 0 <= a < 10 ==> #[trigger] box_families(base)[a] != box_family(base),
{
    reveal_strlit("margin");
    reveal_strlit("padding");
    reveal_strlit("scroll-margin");
    reveal_strlit("scroll-padding");
    reveal_strlit("border-width");
    reveal_strlit("border-color");
    reveal_strlit("m");
    reveal_strlit("mx");
    reveal_strlit("my");
    reveal_strlit("ms");
    reveal_strlit("me");
    reveal_strlit("mbs");
    reveal_strlit("mbe");
    reveal_strlit("mt");
    reveal_strlit("mr");
    reveal_strlit("mb");
    reveal_strlit("ml");
    reveal_strlit("p");
    reveal_strlit("px");
    reveal_strlit("py");
    reveal_strlit("ps");
    reveal_strlit("pe");
    reveal_strlit("pbs");
    reveal_strlit("pbe");
    reveal_strlit("pt");
    reveal_strlit("pr");
    reveal_strlit("pb");
    reveal_strlit("pl");
    reveal_strlit("scroll-m");
    reveal_strlit("scroll-mx");
    reveal_strlit("scroll-my");
    reveal_strlit("scroll-ms");
    reveal_strlit("scroll-me");
    reveal_strlit("scroll-mbs");
    reveal_strlit("scroll-mbe");
    reveal_strlit("scroll-mt");
    reveal_strlit("scroll-mr");
    reveal_strlit("scroll-mb");
    reveal_strlit("scroll-ml");
    reveal_strlit("scroll-p");
    reveal_strlit("scroll-px");
    reveal_strlit("scroll-py");
    reveal_strlit("scroll-ps");
    reveal_strlit("scroll-pe");
    reveal_strlit("scroll-pbs");
    reveal_strlit("scroll-pbe");
    reveal_strlit("scroll-pt");
    reveal_strlit("scroll-pr");
    reveal_strlit("scroll-pb");
    reveal_strlit("scroll-pl");
    reveal_strlit("border-w");
    reveal_strlit("border-w-x");
    reveal_strlit("border-w-y");
    reveal_strlit("border-w-s");
    reveal_strlit("border-w-e");
    reveal_strlit("border-w-bs");
    reveal_strlit("border-w-be");
    reveal_strlit("border-w-t");
    reveal_strlit("border-w-r");
    reveal_strlit("border-w-b");
    reveal_strlit("border-w-l");
    reveal_strlit("border-color");
    reveal_strlit("border-color-x");
    reveal_strlit("border-color-y");
    reveal_strlit("border-color-s");
    reveal_strlit("border-color-e");
    reveal_strlit("border-color-bs");
    reveal_strlit("border-color-be");
    reveal_strlit("border-color-t");
    reveal_strlit("border-color-r");
    reveal_strlit("border-color-b");
    reveal_strlit("border-color-l");
    assert("margin"@.len() == 6 && "margin"@[0] == 'm' && "margin"@[1] == 'a' && "margin"@[2] == 'r' && "margin"@[3] == 'g' && "margin"@[4] == 'i' && "margin"@[5] == 'n');
    assert("padding"@.len() == 7 && "padding"@[0] == 'p' && "padding"@[1] == 'a' && "padding"@[2] == 'd' && "padding"@[3] == 'd' && "padding"@[4] == 'i' && "padding"@[5] == 'n' && "padding"@[6] == 'g');
    assert("scroll-margin"@.len() == 13 && "scroll-margin"@[0] == 's' && "scroll-margin"@[1] == 'c' && "scroll-margin"@[2] == 'r' && "scroll-margin"@[3] == 'o' && "scroll-margin"@[4] == 'l' && "scroll-margin"@[5] == 'l' && "scroll-margin"@[6] == '-' && "scroll-margin"@[7] == 'm' && "scroll-margin"@[8] == 'a' && "scroll-margin"@[9] == 'r' && "scroll-margin"@[10] == 'g' && "scroll-margin"@[11] == 'i' && "scroll-margin"@[12] == 'n');
    assert("scroll-padding"@.len() == 14 && "scroll-padding"@[0] == 's' && "scroll-padding"@[1] == 'c' && "scroll-padding"@[2] == 'r' && "scroll-padding"@[3] == 'o' && "scroll-padding"@[4] == 'l' && "scroll-padding"@[5] == 'l' && "scroll-padding"@[6] == '-' && "scroll-padding"@[7] == 'p' && "scroll-padding"@[8] == 'a' && "scroll-padding"@[9] == 'd' && "scroll-padding"@[10] == 'd' && "scroll-padding"@[11] == 'i' && "scroll-padding"@[12] == 'n' && "scroll-padding"@[13] == 'g');
    assert("border-width"@.len() == 12 && "border-width"@[0] == 'b' && "border-width"@[1] == 'o' && "border-width"@[2] == 'r' && "border-width"@[3] == 'd' && "border-width"@[4] == 'e' && "border-width"@[5] == 'r' && "border-width"@[6] == '-' && "border-width"@[7] == 'w' && "border-width"@[8] == 'i' && "border-width"@[9] == 'd' && "border-width"@[10] == 't' && "border-width"@[11] == 'h');
    assert("border-color"@.len() == 12 && "border-color"@[0] == 'b' && "border-color"@[1] == 'o' && "border-color"@[2] == 'r' && "border-color"@[3] == 'd' && "border-color"@[4] == 'e' && "border-color"@[5] == 'r' && "border-color"@[6] == '-' && "border-color"@[7] == 'c' && "border-color"@[8] == 'o' && "border-color"@[9] == 'l' && "border-color"@[10] == 'o' && "border-color"@[11] == 'r');
    assert("m"@.len() == 1 && "m"@[0] == 'm');
    assert("mx"@.len() == 2 && "mx"@[0] == 'm' && "mx"@[1] == 'x');
    assert("my"@.len() == 2 && "my"@[0] == 'm' && "my"@[1] == 'y');
    assert("ms"@.len() == 2 && "ms"@[0] == 'm' && "ms"@[1] == 's');
    assert("me"@.len() == 2 && "me"@[0] == 'm' && "me"@[1] == 'e');
    assert("mbs"@.len() == 3 && "mbs"@[0] == 'm' && "mbs"@[1] == 'b' && "mbs"@[2] == 's');
    assert("mbe"@.len() == 3 && "mbe"@[0] == 'm' && "mbe"@[1] == 'b' && "mbe"@[2] == 'e');
    assert("mt"@.len() == 2 && "mt"@[0] == 'm' && "mt"@[1] == 't');
    assert("mr"@.len() == 2 && "mr"@[0] == 'm' && "mr"@[1] == 'r');
    assert("mb"@.len() == 2 && "mb"@[0] == 'm' && "mb"@[1] == 'b');
    assert("ml"@.len() == 2 && "ml"@[0] == 'm' && "ml"@[1] == 'l');
    assert("p"@.len() == 1 && "p"@[0] == 'p');
    assert("px"@.len() == 2 && "px"@[0] == 'p' && "px"@[1] == 'x');
    assert("py"@.len() == 2 && "py"@[0] == 'p' && "py"@[1] == 'y');
    assert("ps"@.len() == 2 && "ps"@[0] == 'p' && "ps"@[1] == 's');
    assert("pe"@.len() == 2 && "pe"@[0] == 'p' && "pe"@[1] == 'e');
    assert("pbs"@.len() == 3 && "pbs"@[0] == 'p' && "pbs"@[1] == 'b' && "pbs"@[2] == 's');
    assert("pbe"@.len() == 3 && "pbe"@[0] == 'p' && "pbe"@[1] == 'b' && "pbe"@[2] == 'e');
    assert("pt"@.len() == 2 && "pt"@[0] == 'p' && "pt"@[1] == 't');
    assert("pr"@.len() == 2 && "pr"@[0] == 'p' && "pr"@[1] == 'r');
    assert("pb"@.len() == 2 && "pb"@[0] == 'p' && "pb"@[1] == 'b');
    assert("pl"@.len() == 2 && "pl"@[0] == 'p' && "pl"@[1] == 'l');
    assert("scroll-m"@.len() == 8 && "scroll-m"@[0] == 's' && "scroll-m"@[1] == 'c' && "scroll-m"@[2] == 'r' && "scroll-m"@[3] == 'o' && "scroll-m"@[4] == 'l' && "scroll-m"@[5] == 'l' && "scroll-m"@[6] == '-' && "scroll-m"@[7] == 'm');
    assert("scroll-mx"@.len() == 9 && "scroll-mx"@[0] == 's' && "scroll-mx"@[1] == 'c' && "scroll-mx"@[2] == 'r' && "scroll-mx"@[3] == 'o' && "scroll-mx"@[4] == 'l' && "scroll-mx"@[5] == 'l' && "scroll-mx"@[6] == '-' && "scroll-mx"@[7] == 'm' && "scroll-mx"@[8] == 'x');
    assert("scroll-my"@.len() == 9 && "scroll-my"@[0] == 's' && "scroll-my"@[1] == 'c' && "scroll-my"@[2] == 'r' && "scroll-my"@[3] == 'o' && "scroll-my"@[4] == 'l' && "scroll-my"@[5] == 'l' && "scroll-my"@[6] == '-' && "scroll-my"@[7] == 'm' && "scroll-my"@[8] == 'y');
    assert("scroll-ms"@.len() == 9 && "scroll-ms"@[0] == 's' && "scroll-ms"@[1] == 'c' && "scroll-ms"@[2] == 'r' && "scroll-ms"@[3] == 'o' && "scroll-ms"@[4] == 'l' && "scroll-ms"@[5] == 'l' && "scroll-ms"@[6] == '-' && "scroll-ms"@[7] == 'm' && "scroll-ms"@[8] == 's');
    assert("scroll-me"@.len() == 9 && "scroll-me"@[0] == 's' && "scroll-me"@[1] == 'c' && "scroll-me"@[2] == 'r' && "scroll-me"@[3] == 'o' && "scroll-me"@[4] == 'l' && "scroll-me"@[5] == 'l' && "scroll-me"@[6] == '-' && "scroll-me"@[7] == 'm' && "scroll-me"@[8] == 'e');
    assert("scroll-mbs"@.len() == 10 && "scroll-mbs"@[0] == 's' && "scroll-mbs"@[1] == 'c' && "scroll-mbs"@[2] == 'r' && "scroll-mbs"@[3] == 'o' && "scroll-mbs"@[4] == 'l' && "scroll-mbs"@[5] == 'l' && "scroll-mbs"@[6] == '-' && "scroll-mbs"@[7] == 'm' && "scroll-mbs"@[8] == 'b' && "scroll-mbs"@[9] == 's');
    assert("scroll-mbe"@.len() == 10 && "scroll-mbe"@[0] == 's' && "scroll-mbe"@[1] == 'c' && "scroll-mbe"@[2] == 'r' && "scroll-mbe"@[3] == 'o' && "scroll-mbe"@[4] == 'l' && "scroll-mbe"@[5] == 'l' && "scroll-mbe"@[6] == '-' && "scroll-mbe"@[7] == 'm' && "scroll-mbe"@[8] == 'b' && "scroll-mbe"@[9] == 'e');
    assert("scroll-mt"@.len() == 9 && "scroll-mt"@[0] == 's' && "scroll-mt"@[1] == 'c' && "scroll-mt"@[2] == 'r' && "scroll-mt"@[3] == 'o' && "scroll-mt"@[4] == 'l' && "scroll-mt"@[5] == 'l' && "scroll-mt"@[6] == '-' && "scroll-mt"@[7] == 'm' && "scroll-mt"@[8] == 't');
    assert("scroll-mr"@.len() == 9 && "scroll-mr"@[0] == 's' && "scroll-mr"@[1] == 'c' && "scroll-mr"@[2] == 'r' && "scroll-mr"@[3] == 'o' && "scroll-mr"@[4] == 'l' && "scroll-mr"@[5] == 'l' && "scroll-mr"@[6] == '-' && "scroll-mr"@[7] == 'm' && "scroll-mr"@[8] == 'r');
    assert("scroll-mb"@.len() == 9 && "scroll-mb"@[0] == 's' && "scroll-mb"@[1] == 'c' && "scroll-mb"@[2] == 'r' && "scroll-mb"@[3] == 'o' && "scroll-mb"@[4] == 'l' && "scroll-mb"@[5] == 'l' && "scroll-mb"@[6] == '-' && "scroll-mb"@[7] == 'm' && "scroll-mb"@[8] == 'b');
    assert("scroll-ml"@.len() == 9 && "scroll-ml"@[0] == 's' && "scroll-ml"@[1] == 'c' && "scroll-ml"@[2] == 'r' && "scroll-ml"@[3] == 'o' && "scroll-ml"@[4] == 'l' && "scroll-ml"@[5] == 'l' && "scroll-ml"@[6] == '-' && "scroll-ml"@[7] == 'm' && "scroll-ml"@[8] == 'l');
    assert("scroll-p"@.len() == 8 && "scroll-p"@[0] == 's' && "scroll-p"@[1] == 'c' && "scroll-p"@[2] == 'r' && "scroll-p"@[3] == 'o' && "scroll-p"@[4] == 'l' && "scroll-p"@[5] == 'l' && "scroll-p"@[6] == '-' && "scroll-p"@[7] == 'p');
    assert("scroll-px"@.len() == 9 && "scroll-px"@[0] == 's' && "scroll-px"@[1] == 'c' && "scroll-px"@[2] == 'r' && "scroll-px"@[3] == 'o' && "scroll-px"@[4] == 'l' && "scroll-px"@[5] == 'l' && "scroll-px"@[6] == '-' && "scroll-px"@[7] == 'p' && "scroll-px"@[8] == 'x');
    assert("scroll-py"@.len() == 9 && "scroll-py"@[0] == 's' && "scroll-py"@[1] == 'c' && "scroll-py"@[2] == 'r' && "scroll-py"@[3] == 'o' && "scroll-py"@[4] == 'l' && "scroll-py"@[5] == 'l' && "scroll-py"@[6] == '-' && "scroll-py"@[7] == 'p' && "scroll-py"@[8] == 'y');
    assert("scroll-ps"@.len() == 9 && "scroll-ps"@[0] == 's' && "scroll-ps"@[1] == 'c' && "scroll-ps"@[2] == 'r' && "scroll-ps"@[3] == 'o' && "scroll-ps"@[4] == 'l' && "scroll-ps"@[5] == 'l' && "scroll-ps"@[6] == '-' && "scroll-ps"@[7] == 'p' && "scroll-ps"@[8] == 's');
    assert("scroll-pe"@.len() == 9 && "scroll-pe"@[0] == 's' && "scroll-pe"@[1] == 'c' && "scroll-pe"@[2] == 'r' && "scroll-pe"@[3] == 'o' && "scroll-pe"@[4] == 'l' && "scroll-pe"@[5] == 'l' && "scroll-pe"@[6] == '-' && "scroll-pe"@[7] == 'p' && "scroll-pe"@[8] == 'e');
    assert("scroll-pbs"@.len() == 10 && "scroll-pbs"@[0] == 's' && "scroll-pbs"@[1] == 'c' && "scroll-pbs"@[2] == 'r' && "scroll-pbs"@[3] == 'o' && "scroll-pbs"@[4] == 'l' && "scroll-pbs"@[5] == 'l' && "scroll-pbs"@[6] == '-' && "scroll-pbs"@[7] == 'p' && "scroll-pbs"@[8] == 'b' && "scroll-pbs"@[9] == 's');
    assert("scroll-pbe"@.len() == 10 && "scroll-pbe"@[0] == 's' && "scroll-pbe"@[1] == 'c' && "scroll-pbe"@[2] == 'r' && "scroll-pbe"@[3] == 'o' && "scroll-pbe"@[4] == 'l' && "scroll-pbe"@[5] == 'l' && "scroll-pbe"@[6] == '-' && "scroll-pbe"@[7] == 'p' && "scroll-pbe"@[8] == 'b' && "scroll-pbe"@[9] == 'e');
    assert("scroll-pt"@.len() == 9 && "scroll-pt"@[0] == 's' && "scroll-pt"@[1] == 'c' && "scroll-pt"@[2] == 'r' && "scroll-pt"@[3] == 'o' && "scroll-pt"@[4] == 'l' && "scroll-pt"@[5] == 'l' && "scroll-pt"@[6] == '-' && "scroll-pt"@[7] == 'p' && "scroll-pt"@[8] == 't');
    assert("scroll-pr"@.len() == 9 && "scroll-pr"@[0] == 's' && "scroll-pr"@[1] == 'c' && "scroll-pr"@[2] == 'r' && "scroll-pr"@[3] == 'o' && "scroll-pr"@[4] == 'l' && "scroll-pr"@[5] == 'l' && "scroll-pr"@[6] == '-' && "scroll-pr"@[7] == 'p' && "scroll-pr"@[8] == 'r');
    assert("scroll-pb"@.len() == 9 && "scroll-pb"@[0] == 's' && "scroll-pb"@[1] == 'c' && "scroll-pb"@[2] == 'r' && "scroll-pb"@[3] == 'o' && "scroll-pb"@[4] == 'l' && "scroll-pb"@[5] == 'l' && "scroll-pb"@[6] == '-' && "scroll-pb"@[7] == 'p' && "scroll-pb"@[8] == 'b');
    assert("scroll-pl"@.len() == 9 && "scroll-pl"@[0] == 's' && "scroll-pl"@[1] == 'c' && "scroll-pl"@[2] == 'r' && "scroll-pl"@[3] == 'o' && "scroll-pl"@[4] == 'l' && "scroll-pl"@[5] == 'l' && "scroll-pl"@[6] == '-' && "scroll-pl"@[7] == 'p' && "scroll-pl"@[8] == 'l');
    assert("border-w"@.len() == 8 && "border-w"@[0] == 'b' && "border-w"@[1] == 'o' && "border-w"@[2] == 'r' && "border-w"@[3] == 'd' && "border-w"@[4] == 'e' && "border-w"@[5] == 'r' && "border-w"@[6] == '-' && "border-w"@[7] == 'w');
    assert("border-w-x"@.len() == 10 && "border-w-x"@[0] == 'b' && "border-w-x"@[1] == 'o' && "border-w-x"@[2] == 'r' && "border-w-x"@[3] == 'd' && "border-w-x"@[4] == 'e' && "border-w-x"@[5] == 'r' && "border-w-x"@[6] == '-' && "border-w-x"@[7] == 'w' && "border-w-x"@[8] == '-' && "border-w-x"@[9] == 'x');
    assert("border-w-y"@.len() == 10 && "border-w-y"@[0] == 'b' && "border-w-y"@[1] == 'o' && "border-w-y"@[2] == 'r' && "border-w-y"@[3] == 'd' && "border-w-y"@[4] == 'e' && "border-w-y"@[5] == 'r' && "border-w-y"@[6] == '-' && "border-w-y"@[7] == 'w' && "border-w-y"@[8] == '-' && "border-w-y"@[9] == 'y');
    assert("border-w-s"@.len() == 10 && "border-w-s"@[0] == 'b' && "border-w-s"@[1] == 'o' && "border-w-s"@[2] == 'r' && "border-w-s"@[3] == 'd' && "border-w-s"@[4] == 'e' && "border-w-s"@[5] == 'r' && "border-w-s"@[6] == '-' && "border-w-s"@[7] == 'w' && "border-w-s"@[8] == '-' && "border-w-s"@[9] == 's');
    assert("border-w-e"@.len() == 10 && "border-w-e"@[0] == 'b' && "border-w-e"@[1] == 'o' && "border-w-e"@[2] == 'r' && "border-w-e"@[3] == 'd' && "border-w-e"@[4] == 'e' && "border-w-e"@[5] == 'r' && "border-w-e"@[6] == '-' && "border-w-e"@[7] == 'w' && "border-w-e"@[8] == '-' && "border-w-e"@[9] == 'e');
    assert("border-w-bs"@.len() == 11 && "border-w-bs"@[0] == 'b' && "border-w-bs"@[1] == 'o' && "border-w-bs"@[2] == 'r' && "border-w-bs"@[3] == 'd' && "border-w-bs"@[4] == 'e' && "border-w-bs"@[5] == 'r' && "border-w-bs"@[6] == '-' && "border-w-bs"@[7] == 'w' && "border-w-bs"@[8] == '-' && "border-w-bs"@[9] == 'b' && "border-w-bs"@[10] == 's');
    assert("border-w-be"@.len() == 11 && "border-w-be"@[0] == 'b' && "border-w-be"@[1] == 'o' && "border-w-be"@[2] == 'r' && "border-w-be"@[3] == 'd' && "border-w-be"@[4] == 'e' && "border-w-be"@[5] == 'r' && "border-w-be"@[6] == '-' && "border-w-be"@[7] == 'w' && "border-w-be"@[8] == '-' && "border-w-be"@[9] == 'b' && "border-w-be"@[10] == 'e');
    assert("border-w-t"@.len() == 10 && "border-w-t"@[0] == 'b' && "border-w-t"@[1] == 'o' && "border-w-t"@[2] == 'r' && "border-w-t"@[3] == 'd' && "border-w-t"@[4] == 'e' && "border-w-t"@[5] == 'r' && "border-w-t"@[6] == '-' && "border-w-t"@[7] == 'w' && "border-w-t"@[8] == '-' && "border-w-t"@[9] == 't');
    assert("border-w-r"@.len() == 10 && "border-w-r"@[0] == 'b' && "border-w-r"@[1] == 'o' && "border-w-r"@[2] == 'r' && "border-w-r"@[3] == 'd' && "border-w-r"@[4] == 'e' && "border-w-r"@[5] == 'r' && "border-w-r"@[6] == '-' && "border-w-r"@[7] == 'w' && "border-w-r"@[8] == '-' && "border-w-r"@[9] == 'r');
    assert("border-w-b"@.len() == 10 && "border-w-b"@[0] == 'b' && "border-w-b"@[1] == 'o' && "border-w-b"@[2] == 'r' && "border-w-b"@[3] == 'd' && "border-w-b"@[4] == 'e' && "border-w-b"@[5] == 'r' && "border-w-b"@[6] == '-' && "border-w-b"@[7] == 'w' && "border-w-b"@[8] == '-' && "border-w-b"@[9] == 'b');
    assert("border-w-l"@.len() == 10 && "border-w-l"@[0] == 'b' && "border-w-l"@[1] == 'o' && "border-w-l"@[2] == 'r' && "border-w-l"@[3] == 'd' && "border-w-l"@[4] == 'e' && "border-w-l"@[5] == 'r' && "border-w-l"@[6] == '-' && "border-w-l"@[7] == 'w' && "border-w-l"@[8] == '-' && "border-w-l"@[9] == 'l');
    assert("border-color"@.len() == 12 && "border-color"@[0] == 'b' && "border-color"@[1] == 'o' && "border-color"@[2] == 'r' && "border-color"@[3] == 'd' && "border-color"@[4] == 'e' && "border-color"@[5] == 'r' && "border-color"@[6] == '-' && "border-color"@[7] == 'c' && "border-color"@[8] == 'o' && "border-color"@[9] == 'l' && "border-color"@[10] == 'o' && "border-color"@[11] == 'r');
    assert("border-color-x"@.len() == 14 && "border-color-x"@[0] == 'b' && "border-color-x"@[1] == 'o' && "border-color-x"@[2] == 'r' && "border-color-x"@[3] == 'd' && "border-color-x"@[4] == 'e' && "border-color-x"@[5] == 'r' && "border-color-x"@[6] == '-' && "border-color-x"@[7] == 'c' && "border-color-x"@[8] == 'o' && "border-color-x"@[9] == 'l' && "border-color-x"@[10] == 'o' && "border-color-x"@[11] == 'r' && "border-color-x"@[12] == '-' && "border-color-x"@[13] == 'x');
    assert("border-color-y"@.len() == 14 && "border-color-y"@[0] == 'b' && "border-color-y"@[1] == 'o' && "border-color-y"@[2] == 'r' && "border-color-y"@[3] == 'd' && "border-color-y"@[4] == 'e' && "border-color-y"@[5] == 'r' && "border-color-y"@[6] == '-' && "border-color-y"@[7] == 'c' && "border-color-y"@[8] == 'o' && "border-color-y"@[9] == 'l' && "border-color-y"@[10] == 'o' && "border-color-y"@[11] == 'r' && "border-color-y"@[12] == '-' && "border-color-y"@[13] == 'y');
    assert("border-color-s"@.len() == 14 && "border-color-s"@[0] == 'b' && "border-color-s"@[1] == 'o' && "border-color-s"@[2] == 'r' && "border-color-s"@[3] == 'd' && "border-color-s"@[4] == 'e' && "border-color-s"@[5] == 'r' && "border-color-s"@[6] == '-' && "border-color-s"@[7] == 'c' && "border-color-s"@[8] == 'o' && "border-color-s"@[9] == 'l' && "border-color-s"@[10] == 'o' && "border-color-s"@[11] == 'r' && "border-color-s"@[12] == '-' && "border-color-s"@[13] == 's');
    assert("border-color-e"@.len() == 14 && "border-color-e"@[0] == 'b' && "border-color-e"@[1] == 'o' && "border-color-e"@[2] == 'r' && "border-color-e"@[3] == 'd' && "border-color-e"@[4] == 'e' && "border-color-e"@[5] == 'r' && "border-color-e"@[6] == '-' && "border-color-e"@[7] == 'c' && "border-color-e"@[8] == 'o' && "border-color-e"@[9] == 'l' && "border-color-e"@[10] == 'o' && "border-color-e"@[11] == 'r' && "border-color-e"@[12] == '-' && "border-color-e"@[13] == 'e');
    assert("border-color-bs"@.len() == 15 && "border-color-bs"@[0] == 'b' && "border-color-bs"@[1] == 'o' && "border-color-bs"@[2] == 'r' && "border-color-bs"@[3] == 'd' && "border-color-bs"@[4] == 'e' && "border-color-bs"@[5] == 'r' && "border-color-bs"@[6] == '-' && "border-color-bs"@[7] == 'c' && "border-color-bs"@[8] == 'o' && "border-color-bs"@[9] == 'l' && "border-color-bs"@[10] == 'o' && "border-color-bs"@[11] == 'r' && "border-color-bs"@[12] == '-' && "border-color-bs"@[13] == 'b' && "border-color-bs"@[14] == 's');
    assert("border-color-be"@.len() == 15 && "border-color-be"@[0] == 'b' && "border-color-be"@[1] == 'o' && "border-color-be"@[2] == 'r' && "border-color-be"@[3] == 'd' && "border-color-be"@[4] == 'e' && "border-color-be"@[5] == 'r' && "border-color-be"@[6] == '-' && "border-color-be"@[7] == 'c' && "border-color-be"@[8] == 'o' && "border-color-be"@[9] == 'l' && "border-color-be"@[10] == 'o' && "border-color-be"@[11] == 'r' && "border-color-be"@[12] == '-' && "border-color-be"@[13] == 'b' && "border-color-be"@[14] == 'e');
    assert("border-color-t"@.len() == 14 && "border-color-t"@[0] == 'b' && "border-color-t"@[1] == 'o' && "border-color-t"@[2] == 'r' && "border-color-t"@[3] == 'd' && "border-color-t"@[4] == 'e' && "border-color-t"@[5] == 'r' && "border-color-t"@[6] == '-' && "border-color-t"@[7] == 'c' && "border-color-t"@[8] == 'o' && "border-color-t"@[9] == 'l' && "border-color-t"@[10] == 'o' && "border-color-t"@[11] == 'r' && "border-color-t"@[12] == '-' && "border-color-t"@[13] == 't');
    assert("border-color-r"@.len() == 14 && "border-color-r"@[0] == 'b' && "border-color-r"@[1] == 'o' && "border-color-r"@[2] == 'r' && "border-color-r"@[3] == 'd' && "border-color-r"@[4] == 'e' && "border-color-r"@[5] == 'r' && "border-color-r"@[6] == '-' && "border-color-r"@[7] == 'c' && "border-color-r"@[8] == 'o' && "border-color-r"@[9] == 'l' && "border-color-r"@[10] == 'o' && "border-color-r"@[11] == 'r' && "border-color-r"@[12] == '-' && "border-color-r"@[13] == 'r');
    assert("border-color-b"@.len() == 14 && "border-color-b"@[0] == 'b' && "border-color-b"@[1] == 'o' && "border-color-b"@[2] == 'r' && "border-color-b"@[3] == 'd' && "border-color-b"@[4] == 'e' && "border-color-b"@[5] == 'r' && "border-color-b"@[6] == '-' && "border-color-b"@[7] == 'c' && "border-color-b"@[8] == 'o' && "border-color-b"@[9] == 'l' && "border-color-b"@[10] == 'o' && "border-color-b"@[11] == 'r' && "border-color-b"@[12] == '-' && "border-color-b"@[13] == 'b');
    assert("border-color-l"@.len() == 14 && "border-color-l"@[0] == 'b' && "border-color-l"@[1] == 'o' && "border-color-l"@[2] == 'r' && "border-color-l"@[3] == 'd' && "border-color-l"@[4] == 'e' && "border-color-l"@[5] == 'r' && "border-color-l"@[6] == '-' && "border-color-l"@[7] == 'c' && "border-color-l"@[8] == 'o' && "border-color-l"@[9] == 'l' && "border-color-l"@[10] == 'o' && "border-color-l"@[11] == 'r' && "border-color-l"@[12] == '-' && "border-color-l"@[13] == 'l');
}

/// A box shorthand (`margin`, `padding`, `scroll-margin`, `scroll-padding`,
/// `border-width`, `border-color`) conflicts with each of its sides:
/// whatever utilities generate them, the family of its longhand for a side
/// (see `box_longhand`) is among the conflict edges of the shorthand's family, the inline axis reaches the
/// right and left sides and the block axis the top and bottom sides, and
/// two different sides, or a side and the shorthand, never share a family.
pub proof fn law_box_shorthand_covers_its_sides(base: Seq<char>, i: int, j: int, u: Seq<char>, v: Seq<char>)
    requires
        is_box_shorthand(base),
        0 <= i < 10,
        0 <= j < 10,
    ensures
        spec_conflict_edges(spec_prop_family(base, u)).contains(spec_prop_family(box_longhand(base, box_sides()[i]), v)),
        i != j ==> spec_prop_family(box_longhand(base, box_sides()[i]), u) != spec_prop_family(box_longhand(base, box_sides()[j]), v),
        spec_prop_family(box_longhand(base, box_sides()[i]), u) != spec_prop_family(base, v),
        spec_conflict_edges(spec_prop_family(box_longhand(base, "inline"@), u)).contains(spec_prop_family(box_longhand(base, "right"@), v)),
        spec_conflict_edges(spec_prop_family(box_longhand(base, "inline"@), u)).contains(spec_prop_family(box_longhand(base, "left"@), v)),
        spec_conflict_edges(spec_prop_family(box_longhand(base, "block"@), u)).contains(spec_prop_family(box_longhand(base, "top"@), v)),
        spec_conflict_edges(spec_prop_family(box_longhand(base, "block"@), u)).contains(spec_prop_family(box_longhand(base, "bottom"@), v)),
{
    lemma_box_families(base, u);
    lemma_box_families(base, v);
    lemma_box_families_distinct(base);
    lemma_box_edges_margin_padding();
    lemma_box_edges_scroll();
    let s = box_sides();
    assert(s[0] == "inline"@ && s[1] == "block"@ && s[6] == "top"@ && s[7] == "right"@ && s[8] == "bottom"@ && s[9] == "left"@);
    assert(box_longhand(base, s[i]) == box_longhand(base, box_sides()[i]));
    let f = box_families(base);
    let e = spec_conflict_edges(box_family(base));
    assert(e[i] == f[i]);
    assert(spec_conflict_edges(f[0])[0] == f[7] && spec_conflict_edges(f[0])[1] == f[9]);
    assert(spec_conflict_edges(f[1])[0] == f[6] && spec_conflict_edges(f[1])[1] == f[8]);
    assert(spec_prop_family(box_longhand(base, s[0]), u) == f[0]);
    assert(spec_prop_family(box_longhand(base, s[1]), u) == f[1]);
    assert(spec_prop_family(box_longhand(base, s[6]), v) == f[6]);
    assert(spec_prop_family(box_longhand(base, s[7]), v) == f[7]);
    assert(spec_prop_family(box_longhand(base, s[8]), v) == f[8]);
    assert(spec_prop_family(box_longhand(base, s[9]), v) == f[9]);
    assert(spec_prop_family(box_longhand(base, s[i]), v) == f[i]);
    assert(spec_prop_family(box_longhand(base, s[i]), u) == f[i]);
    assert(spec_prop_family(box_longhand(base, s[j]), v) == f[j]);
    if i != j {
        if i < j { assert(f[i] != f[j]); } else { assert(f[j] != f[i]); }
    }
}


/// The short names of the sides, in the order of `box_sides`.
pub open spec fn side_abbrevs() -> Seq<Seq<char>> {
    seq!["x"@, "y"@, "s"@, "e"@, "bs"@, "be"@, "t"@, "r"@, "b"@, "l"@]
}

/// The family name of side `i` of a box shorthand whose family is `family`:
/// the side's short name after it, joined by `-` for the border families
/// (`mt`, `scroll-px`, `border-w-t`).
pub open spec fn side_family_name(family: Seq<char>, base: Seq<char>, i: int) -> Seq<char> {
    if base == "border-width"@ || base == "border-color"@ {
        family + "-"@ + side_abbrevs()[i]
    } else {
        family + side_abbrevs()[i]
    }
}

/// The side families of `margin` are named after its family.
proof fn lemma_box_family_names_margin()
    ensures
        forall|k: int| 0 <= k < 10 ==> #[trigger] box_families("margin"@)[k] == side_family_name(box_family("margin"@), "margin"@, k),
{
    reveal_strlit("margin");
    reveal_strlit("padding");
    reveal_strlit("scroll-margin");
    reveal_strlit("scroll-padding");
    reveal_strlit("border-width");
    reveal_strlit("border-color");
    reveal_strlit("m");
    reveal_strlit("mx");
    reveal_strlit("my");
    reveal_strlit("ms");
    reveal_strlit("me");
    reveal_strlit("mbs");
    reveal_strlit("mbe");
    reveal_strlit("mt");
    reveal_strlit("mr");
    reveal_strlit("mb");
    reveal_strlit("ml");
    reveal_strlit("x");
    reveal_strlit("y");
    reveal_strlit("s");
    reveal_strlit("e");
    reveal_strlit("bs");
    reveal_strlit("be");
    reveal_strlit("t");
    reveal_strlit("r");
    reveal_strlit("b");
    reveal_strlit("l");
    reveal_strlit("-");
    assert("margin"@.len() == 6 && "margin"@[0] == 'm' && "margin"@[1] == 'a' && "margin"@[2] == 'r' && "margin"@[3] == 'g' && "margin"@[4] == 'i' && "margin"@[5] == 'n');
    assert("padding"@.len() == 7 && "padding"@[0] == 'p' && "padding"@[1] == 'a' && "padding"@[2] == 'd' && "padding"@[3] == 'd' && "padding"@[4] == 'i' && "padding"@[5] == 'n' && "padding"@[6] == 'g');
    assert("scroll-margin"@.len() == 13 && "scroll-margin"@[0] == 's' && "scroll-margin"@[1] == 'c' && "scroll-margin"@[2] == 'r' && "scroll-margin"@[3] == 'o' && "scroll-margin"@[4] == 'l' && "scroll-margin"@[5] == 'l' && "scroll-margin"@[6] == '-' && "scroll-margin"@[7] == 'm' && "scroll-margin"@[8] == 'a' && "scroll-margin"@[9] == 'r' && "scroll-margin"@[10] == 'g' && "scroll-margin"@[11] == 'i' && "scroll-margin"@[12] == 'n');
    assert("scroll-padding"@.len() == 14 && "scroll-padding"@[0] == 's' && "scroll-padding"@[1] == 'c' && "scroll-padding"@[2] == 'r' && "scroll-padding"@[3] == 'o' && "scroll-padding"@[4] == 'l' && "scroll-padding"@[5] == 'l' && "scroll-padding"@[6] == '-' && "scroll-padding"@[7] == 'p' && "scroll-padding"@[8] == 'a' && "scroll-padding"@[9] == 'd' && "scroll-padding"@[10] == 'd' && "scroll-padding"@[11] == 'i' && "scroll-padding"@[12] == 'n' && "scroll-padding"@[13] == 'g');
    assert("border-width"@.len() == 12 && "border-width"@[0] == 'b' && "border-width"@[1] == 'o' && "border-width"@[2] == 'r' && "border-width"@[3] == 'd' && "border-width"@[4] == 'e' && "border-width"@[5] == 'r' && "border-width"@[6] == '-' && "border-width"@[7] == 'w' && "border-width"@[8] == 'i' && "border-width"@[9] == 'd' && "border-width"@[10] == 't' && "border-width"@[11] == 'h');
    assert("border-color"@.len() == 12 && "border-color"@[0] == 'b' && "border-color"@[1] == 'o' && "border-color"@[2] == 'r' && "border-color"@[3] == 'd' && "border-color"@[4] == 'e' && "border-color"@[5] == 'r' && "border-color"@[6] == '-' && "border-color"@[7] == 'c' && "border-color"@[8] == 'o' && "border-color"@[9] == 'l' && "border-color"@[10] == 'o' && "border-color"@[11] == 'r');
    assert("mx"@ =~= "m"@ + "x"@);
    assert("my"@ =~= "m"@ + "y"@);
    assert("ms"@ =~= "m"@ + "s"@);
    assert("me"@ =~= "m"@ + "e"@);
    assert("mbs"@ =~= "m"@ + "bs"@);
    assert("mbe"@ =~= "m"@ + "be"@);
    assert("mt"@ =~= "m"@ + "t"@);
    assert("mr"@ =~= "m"@ + "r"@);
    assert("mb"@ =~= "m"@ + "b"@);
    assert("ml"@ =~= "m"@ + "l"@);
}

/// The side families of `padding` are named after its family.
proof fn lemma_box_family_names_padding()
    ensures
        forall|k: int| 0 <= k < 10 ==> #[trigger] box_families("padding"@)[k] == side_family_name(box_family("padding"@), "padding"@, k),
{
    reveal_strlit("margin");
    reveal_strlit("padding");
    reveal_strlit("scroll-margin");
    reveal_strlit("scroll-padding");
    reveal_strlit("border-width");
    reveal_strlit("border-color");
    reveal_strlit("p");
    reveal_strlit("px");
    reveal_strlit("py");
    reveal_strlit("ps");
    reveal_strlit("pe");
    reveal_strlit("pbs");
    reveal_strlit("pbe");
    reveal_strlit("pt");
    reveal_strlit("pr");
    reveal_strlit("pb");
    reveal_strlit("pl");
    reveal_strlit("x");
    reveal_strlit("y");
    reveal_strlit("s");
    reveal_strlit("e");
    reveal_strlit("bs");
    reveal_strlit("be");
    reveal_strlit("t");
    reveal_strlit("r");
    reveal_strlit("b");
    reveal_strlit("l");
    reveal_strlit("-");
    assert("margin"@.len() == 6 && "margin"@[0] == 'm' && "margin"@[1] == 'a' && "margin"@[2] == 'r' && "margin"@[3] == 'g' && "margin"@[4] == 'i' && "margin"@[5] == 'n');
    assert("padding"@.len() == 7 && "padding"@[0] == 'p' && "padding"@[1] == 'a' && "padding"@[2] == 'd' && "padding"@[3] == 'd' && "padding"@[4] == 'i' && "padding"@[5] == 'n' && "padding"@[6] == 'g');
    assert("scroll-margin"@.len() == 13 && "scroll-margin"@[0] == 's' && "scroll-margin"@[1] == 'c' && "scroll-margin"@[2] == 'r' && "scroll-margin"@[3] == 'o' && "scroll-margin"@[4] == 'l' && "scroll-margin"@[5] == 'l' && "scroll-margin"@[6] == '-' && "scroll-margin"@[7] == 'm' && "scroll-margin"@[8] == 'a' && "scroll-margin"@[9] == 'r' && "scroll-margin"@[10] == 'g' && "scroll-margin"@[11] == 'i' && "scroll-margin"@[12] == 'n');
    assert("scroll-padding"@.len() == 14 && "scroll-padding"@[0] == 's' && "scroll-padding"@[1] == 'c' && "scroll-padding"@[2] == 'r' && "scroll-padding"@[3] == 'o' && "scroll-padding"@[4] == 'l' && "scroll-padding"@[5] == 'l' && "scroll-padding"@[6] == '-' && "scroll-padding"@[7] == 'p' && "scroll-padding"@[8] == 'a' && "scroll-padding"@[9] == 'd' && "scroll-padding"@[10] == 'd' && "scroll-padding"@[11] == 'i' && "scroll-padding"@[12] == 'n' && "scroll-padding"@[13] == 'g');
    assert("border-width"@.len() == 12 && "border-width"@[0] == 'b' && "border-width"@[1] == 'o' && "border-width"@[2] == 'r' && "border-width"@[3] == 'd' && "border-width"@[4] == 'e' && "border-width"@[5] == 'r' && "border-width"@[6] == '-' && "border-width"@[7] == 'w' && "border-width"@[8] == 'i' && "border-width"@[9] == 'd' && "border-width"@[10] == 't' && "border-width"@[11] == 'h');
    assert("border-color"@.len() == 12 && "border-color"@[0] == 'b' && "border-color"@[1] == 'o' && "border-color"@[2] == 'r' && "border-color"@[3] == 'd' && "border-color"@[4] == 'e' && "border-color"@[5] == 'r' && "border-color"@[6] == '-' && "border-color"@[7] == 'c' && "border-color"@[8] == 'o' && "border-color"@[9] == 'l' && "border-color"@[10] == 'o' && "border-color"@[11] == 'r');
    assert("px"@ =~= "p"@ + "x"@);
    assert("py"@ =~= "p"@ + "y"@);
    assert("ps"@ =~= "p"@ + "s"@);
    assert("pe"@ =~= "p"@ + "e"@);
    assert("pbs"@ =~= "p"@ + "bs"@);
    assert("pbe"@ =~= "p"@ + "be"@);
    assert("pt"@ =~= "p"@ + "t"@);
    assert("pr"@ =~= "p"@ + "r"@);
    assert("pb"@ =~= "p"@ + "b"@);
    assert("pl"@ =~= "p"@ + "l"@);
}

/// The side families of `scroll-margin` are named after its family.
proof fn lemma_box_family_names_scroll_margin()
    ensures
        forall|k: int| 0 <= k < 10 ==> #[trigger] box_families("scroll-margin"@)[k] == side_family_name(box_family("scroll-margin"@), "scroll-margin"@, k),
{
    reveal_strlit("margin");
    reveal_strlit("padding");
    reveal_strlit("scroll-margin");
    reveal_strlit("scroll-padding");
    reveal_strlit("border-width");
    reveal_strlit("border-color");
    reveal_strlit("scroll-m");
    reveal_strlit("scroll-mx");
    reveal_strlit("scroll-my");
    reveal_strlit("scroll-ms");
    reveal_strlit("scroll-me");
    reveal_strlit("scroll-mbs");
    reveal_strlit("scroll-mbe");
    reveal_strlit("scroll-mt");
    reveal_strlit("scroll-mr");
    reveal_strlit("scroll-mb");
    reveal_strlit("scroll-ml");
    reveal_strlit("x");
    reveal_strlit("y");
    reveal_strlit("s");
    reveal_strlit("e");
    reveal_strlit("bs");
    reveal_strlit("be");
    reveal_strlit("t");
    reveal_strlit("r");
    reveal_strlit("b");
    reveal_strlit("l");
    reveal_strlit("-");
    assert("margin"@.len() == 6 && "margin"@[0] == 'm' && "margin"@[1] == 'a' && "margin"@[2] == 'r' && "margin"@[3] == 'g' && "margin"@[4] == 'i' && "margin"@[5] == 'n');
    assert("padding"@.len() == 7 && "padding"@[0] == 'p' && "padding"@[1] == 'a' && "padding"@[2] == 'd' && "padding"@[3] == 'd' && "padding"@[4] == 'i' && "padding"@[5] == 'n' && "padding"@[6] == 'g');
    assert("scroll-margin"@.len() == 13 && "scroll-margin"@[0] == 's' && "scroll-margin"@[1] == 'c' && "scroll-margin"@[2] == 'r' && "scroll-margin"@[3] == 'o' && "scroll-margin"@[4] == 'l' && "scroll-margin"@[5] == 'l' && "scroll-margin"@[6] == '-' && "scroll-margin"@[7] == 'm' && "scroll-margin"@[8] == 'a' && "scroll-margin"@[9] == 'r' && "scroll-margin"@[10] == 'g' && "scroll-margin"@[11] == 'i' && "scroll-margin"@[12] == 'n');
    assert("scroll-padding"@.len() == 14 && "scroll-padding"@[0] == 's' && "scroll-padding"@[1] == 'c' && "scroll-padding"@[2] == 'r' && "scroll-padding"@[3] == 'o' && "scroll-padding"@[4] == 'l' && "scroll-padding"@[5] == 'l' && "scroll-padding"@[6] == '-' && "scroll-padding"@[7] == 'p' && "scroll-padding"@[8] == 'a' && "scroll-padding"@[9] == 'd' && "scroll-padding"@[10] == 'd' && "scroll-padding"@[11] == 'i' && "scroll-padding"@[12] == 'n' && "scroll-padding"@[13] == 'g');
    assert("border-width"@.len() == 12 && "border-width"@[0] == 'b' && "border-width"@[1] == 'o' && "border-width"@[2] == 'r' && "border-width"@[3] == 'd' && "border-width"@[4] == 'e' && "border-width"@[5] == 'r' && "border-width"@[6] == '-' && "border-width"@[7] == 'w' && "border-width"@[8] == 'i' && "border-width"@[9] == 'd' && "border-width"@[10] == 't' && "border-width"@[11] == 'h');
    assert("border-color"@.len() == 12 && "border-color"@[0] == 'b' && "border-color"@[1] == 'o' && "border-color"@[2] == 'r' && "border-color"@[3] == 'd' && "border-color"@[4] == 'e' && "border-color"@[5] == 'r' && "border-color"@[6] == '-' && "border-color"@[7] == 'c' && "border-color"@[8] == 'o' && "border-color"@[9] == 'l' && "border-color"@[10] == 'o' && "border-color"@[11] == 'r');
    assert("scroll-mx"@ =~= "scroll-m"@ + "x"@);
    assert("scroll-my"@ =~= "scroll-m"@ + "y"@);
    assert("scroll-ms"@ =~= "scroll-m"@ + "s"@);
    assert("scroll-me"@ =~= "scroll-m"@ + "e"@);
    assert("scroll-mbs"@ =~= "scroll-m"@ + "bs"@);
    assert("scroll-mbe"@ =~= "scroll-m"@ + "be"@);
    assert("scroll-mt"@ =~= "scroll-m"@ + "t"@);
    assert("scroll-mr"@ =~= "scroll-m"@ + "r"@);
    assert("scroll-mb"@ =~= "scroll-m"@ + "b"@);
    assert("scroll-ml"@ =~= "scroll-m"@ + "l"@);
}

/// The side families of `scroll-padding` are named after its family.
proof fn lemma_box_family_names_scroll_padding()
    ensures
        forall|k: int| 0 <= k < 10 ==> #[trigger] box_families("scroll-padding"@)[k] == side_family_name(box_family("scroll-padding"@), "scroll-padding"@, k),
{
    reveal_strlit("margin");
    reveal_strlit("padding");
    reveal_strlit("scroll-margin");
    reveal_strlit("scroll-padding");
    reveal_strlit("border-width");
    reveal_strlit("border-color");
    reveal_strlit("scroll-p");
    reveal_strlit("scroll-px");
    reveal_strlit("scroll-py");
    reveal_strlit("scroll-ps");
    reveal_strlit("scroll-pe");
    reveal_strlit("scroll-pbs");
    reveal_strlit("scroll-pbe");
    reveal_strlit("scroll-pt");
    reveal_strlit("scroll-pr");
    reveal_strlit("scroll-pb");
    reveal_strlit("scroll-pl");
    reveal_strlit("x");
    reveal_strlit("y");
    reveal_strlit("s");
    reveal_strlit("e");
    reveal_strlit("bs");
    reveal_strlit("be");
    reveal_strlit("t");
    reveal_strlit("r");
    reveal_strlit("b");
    reveal_strlit("l");
    reveal_strlit("-");
    assert("margin"@.len() == 6 && "margin"@[0] == 'm' && "margin"@[1] == 'a' && "margin"@[2] == 'r' && "margin"@[3] == 'g' && "margin"@[4] == 'i' && "margin"@[5] == 'n');
    assert("padding"@.len() == 7 && "padding"@[0] == 'p' && "padding"@[1] == 'a' && "padding"@[2] == 'd' && "padding"@[3] == 'd' && "padding"@[4] == 'i' && "padding"@[5] == 'n' && "padding"@[6] == 'g');
    assert("scroll-margin"@.len() == 13 && "scroll-margin"@[0] == 's' && "scroll-margin"@[1] == 'c' && "scroll-margin"@[2] == 'r' && "scroll-margin"@[3] == 'o' && "scroll-margin"@[4] == 'l' && "scroll-margin"@[5] == 'l' && "scroll-margin"@[6] == '-' && "scroll-margin"@[7] == 'm' && "scroll-margin"@[8] == 'a' && "scroll-margin"@[9] == 'r' && "scroll-margin"@[10] == 'g' && "scroll-margin"@[11] == 'i' && "scroll-margin"@[12] == 'n');
    assert("scroll-padding"@.len() == 14 && "scroll-padding"@[0] == 's' && "scroll-padding"@[1] == 'c' && "scroll-padding"@[2] == 'r' && "scroll-padding"@[3] == 'o' && "scroll-padding"@[4] == 'l' && "scroll-padding"@[5] == 'l' && "scroll-padding"@[6] == '-' && "scroll-padding"@[7] == 'p' && "scroll-padding"@[8] == 'a' && "scroll-padding"@[9] == 'd' && "scroll-padding"@[10] == 'd' && "scroll-padding"@[11] == 'i' && "scroll-padding"@[12] == 'n' && "scroll-padding"@[13] == 'g');
    assert("border-width"@.len() == 12 && "border-width"@[0] == 'b' && "border-width"@[1] == 'o' && "border-width"@[2] == 'r' && "border-width"@[3] == 'd' && "border-width"@[4] == 'e' && "border-width"@[5] == 'r' && "border-width"@[6] == '-' && "border-width"@[7] == 'w' && "border-width"@[8] == 'i' && "border-width"@[9] == 'd' && "border-width"@[10] == 't' && "border-width"@[11] == 'h');
    assert("border-color"@.len() == 12 && "border-color"@[0] == 'b' && "border-color"@[1] == 'o' && "border-color"@[2] == 'r' && "border-color"@[3] == 'd' && "border-color"@[4] == 'e' && "border-color"@[5] == 'r' && "border-color"@[6] == '-' && "border-color"@[7] == 'c' && "border-color"@[8] == 'o' && "border-color"@[9] == 'l' && "border-color"@[10] == 'o' && "border-color"@[11] == 'r');
    assert("scroll-px"@ =~= "scroll-p"@ + "x"@);
    assert("scroll-py"@ =~= "scroll-p"@ + "y"@);
    assert("scroll-ps"@ =~= "scroll-p"@ + "s"@);
    assert("scroll-pe"@ =~= "scroll-p"@ + "e"@);
    assert("scroll-pbs"@ =~= "scroll-p"@ + "bs"@);
    assert("scroll-pbe"@ =~= "scroll-p"@ + "be"@);
    assert("scroll-pt"@ =~= "scroll-p"@ + "t"@);
    assert("scroll-pr"@ =~= "scroll-p"@ + "r"@);
    assert("scroll-pb"@ =~= "scroll-p"@ + "b"@);
    assert("scroll-pl"@ =~= "scroll-p"@ + "l"@);
}

/// The side families of `border-width` are named after its family.
proof fn lemma_box_family_names_border_width()
    ensures
        forall|k: int| 0 <= k < 10 ==> #[trigger] box_families("border-width"@)[k] == side_family_name(box_family("border-width"@), "border-width"@, k),
{
    reveal_strlit("margin");
    reveal_strlit("padding");
    reveal_strlit("scroll-margin");
    reveal_strlit("scroll-padding");
    reveal_strlit("border-width");
    reveal_strlit("border-color");
    reveal_strlit("border-w");
    reveal_strlit("border-w-x");
    reveal_strlit("border-w-y");
    reveal_strlit("border-w-s");
    reveal_strlit("border-w-e");
    reveal_strlit("border-w-bs");
    reveal_strlit("border-w-be");
    reveal_strlit("border-w-t");
    reveal_strlit("border-w-r");
    reveal_strlit("border-w-b");
    reveal_strlit("border-w-l");
    reveal_strlit("x");
    reveal_strlit("y");
    reveal_strlit("s");
    reveal_strlit("e");
    reveal_strlit("bs");
    reveal_strlit("be");
    reveal_strlit("t");
    reveal_strlit("r");
    reveal_strlit("b");
    reveal_strlit("l");
    reveal_strlit("-");
    assert("margin"@.len() == 6 && "margin"@[0] == 'm' && "margin"@[1] == 'a' && "margin"@[2] == 'r' && "margin"@[3] == 'g' && "margin"@[4] == 'i' && "margin"@[5] == 'n');
    assert("padding"@.len() == 7 && "padding"@[0] == 'p' && "padding"@[1] == 'a' && "padding"@[2] == 'd' && "padding"@[3] == 'd' && "padding"@[4] == 'i' && "padding"@[5] == 'n' && "padding"@[6] == 'g');
    assert("scroll-margin"@.len() == 13 && "scroll-margin"@[0] == 's' && "scroll-margin"@[1] == 'c' && "scroll-margin"@[2] == 'r' && "scroll-margin"@[3] == 'o' && "scroll-margin"@[4] == 'l' && "scroll-margin"@[5] == 'l' && "scroll-margin"@[6] == '-' && "scroll-margin"@[7] == 'm' && "scroll-margin"@[8] == 'a' && "scroll-margin"@[9] == 'r' && "scroll-margin"@[10] == 'g' && "scroll-margin"@[11] == 'i' && "scroll-margin"@[12] == 'n');
    assert("scroll-padding"@.len() == 14 && "scroll-padding"@[0] == 's' && "scroll-padding"@[1] == 'c' && "scroll-padding"@[2] == 'r' && "scroll-padding"@[3] == 'o' && "scroll-padding"@[4] == 'l' && "scroll-padding"@[5] == 'l' && "scroll-padding"@[6] == '-' && "scroll-padding"@[7] == 'p' && "scroll-padding"@[8] == 'a' && "scroll-padding"@[9] == 'd' && "scroll-padding"@[10] == 'd' && "scroll-padding"@[11] == 'i' && "scroll-padding"@[12] == 'n' && "scroll-padding"@[13] == 'g');
    assert("border-width"@.len() == 12 && "border-width"@[0] == 'b' && "border-width"@[1] == 'o' && "border-width"@[2] == 'r' && "border-width"@[3] == 'd' && "border-width"@[4] == 'e' && "border-width"@[5] == 'r' && "border-width"@[6] == '-' && "border-width"@[7] == 'w' && "border-width"@[8] == 'i' && "border-width"@[9] == 'd' && "border-width"@[10] == 't' && "border-width"@[11] == 'h');
    assert("border-color"@.len() == 12 && "border-color"@[0] == 'b' && "border-color"@[1] == 'o' && "border-color"@[2] == 'r' && "border-color"@[3] == 'd' && "border-color"@[4] == 'e' && "border-color"@[5] == 'r' && "border-color"@[6] == '-' && "border-color"@[7] == 'c' && "border-color"@[8] == 'o' && "border-color"@[9] == 'l' && "border-color"@[10] == 'o' && "border-color"@[11] == 'r');
    assert("border-w-x"@ =~= "border-w"@ + "-"@ + "x"@);
    assert("border-w-y"@ =~= "border-w"@ + "-"@ + "y"@);
    assert("border-w-s"@ =~= "border-w"@ + "-"@ + "s"@);
    assert("border-w-e"@ =~= "border-w"@ + "-"@ + "e"@);
    assert("border-w-bs"@ =~= "border-w"@ + "-"@ + "bs"@);
    assert("border-w-be"@ =~= "border-w"@ + "-"@ + "be"@);
    assert("border-w-t"@ =~= "border-w"@ + "-"@ + "t"@);
    assert("border-w-r"@ =~= "border-w"@ + "-"@ + "r"@);
    assert("border-w-b"@ =~= "border-w"@ + "-"@ + "b"@);
    assert("border-w-l"@ =~= "border-w"@ + "-"@ + "l"@);
}

/// The side families of `border-color` are named after its family.
proof fn lemma_box_family_names_border_color()
    ensures
        forall|k: int| 0 <= k < 10 ==> #[trigger] box_families("border-color"@)[k] == side_family_name(box_family("border-color"@), "border-color"@, k),
{
    reveal_strlit("margin");
    reveal_strlit("padding");
    reveal_strlit("scroll-margin");
    reveal_strlit("scroll-padding");
    reveal_strlit("border-width");
    reveal_strlit("border-color");
    reveal_strlit("border-color");
    reveal_strlit("border-color-x");
    reveal_strlit("border-color-y");
    reveal_strlit("border-color-s");
    reveal_strlit("border-color-e");
    reveal_strlit("border-color-bs");
    reveal_strlit("border-color-be");
    reveal_strlit("border-color-t");
    reveal_strlit("border-color-r");
    reveal_strlit("border-color-b");
    reveal_strlit("border-color-l");
    reveal_strlit("x");
    reveal_strlit("y");
    reveal_strlit("s");
    reveal_strlit("e");
    reveal_strlit("bs");
    reveal_strlit("be");
    reveal_strlit("t");
    reveal_strlit("r");
    reveal_strlit("b");
    reveal_strlit("l");
    reveal_strlit("-");
    assert("margin"@.len() == 6 && "margin"@[0] == 'm' && "margin"@[1] == 'a' && "margin"@[2] == 'r' && "margin"@[3] == 'g' && "margin"@[4] == 'i' && "margin"@[5] == 'n');
    assert("padding"@.len() == 7 && "padding"@[0] == 'p' && "padding"@[1] == 'a' && "padding"@[2] == 'd' && "padding"@[3] == 'd' && "padding"@[4] == 'i' && "padding"@[5] == 'n' && "padding"@[6] == 'g');
    assert("scroll-margin"@.len() == 13 && "scroll-margin"@[0] == 's' && "scroll-margin"@[1] == 'c' && "scroll-margin"@[2] == 'r' && "scroll-margin"@[3] == 'o' && "scroll-margin"@[4] == 'l' && "scroll-margin"@[5] == 'l' && "scroll-margin"@[6] == '-' && "scroll-margin"@[7] == 'm' && "scroll-margin"@[8] == 'a' && "scroll-margin"@[9] == 'r' && "scroll-margin"@[10] == 'g' && "scroll-margin"@[11] == 'i' && "scroll-margin"@[12] == 'n');
    assert("scroll-padding"@.len() == 14 && "scroll-padding"@[0] == 's' && "scroll-padding"@[1] == 'c' && "scroll-padding"@[2] == 'r' && "scroll-padding"@[3] == 'o' && "scroll-padding"@[4] == 'l' && "scroll-padding"@[5] == 'l' && "scroll-padding"@[6] == '-' && "scroll-padding"@[7] == 'p' && "scroll-padding"@[8] == 'a' && "scroll-padding"@[9] == 'd' && "scroll-padding"@[10] == 'd' && "scroll-padding"@[11] == 'i' && "scroll-padding"@[12] == 'n' && "scroll-padding"@[13] == 'g');
    assert("border-width"@.len() == 12 && "border-width"@[0] == 'b' && "border-width"@[1] == 'o' && "border-width"@[2] == 'r' && "border-width"@[3] == 'd' && "border-width"@[4] == 'e' && "border-width"@[5] == 'r' && "border-width"@[6] == '-' && "border-width"@[7] == 'w' && "border-width"@[8] == 'i' && "border-width"@[9] == 'd' && "border-width"@[10] == 't' && "border-width"@[11] == 'h');
    assert("border-color"@.len() == 12 && "border-color"@[0] == 'b' && "border-color"@[1] == 'o' && "border-color"@[2] == 'r' && "border-color"@[3] == 'd' && "border-color"@[4] == 'e' && "border-color"@[5] == 'r' && "border-color"@[6] == '-' && "border-color"@[7] == 'c' && "border-color"@[8] == 'o' && "border-color"@[9] == 'l' && "border-color"@[10] == 'o' && "border-color"@[11] == 'r');
    assert("border-color-x"@ =~= "border-color"@ + "-"@ + "x"@);
    assert("border-color-y"@ =~= "border-color"@ + "-"@ + "y"@);
    assert("border-color-s"@ =~= "border-color"@ + "-"@ + "s"@);
    assert("border-color-e"@ =~= "border-color"@ + "-"@ + "e"@);
    assert("border-color-bs"@ =~= "border-color"@ + "-"@ + "bs"@);
    assert("border-color-be"@ =~= "border-color"@ + "-"@ + "be"@);
    assert("border-color-t"@ =~= "border-color"@ + "-"@ + "t"@);
    assert("border-color-r"@ =~= "border-color"@ + "-"@ + "r"@);
    assert("border-color-b"@ =~= "border-color"@ + "-"@ + "b"@);
    assert("border-color-l"@ =~= "border-color"@ + "-"@ + "l"@);
}

/// The family of a box side is named after the shorthand's family and the
/// side (`margin-top` is `mt`, `scroll-padding-inline` is `scroll-px`,
/// `border-top-width` is `border-w-t`), whatever utility generates it.
pub proof fn law_box_side_family_names(base: Seq<char>, i: int, u: Seq<char>)
    requires
        is_box_shorthand(base),
        0 <= i < 10,
    ensures
        spec_prop_family(box_longhand(base, box_sides()[i]), u) == side_family_name(spec_prop_family(base, u), base, i),
{
    lemma_box_families(base, u);
    if base == "margin"@ {
        lemma_box_family_names_margin();
    } else if base == "padding"@ {
        lemma_box_family_names_padding();
    } else if base == "scroll-margin"@ {
        lemma_box_family_names_scroll_margin();
    } else if base == "scroll-padding"@ {
        lemma_box_family_names_scroll_padding();
    } else if base == "border-width"@ {
        lemma_box_family_names_border_width();
    } else if base == "border-color"@ {
        lemma_box_family_names_border_color();
    }
    assert(box_families(base)[i] == side_family_name(box_family(base), base, i));
}

} // verus!
