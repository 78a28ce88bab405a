//! CSS shorthand properties against the longhands they set: the conflict
//! edges of a shorthand's family reach the family of every longhand.

use vstd::prelude::*;
use crate::families::{spec_prop_family, spec_conflict_edges, prop_table_0, prop_table_1, prop_table_2, prop_table_3, prop_table_4, prop_table_5, prop_table_6};

verus! {

// ---------------------------------------------------------------------------
// Shorthand properties and the longhands they set
// ---------------------------------------------------------------------------

/// CSS shorthands beside the box properties, each with the longhands it sets.
pub open spec fn css_shorthands() -> Seq<(Seq<char>, Seq<Seq<char>>)> {
    seq![
        ("overflow"@, seq!["overflow-x"@, "overflow-y"@]),
        ("overscroll-behavior"@, seq!["overscroll-behavior-x"@, "overscroll-behavior-y"@]),
        ("gap"@, seq!["column-gap"@, "row-gap"@]),
        ("flex"@, seq!["flex-basis"@, "flex-grow"@, "flex-shrink"@]),
        ("inset"@, seq!["inset-inline"@, "inset-block"@, "inset-inline-start"@, "inset-inline-end"@, "inset-block-start"@, "inset-block-end"@, "top"@, "right"@, "bottom"@, "left"@]),
        ("border-radius"@, seq!["border-start-start-radius"@, "border-start-end-radius"@, "border-end-start-radius"@, "border-end-end-radius"@, "border-top-left-radius"@, "border-top-right-radius"@, "border-bottom-right-radius"@, "border-bottom-left-radius"@]),
    ]
}

/// Block 0 of the property table on some of the shorthands and longhands.
#[verifier::rlimit(100)]
proof fn lemma_shorthands_table_0_0()
    ensures
        prop_table_0("overflow"@) == prop_table_1("overflow"@),
        prop_table_0("overflow-x"@) == prop_table_1("overflow-x"@),
        prop_table_0("overflow-y"@) == prop_table_1("overflow-y"@),
        prop_table_0("overscroll-behavior"@) == prop_table_1("overscroll-behavior"@),
        prop_table_0("overscroll-behavior-x"@) == prop_table_1("overscroll-behavior-x"@),
        prop_table_0("overscroll-behavior-y"@) == prop_table_1("overscroll-behavior-y"@),
        prop_table_0("gap"@) == prop_table_1("gap"@),
        prop_table_0("column-gap"@) == prop_table_1("column-gap"@),
        prop_table_0("row-gap"@) == prop_table_1("row-gap"@),
        prop_table_0("flex"@) == prop_table_1("flex"@),
        prop_table_0("flex-basis"@) == prop_table_1("flex-basis"@),
        prop_table_0("flex-grow"@) == prop_table_1("flex-grow"@),
{
    reveal_strlit("--tw-ring-width");
    reveal_strlit("--tw-ring-color");
    reveal_strlit("--tw-ring-inset");
    reveal_strlit("--tw-inset-ring-width");
    reveal_strlit("--tw-inset-ring-color");
    reveal_strlit("text-shadow");
    reveal_strlit("text-shadow-color");
    reveal_strlit("--tw-gradient-from");
    reveal_strlit("--tw-gradient-from-position");
    reveal_strlit("--tw-gradient-via");
    reveal_strlit("--tw-gradient-via-position");
    reveal_strlit("--tw-gradient-to");
    reveal_strlit("--tw-gradient-to-position");
    reveal_strlit("scale");
    reveal_strlit("--tw-translate-x");
    reveal_strlit("--tw-translate-y");
    reveal_strlit("--tw-rotate-x");
    reveal_strlit("--tw-rotate-y");
    reveal_strlit("--tw-scale-x");
    reveal_strlit("--tw-scale-y");
    reveal_strlit("transform-origin");
    reveal_strlit("transform-style");
    reveal_strlit("perspective");
    reveal_strlit("perspective-origin");
    reveal_strlit("--tw-mask-linear-pos");
    reveal_strlit("--tw-mask-linear-from-pos");
    reveal_strlit("--tw-mask-linear-to-pos");
    reveal_strlit("--tw-mask-linear-from-color");
    reveal_strlit("--tw-mask-linear-to-color");
    reveal_strlit("--tw-mask-t-from-pos");
    reveal_strlit("--tw-mask-t-to-pos");
    reveal_strlit("--tw-mask-t-from-color");
    reveal_strlit("--tw-mask-t-to-color");
    reveal_strlit("--tw-mask-radial-pos");
    reveal_strlit("--tw-mask-radial-from-pos");
    reveal_strlit("--tw-mask-radial-to-pos");
    reveal_strlit("--tw-mask-radial-from-color");
    reveal_strlit("--tw-mask-radial-to-color");
    reveal_strlit("mask-image");
    reveal_strlit("mask-position");
    reveal_strlit("overflow");
    reveal_strlit("overflow-x");
    reveal_strlit("overflow-y");
    reveal_strlit("overscroll-behavior");
    reveal_strlit("overscroll-behavior-x");
    reveal_strlit("overscroll-behavior-y");
    reveal_strlit("gap");
    reveal_strlit("column-gap");
    reveal_strlit("row-gap");
    reveal_strlit("flex");
    reveal_strlit("flex-basis");
    reveal_strlit("flex-grow");
    assert("overflow"@.len() == 8 && "overflow"@[0] == 'o' && "overflow"@[1] == 'v' && "overflow"@[2] == 'e' && "overflow"@[3] == 'r' && "overflow"@[4] == 'f' && "overflow"@[5] == 'l' && "overflow"@[6] == 'o' && "overflow"@[7] == 'w');
    assert("overflow-x"@.len() == 10 && "overflow-x"@[0] == 'o' && "overflow-x"@[1] == 'v' && "overflow-x"@[2] == 'e' && "overflow-x"@[3] == 'r' && "overflow-x"@[4] == 'f' && "overflow-x"@[5] == 'l' && "overflow-x"@[6] == 'o' && "overflow-x"@[7] == 'w' && "overflow-x"@[8] == '-' && "overflow-x"@[9] == 'x');
    assert("overflow-y"@.len() == 10 && "overflow-y"@[0] == 'o' && "overflow-y"@[1] == 'v' && "overflow-y"@[2] == 'e' && "overflow-y"@[3] == 'r' && "overflow-y"@[4] == 'f' && "overflow-y"@[5] == 'l' && "overflow-y"@[6] == 'o' && "overflow-y"@[7] == 'w' && "overflow-y"@[8] == '-' && "overflow-y"@[9] == 'y');
    assert("overscroll-behavior"@.len() == 19 && "overscroll-behavior"@[0] == 'o' && "overscroll-behavior"@[1] == 'v' && "overscroll-behavior"@[2] == 'e' && "overscroll-behavior"@[3] == 'r' && "overscroll-behavior"@[4] == 's' && "overscroll-behavior"@[5] == 'c' && "overscroll-behavior"@[6] == 'r' && "overscroll-behavior"@[7] == 'o' && "overscroll-behavior"@[8] == 'l' && "overscroll-behavior"@[9] == 'l' && "overscroll-behavior"@[10] == '-' && "overscroll-behavior"@[11] == 'b' && "overscroll-behavior"@[12] == 'e' && "overscroll-behavior"@[13] == 'h' && "overscroll-behavior"@[14] == 'a' && "overscroll-behavior"@[15] == 'v' && "overscroll-behavior"@[16] == 'i' && "overscroll-behavior"@[17] == 'o' && "overscroll-behavior"@[18] == 'r');
    assert("overscroll-behavior-x"@.len() == 21 && "overscroll-behavior-x"@[0] == 'o' && "overscroll-behavior-x"@[1] == 'v' && "overscroll-behavior-x"@[2] == 'e' && "overscroll-behavior-x"@[3] == 'r' && "overscroll-behavior-x"@[4] == 's' && "overscroll-behavior-x"@[5] == 'c' && "overscroll-behavior-x"@[6] == 'r' && "overscroll-behavior-x"@[7] == 'o' && "overscroll-behavior-x"@[8] == 'l' && "overscroll-behavior-x"@[9] == 'l' && "overscroll-behavior-x"@[10] == '-' && "overscroll-behavior-x"@[11] == 'b' && "overscroll-behavior-x"@[12] == 'e' && "overscroll-behavior-x"@[13] == 'h' && "overscroll-behavior-x"@[14] == 'a' && "overscroll-behavior-x"@[15] == 'v' && "overscroll-behavior-x"@[16] == 'i' && "overscroll-behavior-x"@[17] == 'o' && "overscroll-behavior-x"@[18] == 'r' && "overscroll-behavior-x"@[19] == '-' && "overscroll-behavior-x"@[20] == 'x');
    assert("overscroll-behavior-y"@.len() == 21 && "overscroll-behavior-y"@[0] == 'o' && "overscroll-behavior-y"@[1] == 'v' && "overscroll-behavior-y"@[2] == 'e' && "overscroll-behavior-y"@[3] == 'r' && "overscroll-behavior-y"@[4] == 's' && "overscroll-behavior-y"@[5] == 'c' && "overscroll-behavior-y"@[6] == 'r' && "overscroll-behavior-y"@[7] == 'o' && "overscroll-behavior-y"@[8] == 'l' && "overscroll-behavior-y"@[9] == 'l' && "overscroll-behavior-y"@[10] == '-' && "overscroll-behavior-y"@[11] == 'b' && "overscroll-behavior-y"@[12] == 'e' && "overscroll-behavior-y"@[13] == 'h' && "overscroll-behavior-y"@[14] == 'a' && "overscroll-behavior-y"@[15] == 'v' && "overscroll-behavior-y"@[16] == 'i' && "overscroll-behavior-y"@[17] == 'o' && "overscroll-behavior-y"@[18] == 'r' && "overscroll-behavior-y"@[19] == '-' && "overscroll-behavior-y"@[20] == 'y');
    assert("gap"@.len() == 3 && "gap"@[0] == 'g' && "gap"@[1] == 'a' && "gap"@[2] == 'p');
    assert("column-gap"@.len() == 10 && "column-gap"@[0] == 'c' && "column-gap"@[1] == 'o' && "column-gap"@[2] == 'l' && "column-gap"@[3] == 'u' && "column-gap"@[4] == 'm' && "column-gap"@[5] == 'n' && "column-gap"@[6] == '-' && "column-gap"@[7] == 'g' && "column-gap"@[8] == 'a' && "column-gap"@[9] == 'p');
    assert("row-gap"@.len() == 7 && "row-gap"@[0] == 'r' && "row-gap"@[1] == 'o' && "row-gap"@[2] == 'w' && "row-gap"@[3] == '-' && "row-gap"@[4] == 'g' && "row-gap"@[5] == 'a' && "row-gap"@[6] == 'p');
    assert("flex"@.len() == 4 && "flex"@[0] == 'f' && "flex"@[1] == 'l' && "flex"@[2] == 'e' && "flex"@[3] == 'x');
    assert("flex-basis"@.len() == 10 && "flex-basis"@[0] == 'f' && "flex-basis"@[1] == 'l' && "flex-basis"@[2] == 'e' && "flex-basis"@[3] == 'x' && "flex-basis"@[4] == '-' && "flex-basis"@[5] == 'b' && "flex-basis"@[6] == 'a' && "flex-basis"@[7] == 's' && "flex-basis"@[8] == 'i' && "flex-basis"@[9] == 's');
    assert("flex-grow"@.len() == 9 && "flex-grow"@[0] == 'f' && "flex-grow"@[1] == 'l' && "flex-grow"@[2] == 'e' && "flex-grow"@[3] == 'x' && "flex-grow"@[4] == '-' && "flex-grow"@[5] == 'g' && "flex-grow"@[6] == 'r' && "flex-grow"@[7] == 'o' && "flex-grow"@[8] == 'w');
}

/// Block 0 of the property table on some of the shorthands and longhands.
#[verifier::rlimit(100)]
proof fn lemma_shorthands_table_0_1()
    ensures
        prop_table_0("flex-shrink"@) == prop_table_1("flex-shrink"@),
        prop_table_0("inset"@) == prop_table_1("inset"@),
        prop_table_0("inset-inline"@) == prop_table_1("inset-inline"@),
        prop_table_0("inset-block"@) == prop_table_1("inset-block"@),
        prop_table_0("inset-inline-start"@) == prop_table_1("inset-inline-start"@),
        prop_table_0("inset-inline-end"@) == prop_table_1("inset-inline-end"@),
        prop_table_0("inset-block-start"@) == prop_table_1("inset-block-start"@),
        prop_table_0("inset-block-end"@) == prop_table_1("inset-block-end"@),
        prop_table_0("top"@) == prop_table_1("top"@),
        prop_table_0("right"@) == prop_table_1("right"@),
        prop_table_0("bottom"@) == prop_table_1("bottom"@),
        prop_table_0("left"@) == prop_table_1("left"@),
{
    reveal_strlit("--tw-ring-width");
    reveal_strlit("--tw-ring-color");
    reveal_strlit("--tw-ring-inset");
    reveal_strlit("--tw-inset-ring-width");
    reveal_strlit("--tw-inset-ring-color");
    reveal_strlit("text-shadow");
    reveal_strlit("text-shadow-color");
    reveal_strlit("--tw-gradient-from");
    reveal_strlit("--tw-gradient-from-position");
    reveal_strlit("--tw-gradient-via");
    reveal_strlit("--tw-gradient-via-position");
    reveal_strlit("--tw-gradient-to");
    reveal_strlit("--tw-gradient-to-position");
    reveal_strlit("scale");
    reveal_strlit("--tw-translate-x");
    reveal_strlit("--tw-translate-y");
    reveal_strlit("--tw-rotate-x");
    reveal_strlit("--tw-rotate-y");
    reveal_strlit("--tw-scale-x");
    reveal_strlit("--tw-scale-y");
    reveal_strlit("transform-origin");
    reveal_strlit("transform-style");
    reveal_strlit("perspective");
    reveal_strlit("perspective-origin");
    reveal_strlit("--tw-mask-linear-pos");
    reveal_strlit("--tw-mask-linear-from-pos");
    reveal_strlit("--tw-mask-linear-to-pos");
    reveal_strlit("--tw-mask-linear-from-color");
    reveal_strlit("--tw-mask-linear-to-color");
    reveal_strlit("--tw-mask-t-from-pos");
    reveal_strlit("--tw-mask-t-to-pos");
    reveal_strlit("--tw-mask-t-from-color");
    reveal_strlit("--tw-mask-t-to-color");
    reveal_strlit("--tw-mask-radial-pos");
    reveal_strlit("--tw-mask-radial-from-pos");
    reveal_strlit("--tw-mask-radial-to-pos");
    reveal_strlit("--tw-mask-radial-from-color");
    reveal_strlit("--tw-mask-radial-to-color");
    reveal_strlit("mask-image");
    reveal_strlit("mask-position");
    reveal_strlit("flex-shrink");
    reveal_strlit("inset");
    reveal_strlit("inset-inline");
    reveal_strlit("inset-block");
    reveal_strlit("inset-inline-start");
    reveal_strlit("inset-inline-end");
    reveal_strlit("inset-block-start");
    reveal_strlit("inset-block-end");
    reveal_strlit("top");
    reveal_strlit("right");
    reveal_strlit("bottom");
    reveal_strlit("left");
    assert("flex-shrink"@.len() == 11 && "flex-shrink"@[0] == 'f' && "flex-shrink"@[1] == 'l' && "flex-shrink"@[2] == 'e' && "flex-shrink"@[3] == 'x' && "flex-shrink"@[4] == '-' && "flex-shrink"@[5] == 's' && "flex-shrink"@[6] == 'h' && "flex-shrink"@[7] == 'r' && "flex-shrink"@[8] == 'i' && "flex-shrink"@[9] == 'n' && "flex-shrink"@[10] == 'k');
    assert("inset"@.len() == 5 && "inset"@[0] == 'i' && "inset"@[1] == 'n' && "inset"@[2] == 's' && "inset"@[3] == 'e' && "inset"@[4] == 't');
    assert("inset-inline"@.len() == 12 && "inset-inline"@[0] == 'i' && "inset-inline"@[1] == 'n' && "inset-inline"@[2] == 's' && "inset-inline"@[3] == 'e' && "inset-inline"@[4] == 't' && "inset-inline"@[5] == '-' && "inset-inline"@[6] == 'i' && "inset-inline"@[7] == 'n' && "inset-inline"@[8] == 'l' && "inset-inline"@[9] == 'i' && "inset-inline"@[10] == 'n' && "inset-inline"@[11] == 'e');
    assert("inset-block"@.len() == 11 && "inset-block"@[0] == 'i' && "inset-block"@[1] == 'n' && "inset-block"@[2] == 's' && "inset-block"@[3] == 'e' && "inset-block"@[4] == 't' && "inset-block"@[5] == '-' && "inset-block"@[6] == 'b' && "inset-block"@[7] == 'l' && "inset-block"@[8] == 'o' && "inset-block"@[9] == 'c' && "inset-block"@[10] == 'k');
    assert("inset-inline-start"@.len() == 18 && "inset-inline-start"@[0] == 'i' && "inset-inline-start"@[1] == 'n' && "inset-inline-start"@[2] == 's' && "inset-inline-start"@[3] == 'e' && "inset-inline-start"@[4] == 't' && "inset-inline-start"@[5] == '-' && "inset-inline-start"@[6] == 'i' && "inset-inline-start"@[7] == 'n' && "inset-inline-start"@[8] == 'l' && "inset-inline-start"@[9] == 'i' && "inset-inline-start"@[10] == 'n' && "inset-inline-start"@[11] == 'e' && "inset-inline-start"@[12] == '-' && "inset-inline-start"@[13] == 's' && "inset-inline-start"@[14] == 't' && "inset-inline-start"@[15] == 'a' && "inset-inline-start"@[16] == 'r' && "inset-inline-start"@[17] == 't');
    assert("inset-inline-end"@.len() == 16 && "inset-inline-end"@[0] == 'i' && "inset-inline-end"@[1] == 'n' && "inset-inline-end"@[2] == 's' && "inset-inline-end"@[3] == 'e' && "inset-inline-end"@[4] == 't' && "inset-inline-end"@[5] == '-' && "inset-inline-end"@[6] == 'i' && "inset-inline-end"@[7] == 'n' && "inset-inline-end"@[8] == 'l' && "inset-inline-end"@[9] == 'i' && "inset-inline-end"@[10] == 'n' && "inset-inline-end"@[11] == 'e' && "inset-inline-end"@[12] == '-' && "inset-inline-end"@[13] == 'e' && "inset-inline-end"@[14] == 'n' && "inset-inline-end"@[15] == 'd');
    assert("inset-block-start"@.len() == 17 && "inset-block-start"@[0] == 'i' && "inset-block-start"@[1] == 'n' && "inset-block-start"@[2] == 's' && "inset-block-start"@[3] == 'e' && "inset-block-start"@[4] == 't' && "inset-block-start"@[5] == '-' && "inset-block-start"@[6] == 'b' && "inset-block-start"@[7] == 'l' && "inset-block-start"@[8] == 'o' && "inset-block-start"@[9] == 'c' && "inset-block-start"@[10] == 'k' && "inset-block-start"@[11] == '-' && "inset-block-start"@[12] == 's' && "inset-block-start"@[13] == 't' && "inset-block-start"@[14] == 'a' && "inset-block-start"@[15] == 'r' && "inset-block-start"@[16] == 't');
    assert("inset-block-end"@.len() == 15 && "inset-block-end"@[0] == 'i' && "inset-block-end"@[1] == 'n' && "inset-block-end"@[2] == 's' && "inset-block-end"@[3] == 'e' && "inset-block-end"@[4] == 't' && "inset-block-end"@[5] == '-' && "inset-block-end"@[6] == 'b' && "inset-block-end"@[7] == 'l' && "inset-block-end"@[8] == 'o' && "inset-block-end"@[9] == 'c' && "inset-block-end"@[10] == 'k' && "inset-block-end"@[11] == '-' && "inset-block-end"@[12] == 'e' && "inset-block-end"@[13] == 'n' && "inset-block-end"@[14] == 'd');
    assert("top"@.len() == 3 && "top"@[0] == 't' && "top"@[1] == 'o' && "top"@[2] == 'p');
    assert("right"@.len() == 5 && "right"@[0] == 'r' && "right"@[1] == 'i' && "right"@[2] == 'g' && "right"@[3] == 'h' && "right"@[4] == 't');
    assert("bottom"@.len() == 6 && "bottom"@[0] == 'b' && "bottom"@[1] == 'o' && "bottom"@[2] == 't' && "bottom"@[3] == 't' && "bottom"@[4] == 'o' && "bottom"@[5] == 'm');
    assert("left"@.len() == 4 && "left"@[0] == 'l' && "left"@[1] == 'e' && "left"@[2] == 'f' && "left"@[3] == 't');
}

/// Block 0 of the property table on some of the shorthands and longhands.
#[verifier::rlimit(100)]
proof fn lemma_shorthands_table_0_2()
    ensures
        prop_table_0("border-radius"@) == prop_table_1("border-radius"@),
        prop_table_0("border-start-start-radius"@) == prop_table_1("border-start-start-radius"@),
        prop_table_0("border-start-end-radius"@) == prop_table_1("border-start-end-radius"@),
        prop_table_0("border-end-start-radius"@) == prop_table_1("border-end-start-radius"@),
        prop_table_0("border-end-end-radius"@) == prop_table_1("border-end-end-radius"@),
        prop_table_0("border-top-left-radius"@) == prop_table_1("border-top-left-radius"@),
        prop_table_0("border-top-right-radius"@) == prop_table_1("border-top-right-radius"@),
        prop_table_0("border-bottom-right-radius"@) == prop_table_1("border-bottom-right-radius"@),
        prop_table_0("border-bottom-left-radius"@) == prop_table_1("border-bottom-left-radius"@),
{
    reveal_strlit("--tw-ring-width");
    reveal_strlit("--tw-ring-color");
    reveal_strlit("--tw-ring-inset");
    reveal_strlit("--tw-inset-ring-width");
    reveal_strlit("--tw-inset-ring-color");
    reveal_strlit("text-shadow");
    reveal_strlit("text-shadow-color");
    reveal_strlit("--tw-gradient-from");
    reveal_strlit("--tw-gradient-from-position");
    reveal_strlit("--tw-gradient-via");
    reveal_strlit("--tw-gradient-via-position");
    reveal_strlit("--tw-gradient-to");
    reveal_strlit("--tw-gradient-to-position");
    reveal_strlit("scale");
    reveal_strlit("--tw-translate-x");
    reveal_strlit("--tw-translate-y");
    reveal_strlit("--tw-rotate-x");
    reveal_strlit("--tw-rotate-y");
    reveal_strlit("--tw-scale-x");
    reveal_strlit("--tw-scale-y");
    reveal_strlit("transform-origin");
    reveal_strlit("transform-style");
    reveal_strlit("perspective");
    reveal_strlit("perspective-origin");
    reveal_strlit("--tw-mask-linear-pos");
    reveal_strlit("--tw-mask-linear-from-pos");
    reveal_strlit("--tw-mask-linear-to-pos");
    reveal_strlit("--tw-mask-linear-from-color");
    reveal_strlit("--tw-mask-linear-to-color");
    reveal_strlit("--tw-mask-t-from-pos");
    reveal_strlit("--tw-mask-t-to-pos");
    reveal_strlit("--tw-mask-t-from-color");
    reveal_strlit("--tw-mask-t-to-color");
    reveal_strlit("--tw-mask-radial-pos");
    reveal_strlit("--tw-mask-radial-from-pos");
    reveal_strlit("--tw-mask-radial-to-pos");
    reveal_strlit("--tw-mask-radial-from-color");
    reveal_strlit("--tw-mask-radial-to-color");
    reveal_strlit("mask-image");
    reveal_strlit("mask-position");
    reveal_strlit("border-radius");
    reveal_strlit("border-start-start-radius");
    reveal_strlit("border-start-end-radius");
    reveal_strlit("border-end-start-radius");
    reveal_strlit("border-end-end-radius");
    reveal_strlit("border-top-left-radius");
    reveal_strlit("border-top-right-radius");
    reveal_strlit("border-bottom-right-radius");
    reveal_strlit("border-bottom-left-radius");
    assert("border-radius"@.len() == 13 && "border-radius"@[0] == 'b' && "border-radius"@[1] == 'o' && "border-radius"@[2] == 'r' && "border-radius"@[3] == 'd' && "border-radius"@[4] == 'e' && "border-radius"@[5] == 'r' && "border-radius"@[6] == '-' && "border-radius"@[7] == 'r' && "border-radius"@[8] == 'a' && "border-radius"@[9] == 'd' && "border-radius"@[10] == 'i' && "border-radius"@[11] == 'u' && "border-radius"@[12] == 's');
    assert("border-start-start-radius"@.len() == 25 && "border-start-start-radius"@[0] == 'b' && "border-start-start-radius"@[1] == 'o' && "border-start-start-radius"@[2] == 'r' && "border-start-start-radius"@[3] == 'd' && "border-start-start-radius"@[4] == 'e' && "border-start-start-radius"@[5] == 'r' && "border-start-start-radius"@[6] == '-' && "border-start-start-radius"@[7] == 's' && "border-start-start-radius"@[8] == 't' && "border-start-start-radius"@[9] == 'a' && "border-start-start-radius"@[10] == 'r' && "border-start-start-radius"@[11] == 't' && "border-start-start-radius"@[12] == '-' && "border-start-start-radius"@[13] == 's' && "border-start-start-radius"@[14] == 't' && "border-start-start-radius"@[15] == 'a' && "border-start-start-radius"@[16] == 'r' && "border-start-start-radius"@[17] == 't' && "border-start-start-radius"@[18] == '-' && "border-start-start-radius"@[19] == 'r' && "border-start-start-radius"@[20] == 'a' && "border-start-start-radius"@[21] == 'd' && "border-start-start-radius"@[22] == 'i' && "border-start-start-radius"@[23] == 'u' && "border-start-start-radius"@[24] == 's');
    assert("border-start-end-radius"@.len() == 23 && "border-start-end-radius"@[0] == 'b' && "border-start-end-radius"@[1] == 'o' && "border-start-end-radius"@[2] == 'r' && "border-start-end-radius"@[3] == 'd' && "border-start-end-radius"@[4] == 'e' && "border-start-end-radius"@[5] == 'r' && "border-start-end-radius"@[6] == '-' && "border-start-end-radius"@[7] == 's' && "border-start-end-radius"@[8] == 't' && "border-start-end-radius"@[9] == 'a' && "border-start-end-radius"@[10] == 'r' && "border-start-end-radius"@[11] == 't' && "border-start-end-radius"@[12] == '-' && "border-start-end-radius"@[13] == 'e' && "border-start-end-radius"@[14] == 'n' && "border-start-end-radius"@[15] == 'd' && "border-start-end-radius"@[16] == '-' && "border-start-end-radius"@[17] == 'r' && "border-start-end-radius"@[18] == 'a' && "border-start-end-radius"@[19] == 'd' && "border-start-end-radius"@[20] == 'i' && "border-start-end-radius"@[21] == 'u' && "border-start-end-radius"@[22] == 's');
    assert("border-end-start-radius"@.len() == 23 && "border-end-start-radius"@[0] == 'b' && "border-end-start-radius"@[1] == 'o' && "border-end-start-radius"@[2] == 'r' && "border-end-start-radius"@[3] == 'd' && "border-end-start-radius"@[4] == 'e' && "border-end-start-radius"@[5] == 'r' && "border-end-start-radius"@[6] == '-' && "border-end-start-radius"@[7] == 'e' && "border-end-start-radius"@[8] == 'n' && "border-end-start-radius"@[9] == 'd' && "border-end-start-radius"@[10] == '-' && "border-end-start-radius"@[11] == 's' && "border-end-start-radius"@[12] == 't' && "border-end-start-radius"@[13] == 'a' && "border-end-start-radius"@[14] == 'r' && "border-end-start-radius"@[15] == 't' && "border-end-start-radius"@[16] == '-' && "border-end-start-radius"@[17] == 'r' && "border-end-start-radius"@[18] == 'a' && "border-end-start-radius"@[19] == 'd' && "border-end-start-radius"@[20] == 'i' && "border-end-start-radius"@[21] == 'u' && "border-end-start-radius"@[22] == 's');
    assert("border-end-end-radius"@.len() == 21 && "border-end-end-radius"@[0] == 'b' && "border-end-end-radius"@[1] == 'o' && "border-end-end-radius"@[2] == 'r' && "border-end-end-radius"@[3] == 'd' && "border-end-end-radius"@[4] == 'e' && "border-end-end-radius"@[5] == 'r' && "border-end-end-radius"@[6] == '-' && "border-end-end-radius"@[7] == 'e' && "border-end-end-radius"@[8] == 'n' && "border-end-end-radius"@[9] == 'd' && "border-end-end-radius"@[10] == '-' && "border-end-end-radius"@[11] == 'e' && "border-end-end-radius"@[12] == 'n' && "border-end-end-radius"@[13] == 'd' && "border-end-end-radius"@[14] == '-' && "border-end-end-radius"@[15] == 'r' && "border-end-end-radius"@[16] == 'a' && "border-end-end-radius"@[17] == 'd' && "border-end-end-radius"@[18] == 'i' && "border-end-end-radius"@[19] == 'u' && "border-end-end-radius"@[20] == 's');
    assert("border-top-left-radius"@.len() == 22 && "border-top-left-radius"@[0] == 'b' && "border-top-left-radius"@[1] == 'o' && "border-top-left-radius"@[2] == 'r' && "border-top-left-radius"@[3] == 'd' && "border-top-left-radius"@[4] == 'e' && "border-top-left-radius"@[5] == 'r' && "border-top-left-radius"@[6] == '-' && "border-top-left-radius"@[7] == 't' && "border-top-left-radius"@[8] == 'o' && "border-top-left-radius"@[9] == 'p' && "border-top-left-radius"@[10] == '-' && "border-top-left-radius"@[11] == 'l' && "border-top-left-radius"@[12] == 'e' && "border-top-left-radius"@[13] == 'f' && "border-top-left-radius"@[14] == 't' && "border-top-left-radius"@[15] == '-' && "border-top-left-radius"@[16] == 'r' && "border-top-left-radius"@[17] == 'a' && "border-top-left-radius"@[18] == 'd' && "border-top-left-radius"@[19] == 'i' && "border-top-left-radius"@[20] == 'u' && "border-top-left-radius"@[21] == 's');
    assert("border-top-right-radius"@.len() == 23 && "border-top-right-radius"@[0] == 'b' && "border-top-right-radius"@[1] == 'o' && "border-top-right-radius"@[2] == 'r' && "border-top-right-radius"@[3] == 'd' && "border-top-right-radius"@[4] == 'e' && "border-top-right-radius"@[5] == 'r' && "border-top-right-radius"@[6] == '-' && "border-top-right-radius"@[7] == 't' && "border-top-right-radius"@[8] == 'o' && "border-top-right-radius"@[9] == 'p' && "border-top-right-radius"@[10] == '-' && "border-top-right-radius"@[11] == 'r' && "border-top-right-radius"@[12] == 'i' && "border-top-right-radius"@[13] == 'g' && "border-top-right-radius"@[14] == 'h' && "border-top-right-radius"@[15] == 't' && "border-top-right-radius"@[16] == '-' && "border-top-right-radius"@[17] == 'r' && "border-top-right-radius"@[18] == 'a' && "border-top-right-radius"@[19] == 'd' && "border-top-right-radius"@[20] == 'i' && "border-top-right-radius"@[21] == 'u' && "border-top-right-radius"@[22] == 's');
    assert("border-bottom-right-radius"@.len() == 26 && "border-bottom-right-radius"@[0] == 'b' && "border-bottom-right-radius"@[1] == 'o' && "border-bottom-right-radius"@[2] == 'r' && "border-bottom-right-radius"@[3] == 'd' && "border-bottom-right-radius"@[4] == 'e' && "border-bottom-right-radius"@[5] == 'r' && "border-bottom-right-radius"@[6] == '-' && "border-bottom-right-radius"@[7] == 'b' && "border-bottom-right-radius"@[8] == 'o' && "border-bottom-right-radius"@[9] == 't' && "border-bottom-right-radius"@[10] == 't' && "border-bottom-right-radius"@[11] == 'o' && "border-bottom-right-radius"@[12] == 'm' && "border-bottom-right-radius"@[13] == '-' && "border-bottom-right-radius"@[14] == 'r' && "border-bottom-right-radius"@[15] == 'i' && "border-bottom-right-radius"@[16] == 'g' && "border-bottom-right-radius"@[17] == 'h' && "border-bottom-right-radius"@[18] == 't' && "border-bottom-right-radius"@[19] == '-' && "border-bottom-right-radius"@[20] == 'r' && "border-bottom-right-radius"@[21] == 'a' && "border-bottom-right-radius"@[22] == 'd' && "border-bottom-right-radius"@[23] == 'i' && "border-bottom-right-radius"@[24] == 'u' && "border-bottom-right-radius"@[25] == 's');
    assert("border-bottom-left-radius"@.len() == 25 && "border-bottom-left-radius"@[0] == 'b' && "border-bottom-left-radius"@[1] == 'o' && "border-bottom-left-radius"@[2] == 'r' && "border-bottom-left-radius"@[3] == 'd' && "border-bottom-left-radius"@[4] == 'e' && "border-bottom-left-radius"@[5] == 'r' && "border-bottom-left-radius"@[6] == '-' && "border-bottom-left-radius"@[7] == 'b' && "border-bottom-left-radius"@[8] == 'o' && "border-bottom-left-radius"@[9] == 't' && "border-bottom-left-radius"@[10] == 't' && "border-bottom-left-radius"@[11] == 'o' && "border-bottom-left-radius"@[12] == 'm' && "border-bottom-left-radius"@[13] == '-' && "border-bottom-left-radius"@[14] == 'l' && "border-bottom-left-radius"@[15] == 'e' && "border-bottom-left-radius"@[16] == 'f' && "border-bottom-left-radius"@[17] == 't' && "border-bottom-left-radius"@[18] == '-' && "border-bottom-left-radius"@[19] == 'r' && "border-bottom-left-radius"@[20] == 'a' && "border-bottom-left-radius"@[21] == 'd' && "border-bottom-left-radius"@[22] == 'i' && "border-bottom-left-radius"@[23] == 'u' && "border-bottom-left-radius"@[24] == 's');
}

/// Block 1 of the property table on some of the shorthands and longhands.
#[verifier::rlimit(100)]
proof fn lemma_shorthands_table_1_0()
    ensures
        prop_table_1("overflow"@) == prop_table_2("overflow"@),
        prop_table_1("overflow-x"@) == prop_table_2("overflow-x"@),
        prop_table_1("overflow-y"@) == prop_table_2("overflow-y"@),
        prop_table_1("overscroll-behavior"@) == prop_table_2("overscroll-behavior"@),
        prop_table_1("overscroll-behavior-x"@) == prop_table_2("overscroll-behavior-x"@),
        prop_table_1("overscroll-behavior-y"@) == prop_table_2("overscroll-behavior-y"@),
        prop_table_1("gap"@) == prop_table_2("gap"@),
        prop_table_1("column-gap"@) == prop_table_2("column-gap"@),
        prop_table_1("row-gap"@) == prop_table_2("row-gap"@),
        prop_table_1("flex"@) == prop_table_2("flex"@),
        prop_table_1("flex-basis"@) == prop_table_2("flex-basis"@),
        prop_table_1("flex-grow"@) == prop_table_2("flex-grow"@),
{
    reveal_strlit("mask-size");
    reveal_strlit("mask-type");
    reveal_strlit("mask-composite");
    reveal_strlit("width");
    reveal_strlit("height");
    reveal_strlit("min-width");
    reveal_strlit("min-height");
    reveal_strlit("max-width");
    reveal_strlit("max-height");
    reveal_strlit("inline-size");
    reveal_strlit("block-size");
    reveal_strlit("min-inline-size");
    reveal_strlit("max-inline-size");
    reveal_strlit("min-block-size");
    reveal_strlit("max-block-size");
    reveal_strlit("margin");
    reveal_strlit("margin-inline");
    reveal_strlit("margin-block");
    reveal_strlit("margin-inline-start");
    reveal_strlit("margin-inline-end");
    reveal_strlit("margin-block-start");
    reveal_strlit("margin-block-end");
    reveal_strlit("margin-top");
    reveal_strlit("margin-right");
    reveal_strlit("margin-bottom");
    reveal_strlit("margin-left");
    reveal_strlit("padding");
    reveal_strlit("padding-inline");
    reveal_strlit("padding-block");
    reveal_strlit("padding-inline-start");
    reveal_strlit("padding-inline-end");
    reveal_strlit("padding-block-start");
    reveal_strlit("padding-block-end");
    reveal_strlit("padding-top");
    reveal_strlit("padding-right");
    reveal_strlit("padding-bottom");
    reveal_strlit("padding-left");
    reveal_strlit("inset");
    reveal_strlit("inset-inline");
    reveal_strlit("inset-block");
    reveal_strlit("overflow");
    reveal_strlit("overflow-x");
    reveal_strlit("overflow-y");
    reveal_strlit("overscroll-behavior");
    reveal_strlit("overscroll-behavior-x");
    reveal_strlit("overscroll-behavior-y");
    reveal_strlit("gap");
    reveal_strlit("column-gap");
    reveal_strlit("row-gap");
    reveal_strlit("flex");
    reveal_strlit("flex-basis");
    reveal_strlit("flex-grow");
    assert("overflow"@.len() == 8 && "overflow"@[0] == 'o' && "overflow"@[1] == 'v' && "overflow"@[2] == 'e' && "overflow"@[3] == 'r' && "overflow"@[4] == 'f' && "overflow"@[5] == 'l' && "overflow"@[6] == 'o' && "overflow"@[7] == 'w');
    assert("overflow-x"@.len() == 10 && "overflow-x"@[0] == 'o' && "overflow-x"@[1] == 'v' && "overflow-x"@[2] == 'e' && "overflow-x"@[3] == 'r' && "overflow-x"@[4] == 'f' && "overflow-x"@[5] == 'l' && "overflow-x"@[6] == 'o' && "overflow-x"@[7] == 'w' && "overflow-x"@[8] == '-' && "overflow-x"@[9] == 'x');
    assert("overflow-y"@.len() == 10 && "overflow-y"@[0] == 'o' && "overflow-y"@[1] == 'v' && "overflow-y"@[2] == 'e' && "overflow-y"@[3] == 'r' && "overflow-y"@[4] == 'f' && "overflow-y"@[5] == 'l' && "overflow-y"@[6] == 'o' && "overflow-y"@[7] == 'w' && "overflow-y"@[8] == '-' && "overflow-y"@[9] == 'y');
    assert("overscroll-behavior"@.len() == 19 && "overscroll-behavior"@[0] == 'o' && "overscroll-behavior"@[1] == 'v' && "overscroll-behavior"@[2] == 'e' && "overscroll-behavior"@[3] == 'r' && "overscroll-behavior"@[4] == 's' && "overscroll-behavior"@[5] == 'c' && "overscroll-behavior"@[6] == 'r' && "overscroll-behavior"@[7] == 'o' && "overscroll-behavior"@[8] == 'l' && "overscroll-behavior"@[9] == 'l' && "overscroll-behavior"@[10] == '-' && "overscroll-behavior"@[11] == 'b' && "overscroll-behavior"@[12] == 'e' && "overscroll-behavior"@[13] == 'h' && "overscroll-behavior"@[14] == 'a' && "overscroll-behavior"@[15] == 'v' && "overscroll-behavior"@[16] == 'i' && "overscroll-behavior"@[17] == 'o' && "overscroll-behavior"@[18] == 'r');
    assert("overscroll-behavior-x"@.len() == 21 && "overscroll-behavior-x"@[0] == 'o' && "overscroll-behavior-x"@[1] == 'v' && "overscroll-behavior-x"@[2] == 'e' && "overscroll-behavior-x"@[3] == 'r' && "overscroll-behavior-x"@[4] == 's' && "overscroll-behavior-x"@[5] == 'c' && "overscroll-behavior-x"@[6] == 'r' && "overscroll-behavior-x"@[7] == 'o' && "overscroll-behavior-x"@[8] == 'l' && "overscroll-behavior-x"@[9] == 'l' && "overscroll-behavior-x"@[10] == '-' && "overscroll-behavior-x"@[11] == 'b' && "overscroll-behavior-x"@[12] == 'e' && "overscroll-behavior-x"@[13] == 'h' && "overscroll-behavior-x"@[14] == 'a' && "overscroll-behavior-x"@[15] == 'v' && "overscroll-behavior-x"@[16] == 'i' && "overscroll-behavior-x"@[17] == 'o' && "overscroll-behavior-x"@[18] == 'r' && "overscroll-behavior-x"@[19] == '-' && "overscroll-behavior-x"@[20] == 'x');
    assert("overscroll-behavior-y"@.len() == 21 && "overscroll-behavior-y"@[0] == 'o' && "overscroll-behavior-y"@[1] == 'v' && "overscroll-behavior-y"@[2] == 'e' && "overscroll-behavior-y"@[3] == 'r' && "overscroll-behavior-y"@[4] == 's' && "overscroll-behavior-y"@[5] == 'c' && "overscroll-behavior-y"@[6] == 'r' && "overscroll-behavior-y"@[7] == 'o' && "overscroll-behavior-y"@[8] == 'l' && "overscroll-behavior-y"@[9] == 'l' && "overscroll-behavior-y"@[10] == '-' && "overscroll-behavior-y"@[11] == 'b' && "overscroll-behavior-y"@[12] == 'e' && "overscroll-behavior-y"@[13] == 'h' && "overscroll-behavior-y"@[14] == 'a' && "overscroll-behavior-y"@[15] == 'v' && "overscroll-behavior-y"@[16] == 'i' && "overscroll-behavior-y"@[17] == 'o' && "overscroll-behavior-y"@[18] == 'r' && "overscroll-behavior-y"@[19] == '-' && "overscroll-behavior-y"@[20] == 'y');
    assert("gap"@.len() == 3 && "gap"@[0] == 'g' && "gap"@[1] == 'a' && "gap"@[2] == 'p');
    assert("column-gap"@.len() == 10 && "column-gap"@[0] == 'c' && "column-gap"@[1] == 'o' && "column-gap"@[2] == 'l' && "column-gap"@[3] == 'u' && "column-gap"@[4] == 'm' && "column-gap"@[5] == 'n' && "column-gap"@[6] == '-' && "column-gap"@[7] == 'g' && "column-gap"@[8] == 'a' && "column-gap"@[9] == 'p');
    assert("row-gap"@.len() == 7 && "row-gap"@[0] == 'r' && "row-gap"@[1] == 'o' && "row-gap"@[2] == 'w' && "row-gap"@[3] == '-' && "row-gap"@[4] == 'g' && "row-gap"@[5] == 'a' && "row-gap"@[6] == 'p');
    assert("flex"@.len() == 4 && "flex"@[0] == 'f' && "flex"@[1] == 'l' && "flex"@[2] == 'e' && "flex"@[3] == 'x');
    assert("flex-basis"@.len() == 10 && "flex-basis"@[0] == 'f' && "flex-basis"@[1] == 'l' && "flex-basis"@[2] == 'e' && "flex-basis"@[3] == 'x' && "flex-basis"@[4] == '-' && "flex-basis"@[5] == 'b' && "flex-basis"@[6] == 'a' && "flex-basis"@[7] == 's' && "flex-basis"@[8] == 'i' && "flex-basis"@[9] == 's');
    assert("flex-grow"@.len() == 9 && "flex-grow"@[0] == 'f' && "flex-grow"@[1] == 'l' && "flex-grow"@[2] == 'e' && "flex-grow"@[3] == 'x' && "flex-grow"@[4] == '-' && "flex-grow"@[5] == 'g' && "flex-grow"@[6] == 'r' && "flex-grow"@[7] == 'o' && "flex-grow"@[8] == 'w');
}

/// Block 1 of the property table on some of the shorthands and longhands.
#[verifier::rlimit(100)]
proof fn lemma_shorthands_table_1_1()
    ensures
        prop_table_1("flex-shrink"@) == prop_table_2("flex-shrink"@),
        prop_table_1("inset"@) == Some("inset"@),
        prop_table_1("inset-inline"@) == Some("inset-x"@),
        prop_table_1("inset-block"@) == Some("inset-y"@),
        prop_table_1("inset-inline-start"@) == prop_table_2("inset-inline-start"@),
        prop_table_1("inset-inline-end"@) == prop_table_2("inset-inline-end"@),
        prop_table_1("inset-block-start"@) == prop_table_2("inset-block-start"@),
        prop_table_1("inset-block-end"@) == prop_table_2("inset-block-end"@),
        prop_table_1("top"@) == prop_table_2("top"@),
        prop_table_1("right"@) == prop_table_2("right"@),
        prop_table_1("bottom"@) == prop_table_2("bottom"@),
        prop_table_1("left"@) == prop_table_2("left"@),
{
    reveal_strlit("mask-size");
    reveal_strlit("mask-type");
    reveal_strlit("mask-composite");
    reveal_strlit("width");
    reveal_strlit("height");
    reveal_strlit("min-width");
    reveal_strlit("min-height");
    reveal_strlit("max-width");
    reveal_strlit("max-height");
    reveal_strlit("inline-size");
    reveal_strlit("block-size");
    reveal_strlit("min-inline-size");
    reveal_strlit("max-inline-size");
    reveal_strlit("min-block-size");
    reveal_strlit("max-block-size");
    reveal_strlit("margin");
    reveal_strlit("margin-inline");
    reveal_strlit("margin-block");
    reveal_strlit("margin-inline-start");
    reveal_strlit("margin-inline-end");
    reveal_strlit("margin-block-start");
    reveal_strlit("margin-block-end");
    reveal_strlit("margin-top");
    reveal_strlit("margin-right");
    reveal_strlit("margin-bottom");
    reveal_strlit("margin-left");
    reveal_strlit("padding");
    reveal_strlit("padding-inline");
    reveal_strlit("padding-block");
    reveal_strlit("padding-inline-start");
    reveal_strlit("padding-inline-end");
    reveal_strlit("padding-block-start");
    reveal_strlit("padding-block-end");
    reveal_strlit("padding-top");
    reveal_strlit("padding-right");
    reveal_strlit("padding-bottom");
    reveal_strlit("padding-left");
    reveal_strlit("inset");
    reveal_strlit("inset-inline");
    reveal_strlit("inset-block");
    reveal_strlit("flex-shrink");
    reveal_strlit("inset-inline-start");
    reveal_strlit("inset-inline-end");
    reveal_strlit("inset-block-start");
    reveal_strlit("inset-block-end");
    reveal_strlit("top");
    reveal_strlit("right");
    reveal_strlit("bottom");
    reveal_strlit("left");
    assert("flex-shrink"@.len() == 11 && "flex-shrink"@[0] == 'f' && "flex-shrink"@[1] == 'l' && "flex-shrink"@[2] == 'e' && "flex-shrink"@[3] == 'x' && "flex-shrink"@[4] == '-' && "flex-shrink"@[5] == 's' && "flex-shrink"@[6] == 'h' && "flex-shrink"@[7] == 'r' && "flex-shrink"@[8] == 'i' && "flex-shrink"@[9] == 'n' && "flex-shrink"@[10] == 'k');
    assert("inset"@.len() == 5 && "inset"@[0] == 'i' && "inset"@[1] == 'n' && "inset"@[2] == 's' && "inset"@[3] == 'e' && "inset"@[4] == 't');
    assert("inset-inline"@.len() == 12 && "inset-inline"@[0] == 'i' && "inset-inline"@[1] == 'n' && "inset-inline"@[2] == 's' && "inset-inline"@[3] == 'e' && "inset-inline"@[4] == 't' && "inset-inline"@[5] == '-' && "inset-inline"@[6] == 'i' && "inset-inline"@[7] == 'n' && "inset-inline"@[8] == 'l' && "inset-inline"@[9] == 'i' && "inset-inline"@[10] == 'n' && "inset-inline"@[11] == 'e');
    assert("inset-block"@.len() == 11 && "inset-block"@[0] == 'i' && "inset-block"@[1] == 'n' && "inset-block"@[2] == 's' && "inset-block"@[3] == 'e' && "inset-block"@[4] == 't' && "inset-block"@[5] == '-' && "inset-block"@[6] == 'b' && "inset-block"@[7] == 'l' && "inset-block"@[8] == 'o' && "inset-block"@[9] == 'c' && "inset-block"@[10] == 'k');
    assert("inset-inline-start"@.len() == 18 && "inset-inline-start"@[0] == 'i' && "inset-inline-start"@[1] == 'n' && "inset-inline-start"@[2] == 's' && "inset-inline-start"@[3] == 'e' && "inset-inline-start"@[4] == 't' && "inset-inline-start"@[5] == '-' && "inset-inline-start"@[6] == 'i' && "inset-inline-start"@[7] == 'n' && "inset-inline-start"@[8] == 'l' && "inset-inline-start"@[9] == 'i' && "inset-inline-start"@[10] == 'n' && "inset-inline-start"@[11] == 'e' && "inset-inline-start"@[12] == '-' && "inset-inline-start"@[13] == 's' && "inset-inline-start"@[14] == 't' && "inset-inline-start"@[15] == 'a' && "inset-inline-start"@[16] == 'r' && "inset-inline-start"@[17] == 't');
    assert("inset-inline-end"@.len() == 16 && "inset-inline-end"@[0] == 'i' && "inset-inline-end"@[1] == 'n' && "inset-inline-end"@[2] == 's' && "inset-inline-end"@[3] == 'e' && "inset-inline-end"@[4] == 't' && "inset-inline-end"@[5] == '-' && "inset-inline-end"@[6] == 'i' && "inset-inline-end"@[7] == 'n' && "inset-inline-end"@[8] == 'l' && "inset-inline-end"@[9] == 'i' && "inset-inline-end"@[10] == 'n' && "inset-inline-end"@[11] == 'e' && "inset-inline-end"@[12] == '-' && "inset-inline-end"@[13] == 'e' && "inset-inline-end"@[14] == 'n' && "inset-inline-end"@[15] == 'd');
    assert("inset-block-start"@.len() == 17 && "inset-block-start"@[0] == 'i' && "inset-block-start"@[1] == 'n' && "inset-block-start"@[2] == 's' && "inset-block-start"@[3] == 'e' && "inset-block-start"@[4] == 't' && "inset-block-start"@[5] == '-' && "inset-block-start"@[6] == 'b' && "inset-block-start"@[7] == 'l' && "inset-block-start"@[8] == 'o' && "inset-block-start"@[9] == 'c' && "inset-block-start"@[10] == 'k' && "inset-block-start"@[11] == '-' && "inset-block-start"@[12] == 's' && "inset-block-start"@[13] == 't' && "inset-block-start"@[14] == 'a' && "inset-block-start"@[15] == 'r' && "inset-block-start"@[16] == 't');
    assert("inset-block-end"@.len() == 15 && "inset-block-end"@[0] == 'i' && "inset-block-end"@[1] == 'n' && "inset-block-end"@[2] == 's' && "inset-block-end"@[3] == 'e' && "inset-block-end"@[4] == 't' && "inset-block-end"@[5] == '-' && "inset-block-end"@[6] == 'b' && "inset-block-end"@[7] == 'l' && "inset-block-end"@[8] == 'o' && "inset-block-end"@[9] == 'c' && "inset-block-end"@[10] == 'k' && "inset-block-end"@[11] == '-' && "inset-block-end"@[12] == 'e' && "inset-block-end"@[13] == 'n' && "inset-block-end"@[14] == 'd');
    assert("top"@.len() == 3 && "top"@[0] == 't' && "top"@[1] == 'o' && "top"@[2] == 'p');
    assert("right"@.len() == 5 && "right"@[0] == 'r' && "right"@[1] == 'i' && "right"@[2] == 'g' && "right"@[3] == 'h' && "right"@[4] == 't');
    assert("bottom"@.len() == 6 && "bottom"@[0] == 'b' && "bottom"@[1] == 'o' && "bottom"@[2] == 't' && "bottom"@[3] == 't' && "bottom"@[4] == 'o' && "bottom"@[5] == 'm');
    assert("left"@.len() == 4 && "left"@[0] == 'l' && "left"@[1] == 'e' && "left"@[2] == 'f' && "left"@[3] == 't');
}

/// Block 1 of the property table on some of the shorthands and longhands.
#[verifier::rlimit(100)]
proof fn lemma_shorthands_table_1_2()
    ensures
        prop_table_1("border-radius"@) == prop_table_2("border-radius"@),
        prop_table_1("border-start-start-radius"@) == prop_table_2("border-start-start-radius"@),
        prop_table_1("border-start-end-radius"@) == prop_table_2("border-start-end-radius"@),
        prop_table_1("border-end-start-radius"@) == prop_table_2("border-end-start-radius"@),
        prop_table_1("border-end-end-radius"@) == prop_table_2("border-end-end-radius"@),
        prop_table_1("border-top-left-radius"@) == prop_table_2("border-top-left-radius"@),
        prop_table_1("border-top-right-radius"@) == prop_table_2("border-top-right-radius"@),
        prop_table_1("border-bottom-right-radius"@) == prop_table_2("border-bottom-right-radius"@),
        prop_table_1("border-bottom-left-radius"@) == prop_table_2("border-bottom-left-radius"@),
{
    reveal_strlit("mask-size");
    reveal_strlit("mask-type");
    reveal_strlit("mask-composite");
    reveal_strlit("width");
    reveal_strlit("height");
    reveal_strlit("min-width");
    reveal_strlit("min-height");
    reveal_strlit("max-width");
    reveal_strlit("max-height");
    reveal_strlit("inline-size");
    reveal_strlit("block-size");
    reveal_strlit("min-inline-size");
    reveal_strlit("max-inline-size");
    reveal_strlit("min-block-size");
    reveal_strlit("max-block-size");
    reveal_strlit("margin");
    reveal_strlit("margin-inline");
    reveal_strlit("margin-block");
    reveal_strlit("margin-inline-start");
    reveal_strlit("margin-inline-end");
    reveal_strlit("margin-block-start");
    reveal_strlit("margin-block-end");
    reveal_strlit("margin-top");
    reveal_strlit("margin-right");
    reveal_strlit("margin-bottom");
    reveal_strlit("margin-left");
    reveal_strlit("padding");
    reveal_strlit("padding-inline");
    reveal_strlit("padding-block");
    reveal_strlit("padding-inline-start");
    reveal_strlit("padding-inline-end");
    reveal_strlit("padding-block-start");
    reveal_strlit("padding-block-end");
    reveal_strlit("padding-top");
    reveal_strlit("padding-right");
    reveal_strlit("padding-bottom");
    reveal_strlit("padding-left");
    reveal_strlit("inset");
    reveal_strlit("inset-inline");
    reveal_strlit("inset-block");
    reveal_strlit("border-radius");
    reveal_strlit("border-start-start-radius");
    reveal_strlit("border-start-end-radius");
    reveal_strlit("border-end-start-radius");
    reveal_strlit("border-end-end-radius");
    reveal_strlit("border-top-left-radius");
    reveal_strlit("border-top-right-radius");
    reveal_strlit("border-bottom-right-radius");
    reveal_strlit("border-bottom-left-radius");
    assert("border-radius"@.len() == 13 && "border-radius"@[0] == 'b' && "border-radius"@[1] == 'o' && "border-radius"@[2] == 'r' && "border-radius"@[3] == 'd' && "border-radius"@[4] == 'e' && "border-radius"@[5] == 'r' && "border-radius"@[6] == '-' && "border-radius"@[7] == 'r' && "border-radius"@[8] == 'a' && "border-radius"@[9] == 'd' && "border-radius"@[10] == 'i' && "border-radius"@[11] == 'u' && "border-radius"@[12] == 's');
    assert("border-start-start-radius"@.len() == 25 && "border-start-start-radius"@[0] == 'b' && "border-start-start-radius"@[1] == 'o' && "border-start-start-radius"@[2] == 'r' && "border-start-start-radius"@[3] == 'd' && "border-start-start-radius"@[4] == 'e' && "border-start-start-radius"@[5] == 'r' && "border-start-start-radius"@[6] == '-' && "border-start-start-radius"@[7] == 's' && "border-start-start-radius"@[8] == 't' && "border-start-start-radius"@[9] == 'a' && "border-start-start-radius"@[10] == 'r' && "border-start-start-radius"@[11] == 't' && "border-start-start-radius"@[12] == '-' && "border-start-start-radius"@[13] == 's' && "border-start-start-radius"@[14] == 't' && "border-start-start-radius"@[15] == 'a' && "border-start-start-radius"@[16] == 'r' && "border-start-start-radius"@[17] == 't' && "border-start-start-radius"@[18] == '-' && "border-start-start-radius"@[19] == 'r' && "border-start-start-radius"@[20] == 'a' && "border-start-start-radius"@[21] == 'd' && "border-start-start-radius"@[22] == 'i' && "border-start-start-radius"@[23] == 'u' && "border-start-start-radius"@[24] == 's');
    assert("border-start-end-radius"@.len() == 23 && "border-start-end-radius"@[0] == 'b' && "border-start-end-radius"@[1] == 'o' && "border-start-end-radius"@[2] == 'r' && "border-start-end-radius"@[3] == 'd' && "border-start-end-radius"@[4] == 'e' && "border-start-end-radius"@[5] == 'r' && "border-start-end-radius"@[6] == '-' && "border-start-end-radius"@[7] == 's' && "border-start-end-radius"@[8] == 't' && "border-start-end-radius"@[9] == 'a' && "border-start-end-radius"@[10] == 'r' && "border-start-end-radius"@[11] == 't' && "border-start-end-radius"@[12] == '-' && "border-start-end-radius"@[13] == 'e' && "border-start-end-radius"@[14] == 'n' && "border-start-end-radius"@[15] == 'd' && "border-start-end-radius"@[16] == '-' && "border-start-end-radius"@[17] == 'r' && "border-start-end-radius"@[18] == 'a' && "border-start-end-radius"@[19] == 'd' && "border-start-end-radius"@[20] == 'i' && "border-start-end-radius"@[21] == 'u' && "border-start-end-radius"@[22] == 's');
    assert("border-end-start-radius"@.len() == 23 && "border-end-start-radius"@[0] == 'b' && "border-end-start-radius"@[1] == 'o' && "border-end-start-radius"@[2] == 'r' && "border-end-start-radius"@[3] == 'd' && "border-end-start-radius"@[4] == 'e' && "border-end-start-radius"@[5] == 'r' && "border-end-start-radius"@[6] == '-' && "border-end-start-radius"@[7] == 'e' && "border-end-start-radius"@[8] == 'n' && "border-end-start-radius"@[9] == 'd' && "border-end-start-radius"@[10] == '-' && "border-end-start-radius"@[11] == 's' && "border-end-start-radius"@[12] == 't' && "border-end-start-radius"@[13] == 'a' && "border-end-start-radius"@[14] == 'r' && "border-end-start-radius"@[15] == 't' && "border-end-start-radius"@[16] == '-' && "border-end-start-radius"@[17] == 'r' && "border-end-start-radius"@[18] == 'a' && "border-end-start-radius"@[19] == 'd' && "border-end-start-radius"@[20] == 'i' && "border-end-start-radius"@[21] == 'u' && "border-end-start-radius"@[22] == 's');
    assert("border-end-end-radius"@.len() == 21 && "border-end-end-radius"@[0] == 'b' && "border-end-end-radius"@[1] == 'o' && "border-end-end-radius"@[2] == 'r' && "border-end-end-radius"@[3] == 'd' && "border-end-end-radius"@[4] == 'e' && "border-end-end-radius"@[5] == 'r' && "border-end-end-radius"@[6] == '-' && "border-end-end-radius"@[7] == 'e' && "border-end-end-radius"@[8] == 'n' && "border-end-end-radius"@[9] == 'd' && "border-end-end-radius"@[10] == '-' && "border-end-end-radius"@[11] == 'e' && "border-end-end-radius"@[12] == 'n' && "border-end-end-radius"@[13] == 'd' && "border-end-end-radius"@[14] == '-' && "border-end-end-radius"@[15] == 'r' && "border-end-end-radius"@[16] == 'a' && "border-end-end-radius"@[17] == 'd' && "border-end-end-radius"@[18] == 'i' && "border-end-end-radius"@[19] == 'u' && "border-end-end-radius"@[20] == 's');
    assert("border-top-left-radius"@.len() == 22 && "border-top-left-radius"@[0] == 'b' && "border-top-left-radius"@[1] == 'o' && "border-top-left-radius"@[2] == 'r' && "border-top-left-radius"@[3] == 'd' && "border-top-left-radius"@[4] == 'e' && "border-top-left-radius"@[5] == 'r' && "border-top-left-radius"@[6] == '-' && "border-top-left-radius"@[7] == 't' && "border-top-left-radius"@[8] == 'o' && "border-top-left-radius"@[9] == 'p' && "border-top-left-radius"@[10] == '-' && "border-top-left-radius"@[11] == 'l' && "border-top-left-radius"@[12] == 'e' && "border-top-left-radius"@[13] == 'f' && "border-top-left-radius"@[14] == 't' && "border-top-left-radius"@[15] == '-' && "border-top-left-radius"@[16] == 'r' && "border-top-left-radius"@[17] == 'a' && "border-top-left-radius"@[18] == 'd' && "border-top-left-radius"@[19] == 'i' && "border-top-left-radius"@[20] == 'u' && "border-top-left-radius"@[21] == 's');
    assert("border-top-right-radius"@.len() == 23 && "border-top-right-radius"@[0] == 'b' && "border-top-right-radius"@[1] == 'o' && "border-top-right-radius"@[2] == 'r' && "border-top-right-radius"@[3] == 'd' && "border-top-right-radius"@[4] == 'e' && "border-top-right-radius"@[5] == 'r' && "border-top-right-radius"@[6] == '-' && "border-top-right-radius"@[7] == 't' && "border-top-right-radius"@[8] == 'o' && "border-top-right-radius"@[9] == 'p' && "border-top-right-radius"@[10] == '-' && "border-top-right-radius"@[11] == 'r' && "border-top-right-radius"@[12] == 'i' && "border-top-right-radius"@[13] == 'g' && "border-top-right-radius"@[14] == 'h' && "border-top-right-radius"@[15] == 't' && "border-top-right-radius"@[16] == '-' && "border-top-right-radius"@[17] == 'r' && "border-top-right-radius"@[18] == 'a' && "border-top-right-radius"@[19] == 'd' && "border-top-right-radius"@[20] == 'i' && "border-top-right-radius"@[21] == 'u' && "border-top-right-radius"@[22] == 's');
    assert("border-bottom-right-radius"@.len() == 26 && "border-bottom-right-radius"@[0] == 'b' && "border-bottom-right-radius"@[1] == 'o' && "border-bottom-right-radius"@[2] == 'r' && "border-bottom-right-radius"@[3] == 'd' && "border-bottom-right-radius"@[4] == 'e' && "border-bottom-right-radius"@[5] == 'r' && "border-bottom-right-radius"@[6] == '-' && "border-bottom-right-radius"@[7] == 'b' && "border-bottom-right-radius"@[8] == 'o' && "border-bottom-right-radius"@[9] == 't' && "border-bottom-right-radius"@[10] == 't' && "border-bottom-right-radius"@[11] == 'o' && "border-bottom-right-radius"@[12] == 'm' && "border-bottom-right-radius"@[13] == '-' && "border-bottom-right-radius"@[14] == 'r' && "border-bottom-right-radius"@[15] == 'i' && "border-bottom-right-radius"@[16] == 'g' && "border-bottom-right-radius"@[17] == 'h' && "border-bottom-right-radius"@[18] == 't' && "border-bottom-right-radius"@[19] == '-' && "border-bottom-right-radius"@[20] == 'r' && "border-bottom-right-radius"@[21] == 'a' && "border-bottom-right-radius"@[22] == 'd' && "border-bottom-right-radius"@[23] == 'i' && "border-bottom-right-radius"@[24] == 'u' && "border-bottom-right-radius"@[25] == 's');
    assert("border-bottom-left-radius"@.len() == 25 && "border-bottom-left-radius"@[0] == 'b' && "border-bottom-left-radius"@[1] == 'o' && "border-bottom-left-radius"@[2] == 'r' && "border-bottom-left-radius"@[3] == 'd' && "border-bottom-left-radius"@[4] == 'e' && "border-bottom-left-radius"@[5] == 'r' && "border-bottom-left-radius"@[6] == '-' && "border-bottom-left-radius"@[7] == 'b' && "border-bottom-left-radius"@[8] == 'o' && "border-bottom-left-radius"@[9] == 't' && "border-bottom-left-radius"@[10] == 't' && "border-bottom-left-radius"@[11] == 'o' && "border-bottom-left-radius"@[12] == 'm' && "border-bottom-left-radius"@[13] == '-' && "border-bottom-left-radius"@[14] == 'l' && "border-bottom-left-radius"@[15] == 'e' && "border-bottom-left-radius"@[16] == 'f' && "border-bottom-left-radius"@[17] == 't' && "border-bottom-left-radius"@[18] == '-' && "border-bottom-left-radius"@[19] == 'r' && "border-bottom-left-radius"@[20] == 'a' && "border-bottom-left-radius"@[21] == 'd' && "border-bottom-left-radius"@[22] == 'i' && "border-bottom-left-radius"@[23] == 'u' && "border-bottom-left-radius"@[24] == 's');
}

/// Block 2 of the property table on some of the shorthands and longhands.
#[verifier::rlimit(100)]
proof fn lemma_shorthands_table_2_0()
    ensures
        prop_table_2("overflow"@) == prop_table_3("overflow"@),
        prop_table_2("overflow-x"@) == prop_table_3("overflow-x"@),
        prop_table_2("overflow-y"@) == prop_table_3("overflow-y"@),
        prop_table_2("overscroll-behavior"@) == prop_table_3("overscroll-behavior"@),
        prop_table_2("overscroll-behavior-x"@) == prop_table_3("overscroll-behavior-x"@),
        prop_table_2("overscroll-behavior-y"@) == prop_table_3("overscroll-behavior-y"@),
        prop_table_2("gap"@) == prop_table_3("gap"@),
        prop_table_2("column-gap"@) == prop_table_3("column-gap"@),
        prop_table_2("row-gap"@) == prop_table_3("row-gap"@),
        prop_table_2("flex"@) == prop_table_3("flex"@),
        prop_table_2("flex-basis"@) == prop_table_3("flex-basis"@),
        prop_table_2("flex-grow"@) == prop_table_3("flex-grow"@),
{
    reveal_strlit("inset-inline-start");
    reveal_strlit("inset-inline-end");
    reveal_strlit("inset-block-start");
    reveal_strlit("inset-block-end");
    reveal_strlit("top");
    reveal_strlit("right");
    reveal_strlit("bottom");
    reveal_strlit("left");
    reveal_strlit("scroll-margin");
    reveal_strlit("scroll-margin-inline");
    reveal_strlit("scroll-margin-block");
    reveal_strlit("scroll-margin-inline-start");
    reveal_strlit("scroll-margin-inline-end");
    reveal_strlit("scroll-margin-block-start");
    reveal_strlit("scroll-margin-block-end");
    reveal_strlit("scroll-margin-top");
    reveal_strlit("scroll-margin-right");
    reveal_strlit("scroll-margin-bottom");
    reveal_strlit("scroll-margin-left");
    reveal_strlit("scroll-padding");
    reveal_strlit("scroll-padding-inline");
    reveal_strlit("scroll-padding-block");
    reveal_strlit("scroll-padding-inline-start");
    reveal_strlit("scroll-padding-inline-end");
    reveal_strlit("scroll-padding-block-start");
    reveal_strlit("scroll-padding-block-end");
    reveal_strlit("scroll-padding-top");
    reveal_strlit("scroll-padding-right");
    reveal_strlit("scroll-padding-bottom");
    reveal_strlit("scroll-padding-left");
    reveal_strlit("border-width");
    reveal_strlit("border-inline-width");
    reveal_strlit("border-block-width");
    reveal_strlit("border-inline-start-width");
    reveal_strlit("border-inline-end-width");
    reveal_strlit("border-block-start-width");
    reveal_strlit("border-block-end-width");
    reveal_strlit("border-top-width");
    reveal_strlit("border-right-width");
    reveal_strlit("border-bottom-width");
    reveal_strlit("overflow");
    reveal_strlit("overflow-x");
    reveal_strlit("overflow-y");
    reveal_strlit("overscroll-behavior");
    reveal_strlit("overscroll-behavior-x");
    reveal_strlit("overscroll-behavior-y");
    reveal_strlit("gap");
    reveal_strlit("column-gap");
    reveal_strlit("row-gap");
    reveal_strlit("flex");
    reveal_strlit("flex-basis");
    reveal_strlit("flex-grow");
    assert("overflow"@.len() == 8 && "overflow"@[0] == 'o' && "overflow"@[1] == 'v' && "overflow"@[2] == 'e' && "overflow"@[3] == 'r' && "overflow"@[4] == 'f' && "overflow"@[5] == 'l' && "overflow"@[6] == 'o' && "overflow"@[7] == 'w');
    assert("overflow-x"@.len() == 10 && "overflow-x"@[0] == 'o' && "overflow-x"@[1] == 'v' && "overflow-x"@[2] == 'e' && "overflow-x"@[3] == 'r' && "overflow-x"@[4] == 'f' && "overflow-x"@[5] == 'l' && "overflow-x"@[6] == 'o' && "overflow-x"@[7] == 'w' && "overflow-x"@[8] == '-' && "overflow-x"@[9] == 'x');
    assert("overflow-y"@.len() == 10 && "overflow-y"@[0] == 'o' && "overflow-y"@[1] == 'v' && "overflow-y"@[2] == 'e' && "overflow-y"@[3] == 'r' && "overflow-y"@[4] == 'f' && "overflow-y"@[5] == 'l' && "overflow-y"@[6] == 'o' && "overflow-y"@[7] == 'w' && "overflow-y"@[8] == '-' && "overflow-y"@[9] == 'y');
    assert("overscroll-behavior"@.len() == 19 && "overscroll-behavior"@[0] == 'o' && "overscroll-behavior"@[1] == 'v' && "overscroll-behavior"@[2] == 'e' && "overscroll-behavior"@[3] == 'r' && "overscroll-behavior"@[4] == 's' && "overscroll-behavior"@[5] == 'c' && "overscroll-behavior"@[6] == 'r' && "overscroll-behavior"@[7] == 'o' && "overscroll-behavior"@[8] == 'l' && "overscroll-behavior"@[9] == 'l' && "overscroll-behavior"@[10] == '-' && "overscroll-behavior"@[11] == 'b' && "overscroll-behavior"@[12] == 'e' && "overscroll-behavior"@[13] == 'h' && "overscroll-behavior"@[14] == 'a' && "overscroll-behavior"@[15] == 'v' && "overscroll-behavior"@[16] == 'i' && "overscroll-behavior"@[17] == 'o' && "overscroll-behavior"@[18] == 'r');
    assert("overscroll-behavior-x"@.len() == 21 && "overscroll-behavior-x"@[0] == 'o' && "overscroll-behavior-x"@[1] == 'v' && "overscroll-behavior-x"@[2] == 'e' && "overscroll-behavior-x"@[3] == 'r' && "overscroll-behavior-x"@[4] == 's' && "overscroll-behavior-x"@[5] == 'c' && "overscroll-behavior-x"@[6] == 'r' && "overscroll-behavior-x"@[7] == 'o' && "overscroll-behavior-x"@[8] == 'l' && "overscroll-behavior-x"@[9] == 'l' && "overscroll-behavior-x"@[10] == '-' && "overscroll-behavior-x"@[11] == 'b' && "overscroll-behavior-x"@[12] == 'e' && "overscroll-behavior-x"@[13] == 'h' && "overscroll-behavior-x"@[14] == 'a' && "overscroll-behavior-x"@[15] == 'v' && "overscroll-behavior-x"@[16] == 'i' && "overscroll-behavior-x"@[17] == 'o' && "overscroll-behavior-x"@[18] == 'r' && "overscroll-behavior-x"@[19] == '-' && "overscroll-behavior-x"@[20] == 'x');
    assert("overscroll-behavior-y"@.len() == 21 && "overscroll-behavior-y"@[0] == 'o' && "overscroll-behavior-y"@[1] == 'v' && "overscroll-behavior-y"@[2] == 'e' && "overscroll-behavior-y"@[3] == 'r' && "overscroll-behavior-y"@[4] == 's' && "overscroll-behavior-y"@[5] == 'c' && "overscroll-behavior-y"@[6] == 'r' && "overscroll-behavior-y"@[7] == 'o' && "overscroll-behavior-y"@[8] == 'l' && "overscroll-behavior-y"@[9] == 'l' && "overscroll-behavior-y"@[10] == '-' && "overscroll-behavior-y"@[11] == 'b' && "overscroll-behavior-y"@[12] == 'e' && "overscroll-behavior-y"@[13] == 'h' && "overscroll-behavior-y"@[14] == 'a' && "overscroll-behavior-y"@[15] == 'v' && "overscroll-behavior-y"@[16] == 'i' && "overscroll-behavior-y"@[17] == 'o' && "overscroll-behavior-y"@[18] == 'r' && "overscroll-behavior-y"@[19] == '-' && "overscroll-behavior-y"@[20] == 'y');
    assert("gap"@.len() == 3 && "gap"@[0] == 'g' && "gap"@[1] == 'a' && "gap"@[2] == 'p');
    assert("column-gap"@.len() == 10 && "column-gap"@[0] == 'c' && "column-gap"@[1] == 'o' && "column-gap"@[2] == 'l' && "column-gap"@[3] == 'u' && "column-gap"@[4] == 'm' && "column-gap"@[5] == 'n' && "column-gap"@[6] == '-' && "column-gap"@[7] == 'g' && "column-gap"@[8] == 'a' && "column-gap"@[9] == 'p');
    assert("row-gap"@.len() == 7 && "row-gap"@[0] == 'r' && "row-gap"@[1] == 'o' && "row-gap"@[2] == 'w' && "row-gap"@[3] == '-' && "row-gap"@[4] == 'g' && "row-gap"@[5] == 'a' && "row-gap"@[6] == 'p');
    assert("flex"@.len() == 4 && "flex"@[0] == 'f' && "flex"@[1] == 'l' && "flex"@[2] == 'e' && "flex"@[3] == 'x');
    assert("flex-basis"@.len() == 10 && "flex-basis"@[0] == 'f' && "flex-basis"@[1] == 'l' && "flex-basis"@[2] == 'e' && "flex-basis"@[3] == 'x' && "flex-basis"@[4] == '-' && "flex-basis"@[5] == 'b' && "flex-basis"@[6] == 'a' && "flex-basis"@[7] == 's' && "flex-basis"@[8] == 'i' && "flex-basis"@[9] == 's');
    assert("flex-grow"@.len() == 9 && "flex-grow"@[0] == 'f' && "flex-grow"@[1] == 'l' && "flex-grow"@[2] == 'e' && "flex-grow"@[3] == 'x' && "flex-grow"@[4] == '-' && "flex-grow"@[5] == 'g' && "flex-grow"@[6] == 'r' && "flex-grow"@[7] == 'o' && "flex-grow"@[8] == 'w');
}

/// Block 2 of the property table on some of the shorthands and longhands.
#[verifier::rlimit(100)]
proof fn lemma_shorthands_table_2_1()
    ensures
        prop_table_2("flex-shrink"@) == prop_table_3("flex-shrink"@),
        prop_table_2("inset-inline-start"@) == Some("inset-s"@),
        prop_table_2("inset-inline-end"@) == Some("inset-e"@),
        prop_table_2("inset-block-start"@) == Some("inset-bs"@),
        prop_table_2("inset-block-end"@) == Some("inset-be"@),
        prop_table_2("top"@) == Some("top"@),
        prop_table_2("right"@) == Some("right"@),
        prop_table_2("bottom"@) == Some("bottom"@),
        prop_table_2("left"@) == Some("left"@),
        prop_table_2("border-radius"@) == prop_table_3("border-radius"@),
        prop_table_2("border-start-start-radius"@) == prop_table_3("border-start-start-radius"@),
        prop_table_2("border-start-end-radius"@) == prop_table_3("border-start-end-radius"@),
{
    reveal_strlit("inset-inline-start");
    reveal_strlit("inset-inline-end");
    reveal_strlit("inset-block-start");
    reveal_strlit("inset-block-end");
    reveal_strlit("top");
    reveal_strlit("right");
    reveal_strlit("bottom");
    reveal_strlit("left");
    reveal_strlit("scroll-margin");
    reveal_strlit("scroll-margin-inline");
    reveal_strlit("scroll-margin-block");
    reveal_strlit("scroll-margin-inline-start");
    reveal_strlit("scroll-margin-inline-end");
    reveal_strlit("scroll-margin-block-start");
    reveal_strlit("scroll-margin-block-end");
    reveal_strlit("scroll-margin-top");
    reveal_strlit("scroll-margin-right");
    reveal_strlit("scroll-margin-bottom");
    reveal_strlit("scroll-margin-left");
    reveal_strlit("scroll-padding");
    reveal_strlit("scroll-padding-inline");
    reveal_strlit("scroll-padding-block");
    reveal_strlit("scroll-padding-inline-start");
    reveal_strlit("scroll-padding-inline-end");
    reveal_strlit("scroll-padding-block-start");
    reveal_strlit("scroll-padding-block-end");
    reveal_strlit("scroll-padding-top");
    reveal_strlit("scroll-padding-right");
    reveal_strlit("scroll-padding-bottom");
    reveal_strlit("scroll-padding-left");
    reveal_strlit("border-width");
    reveal_strlit("border-inline-width");
    reveal_strlit("border-block-width");
    reveal_strlit("border-inline-start-width");
    reveal_strlit("border-inline-end-width");
    reveal_strlit("border-block-start-width");
    reveal_strlit("border-block-end-width");
    reveal_strlit("border-top-width");
    reveal_strlit("border-right-width");
    reveal_strlit("border-bottom-width");
    reveal_strlit("flex-shrink");
    reveal_strlit("border-radius");
    reveal_strlit("border-start-start-radius");
    reveal_strlit("border-start-end-radius");
    assert("flex-shrink"@.len() == 11 && "flex-shrink"@[0] == 'f' && "flex-shrink"@[1] == 'l' && "flex-shrink"@[2] == 'e' && "flex-shrink"@[3] == 'x' && "flex-shrink"@[4] == '-' && "flex-shrink"@[5] == 's' && "flex-shrink"@[6] == 'h' && "flex-shrink"@[7] == 'r' && "flex-shrink"@[8] == 'i' && "flex-shrink"@[9] == 'n' && "flex-shrink"@[10] == 'k');
    assert("inset-inline-start"@.len() == 18 && "inset-inline-start"@[0] == 'i' && "inset-inline-start"@[1] == 'n' && "inset-inline-start"@[2] == 's' && "inset-inline-start"@[3] == 'e' && "inset-inline-start"@[4] == 't' && "inset-inline-start"@[5] == '-' && "inset-inline-start"@[6] == 'i' && "inset-inline-start"@[7] == 'n' && "inset-inline-start"@[8] == 'l' && "inset-inline-start"@[9] == 'i' && "inset-inline-start"@[10] == 'n' && "inset-inline-start"@[11] == 'e' && "inset-inline-start"@[12] == '-' && "inset-inline-start"@[13] == 's' && "inset-inline-start"@[14] == 't' && "inset-inline-start"@[15] == 'a' && "inset-inline-start"@[16] == 'r' && "inset-inline-start"@[17] == 't');
    assert("inset-inline-end"@.len() == 16 && "inset-inline-end"@[0] == 'i' && "inset-inline-end"@[1] == 'n' && "inset-inline-end"@[2] == 's' && "inset-inline-end"@[3] == 'e' && "inset-inline-end"@[4] == 't' && "inset-inline-end"@[5] == '-' && "inset-inline-end"@[6] == 'i' && "inset-inline-end"@[7] == 'n' && "inset-inline-end"@[8] == 'l' && "inset-inline-end"@[9] == 'i' && "inset-inline-end"@[10] == 'n' && "inset-inline-end"@[11] == 'e' && "inset-inline-end"@[12] == '-' && "inset-inline-end"@[13] == 'e' && "inset-inline-end"@[14] == 'n' && "inset-inline-end"@[15] == 'd');
    assert("inset-block-start"@.len() == 17 && "inset-block-start"@[0] == 'i' && "inset-block-start"@[1] == 'n' && "inset-block-start"@[2] == 's' && "inset-block-start"@[3] == 'e' && "inset-block-start"@[4] == 't' && "inset-block-start"@[5] == '-' && "inset-block-start"@[6] == 'b' && "inset-block-start"@[7] == 'l' && "inset-block-start"@[8] == 'o' && "inset-block-start"@[9] == 'c' && "inset-block-start"@[10] == 'k' && "inset-block-start"@[11] == '-' && "inset-block-start"@[12] == 's' && "inset-block-start"@[13] == 't' && "inset-block-start"@[14] == 'a' && "inset-block-start"@[15] == 'r' && "inset-block-start"@[16] == 't');
    assert("inset-block-end"@.len() == 15 && "inset-block-end"@[0] == 'i' && "inset-block-end"@[1] == 'n' && "inset-block-end"@[2] == 's' && "inset-block-end"@[3] == 'e' && "inset-block-end"@[4] == 't' && "inset-block-end"@[5] == '-' && "inset-block-end"@[6] == 'b' && "inset-block-end"@[7] == 'l' && "inset-block-end"@[8] == 'o' && "inset-block-end"@[9] == 'c' && "inset-block-end"@[10] == 'k' && "inset-block-end"@[11] == '-' && "inset-block-end"@[12] == 'e' && "inset-block-end"@[13] == 'n' && "inset-block-end"@[14] == 'd');
    assert("top"@.len() == 3 && "top"@[0] == 't' && "top"@[1] == 'o' && "top"@[2] == 'p');
    assert("right"@.len() == 5 && "right"@[0] == 'r' && "right"@[1] == 'i' && "right"@[2] == 'g' && "right"@[3] == 'h' && "right"@[4] == 't');
    assert("bottom"@.len() == 6 && "bottom"@[0] == 'b' && "bottom"@[1] == 'o' && "bottom"@[2] == 't' && "bottom"@[3] == 't' && "bottom"@[4] == 'o' && "bottom"@[5] == 'm');
    assert("left"@.len() == 4 && "left"@[0] == 'l' && "left"@[1] == 'e' && "left"@[2] == 'f' && "left"@[3] == 't');
    assert("border-radius"@.len() == 13 && "border-radius"@[0] == 'b' && "border-radius"@[1] == 'o' && "border-radius"@[2] == 'r' && "border-radius"@[3] == 'd' && "border-radius"@[4] == 'e' && "border-radius"@[5] == 'r' && "border-radius"@[6] == '-' && "border-radius"@[7] == 'r' && "border-radius"@[8] == 'a' && "border-radius"@[9] == 'd' && "border-radius"@[10] == 'i' && "border-radius"@[11] == 'u' && "border-radius"@[12] == 's');
    assert("border-start-start-radius"@.len() == 25 && "border-start-start-radius"@[0] == 'b' && "border-start-start-radius"@[1] == 'o' && "border-start-start-radius"@[2] == 'r' && "border-start-start-radius"@[3] == 'd' && "border-start-start-radius"@[4] == 'e' && "border-start-start-radius"@[5] == 'r' && "border-start-start-radius"@[6] == '-' && "border-start-start-radius"@[7] == 's' && "border-start-start-radius"@[8] == 't' && "border-start-start-radius"@[9] == 'a' && "border-start-start-radius"@[10] == 'r' && "border-start-start-radius"@[11] == 't' && "border-start-start-radius"@[12] == '-' && "border-start-start-radius"@[13] == 's' && "border-start-start-radius"@[14] == 't' && "border-start-start-radius"@[15] == 'a' && "border-start-start-radius"@[16] == 'r' && "border-start-start-radius"@[17] == 't' && "border-start-start-radius"@[18] == '-' && "border-start-start-radius"@[19] == 'r' && "border-start-start-radius"@[20] == 'a' && "border-start-start-radius"@[21] == 'd' && "border-start-start-radius"@[22] == 'i' && "border-start-start-radius"@[23] == 'u' && "border-start-start-radius"@[24] == 's');
    assert("border-start-end-radius"@.len() == 23 && "border-start-end-radius"@[0] == 'b' && "border-start-end-radius"@[1] == 'o' && "border-start-end-radius"@[2] == 'r' && "border-start-end-radius"@[3] == 'd' && "border-start-end-radius"@[4] == 'e' && "border-start-end-radius"@[5] == 'r' && "border-start-end-radius"@[6] == '-' && "border-start-end-radius"@[7] == 's' && "border-start-end-radius"@[8] == 't' && "border-start-end-radius"@[9] == 'a' && "border-start-end-radius"@[10] == 'r' && "border-start-end-radius"@[11] == 't' && "border-start-end-radius"@[12] == '-' && "border-start-end-radius"@[13] == 'e' && "border-start-end-radius"@[14] == 'n' && "border-start-end-radius"@[15] == 'd' && "border-start-end-radius"@[16] == '-' && "border-start-end-radius"@[17] == 'r' && "border-start-end-radius"@[18] == 'a' && "border-start-end-radius"@[19] == 'd' && "border-start-end-radius"@[20] == 'i' && "border-start-end-radius"@[21] == 'u' && "border-start-end-radius"@[22] == 's');
}

/// Block 2 of the property table on some of the shorthands and longhands.
#[verifier::rlimit(100)]
proof fn lemma_shorthands_table_2_2()
    ensures
        prop_table_2("border-end-start-radius"@) == prop_table_3("border-end-start-radius"@),
        prop_table_2("border-end-end-radius"@) == prop_table_3("border-end-end-radius"@),
        prop_table_2("border-top-left-radius"@) == prop_table_3("border-top-left-radius"@),
        prop_table_2("border-top-right-radius"@) == prop_table_3("border-top-right-radius"@),
        prop_table_2("border-bottom-right-radius"@) == prop_table_3("border-bottom-right-radius"@),
        prop_table_2("border-bottom-left-radius"@) == prop_table_3("border-bottom-left-radius"@),
{
    reveal_strlit("inset-inline-start");
    reveal_strlit("inset-inline-end");
    reveal_strlit("inset-block-start");
    reveal_strlit("inset-block-end");
    reveal_strlit("top");
    reveal_strlit("right");
    reveal_strlit("bottom");
    reveal_strlit("left");
    reveal_strlit("scroll-margin");
    reveal_strlit("scroll-margin-inline");
    reveal_strlit("scroll-margin-block");
    reveal_strlit("scroll-margin-inline-start");
    reveal_strlit("scroll-margin-inline-end");
    reveal_strlit("scroll-margin-block-start");
    reveal_strlit("scroll-margin-block-end");
    reveal_strlit("scroll-margin-top");
    reveal_strlit("scroll-margin-right");
    reveal_strlit("scroll-margin-bottom");
    reveal_strlit("scroll-margin-left");
    reveal_strlit("scroll-padding");
    reveal_strlit("scroll-padding-inline");
    reveal_strlit("scroll-padding-block");
    reveal_strlit("scroll-padding-inline-start");
    reveal_strlit("scroll-padding-inline-end");
    reveal_strlit("scroll-padding-block-start");
    reveal_strlit("scroll-padding-block-end");
    reveal_strlit("scroll-padding-top");
    reveal_strlit("scroll-padding-right");
    reveal_strlit("scroll-padding-bottom");
    reveal_strlit("scroll-padding-left");
    reveal_strlit("border-width");
    reveal_strlit("border-inline-width");
    reveal_strlit("border-block-width");
    reveal_strlit("border-inline-start-width");
    reveal_strlit("border-inline-end-width");
    reveal_strlit("border-block-start-width");
    reveal_strlit("border-block-end-width");
    reveal_strlit("border-top-width");
    reveal_strlit("border-right-width");
    reveal_strlit("border-bottom-width");
    reveal_strlit("border-end-start-radius");
    reveal_strlit("border-end-end-radius");
    reveal_strlit("border-top-left-radius");
    reveal_strlit("border-top-right-radius");
    reveal_strlit("border-bottom-right-radius");
    reveal_strlit("border-bottom-left-radius");
    assert("border-end-start-radius"@.len() == 23 && "border-end-start-radius"@[0] == 'b' && "border-end-start-radius"@[1] == 'o' && "border-end-start-radius"@[2] == 'r' && "border-end-start-radius"@[3] == 'd' && "border-end-start-radius"@[4] == 'e' && "border-end-start-radius"@[5] == 'r' && "border-end-start-radius"@[6] == '-' && "border-end-start-radius"@[7] == 'e' && "border-end-start-radius"@[8] == 'n' && "border-end-start-radius"@[9] == 'd' && "border-end-start-radius"@[10] == '-' && "border-end-start-radius"@[11] == 's' && "border-end-start-radius"@[12] == 't' && "border-end-start-radius"@[13] == 'a' && "border-end-start-radius"@[14] == 'r' && "border-end-start-radius"@[15] == 't' && "border-end-start-radius"@[16] == '-' && "border-end-start-radius"@[17] == 'r' && "border-end-start-radius"@[18] == 'a' && "border-end-start-radius"@[19] == 'd' && "border-end-start-radius"@[20] == 'i' && "border-end-start-radius"@[21] == 'u' && "border-end-start-radius"@[22] == 's');
    assert("border-end-end-radius"@.len() == 21 && "border-end-end-radius"@[0] == 'b' && "border-end-end-radius"@[1] == 'o' && "border-end-end-radius"@[2] == 'r' && "border-end-end-radius"@[3] == 'd' && "border-end-end-radius"@[4] == 'e' && "border-end-end-radius"@[5] == 'r' && "border-end-end-radius"@[6] == '-' && "border-end-end-radius"@[7] == 'e' && "border-end-end-radius"@[8] == 'n' && "border-end-end-radius"@[9] == 'd' && "border-end-end-radius"@[10] == '-' && "border-end-end-radius"@[11] == 'e' && "border-end-end-radius"@[12] == 'n' && "border-end-end-radius"@[13] == 'd' && "border-end-end-radius"@[14] == '-' && "border-end-end-radius"@[15] == 'r' && "border-end-end-radius"@[16] == 'a' && "border-end-end-radius"@[17] == 'd' && "border-end-end-radius"@[18] == 'i' && "border-end-end-radius"@[19] == 'u' && "border-end-end-radius"@[20] == 's');
    assert("border-top-left-radius"@.len() == 22 && "border-top-left-radius"@[0] == 'b' && "border-top-left-radius"@[1] == 'o' && "border-top-left-radius"@[2] == 'r' && "border-top-left-radius"@[3] == 'd' && "border-top-left-radius"@[4] == 'e' && "border-top-left-radius"@[5] == 'r' && "border-top-left-radius"@[6] == '-' && "border-top-left-radius"@[7] == 't' && "border-top-left-radius"@[8] == 'o' && "border-top-left-radius"@[9] == 'p' && "border-top-left-radius"@[10] == '-' && "border-top-left-radius"@[11] == 'l' && "border-top-left-radius"@[12] == 'e' && "border-top-left-radius"@[13] == 'f' && "border-top-left-radius"@[14] == 't' && "border-top-left-radius"@[15] == '-' && "border-top-left-radius"@[16] == 'r' && "border-top-left-radius"@[17] == 'a' && "border-top-left-radius"@[18] == 'd' && "border-top-left-radius"@[19] == 'i' && "border-top-left-radius"@[20] == 'u' && "border-top-left-radius"@[21] == 's');
    assert("border-top-right-radius"@.len() == 23 && "border-top-right-radius"@[0] == 'b' && "border-top-right-radius"@[1] == 'o' && "border-top-right-radius"@[2] == 'r' && "border-top-right-radius"@[3] == 'd' && "border-top-right-radius"@[4] == 'e' && "border-top-right-radius"@[5] == 'r' && "border-top-right-radius"@[6] == '-' && "border-top-right-radius"@[7] == 't' && "border-top-right-radius"@[8] == 'o' && "border-top-right-radius"@[9] == 'p' && "border-top-right-radius"@[10] == '-' && "border-top-right-radius"@[11] == 'r' && "border-top-right-radius"@[12] == 'i' && "border-top-right-radius"@[13] == 'g' && "border-top-right-radius"@[14] == 'h' && "border-top-right-radius"@[15] == 't' && "border-top-right-radius"@[16] == '-' && "border-top-right-radius"@[17] == 'r' && "border-top-right-radius"@[18] == 'a' && "border-top-right-radius"@[19] == 'd' && "border-top-right-radius"@[20] == 'i' && "border-top-right-radius"@[21] == 'u' && "border-top-right-radius"@[22] == 's');
    assert("border-bottom-right-radius"@.len() == 26 && "border-bottom-right-radius"@[0] == 'b' && "border-bottom-right-radius"@[1] == 'o' && "border-bottom-right-radius"@[2] == 'r' && "border-bottom-right-radius"@[3] == 'd' && "border-bottom-right-radius"@[4] == 'e' && "border-bottom-right-radius"@[5] == 'r' && "border-bottom-right-radius"@[6] == '-' && "border-bottom-right-radius"@[7] == 'b' && "border-bottom-right-radius"@[8] == 'o' && "border-bottom-right-radius"@[9] == 't' && "border-bottom-right-radius"@[10] == 't' && "border-bottom-right-radius"@[11] == 'o' && "border-bottom-right-radius"@[12] == 'm' && "border-bottom-right-radius"@[13] == '-' && "border-bottom-right-radius"@[14] == 'r' && "border-bottom-right-radius"@[15] == 'i' && "border-bottom-right-radius"@[16] == 'g' && "border-bottom-right-radius"@[17] == 'h' && "border-bottom-right-radius"@[18] == 't' && "border-bottom-right-radius"@[19] == '-' && "border-bottom-right-radius"@[20] == 'r' && "border-bottom-right-radius"@[21] == 'a' && "border-bottom-right-radius"@[22] == 'd' && "border-bottom-right-radius"@[23] == 'i' && "border-bottom-right-radius"@[24] == 'u' && "border-bottom-right-radius"@[25] == 's');
    assert("border-bottom-left-radius"@.len() == 25 && "border-bottom-left-radius"@[0] == 'b' && "border-bottom-left-radius"@[1] == 'o' && "border-bottom-left-radius"@[2] == 'r' && "border-bottom-left-radius"@[3] == 'd' && "border-bottom-left-radius"@[4] == 'e' && "border-bottom-left-radius"@[5] == 'r' && "border-bottom-left-radius"@[6] == '-' && "border-bottom-left-radius"@[7] == 'b' && "border-bottom-left-radius"@[8] == 'o' && "border-bottom-left-radius"@[9] == 't' && "border-bottom-left-radius"@[10] == 't' && "border-bottom-left-radius"@[11] == 'o' && "border-bottom-left-radius"@[12] == 'm' && "border-bottom-left-radius"@[13] == '-' && "border-bottom-left-radius"@[14] == 'l' && "border-bottom-left-radius"@[15] == 'e' && "border-bottom-left-radius"@[16] == 'f' && "border-bottom-left-radius"@[17] == 't' && "border-bottom-left-radius"@[18] == '-' && "border-bottom-left-radius"@[19] == 'r' && "border-bottom-left-radius"@[20] == 'a' && "border-bottom-left-radius"@[21] == 'd' && "border-bottom-left-radius"@[22] == 'i' && "border-bottom-left-radius"@[23] == 'u' && "border-bottom-left-radius"@[24] == 's');
}

/// Block 3 of the property table on some of the shorthands and longhands.
#[verifier::rlimit(100)]
proof fn lemma_shorthands_table_3_0()
    ensures
        prop_table_3("overflow"@) == prop_table_4("overflow"@),
        prop_table_3("overflow-x"@) == prop_table_4("overflow-x"@),
        prop_table_3("overflow-y"@) == prop_table_4("overflow-y"@),
        prop_table_3("overscroll-behavior"@) == prop_table_4("overscroll-behavior"@),
        prop_table_3("overscroll-behavior-x"@) == prop_table_4("overscroll-behavior-x"@),
        prop_table_3("overscroll-behavior-y"@) == prop_table_4("overscroll-behavior-y"@),
        prop_table_3("gap"@) == prop_table_4("gap"@),
        prop_table_3("column-gap"@) == prop_table_4("column-gap"@),
        prop_table_3("row-gap"@) == prop_table_4("row-gap"@),
        prop_table_3("flex"@) == prop_table_4("flex"@),
        prop_table_3("flex-basis"@) == prop_table_4("flex-basis"@),
        prop_table_3("flex-grow"@) == prop_table_4("flex-grow"@),
{
    reveal_strlit("border-left-width");
    reveal_strlit("border-color");
    reveal_strlit("border-inline-color");
    reveal_strlit("border-block-color");
    reveal_strlit("border-inline-start-color");
    reveal_strlit("border-inline-end-color");
    reveal_strlit("border-block-start-color");
    reveal_strlit("border-block-end-color");
    reveal_strlit("border-top-color");
    reveal_strlit("border-right-color");
    reveal_strlit("border-bottom-color");
    reveal_strlit("border-left-color");
    reveal_strlit("border-style");
    reveal_strlit("border-spacing");
    reveal_strlit("border-radius");
    reveal_strlit("border-start-start-radius");
    reveal_strlit("border-start-end-radius");
    reveal_strlit("border-end-start-radius");
    reveal_strlit("border-end-end-radius");
    reveal_strlit("border-top-left-radius");
    reveal_strlit("border-top-right-radius");
    reveal_strlit("border-bottom-right-radius");
    reveal_strlit("border-bottom-left-radius");
    reveal_strlit("font-family");
    reveal_strlit("font-weight");
    reveal_strlit("font-size");
    reveal_strlit("line-height");
    reveal_strlit("letter-spacing");
    reveal_strlit("text-indent");
    reveal_strlit("vertical-align");
    reveal_strlit("text-align");
    reveal_strlit("text-transform");
    reveal_strlit("text-wrap");
    reveal_strlit("text-overflow");
    reveal_strlit("text-decoration-line");
    reveal_strlit("text-decoration-thickness");
    reveal_strlit("text-decoration-color");
    reveal_strlit("text-decoration-style");
    reveal_strlit("text-underline-offset");
    reveal_strlit("font-style");
    reveal_strlit("overflow");
    reveal_strlit("overflow-x");
    reveal_strlit("overflow-y");
    reveal_strlit("overscroll-behavior");
    reveal_strlit("overscroll-behavior-x");
    reveal_strlit("overscroll-behavior-y");
    reveal_strlit("gap");
    reveal_strlit("column-gap");
    reveal_strlit("row-gap");
    reveal_strlit("flex");
    reveal_strlit("flex-basis");
    reveal_strlit("flex-grow");
    assert("overflow"@.len() == 8 && "overflow"@[0] == 'o' && "overflow"@[1] == 'v' && "overflow"@[2] == 'e' && "overflow"@[3] == 'r' && "overflow"@[4] == 'f' && "overflow"@[5] == 'l' && "overflow"@[6] == 'o' && "overflow"@[7] == 'w');
    assert("overflow-x"@.len() == 10 && "overflow-x"@[0] == 'o' && "overflow-x"@[1] == 'v' && "overflow-x"@[2] == 'e' && "overflow-x"@[3] == 'r' && "overflow-x"@[4] == 'f' && "overflow-x"@[5] == 'l' && "overflow-x"@[6] == 'o' && "overflow-x"@[7] == 'w' && "overflow-x"@[8] == '-' && "overflow-x"@[9] == 'x');
    assert("overflow-y"@.len() == 10 && "overflow-y"@[0] == 'o' && "overflow-y"@[1] == 'v' && "overflow-y"@[2] == 'e' && "overflow-y"@[3] == 'r' && "overflow-y"@[4] == 'f' && "overflow-y"@[5] == 'l' && "overflow-y"@[6] == 'o' && "overflow-y"@[7] == 'w' && "overflow-y"@[8] == '-' && "overflow-y"@[9] == 'y');
    assert("overscroll-behavior"@.len() == 19 && "overscroll-behavior"@[0] == 'o' && "overscroll-behavior"@[1] == 'v' && "overscroll-behavior"@[2] == 'e' && "overscroll-behavior"@[3] == 'r' && "overscroll-behavior"@[4] == 's' && "overscroll-behavior"@[5] == 'c' && "overscroll-behavior"@[6] == 'r' && "overscroll-behavior"@[7] == 'o' && "overscroll-behavior"@[8] == 'l' && "overscroll-behavior"@[9] == 'l' && "overscroll-behavior"@[10] == '-' && "overscroll-behavior"@[11] == 'b' && "overscroll-behavior"@[12] == 'e' && "overscroll-behavior"@[13] == 'h' && "overscroll-behavior"@[14] == 'a' && "overscroll-behavior"@[15] == 'v' && "overscroll-behavior"@[16] == 'i' && "overscroll-behavior"@[17] == 'o' && "overscroll-behavior"@[18] == 'r');
    assert("overscroll-behavior-x"@.len() == 21 && "overscroll-behavior-x"@[0] == 'o' && "overscroll-behavior-x"@[1] == 'v' && "overscroll-behavior-x"@[2] == 'e' && "overscroll-behavior-x"@[3] == 'r' && "overscroll-behavior-x"@[4] == 's' && "overscroll-behavior-x"@[5] == 'c' && "overscroll-behavior-x"@[6] == 'r' && "overscroll-behavior-x"@[7] == 'o' && "overscroll-behavior-x"@[8] == 'l' && "overscroll-behavior-x"@[9] == 'l' && "overscroll-behavior-x"@[10] == '-' && "overscroll-behavior-x"@[11] == 'b' && "overscroll-behavior-x"@[12] == 'e' && "overscroll-behavior-x"@[13] == 'h' && "overscroll-behavior-x"@[14] == 'a' && "overscroll-behavior-x"@[15] == 'v' && "overscroll-behavior-x"@[16] == 'i' && "overscroll-behavior-x"@[17] == 'o' && "overscroll-behavior-x"@[18] == 'r' && "overscroll-behavior-x"@[19] == '-' && "overscroll-behavior-x"@[20] == 'x');
    assert("overscroll-behavior-y"@.len() == 21 && "overscroll-behavior-y"@[0] == 'o' && "overscroll-behavior-y"@[1] == 'v' && "overscroll-behavior-y"@[2] == 'e' && "overscroll-behavior-y"@[3] == 'r' && "overscroll-behavior-y"@[4] == 's' && "overscroll-behavior-y"@[5] == 'c' && "overscroll-behavior-y"@[6] == 'r' && "overscroll-behavior-y"@[7] == 'o' && "overscroll-behavior-y"@[8] == 'l' && "overscroll-behavior-y"@[9] == 'l' && "overscroll-behavior-y"@[10] == '-' && "overscroll-behavior-y"@[11] == 'b' && "overscroll-behavior-y"@[12] == 'e' && "overscroll-behavior-y"@[13] == 'h' && "overscroll-behavior-y"@[14] == 'a' && "overscroll-behavior-y"@[15] == 'v' && "overscroll-behavior-y"@[16] == 'i' && "overscroll-behavior-y"@[17] == 'o' && "overscroll-behavior-y"@[18] == 'r' && "overscroll-behavior-y"@[19] == '-' && "overscroll-behavior-y"@[20] == 'y');
    assert("gap"@.len() == 3 && "gap"@[0] == 'g' && "gap"@[1] == 'a' && "gap"@[2] == 'p');
    assert("column-gap"@.len() == 10 && "column-gap"@[0] == 'c' && "column-gap"@[1] == 'o' && "column-gap"@[2] == 'l' && "column-gap"@[3] == 'u' && "column-gap"@[4] == 'm' && "column-gap"@[5] == 'n' && "column-gap"@[6] == '-' && "column-gap"@[7] == 'g' && "column-gap"@[8] == 'a' && "column-gap"@[9] == 'p');
    assert("row-gap"@.len() == 7 && "row-gap"@[0] == 'r' && "row-gap"@[1] == 'o' && "row-gap"@[2] == 'w' && "row-gap"@[3] == '-' && "row-gap"@[4] == 'g' && "row-gap"@[5] == 'a' && "row-gap"@[6] == 'p');
    assert("flex"@.len() == 4 && "flex"@[0] == 'f' && "flex"@[1] == 'l' && "flex"@[2] == 'e' && "flex"@[3] == 'x');
    assert("flex-basis"@.len() == 10 && "flex-basis"@[0] == 'f' && "flex-basis"@[1] == 'l' && "flex-basis"@[2] == 'e' && "flex-basis"@[3] == 'x' && "flex-basis"@[4] == '-' && "flex-basis"@[5] == 'b' && "flex-basis"@[6] == 'a' && "flex-basis"@[7] == 's' && "flex-basis"@[8] == 'i' && "flex-basis"@[9] == 's');
    assert("flex-grow"@.len() == 9 && "flex-grow"@[0] == 'f' && "flex-grow"@[1] == 'l' && "flex-grow"@[2] == 'e' && "flex-grow"@[3] == 'x' && "flex-grow"@[4] == '-' && "flex-grow"@[5] == 'g' && "flex-grow"@[6] == 'r' && "flex-grow"@[7] == 'o' && "flex-grow"@[8] == 'w');
}

/// Block 3 of the property table on some of the shorthands and longhands.
#[verifier::rlimit(100)]
proof fn lemma_shorthands_table_3_1()
    ensures
        prop_table_3("flex-shrink"@) == prop_table_4("flex-shrink"@),
        prop_table_3("border-radius"@) == Some("rounded"@),
        prop_table_3("border-start-start-radius"@) == Some("rounded-ss"@),
        prop_table_3("border-start-end-radius"@) == Some("rounded-se"@),
        prop_table_3("border-end-start-radius"@) == Some("rounded-es"@),
        prop_table_3("border-end-end-radius"@) == Some("rounded-ee"@),
        prop_table_3("border-top-left-radius"@) == Some("rounded-tl"@),
        prop_table_3("border-top-right-radius"@) == Some("rounded-tr"@),
        prop_table_3("border-bottom-right-radius"@) == Some("rounded-br"@),
        prop_table_3("border-bottom-left-radius"@) == Some("rounded-bl"@),
{
    reveal_strlit("border-left-width");
    reveal_strlit("border-color");
    reveal_strlit("border-inline-color");
    reveal_strlit("border-block-color");
    reveal_strlit("border-inline-start-color");
    reveal_strlit("border-inline-end-color");
    reveal_strlit("border-block-start-color");
    reveal_strlit("border-block-end-color");
    reveal_strlit("border-top-color");
    reveal_strlit("border-right-color");
    reveal_strlit("border-bottom-color");
    reveal_strlit("border-left-color");
    reveal_strlit("border-style");
    reveal_strlit("border-spacing");
    reveal_strlit("border-radius");
    reveal_strlit("border-start-start-radius");
    reveal_strlit("border-start-end-radius");
    reveal_strlit("border-end-start-radius");
    reveal_strlit("border-end-end-radius");
    reveal_strlit("border-top-left-radius");
    reveal_strlit("border-top-right-radius");
    reveal_strlit("border-bottom-right-radius");
    reveal_strlit("border-bottom-left-radius");
    reveal_strlit("font-family");
    reveal_strlit("font-weight");
    reveal_strlit("font-size");
    reveal_strlit("line-height");
    reveal_strlit("letter-spacing");
    reveal_strlit("text-indent");
    reveal_strlit("vertical-align");
    reveal_strlit("text-align");
    reveal_strlit("text-transform");
    reveal_strlit("text-wrap");
    reveal_strlit("text-overflow");
    reveal_strlit("text-decoration-line");
    reveal_strlit("text-decoration-thickness");
    reveal_strlit("text-decoration-color");
    reveal_strlit("text-decoration-style");
    reveal_strlit("text-underline-offset");
    reveal_strlit("font-style");
    reveal_strlit("flex-shrink");
    assert("flex-shrink"@.len() == 11 && "flex-shrink"@[0] == 'f' && "flex-shrink"@[1] == 'l' && "flex-shrink"@[2] == 'e' && "flex-shrink"@[3] == 'x' && "flex-shrink"@[4] == '-' && "flex-shrink"@[5] == 's' && "flex-shrink"@[6] == 'h' && "flex-shrink"@[7] == 'r' && "flex-shrink"@[8] == 'i' && "flex-shrink"@[9] == 'n' && "flex-shrink"@[10] == 'k');
    assert("border-radius"@.len() == 13 && "border-radius"@[0] == 'b' && "border-radius"@[1] == 'o' && "border-radius"@[2] == 'r' && "border-radius"@[3] == 'd' && "border-radius"@[4] == 'e' && "border-radius"@[5] == 'r' && "border-radius"@[6] == '-' && "border-radius"@[7] == 'r' && "border-radius"@[8] == 'a' && "border-radius"@[9] == 'd' && "border-radius"@[10] == 'i' && "border-radius"@[11] == 'u' && "border-radius"@[12] == 's');
    assert("border-start-start-radius"@.len() == 25 && "border-start-start-radius"@[0] == 'b' && "border-start-start-radius"@[1] == 'o' && "border-start-start-radius"@[2] == 'r' && "border-start-start-radius"@[3] == 'd' && "border-start-start-radius"@[4] == 'e' && "border-start-start-radius"@[5] == 'r' && "border-start-start-radius"@[6] == '-' && "border-start-start-radius"@[7] == 's' && "border-start-start-radius"@[8] == 't' && "border-start-start-radius"@[9] == 'a' && "border-start-start-radius"@[10] == 'r' && "border-start-start-radius"@[11] == 't' && "border-start-start-radius"@[12] == '-' && "border-start-start-radius"@[13] == 's' && "border-start-start-radius"@[14] == 't' && "border-start-start-radius"@[15] == 'a' && "border-start-start-radius"@[16] == 'r' && "border-start-start-radius"@[17] == 't' && "border-start-start-radius"@[18] == '-' && "border-start-start-radius"@[19] == 'r' && "border-start-start-radius"@[20] == 'a' && "border-start-start-radius"@[21] == 'd' && "border-start-start-radius"@[22] == 'i' && "border-start-start-radius"@[23] == 'u' && "border-start-start-radius"@[24] == 's');
    assert("border-start-end-radius"@.len() == 23 && "border-start-end-radius"@[0] == 'b' && "border-start-end-radius"@[1] == 'o' && "border-start-end-radius"@[2] == 'r' && "border-start-end-radius"@[3] == 'd' && "border-start-end-radius"@[4] == 'e' && "border-start-end-radius"@[5] == 'r' && "border-start-end-radius"@[6] == '-' && "border-start-end-radius"@[7] == 's' && "border-start-end-radius"@[8] == 't' && "border-start-end-radius"@[9] == 'a' && "border-start-end-radius"@[10] == 'r' && "border-start-end-radius"@[11] == 't' && "border-start-end-radius"@[12] == '-' && "border-start-end-radius"@[13] == 'e' && "border-start-end-radius"@[14] == 'n' && "border-start-end-radius"@[15] == 'd' && "border-start-end-radius"@[16] == '-' && "border-start-end-radius"@[17] == 'r' && "border-start-end-radius"@[18] == 'a' && "border-start-end-radius"@[19] == 'd' && "border-start-end-radius"@[20] == 'i' && "border-start-end-radius"@[21] == 'u' && "border-start-end-radius"@[22] == 's');
    assert("border-end-start-radius"@.len() == 23 && "border-end-start-radius"@[0] == 'b' && "border-end-start-radius"@[1] == 'o' && "border-end-start-radius"@[2] == 'r' && "border-end-start-radius"@[3] == 'd' && "border-end-start-radius"@[4] == 'e' && "border-end-start-radius"@[5] == 'r' && "border-end-start-radius"@[6] == '-' && "border-end-start-radius"@[7] == 'e' && "border-end-start-radius"@[8] == 'n' && "border-end-start-radius"@[9] == 'd' && "border-end-start-radius"@[10] == '-' && "border-end-start-radius"@[11] == 's' && "border-end-start-radius"@[12] == 't' && "border-end-start-radius"@[13] == 'a' && "border-end-start-radius"@[14] == 'r' && "border-end-start-radius"@[15] == 't' && "border-end-start-radius"@[16] == '-' && "border-end-start-radius"@[17] == 'r' && "border-end-start-radius"@[18] == 'a' && "border-end-start-radius"@[19] == 'd' && "border-end-start-radius"@[20] == 'i' && "border-end-start-radius"@[21] == 'u' && "border-end-start-radius"@[22] == 's');
    assert("border-end-end-radius"@.len() == 21 && "border-end-end-radius"@[0] == 'b' && "border-end-end-radius"@[1] == 'o' && "border-end-end-radius"@[2] == 'r' && "border-end-end-radius"@[3] == 'd' && "border-end-end-radius"@[4] == 'e' && "border-end-end-radius"@[5] == 'r' && "border-end-end-radius"@[6] == '-' && "border-end-end-radius"@[7] == 'e' && "border-end-end-radius"@[8] == 'n' && "border-end-end-radius"@[9] == 'd' && "border-end-end-radius"@[10] == '-' && "border-end-end-radius"@[11] == 'e' && "border-end-end-radius"@[12] == 'n' && "border-end-end-radius"@[13] == 'd' && "border-end-end-radius"@[14] == '-' && "border-end-end-radius"@[15] == 'r' && "border-end-end-radius"@[16] == 'a' && "border-end-end-radius"@[17] == 'd' && "border-end-end-radius"@[18] == 'i' && "border-end-end-radius"@[19] == 'u' && "border-end-end-radius"@[20] == 's');
    assert("border-top-left-radius"@.len() == 22 && "border-top-left-radius"@[0] == 'b' && "border-top-left-radius"@[1] == 'o' && "border-top-left-radius"@[2] == 'r' && "border-top-left-radius"@[3] == 'd' && "border-top-left-radius"@[4] == 'e' && "border-top-left-radius"@[5] == 'r' && "border-top-left-radius"@[6] == '-' && "border-top-left-radius"@[7] == 't' && "border-top-left-radius"@[8] == 'o' && "border-top-left-radius"@[9] == 'p' && "border-top-left-radius"@[10] == '-' && "border-top-left-radius"@[11] == 'l' && "border-top-left-radius"@[12] == 'e' && "border-top-left-radius"@[13] == 'f' && "border-top-left-radius"@[14] == 't' && "border-top-left-radius"@[15] == '-' && "border-top-left-radius"@[16] == 'r' && "border-top-left-radius"@[17] == 'a' && "border-top-left-radius"@[18] == 'd' && "border-top-left-radius"@[19] == 'i' && "border-top-left-radius"@[20] == 'u' && "border-top-left-radius"@[21] == 's');
    assert("border-top-right-radius"@.len() == 23 && "border-top-right-radius"@[0] == 'b' && "border-top-right-radius"@[1] == 'o' && "border-top-right-radius"@[2] == 'r' && "border-top-right-radius"@[3] == 'd' && "border-top-right-radius"@[4] == 'e' && "border-top-right-radius"@[5] == 'r' && "border-top-right-radius"@[6] == '-' && "border-top-right-radius"@[7] == 't' && "border-top-right-radius"@[8] == 'o' && "border-top-right-radius"@[9] == 'p' && "border-top-right-radius"@[10] == '-' && "border-top-right-radius"@[11] == 'r' && "border-top-right-radius"@[12] == 'i' && "border-top-right-radius"@[13] == 'g' && "border-top-right-radius"@[14] == 'h' && "border-top-right-radius"@[15] == 't' && "border-top-right-radius"@[16] == '-' && "border-top-right-radius"@[17] == 'r' && "border-top-right-radius"@[18] == 'a' && "border-top-right-radius"@[19] == 'd' && "border-top-right-radius"@[20] == 'i' && "border-top-right-radius"@[21] == 'u' && "border-top-right-radius"@[22] == 's');
    assert("border-bottom-right-radius"@.len() == 26 && "border-bottom-right-radius"@[0] == 'b' && "border-bottom-right-radius"@[1] == 'o' && "border-bottom-right-radius"@[2] == 'r' && "border-bottom-right-radius"@[3] == 'd' && "border-bottom-right-radius"@[4] == 'e' && "border-bottom-right-radius"@[5] == 'r' && "border-bottom-right-radius"@[6] == '-' && "border-bottom-right-radius"@[7] == 'b' && "border-bottom-right-radius"@[8] == 'o' && "border-bottom-right-radius"@[9] == 't' && "border-bottom-right-radius"@[10] == 't' && "border-bottom-right-radius"@[11] == 'o' && "border-bottom-right-radius"@[12] == 'm' && "border-bottom-right-radius"@[13] == '-' && "border-bottom-right-radius"@[14] == 'r' && "border-bottom-right-radius"@[15] == 'i' && "border-bottom-right-radius"@[16] == 'g' && "border-bottom-right-radius"@[17] == 'h' && "border-bottom-right-radius"@[18] == 't' && "border-bottom-right-radius"@[19] == '-' && "border-bottom-right-radius"@[20] == 'r' && "border-bottom-right-radius"@[21] == 'a' && "border-bottom-right-radius"@[22] == 'd' && "border-bottom-right-radius"@[23] == 'i' && "border-bottom-right-radius"@[24] == 'u' && "border-bottom-right-radius"@[25] == 's');
    assert("border-bottom-left-radius"@.len() == 25 && "border-bottom-left-radius"@[0] == 'b' && "border-bottom-left-radius"@[1] == 'o' && "border-bottom-left-radius"@[2] == 'r' && "border-bottom-left-radius"@[3] == 'd' && "border-bottom-left-radius"@[4] == 'e' && "border-bottom-left-radius"@[5] == 'r' && "border-bottom-left-radius"@[6] == '-' && "border-bottom-left-radius"@[7] == 'b' && "border-bottom-left-radius"@[8] == 'o' && "border-bottom-left-radius"@[9] == 't' && "border-bottom-left-radius"@[10] == 't' && "border-bottom-left-radius"@[11] == 'o' && "border-bottom-left-radius"@[12] == 'm' && "border-bottom-left-radius"@[13] == '-' && "border-bottom-left-radius"@[14] == 'l' && "border-bottom-left-radius"@[15] == 'e' && "border-bottom-left-radius"@[16] == 'f' && "border-bottom-left-radius"@[17] == 't' && "border-bottom-left-radius"@[18] == '-' && "border-bottom-left-radius"@[19] == 'r' && "border-bottom-left-radius"@[20] == 'a' && "border-bottom-left-radius"@[21] == 'd' && "border-bottom-left-radius"@[22] == 'i' && "border-bottom-left-radius"@[23] == 'u' && "border-bottom-left-radius"@[24] == 's');
}

/// Block 4 of the property table on some of the shorthands and longhands.
#[verifier::rlimit(100)]
proof fn lemma_shorthands_table_4_0()
    ensures
        prop_table_4("overflow"@) == prop_table_5("overflow"@),
        prop_table_4("overflow-x"@) == prop_table_5("overflow-x"@),
        prop_table_4("overflow-y"@) == prop_table_5("overflow-y"@),
        prop_table_4("overscroll-behavior"@) == prop_table_5("overscroll-behavior"@),
        prop_table_4("overscroll-behavior-x"@) == prop_table_5("overscroll-behavior-x"@),
        prop_table_4("overscroll-behavior-y"@) == prop_table_5("overscroll-behavior-y"@),
        prop_table_4("gap"@) == Some("gap"@),
        prop_table_4("column-gap"@) == Some("gap-x"@),
        prop_table_4("row-gap"@) == Some("gap-y"@),
        prop_table_4("flex"@) == Some("flex"@),
        prop_table_4("flex-basis"@) == Some("basis"@),
        prop_table_4("flex-grow"@) == Some("grow"@),
{
    reveal_strlit("font-stretch");
    reveal_strlit("font-feature-settings");
    reveal_strlit("font-variant-numeric");
    reveal_strlit("white-space");
    reveal_strlit("overflow-wrap");
    reveal_strlit("word-break");
    reveal_strlit("hyphens");
    reveal_strlit("caption-side");
    reveal_strlit("list-style-image");
    reveal_strlit("display");
    reveal_strlit("position");
    reveal_strlit("visibility");
    reveal_strlit("isolation");
    reveal_strlit("box-sizing");
    reveal_strlit("float");
    reveal_strlit("clear");
    reveal_strlit("aspect-ratio");
    reveal_strlit("z-index");
    reveal_strlit("order");
    reveal_strlit("flex");
    reveal_strlit("flex-basis");
    reveal_strlit("flex-grow");
    reveal_strlit("flex-shrink");
    reveal_strlit("flex-direction");
    reveal_strlit("grid-template-columns");
    reveal_strlit("grid-template-rows");
    reveal_strlit("grid-column");
    reveal_strlit("grid-row");
    reveal_strlit("grid-column-start");
    reveal_strlit("grid-column-end");
    reveal_strlit("grid-row-start");
    reveal_strlit("grid-row-end");
    reveal_strlit("gap");
    reveal_strlit("column-gap");
    reveal_strlit("row-gap");
    reveal_strlit("columns");
    reveal_strlit("align-items");
    reveal_strlit("align-content");
    reveal_strlit("align-self");
    reveal_strlit("justify-content");
    reveal_strlit("overflow");
    reveal_strlit("overflow-x");
    reveal_strlit("overflow-y");
    reveal_strlit("overscroll-behavior");
    reveal_strlit("overscroll-behavior-x");
    reveal_strlit("overscroll-behavior-y");
    assert("overflow"@.len() == 8 && "overflow"@[0] == 'o' && "overflow"@[1] == 'v' && "overflow"@[2] == 'e' && "overflow"@[3] == 'r' && "overflow"@[4] == 'f' && "overflow"@[5] == 'l' && "overflow"@[6] == 'o' && "overflow"@[7] == 'w');
    assert("overflow-x"@.len() == 10 && "overflow-x"@[0] == 'o' && "overflow-x"@[1] == 'v' && "overflow-x"@[2] == 'e' && "overflow-x"@[3] == 'r' && "overflow-x"@[4] == 'f' && "overflow-x"@[5] == 'l' && "overflow-x"@[6] == 'o' && "overflow-x"@[7] == 'w' && "overflow-x"@[8] == '-' && "overflow-x"@[9] == 'x');
    assert("overflow-y"@.len() == 10 && "overflow-y"@[0] == 'o' && "overflow-y"@[1] == 'v' && "overflow-y"@[2] == 'e' && "overflow-y"@[3] == 'r' && "overflow-y"@[4] == 'f' && "overflow-y"@[5] == 'l' && "overflow-y"@[6] == 'o' && "overflow-y"@[7] == 'w' && "overflow-y"@[8] == '-' && "overflow-y"@[9] == 'y');
    assert("overscroll-behavior"@.len() == 19 && "overscroll-behavior"@[0] == 'o' && "overscroll-behavior"@[1] == 'v' && "overscroll-behavior"@[2] == 'e' && "overscroll-behavior"@[3] == 'r' && "overscroll-behavior"@[4] == 's' && "overscroll-behavior"@[5] == 'c' && "overscroll-behavior"@[6] == 'r' && "overscroll-behavior"@[7] == 'o' && "overscroll-behavior"@[8] == 'l' && "overscroll-behavior"@[9] == 'l' && "overscroll-behavior"@[10] == '-' && "overscroll-behavior"@[11] == 'b' && "overscroll-behavior"@[12] == 'e' && "overscroll-behavior"@[13] == 'h' && "overscroll-behavior"@[14] == 'a' && "overscroll-behavior"@[15] == 'v' && "overscroll-behavior"@[16] == 'i' && "overscroll-behavior"@[17] == 'o' && "overscroll-behavior"@[18] == 'r');
    assert("overscroll-behavior-x"@.len() == 21 && "overscroll-behavior-x"@[0] == 'o' && "overscroll-behavior-x"@[1] == 'v' && "overscroll-behavior-x"@[2] == 'e' && "overscroll-behavior-x"@[3] == 'r' && "overscroll-behavior-x"@[4] == 's' && "overscroll-behavior-x"@[5] == 'c' && "overscroll-behavior-x"@[6] == 'r' && "overscroll-behavior-x"@[7] == 'o' && "overscroll-behavior-x"@[8] == 'l' && "overscroll-behavior-x"@[9] == 'l' && "overscroll-behavior-x"@[10] == '-' && "overscroll-behavior-x"@[11] == 'b' && "overscroll-behavior-x"@[12] == 'e' && "overscroll-behavior-x"@[13] == 'h' && "overscroll-behavior-x"@[14] == 'a' && "overscroll-behavior-x"@[15] == 'v' && "overscroll-behavior-x"@[16] == 'i' && "overscroll-behavior-x"@[17] == 'o' && "overscroll-behavior-x"@[18] == 'r' && "overscroll-behavior-x"@[19] == '-' && "overscroll-behavior-x"@[20] == 'x');
    assert("overscroll-behavior-y"@.len() == 21 && "overscroll-behavior-y"@[0] == 'o' && "overscroll-behavior-y"@[1] == 'v' && "overscroll-behavior-y"@[2] == 'e' && "overscroll-behavior-y"@[3] == 'r' && "overscroll-behavior-y"@[4] == 's' && "overscroll-behavior-y"@[5] == 'c' && "overscroll-behavior-y"@[6] == 'r' && "overscroll-behavior-y"@[7] == 'o' && "overscroll-behavior-y"@[8] == 'l' && "overscroll-behavior-y"@[9] == 'l' && "overscroll-behavior-y"@[10] == '-' && "overscroll-behavior-y"@[11] == 'b' && "overscroll-behavior-y"@[12] == 'e' && "overscroll-behavior-y"@[13] == 'h' && "overscroll-behavior-y"@[14] == 'a' && "overscroll-behavior-y"@[15] == 'v' && "overscroll-behavior-y"@[16] == 'i' && "overscroll-behavior-y"@[17] == 'o' && "overscroll-behavior-y"@[18] == 'r' && "overscroll-behavior-y"@[19] == '-' && "overscroll-behavior-y"@[20] == 'y');
    assert("gap"@.len() == 3 && "gap"@[0] == 'g' && "gap"@[1] == 'a' && "gap"@[2] == 'p');
    assert("column-gap"@.len() == 10 && "column-gap"@[0] == 'c' && "column-gap"@[1] == 'o' && "column-gap"@[2] == 'l' && "column-gap"@[3] == 'u' && "column-gap"@[4] == 'm' && "column-gap"@[5] == 'n' && "column-gap"@[6] == '-' && "column-gap"@[7] == 'g' && "column-gap"@[8] == 'a' && "column-gap"@[9] == 'p');
    assert("row-gap"@.len() == 7 && "row-gap"@[0] == 'r' && "row-gap"@[1] == 'o' && "row-gap"@[2] == 'w' && "row-gap"@[3] == '-' && "row-gap"@[4] == 'g' && "row-gap"@[5] == 'a' && "row-gap"@[6] == 'p');
    assert("flex"@.len() == 4 && "flex"@[0] == 'f' && "flex"@[1] == 'l' && "flex"@[2] == 'e' && "flex"@[3] == 'x');
    assert("flex-basis"@.len() == 10 && "flex-basis"@[0] == 'f' && "flex-basis"@[1] == 'l' && "flex-basis"@[2] == 'e' && "flex-basis"@[3] == 'x' && "flex-basis"@[4] == '-' && "flex-basis"@[5] == 'b' && "flex-basis"@[6] == 'a' && "flex-basis"@[7] == 's' && "flex-basis"@[8] == 'i' && "flex-basis"@[9] == 's');
    assert("flex-grow"@.len() == 9 && "flex-grow"@[0] == 'f' && "flex-grow"@[1] == 'l' && "flex-grow"@[2] == 'e' && "flex-grow"@[3] == 'x' && "flex-grow"@[4] == '-' && "flex-grow"@[5] == 'g' && "flex-grow"@[6] == 'r' && "flex-grow"@[7] == 'o' && "flex-grow"@[8] == 'w');
}

/// Block 4 of the property table on some of the shorthands and longhands.
#[verifier::rlimit(100)]
proof fn lemma_shorthands_table_4_1()
    ensures
        prop_table_4("flex-shrink"@) == Some("shrink"@),
{
    reveal_strlit("font-stretch");
    reveal_strlit("font-feature-settings");
    reveal_strlit("font-variant-numeric");
    reveal_strlit("white-space");
    reveal_strlit("overflow-wrap");
    reveal_strlit("word-break");
    reveal_strlit("hyphens");
    reveal_strlit("caption-side");
    reveal_strlit("list-style-image");
    reveal_strlit("display");
    reveal_strlit("position");
    reveal_strlit("visibility");
    reveal_strlit("isolation");
    reveal_strlit("box-sizing");
    reveal_strlit("float");
    reveal_strlit("clear");
    reveal_strlit("aspect-ratio");
    reveal_strlit("z-index");
    reveal_strlit("order");
    reveal_strlit("flex");
    reveal_strlit("flex-basis");
    reveal_strlit("flex-grow");
    reveal_strlit("flex-shrink");
    reveal_strlit("flex-direction");
    reveal_strlit("grid-template-columns");
    reveal_strlit("grid-template-rows");
    reveal_strlit("grid-column");
    reveal_strlit("grid-row");
    reveal_strlit("grid-column-start");
    reveal_strlit("grid-column-end");
    reveal_strlit("grid-row-start");
    reveal_strlit("grid-row-end");
    reveal_strlit("gap");
    reveal_strlit("column-gap");
    reveal_strlit("row-gap");
    reveal_strlit("columns");
    reveal_strlit("align-items");
    reveal_strlit("align-content");
    reveal_strlit("align-self");
    reveal_strlit("justify-content");
    assert("flex-shrink"@.len() == 11 && "flex-shrink"@[0] == 'f' && "flex-shrink"@[1] == 'l' && "flex-shrink"@[2] == 'e' && "flex-shrink"@[3] == 'x' && "flex-shrink"@[4] == '-' && "flex-shrink"@[5] == 's' && "flex-shrink"@[6] == 'h' && "flex-shrink"@[7] == 'r' && "flex-shrink"@[8] == 'i' && "flex-shrink"@[9] == 'n' && "flex-shrink"@[10] == 'k');
}

/// Block 5 of the property table on some of the shorthands and longhands.
#[verifier::rlimit(100)]
proof fn lemma_shorthands_table_5_0()
    ensures
        prop_table_5("overflow"@) == prop_table_6("overflow"@),
        prop_table_5("overflow-x"@) == prop_table_6("overflow-x"@),
        prop_table_5("overflow-y"@) == prop_table_6("overflow-y"@),
        prop_table_5("overscroll-behavior"@) == prop_table_6("overscroll-behavior"@),
        prop_table_5("overscroll-behavior-x"@) == prop_table_6("overscroll-behavior-x"@),
        prop_table_5("overscroll-behavior-y"@) == prop_table_6("overscroll-behavior-y"@),
{
    reveal_strlit("place-items");
    reveal_strlit("place-content");
    reveal_strlit("place-self");
    reveal_strlit("background-color");
    reveal_strlit("background-image");
    reveal_strlit("background-position");
    reveal_strlit("background-size");
    reveal_strlit("background-repeat");
    reveal_strlit("background-attachment");
    reveal_strlit("background-clip");
    reveal_strlit("background-origin");
    reveal_strlit("outline-width");
    reveal_strlit("outline-color");
    reveal_strlit("outline-style");
    reveal_strlit("outline-offset");
    reveal_strlit("outline");
    reveal_strlit("opacity");
    reveal_strlit("mix-blend-mode");
    reveal_strlit("background-blend-mode");
    reveal_strlit("clip-path");
    reveal_strlit("transition-property");
    reveal_strlit("transition-duration");
    reveal_strlit("transition-delay");
    reveal_strlit("transition-timing-function");
    reveal_strlit("animation");
    reveal_strlit("container-type");
    reveal_strlit("container-name");
    reveal_strlit("content");
    reveal_strlit("fill");
    reveal_strlit("stroke");
    reveal_strlit("stroke-width");
    reveal_strlit("-webkit-line-clamp");
    reveal_strlit("-webkit-box-orient");
    reveal_strlit("zoom");
    reveal_strlit("tab-size");
    reveal_strlit("cursor");
    reveal_strlit("pointer-events");
    reveal_strlit("user-select");
    reveal_strlit("resize");
    reveal_strlit("scroll-behavior");
    reveal_strlit("overflow");
    reveal_strlit("overflow-x");
    reveal_strlit("overflow-y");
    reveal_strlit("overscroll-behavior");
    reveal_strlit("overscroll-behavior-x");
    reveal_strlit("overscroll-behavior-y");
    assert("overflow"@.len() == 8 && "overflow"@[0] == 'o' && "overflow"@[1] == 'v' && "overflow"@[2] == 'e' && "overflow"@[3] == 'r' && "overflow"@[4] == 'f' && "overflow"@[5] == 'l' && "overflow"@[6] == 'o' && "overflow"@[7] == 'w');
    assert("overflow-x"@.len() == 10 && "overflow-x"@[0] == 'o' && "overflow-x"@[1] == 'v' && "overflow-x"@[2] == 'e' && "overflow-x"@[3] == 'r' && "overflow-x"@[4] == 'f' && "overflow-x"@[5] == 'l' && "overflow-x"@[6] == 'o' && "overflow-x"@[7] == 'w' && "overflow-x"@[8] == '-' && "overflow-x"@[9] == 'x');
    assert("overflow-y"@.len() == 10 && "overflow-y"@[0] == 'o' && "overflow-y"@[1] == 'v' && "overflow-y"@[2] == 'e' && "overflow-y"@[3] == 'r' && "overflow-y"@[4] == 'f' && "overflow-y"@[5] == 'l' && "overflow-y"@[6] == 'o' && "overflow-y"@[7] == 'w' && "overflow-y"@[8] == '-' && "overflow-y"@[9] == 'y');
    assert("overscroll-behavior"@.len() == 19 && "overscroll-behavior"@[0] == 'o' && "overscroll-behavior"@[1] == 'v' && "overscroll-behavior"@[2] == 'e' && "overscroll-behavior"@[3] == 'r' && "overscroll-behavior"@[4] == 's' && "overscroll-behavior"@[5] == 'c' && "overscroll-behavior"@[6] == 'r' && "overscroll-behavior"@[7] == 'o' && "overscroll-behavior"@[8] == 'l' && "overscroll-behavior"@[9] == 'l' && "overscroll-behavior"@[10] == '-' && "overscroll-behavior"@[11] == 'b' && "overscroll-behavior"@[12] == 'e' && "overscroll-behavior"@[13] == 'h' && "overscroll-behavior"@[14] == 'a' && "overscroll-behavior"@[15] == 'v' && "overscroll-behavior"@[16] == 'i' && "overscroll-behavior"@[17] == 'o' && "overscroll-behavior"@[18] == 'r');
    assert("overscroll-behavior-x"@.len() == 21 && "overscroll-behavior-x"@[0] == 'o' && "overscroll-behavior-x"@[1] == 'v' && "overscroll-behavior-x"@[2] == 'e' && "overscroll-behavior-x"@[3] == 'r' && "overscroll-behavior-x"@[4] == 's' && "overscroll-behavior-x"@[5] == 'c' && "overscroll-behavior-x"@[6] == 'r' && "overscroll-behavior-x"@[7] == 'o' && "overscroll-behavior-x"@[8] == 'l' && "overscroll-behavior-x"@[9] == 'l' && "overscroll-behavior-x"@[10] == '-' && "overscroll-behavior-x"@[11] == 'b' && "overscroll-behavior-x"@[12] == 'e' && "overscroll-behavior-x"@[13] == 'h' && "overscroll-behavior-x"@[14] == 'a' && "overscroll-behavior-x"@[15] == 'v' && "overscroll-behavior-x"@[16] == 'i' && "overscroll-behavior-x"@[17] == 'o' && "overscroll-behavior-x"@[18] == 'r' && "overscroll-behavior-x"@[19] == '-' && "overscroll-behavior-x"@[20] == 'x');
    assert("overscroll-behavior-y"@.len() == 21 && "overscroll-behavior-y"@[0] == 'o' && "overscroll-behavior-y"@[1] == 'v' && "overscroll-behavior-y"@[2] == 'e' && "overscroll-behavior-y"@[3] == 'r' && "overscroll-behavior-y"@[4] == 's' && "overscroll-behavior-y"@[5] == 'c' && "overscroll-behavior-y"@[6] == 'r' && "overscroll-behavior-y"@[7] == 'o' && "overscroll-behavior-y"@[8] == 'l' && "overscroll-behavior-y"@[9] == 'l' && "overscroll-behavior-y"@[10] == '-' && "overscroll-behavior-y"@[11] == 'b' && "overscroll-behavior-y"@[12] == 'e' && "overscroll-behavior-y"@[13] == 'h' && "overscroll-behavior-y"@[14] == 'a' && "overscroll-behavior-y"@[15] == 'v' && "overscroll-behavior-y"@[16] == 'i' && "overscroll-behavior-y"@[17] == 'o' && "overscroll-behavior-y"@[18] == 'r' && "overscroll-behavior-y"@[19] == '-' && "overscroll-behavior-y"@[20] == 'y');
}

/// Block 6 of the property table on some of the shorthands and longhands.
#[verifier::rlimit(100)]
proof fn lemma_shorthands_table_6_0()
    ensures
        prop_table_6("overflow"@) == Some("overflow"@),
        prop_table_6("overflow-x"@) == Some("overflow-x"@),
        prop_table_6("overflow-y"@) == Some("overflow-y"@),
        prop_table_6("overscroll-behavior"@) == Some("overscroll"@),
        prop_table_6("overscroll-behavior-x"@) == Some("overscroll-x"@),
        prop_table_6("overscroll-behavior-y"@) == Some("overscroll-y"@),
{
    reveal_strlit("scrollbar-gutter");
    reveal_strlit("scrollbar-width");
    reveal_strlit("scrollbar-color");
    reveal_strlit("forced-color-adjust");
    reveal_strlit("appearance");
    reveal_strlit("color-scheme");
    reveal_strlit("field-sizing");
    reveal_strlit("text-wrap-style");
    reveal_strlit("overflow");
    reveal_strlit("overflow-x");
    reveal_strlit("overflow-y");
    reveal_strlit("overscroll-behavior");
    reveal_strlit("overscroll-behavior-x");
    reveal_strlit("overscroll-behavior-y");
    reveal_strlit("clip");
    assert("overflow"@.len() == 8 && "overflow"@[0] == 'o' && "overflow"@[1] == 'v' && "overflow"@[2] == 'e' && "overflow"@[3] == 'r' && "overflow"@[4] == 'f' && "overflow"@[5] == 'l' && "overflow"@[6] == 'o' && "overflow"@[7] == 'w');
    assert("overflow-x"@.len() == 10 && "overflow-x"@[0] == 'o' && "overflow-x"@[1] == 'v' && "overflow-x"@[2] == 'e' && "overflow-x"@[3] == 'r' && "overflow-x"@[4] == 'f' && "overflow-x"@[5] == 'l' && "overflow-x"@[6] == 'o' && "overflow-x"@[7] == 'w' && "overflow-x"@[8] == '-' && "overflow-x"@[9] == 'x');
    assert("overflow-y"@.len() == 10 && "overflow-y"@[0] == 'o' && "overflow-y"@[1] == 'v' && "overflow-y"@[2] == 'e' && "overflow-y"@[3] == 'r' && "overflow-y"@[4] == 'f' && "overflow-y"@[5] == 'l' && "overflow-y"@[6] == 'o' && "overflow-y"@[7] == 'w' && "overflow-y"@[8] == '-' && "overflow-y"@[9] == 'y');
    assert("overscroll-behavior"@.len() == 19 && "overscroll-behavior"@[0] == 'o' && "overscroll-behavior"@[1] == 'v' && "overscroll-behavior"@[2] == 'e' && "overscroll-behavior"@[3] == 'r' && "overscroll-behavior"@[4] == 's' && "overscroll-behavior"@[5] == 'c' && "overscroll-behavior"@[6] == 'r' && "overscroll-behavior"@[7] == 'o' && "overscroll-behavior"@[8] == 'l' && "overscroll-behavior"@[9] == 'l' && "overscroll-behavior"@[10] == '-' && "overscroll-behavior"@[11] == 'b' && "overscroll-behavior"@[12] == 'e' && "overscroll-behavior"@[13] == 'h' && "overscroll-behavior"@[14] == 'a' && "overscroll-behavior"@[15] == 'v' && "overscroll-behavior"@[16] == 'i' && "overscroll-behavior"@[17] == 'o' && "overscroll-behavior"@[18] == 'r');
    assert("overscroll-behavior-x"@.len() == 21 && "overscroll-behavior-x"@[0] == 'o' && "overscroll-behavior-x"@[1] == 'v' && "overscroll-behavior-x"@[2] == 'e' && "overscroll-behavior-x"@[3] == 'r' && "overscroll-behavior-x"@[4] == 's' && "overscroll-behavior-x"@[5] == 'c' && "overscroll-behavior-x"@[6] == 'r' && "overscroll-behavior-x"@[7] == 'o' && "overscroll-behavior-x"@[8] == 'l' && "overscroll-behavior-x"@[9] == 'l' && "overscroll-behavior-x"@[10] == '-' && "overscroll-behavior-x"@[11] == 'b' && "overscroll-behavior-x"@[12] == 'e' && "overscroll-behavior-x"@[13] == 'h' && "overscroll-behavior-x"@[14] == 'a' && "overscroll-behavior-x"@[15] == 'v' && "overscroll-behavior-x"@[16] == 'i' && "overscroll-behavior-x"@[17] == 'o' && "overscroll-behavior-x"@[18] == 'r' && "overscroll-behavior-x"@[19] == '-' && "overscroll-behavior-x"@[20] == 'x');
    assert("overscroll-behavior-y"@.len() == 21 && "overscroll-behavior-y"@[0] == 'o' && "overscroll-behavior-y"@[1] == 'v' && "overscroll-behavior-y"@[2] == 'e' && "overscroll-behavior-y"@[3] == 'r' && "overscroll-behavior-y"@[4] == 's' && "overscroll-behavior-y"@[5] == 'c' && "overscroll-behavior-y"@[6] == 'r' && "overscroll-behavior-y"@[7] == 'o' && "overscroll-behavior-y"@[8] == 'l' && "overscroll-behavior-y"@[9] == 'l' && "overscroll-behavior-y"@[10] == '-' && "overscroll-behavior-y"@[11] == 'b' && "overscroll-behavior-y"@[12] == 'e' && "overscroll-behavior-y"@[13] == 'h' && "overscroll-behavior-y"@[14] == 'a' && "overscroll-behavior-y"@[15] == 'v' && "overscroll-behavior-y"@[16] == 'i' && "overscroll-behavior-y"@[17] == 'o' && "overscroll-behavior-y"@[18] == 'r' && "overscroll-behavior-y"@[19] == '-' && "overscroll-behavior-y"@[20] == 'y');
}

/// The families of the shorthands and their longhands.
#[verifier::rlimit(100)]
proof fn lemma_shorthand_prop_families(u: Seq<char>)
    ensures
        spec_prop_family("overflow"@, u) == "overflow"@,
        spec_prop_family("overflow-x"@, u) == "overflow-x"@,
        spec_prop_family("overflow-y"@, u) == "overflow-y"@,
        spec_prop_family("overscroll-behavior"@, u) == "overscroll"@,
        spec_prop_family("overscroll-behavior-x"@, u) == "overscroll-x"@,
        spec_prop_family("overscroll-behavior-y"@, u) == "overscroll-y"@,
        spec_prop_family("gap"@, u) == "gap"@,
        spec_prop_family("column-gap"@, u) == "gap-x"@,
        spec_prop_family("row-gap"@, u) == "gap-y"@,
        spec_prop_family("flex"@, u) == "flex"@,
        spec_prop_family("flex-basis"@, u) == "basis"@,
        spec_prop_family("flex-grow"@, u) == "grow"@,
        spec_prop_family("flex-shrink"@, u) == "shrink"@,
        spec_prop_family("inset"@, u) == "inset"@,
        spec_prop_family("inset-inline"@, u) == "inset-x"@,
        spec_prop_family("inset-block"@, u) == "inset-y"@,
        spec_prop_family("inset-inline-start"@, u) == "inset-s"@,
        spec_prop_family("inset-inline-end"@, u) == "inset-e"@,
        spec_prop_family("inset-block-start"@, u) == "inset-bs"@,
        spec_prop_family("inset-block-end"@, u) == "inset-be"@,
        spec_prop_family("top"@, u) == "top"@,
        spec_prop_family("right"@, u) == "right"@,
        spec_prop_family("bottom"@, u) == "bottom"@,
        spec_prop_family("left"@, u) == "left"@,
        spec_prop_family("border-radius"@, u) == "rounded"@,
        spec_prop_family("border-start-start-radius"@, u) == "rounded-ss"@,
        spec_prop_family("border-start-end-radius"@, u) == "rounded-se"@,
        spec_prop_family("border-end-start-radius"@, u) == "rounded-es"@,
        spec_prop_family("border-end-end-radius"@, u) == "rounded-ee"@,
        spec_prop_family("border-top-left-radius"@, u) == "rounded-tl"@,
        spec_prop_family("border-top-right-radius"@, u) == "rounded-tr"@,
        spec_prop_family("border-bottom-right-radius"@, u) == "rounded-br"@,
        spec_prop_family("border-bottom-left-radius"@, u) == "rounded-bl"@,
{
    lemma_shorthands_table_0_0();
    lemma_shorthands_table_0_1();
    lemma_shorthands_table_0_2();
    lemma_shorthands_table_1_0();
    lemma_shorthands_table_1_1();
    lemma_shorthands_table_1_2();
    lemma_shorthands_table_2_0();
    lemma_shorthands_table_2_1();
    lemma_shorthands_table_2_2();
    lemma_shorthands_table_3_0();
    lemma_shorthands_table_3_1();
    lemma_shorthands_table_4_0();
    lemma_shorthands_table_4_1();
    lemma_shorthands_table_5_0();
    lemma_shorthands_table_6_0();
    reveal_strlit("box-shadow");
    reveal_strlit("filter");
    reveal_strlit("translate");
    reveal_strlit("rotate");
    reveal_strlit("skew");
    reveal_strlit("color");
    reveal_strlit("touch-action");
    reveal_strlit("mask");
    reveal_strlit("overflow");
    reveal_strlit("overflow-x");
    reveal_strlit("overflow-y");
    reveal_strlit("overscroll-behavior");
    reveal_strlit("overscroll-behavior-x");
    reveal_strlit("overscroll-behavior-y");
    reveal_strlit("gap");
    reveal_strlit("column-gap");
    reveal_strlit("row-gap");
    reveal_strlit("flex");
    reveal_strlit("flex-basis");
    reveal_strlit("flex-grow");
    reveal_strlit("flex-shrink");
    reveal_strlit("inset");
    reveal_strlit("inset-inline");
    reveal_strlit("inset-block");
    reveal_strlit("inset-inline-start");
    reveal_strlit("inset-inline-end");
    reveal_strlit("inset-block-start");
    reveal_strlit("inset-block-end");
    reveal_strlit("top");
    reveal_strlit("right");
    reveal_strlit("bottom");
    reveal_strlit("left");
    reveal_strlit("border-radius");
    reveal_strlit("border-start-start-radius");
    reveal_strlit("border-start-end-radius");
    reveal_strlit("border-end-start-radius");
    reveal_strlit("border-end-end-radius");
    reveal_strlit("border-top-left-radius");
    reveal_strlit("border-top-right-radius");
    reveal_strlit("border-bottom-right-radius");
    reveal_strlit("border-bottom-left-radius");
    assert("box-shadow"@.len() == 10 && "box-shadow"@[0] == 'b' && "box-shadow"@[1] == 'o' && "box-shadow"@[2] == 'x' && "box-shadow"@[3] == '-' && "box-shadow"@[4] == 's' && "box-shadow"@[5] == 'h' && "box-shadow"@[6] == 'a' && "box-shadow"@[7] == 'd' && "box-shadow"@[8] == 'o' && "box-shadow"@[9] == 'w');
    assert("filter"@.len() == 6 && "filter"@[0] == 'f' && "filter"@[1] == 'i' && "filter"@[2] == 'l' && "filter"@[3] == 't' && "filter"@[4] == 'e' && "filter"@[5] == 'r');
    assert("translate"@.len() == 9 && "translate"@[0] == 't' && "translate"@[1] == 'r' && "translate"@[2] == 'a' && "translate"@[3] == 'n' && "translate"@[4] == 's' && "translate"@[5] == 'l' && "translate"@[6] == 'a' && "translate"@[7] == 't' && "translate"@[8] == 'e');
    assert("rotate"@.len() == 6 && "rotate"@[0] == 'r' && "rotate"@[1] == 'o' && "rotate"@[2] == 't' && "rotate"@[3] == 'a' && "rotate"@[4] == 't' && "rotate"@[5] == 'e');
    assert("skew"@.len() == 4 && "skew"@[0] == 's' && "skew"@[1] == 'k' && "skew"@[2] == 'e' && "skew"@[3] == 'w');
    assert("color"@.len() == 5 && "color"@[0] == 'c' && "color"@[1] == 'o' && "color"@[2] == 'l' && "color"@[3] == 'o' && "color"@[4] == 'r');
    assert("touch-action"@.len() == 12 && "touch-action"@[0] == 't' && "touch-action"@[1] == 'o' && "touch-action"@[2] == 'u' && "touch-action"@[3] == 'c' && "touch-action"@[4] == 'h' && "touch-action"@[5] == '-' && "touch-action"@[6] == 'a' && "touch-action"@[7] == 'c' && "touch-action"@[8] == 't' && "touch-action"@[9] == 'i' && "touch-action"@[10] == 'o' && "touch-action"@[11] == 'n');
    assert("mask"@.len() == 4 && "mask"@[0] == 'm' && "mask"@[1] == 'a' && "mask"@[2] == 's' && "mask"@[3] == 'k');
    assert("overflow"@.len() == 8 && "overflow"@[0] == 'o' && "overflow"@[1] == 'v' && "overflow"@[2] == 'e' && "overflow"@[3] == 'r' && "overflow"@[4] == 'f' && "overflow"@[5] == 'l' && "overflow"@[6] == 'o' && "overflow"@[7] == 'w');
    assert("overflow-x"@.len() == 10 && "overflow-x"@[0] == 'o' && "overflow-x"@[1] == 'v' && "overflow-x"@[2] == 'e' && "overflow-x"@[3] == 'r' && "overflow-x"@[4] == 'f' && "overflow-x"@[5] == 'l' && "overflow-x"@[6] == 'o' && "overflow-x"@[7] == 'w' && "overflow-x"@[8] == '-' && "overflow-x"@[9] == 'x');
    assert("overflow-y"@.len() == 10 && "overflow-y"@[0] == 'o' && "overflow-y"@[1] == 'v' && "overflow-y"@[2] == 'e' && "overflow-y"@[3] == 'r' && "overflow-y"@[4] == 'f' && "overflow-y"@[5] == 'l' && "overflow-y"@[6] == 'o' && "overflow-y"@[7] == 'w' && "overflow-y"@[8] == '-' && "overflow-y"@[9] == 'y');
    assert("overscroll-behavior"@.len() == 19 && "overscroll-behavior"@[0] == 'o' && "overscroll-behavior"@[1] == 'v' && "overscroll-behavior"@[2] == 'e' && "overscroll-behavior"@[3] == 'r' && "overscroll-behavior"@[4] == 's' && "overscroll-behavior"@[5] == 'c' && "overscroll-behavior"@[6] == 'r' && "overscroll-behavior"@[7] == 'o' && "overscroll-behavior"@[8] == 'l' && "overscroll-behavior"@[9] == 'l' && "overscroll-behavior"@[10] == '-' && "overscroll-behavior"@[11] == 'b' && "overscroll-behavior"@[12] == 'e' && "overscroll-behavior"@[13] == 'h' && "overscroll-behavior"@[14] == 'a' && "overscroll-behavior"@[15] == 'v' && "overscroll-behavior"@[16] == 'i' && "overscroll-behavior"@[17] == 'o' && "overscroll-behavior"@[18] == 'r');
    assert("overscroll-behavior-x"@.len() == 21 && "overscroll-behavior-x"@[0] == 'o' && "overscroll-behavior-x"@[1] == 'v' && "overscroll-behavior-x"@[2] == 'e' && "overscroll-behavior-x"@[3] == 'r' && "overscroll-behavior-x"@[4] == 's' && "overscroll-behavior-x"@[5] == 'c' && "overscroll-behavior-x"@[6] == 'r' && "overscroll-behavior-x"@[7] == 'o' && "overscroll-behavior-x"@[8] == 'l' && "overscroll-behavior-x"@[9] == 'l' && "overscroll-behavior-x"@[10] == '-' && "overscroll-behavior-x"@[11] == 'b' && "overscroll-behavior-x"@[12] == 'e' && "overscroll-behavior-x"@[13] == 'h' && "overscroll-behavior-x"@[14] == 'a' && "overscroll-behavior-x"@[15] == 'v' && "overscroll-behavior-x"@[16] == 'i' && "overscroll-behavior-x"@[17] == 'o' && "overscroll-behavior-x"@[18] == 'r' && "overscroll-behavior-x"@[19] == '-' && "overscroll-behavior-x"@[20] == 'x');
    assert("overscroll-behavior-y"@.len() == 21 && "overscroll-behavior-y"@[0] == 'o' && "overscroll-behavior-y"@[1] == 'v' && "overscroll-behavior-y"@[2] == 'e' && "overscroll-behavior-y"@[3] == 'r' && "overscroll-behavior-y"@[4] == 's' && "overscroll-behavior-y"@[5] == 'c' && "overscroll-behavior-y"@[6] == 'r' && "overscroll-behavior-y"@[7] == 'o' && "overscroll-behavior-y"@[8] == 'l' && "overscroll-behavior-y"@[9] == 'l' && "overscroll-behavior-y"@[10] == '-' && "overscroll-behavior-y"@[11] == 'b' && "overscroll-behavior-y"@[12] == 'e' && "overscroll-behavior-y"@[13] == 'h' && "overscroll-behavior-y"@[14] == 'a' && "overscroll-behavior-y"@[15] == 'v' && "overscroll-behavior-y"@[16] == 'i' && "overscroll-behavior-y"@[17] == 'o' && "overscroll-behavior-y"@[18] == 'r' && "overscroll-behavior-y"@[19] == '-' && "overscroll-behavior-y"@[20] == 'y');
    assert("gap"@.len() == 3 && "gap"@[0] == 'g' && "gap"@[1] == 'a' && "gap"@[2] == 'p');
    assert("column-gap"@.len() == 10 && "column-gap"@[0] == 'c' && "column-gap"@[1] == 'o' && "column-gap"@[2] == 'l' && "column-gap"@[3] == 'u' && "column-gap"@[4] == 'm' && "column-gap"@[5] == 'n' && "column-gap"@[6] == '-' && "column-gap"@[7] == 'g' && "column-gap"@[8] == 'a' && "column-gap"@[9] == 'p');
    assert("row-gap"@.len() == 7 && "row-gap"@[0] == 'r' && "row-gap"@[1] == 'o' && "row-gap"@[2] == 'w' && "row-gap"@[3] == '-' && "row-gap"@[4] == 'g' && "row-gap"@[5] == 'a' && "row-gap"@[6] == 'p');
    assert("flex"@.len() == 4 && "flex"@[0] == 'f' && "flex"@[1] == 'l' && "flex"@[2] == 'e' && "flex"@[3] == 'x');
    assert("flex-basis"@.len() == 10 && "flex-basis"@[0] == 'f' && "flex-basis"@[1] == 'l' && "flex-basis"@[2] == 'e' && "flex-basis"@[3] == 'x' && "flex-basis"@[4] == '-' && "flex-basis"@[5] == 'b' && "flex-basis"@[6] == 'a' && "flex-basis"@[7] == 's' && "flex-basis"@[8] == 'i' && "flex-basis"@[9] == 's');
    assert("flex-grow"@.len() == 9 && "flex-grow"@[0] == 'f' && "flex-grow"@[1] == 'l' && "flex-grow"@[2] == 'e' && "flex-grow"@[3] == 'x' && "flex-grow"@[4] == '-' && "flex-grow"@[5] == 'g' && "flex-grow"@[6] == 'r' && "flex-grow"@[7] == 'o' && "flex-grow"@[8] == 'w');
    assert("flex-shrink"@.len() == 11 && "flex-shrink"@[0] == 'f' && "flex-shrink"@[1] == 'l' && "flex-shrink"@[2] == 'e' && "flex-shrink"@[3] == 'x' && "flex-shrink"@[4] == '-' && "flex-shrink"@[5] == 's' && "flex-shrink"@[6] == 'h' && "flex-shrink"@[7] == 'r' && "flex-shrink"@[8] == 'i' && "flex-shrink"@[9] == 'n' && "flex-shrink"@[10] == 'k');
    assert("inset"@.len() == 5 && "inset"@[0] == 'i' && "inset"@[1] == 'n' && "inset"@[2] == 's' && "inset"@[3] == 'e' && "inset"@[4] == 't');
    assert("inset-inline"@.len() == 12 && "inset-inline"@[0] == 'i' && "inset-inline"@[1] == 'n' && "inset-inline"@[2] == 's' && "inset-inline"@[3] == 'e' && "inset-inline"@[4] == 't' && "inset-inline"@[5] == '-' && "inset-inline"@[6] == 'i' && "inset-inline"@[7] == 'n' && "inset-inline"@[8] == 'l' && "inset-inline"@[9] == 'i' && "inset-inline"@[10] == 'n' && "inset-inline"@[11] == 'e');
    assert("inset-block"@.len() == 11 && "inset-block"@[0] == 'i' && "inset-block"@[1] == 'n' && "inset-block"@[2] == 's' && "inset-block"@[3] == 'e' && "inset-block"@[4] == 't' && "inset-block"@[5] == '-' && "inset-block"@[6] == 'b' && "inset-block"@[7] == 'l' && "inset-block"@[8] == 'o' && "inset-block"@[9] == 'c' && "inset-block"@[10] == 'k');
    assert("inset-inline-start"@.len() == 18 && "inset-inline-start"@[0] == 'i' && "inset-inline-start"@[1] == 'n' && "inset-inline-start"@[2] == 's' && "inset-inline-start"@[3] == 'e' && "inset-inline-start"@[4] == 't' && "inset-inline-start"@[5] == '-' && "inset-inline-start"@[6] == 'i' && "inset-inline-start"@[7] == 'n' && "inset-inline-start"@[8] == 'l' && "inset-inline-start"@[9] == 'i' && "inset-inline-start"@[10] == 'n' && "inset-inline-start"@[11] == 'e' && "inset-inline-start"@[12] == '-' && "inset-inline-start"@[13] == 's' && "inset-inline-start"@[14] == 't' && "inset-inline-start"@[15] == 'a' && "inset-inline-start"@[16] == 'r' && "inset-inline-start"@[17] == 't');
    assert("inset-inline-end"@.len() == 16 && "inset-inline-end"@[0] == 'i' && "inset-inline-end"@[1] == 'n' && "inset-inline-end"@[2] == 's' && "inset-inline-end"@[3] == 'e' && "inset-inline-end"@[4] == 't' && "inset-inline-end"@[5] == '-' && "inset-inline-end"@[6] == 'i' && "inset-inline-end"@[7] == 'n' && "inset-inline-end"@[8] == 'l' && "inset-inline-end"@[9] == 'i' && "inset-inline-end"@[10] == 'n' && "inset-inline-end"@[11] == 'e' && "inset-inline-end"@[12] == '-' && "inset-inline-end"@[13] == 'e' && "inset-inline-end"@[14] == 'n' && "inset-inline-end"@[15] == 'd');
    assert("inset-block-start"@.len() == 17 && "inset-block-start"@[0] == 'i' && "inset-block-start"@[1] == 'n' && "inset-block-start"@[2] == 's' && "inset-block-start"@[3] == 'e' && "inset-block-start"@[4] == 't' && "inset-block-start"@[5] == '-' && "inset-block-start"@[6] == 'b' && "inset-block-start"@[7] == 'l' && "inset-block-start"@[8] == 'o' && "inset-block-start"@[9] == 'c' && "inset-block-start"@[10] == 'k' && "inset-block-start"@[11] == '-' && "inset-block-start"@[12] == 's' && "inset-block-start"@[13] == 't' && "inset-block-start"@[14] == 'a' && "inset-block-start"@[15] == 'r' && "inset-block-start"@[16] == 't');
    assert("inset-block-end"@.len() == 15 && "inset-block-end"@[0] == 'i' && "inset-block-end"@[1] == 'n' && "inset-block-end"@[2] == 's' && "inset-block-end"@[3] == 'e' && "inset-block-end"@[4] == 't' && "inset-block-end"@[5] == '-' && "inset-block-end"@[6] == 'b' && "inset-block-end"@[7] == 'l' && "inset-block-end"@[8] == 'o' && "inset-block-end"@[9] == 'c' && "inset-block-end"@[10] == 'k' && "inset-block-end"@[11] == '-' && "inset-block-end"@[12] == 'e' && "inset-block-end"@[13] == 'n' && "inset-block-end"@[14] == 'd');
    assert("top"@.len() == 3 && "top"@[0] == 't' && "top"@[1] == 'o' && "top"@[2] == 'p');
    assert("right"@.len() == 5 && "right"@[0] == 'r' && "right"@[1] == 'i' && "right"@[2] == 'g' && "right"@[3] == 'h' && "right"@[4] == 't');
    assert("bottom"@.len() == 6 && "bottom"@[0] == 'b' && "bottom"@[1] == 'o' && "bottom"@[2] == 't' && "bottom"@[3] == 't' && "bottom"@[4] == 'o' && "bottom"@[5] == 'm');
    assert("left"@.len() == 4 && "left"@[0] == 'l' && "left"@[1] == 'e' && "left"@[2] == 'f' && "left"@[3] == 't');
    assert("border-radius"@.len() == 13 && "border-radius"@[0] == 'b' && "border-radius"@[1] == 'o' && "border-radius"@[2] == 'r' && "border-radius"@[3] == 'd' && "border-radius"@[4] == 'e' && "border-radius"@[5] == 'r' && "border-radius"@[6] == '-' && "border-radius"@[7] == 'r' && "border-radius"@[8] == 'a' && "border-radius"@[9] == 'd' && "border-radius"@[10] == 'i' && "border-radius"@[11] == 'u' && "border-radius"@[12] == 's');
    assert("border-start-start-radius"@.len() == 25 && "border-start-start-radius"@[0] == 'b' && "border-start-start-radius"@[1] == 'o' && "border-start-start-radius"@[2] == 'r' && "border-start-start-radius"@[3] == 'd' && "border-start-start-radius"@[4] == 'e' && "border-start-start-radius"@[5] == 'r' && "border-start-start-radius"@[6] == '-' && "border-start-start-radius"@[7] == 's' && "border-start-start-radius"@[8] == 't' && "border-start-start-radius"@[9] == 'a' && "border-start-start-radius"@[10] == 'r' && "border-start-start-radius"@[11] == 't' && "border-start-start-radius"@[12] == '-' && "border-start-start-radius"@[13] == 's' && "border-start-start-radius"@[14] == 't' && "border-start-start-radius"@[15] == 'a' && "border-start-start-radius"@[16] == 'r' && "border-start-start-radius"@[17] == 't' && "border-start-start-radius"@[18] == '-' && "border-start-start-radius"@[19] == 'r' && "border-start-start-radius"@[20] == 'a' && "border-start-start-radius"@[21] == 'd' && "border-start-start-radius"@[22] == 'i' && "border-start-start-radius"@[23] == 'u' && "border-start-start-radius"@[24] == 's');
    assert("border-start-end-radius"@.len() == 23 && "border-start-end-radius"@[0] == 'b' && "border-start-end-radius"@[1] == 'o' && "border-start-end-radius"@[2] == 'r' && "border-start-end-radius"@[3] == 'd' && "border-start-end-radius"@[4] == 'e' && "border-start-end-radius"@[5] == 'r' && "border-start-end-radius"@[6] == '-' && "border-start-end-radius"@[7] == 's' && "border-start-end-radius"@[8] == 't' && "border-start-end-radius"@[9] == 'a' && "border-start-end-radius"@[10] == 'r' && "border-start-end-radius"@[11] == 't' && "border-start-end-radius"@[12] == '-' && "border-start-end-radius"@[13] == 'e' && "border-start-end-radius"@[14] == 'n' && "border-start-end-radius"@[15] == 'd' && "border-start-end-radius"@[16] == '-' && "border-start-end-radius"@[17] == 'r' && "border-start-end-radius"@[18] == 'a' && "border-start-end-radius"@[19] == 'd' && "border-start-end-radius"@[20] == 'i' && "border-start-end-radius"@[21] == 'u' && "border-start-end-radius"@[22] == 's');
    assert("border-end-start-radius"@.len() == 23 && "border-end-start-radius"@[0] == 'b' && "border-end-start-radius"@[1] == 'o' && "border-end-start-radius"@[2] == 'r' && "border-end-start-radius"@[3] == 'd' && "border-end-start-radius"@[4] == 'e' && "border-end-start-radius"@[5] == 'r' && "border-end-start-radius"@[6] == '-' && "border-end-start-radius"@[7] == 'e' && "border-end-start-radius"@[8] == 'n' && "border-end-start-radius"@[9] == 'd' && "border-end-start-radius"@[10] == '-' && "border-end-start-radius"@[11] == 's' && "border-end-start-radius"@[12] == 't' && "border-end-start-radius"@[13] == 'a' && "border-end-start-radius"@[14] == 'r' && "border-end-start-radius"@[15] == 't' && "border-end-start-radius"@[16] == '-' && "border-end-start-radius"@[17] == 'r' && "border-end-start-radius"@[18] == 'a' && "border-end-start-radius"@[19] == 'd' && "border-end-start-radius"@[20] == 'i' && "border-end-start-radius"@[21] == 'u' && "border-end-start-radius"@[22] == 's');
    assert("border-end-end-radius"@.len() == 21 && "border-end-end-radius"@[0] == 'b' && "border-end-end-radius"@[1] == 'o' && "border-end-end-radius"@[2] == 'r' && "border-end-end-radius"@[3] == 'd' && "border-end-end-radius"@[4] == 'e' && "border-end-end-radius"@[5] == 'r' && "border-end-end-radius"@[6] == '-' && "border-end-end-radius"@[7] == 'e' && "border-end-end-radius"@[8] == 'n' && "border-end-end-radius"@[9] == 'd' && "border-end-end-radius"@[10] == '-' && "border-end-end-radius"@[11] == 'e' && "border-end-end-radius"@[12] == 'n' && "border-end-end-radius"@[13] == 'd' && "border-end-end-radius"@[14] == '-' && "border-end-end-radius"@[15] == 'r' && "border-end-end-radius"@[16] == 'a' && "border-end-end-radius"@[17] == 'd' && "border-end-end-radius"@[18] == 'i' && "border-end-end-radius"@[19] == 'u' && "border-end-end-radius"@[20] == 's');
    assert("border-top-left-radius"@.len() == 22 && "border-top-left-radius"@[0] == 'b' && "border-top-left-radius"@[1] == 'o' && "border-top-left-radius"@[2] == 'r' && "border-top-left-radius"@[3] == 'd' && "border-top-left-radius"@[4] == 'e' && "border-top-left-radius"@[5] == 'r' && "border-top-left-radius"@[6] == '-' && "border-top-left-radius"@[7] == 't' && "border-top-left-radius"@[8] == 'o' && "border-top-left-radius"@[9] == 'p' && "border-top-left-radius"@[10] == '-' && "border-top-left-radius"@[11] == 'l' && "border-top-left-radius"@[12] == 'e' && "border-top-left-radius"@[13] == 'f' && "border-top-left-radius"@[14] == 't' && "border-top-left-radius"@[15] == '-' && "border-top-left-radius"@[16] == 'r' && "border-top-left-radius"@[17] == 'a' && "border-top-left-radius"@[18] == 'd' && "border-top-left-radius"@[19] == 'i' && "border-top-left-radius"@[20] == 'u' && "border-top-left-radius"@[21] == 's');
    assert("border-top-right-radius"@.len() == 23 && "border-top-right-radius"@[0] == 'b' && "border-top-right-radius"@[1] == 'o' && "border-top-right-radius"@[2] == 'r' && "border-top-right-radius"@[3] == 'd' && "border-top-right-radius"@[4] == 'e' && "border-top-right-radius"@[5] == 'r' && "border-top-right-radius"@[6] == '-' && "border-top-right-radius"@[7] == 't' && "border-top-right-radius"@[8] == 'o' && "border-top-right-radius"@[9] == 'p' && "border-top-right-radius"@[10] == '-' && "border-top-right-radius"@[11] == 'r' && "border-top-right-radius"@[12] == 'i' && "border-top-right-radius"@[13] == 'g' && "border-top-right-radius"@[14] == 'h' && "border-top-right-radius"@[15] == 't' && "border-top-right-radius"@[16] == '-' && "border-top-right-radius"@[17] == 'r' && "border-top-right-radius"@[18] == 'a' && "border-top-right-radius"@[19] == 'd' && "border-top-right-radius"@[20] == 'i' && "border-top-right-radius"@[21] == 'u' && "border-top-right-radius"@[22] == 's');
    assert("border-bottom-right-radius"@.len() == 26 && "border-bottom-right-radius"@[0] == 'b' && "border-bottom-right-radius"@[1] == 'o' && "border-bottom-right-radius"@[2] == 'r' && "border-bottom-right-radius"@[3] == 'd' && "border-bottom-right-radius"@[4] == 'e' && "border-bottom-right-radius"@[5] == 'r' && "border-bottom-right-radius"@[6] == '-' && "border-bottom-right-radius"@[7] == 'b' && "border-bottom-right-radius"@[8] == 'o' && "border-bottom-right-radius"@[9] == 't' && "border-bottom-right-radius"@[10] == 't' && "border-bottom-right-radius"@[11] == 'o' && "border-bottom-right-radius"@[12] == 'm' && "border-bottom-right-radius"@[13] == '-' && "border-bottom-right-radius"@[14] == 'r' && "border-bottom-right-radius"@[15] == 'i' && "border-bottom-right-radius"@[16] == 'g' && "border-bottom-right-radius"@[17] == 'h' && "border-bottom-right-radius"@[18] == 't' && "border-bottom-right-radius"@[19] == '-' && "border-bottom-right-radius"@[20] == 'r' && "border-bottom-right-radius"@[21] == 'a' && "border-bottom-right-radius"@[22] == 'd' && "border-bottom-right-radius"@[23] == 'i' && "border-bottom-right-radius"@[24] == 'u' && "border-bottom-right-radius"@[25] == 's');
    assert("border-bottom-left-radius"@.len() == 25 && "border-bottom-left-radius"@[0] == 'b' && "border-bottom-left-radius"@[1] == 'o' && "border-bottom-left-radius"@[2] == 'r' && "border-bottom-left-radius"@[3] == 'd' && "border-bottom-left-radius"@[4] == 'e' && "border-bottom-left-radius"@[5] == 'r' && "border-bottom-left-radius"@[6] == '-' && "border-bottom-left-radius"@[7] == 'b' && "border-bottom-left-radius"@[8] == 'o' && "border-bottom-left-radius"@[9] == 't' && "border-bottom-left-radius"@[10] == 't' && "border-bottom-left-radius"@[11] == 'o' && "border-bottom-left-radius"@[12] == 'm' && "border-bottom-left-radius"@[13] == '-' && "border-bottom-left-radius"@[14] == 'l' && "border-bottom-left-radius"@[15] == 'e' && "border-bottom-left-radius"@[16] == 'f' && "border-bottom-left-radius"@[17] == 't' && "border-bottom-left-radius"@[18] == '-' && "border-bottom-left-radius"@[19] == 'r' && "border-bottom-left-radius"@[20] == 'a' && "border-bottom-left-radius"@[21] == 'd' && "border-bottom-left-radius"@[22] == 'i' && "border-bottom-left-radius"@[23] == 'u' && "border-bottom-left-radius"@[24] == 's');
}

/// The conflict edges of the shorthands' families.
#[verifier::rlimit(100)]
proof fn lemma_shorthand_edges()
    ensures
        spec_conflict_edges("overflow"@) == seq!["overflow-x"@, "overflow-y"@],
        spec_conflict_edges("overscroll"@) == seq!["overscroll-x"@, "overscroll-y"@],
        spec_conflict_edges("gap"@) == seq!["gap-x"@, "gap-y"@],
        spec_conflict_edges("flex"@) == seq!["basis"@, "grow"@, "shrink"@],
        spec_conflict_edges("inset"@) == seq!["inset-x"@, "inset-y"@, "inset-bs"@, "inset-be"@, "inset-s"@, "inset-e"@, "top"@, "right"@, "bottom"@, "left"@],
        spec_conflict_edges("rounded"@) == seq!["rounded-s"@, "rounded-e"@, "rounded-t"@, "rounded-r"@, "rounded-b"@, "rounded-l"@, "rounded-ss"@, "rounded-se"@, "rounded-ee"@, "rounded-es"@, "rounded-tl"@, "rounded-tr"@, "rounded-br"@, "rounded-bl"@],
{
    reveal_strlit("container-named");
    reveal_strlit("overflow");
    reveal_strlit("overscroll");
    reveal_strlit("inset");
    reveal_strlit("inset-x");
    reveal_strlit("inset-y");
    reveal_strlit("flex");
    reveal_strlit("gap");
    reveal_strlit("p");
    reveal_strlit("px");
    reveal_strlit("py");
    reveal_strlit("m");
    reveal_strlit("mx");
    reveal_strlit("my");
    reveal_strlit("size");
    reveal_strlit("fvn-normal");
    reveal_strlit("fvn-ordinal");
    reveal_strlit("fvn-slashed-zero");
    reveal_strlit("fvn-figure");
    reveal_strlit("fvn-spacing");
    reveal_strlit("fvn-fraction");
    reveal_strlit("line-clamp");
    reveal_strlit("rounded");
    assert("container-named"@.len() == 15 && "container-named"@[0] == 'c' && "container-named"@[1] == 'o' && "container-named"@[2] == 'n' && "container-named"@[3] == 't' && "container-named"@[4] == 'a' && "container-named"@[5] == 'i' && "container-named"@[6] == 'n' && "container-named"@[7] == 'e' && "container-named"@[8] == 'r' && "container-named"@[9] == '-' && "container-named"@[10] == 'n' && "container-named"@[11] == 'a' && "container-named"@[12] == 'm' && "container-named"@[13] == 'e' && "container-named"@[14] == 'd');
    assert("overflow"@.len() == 8 && "overflow"@[0] == 'o' && "overflow"@[1] == 'v' && "overflow"@[2] == 'e' && "overflow"@[3] == 'r' && "overflow"@[4] == 'f' && "overflow"@[5] == 'l' && "overflow"@[6] == 'o' && "overflow"@[7] == 'w');
    assert("overscroll"@.len() == 10 && "overscroll"@[0] == 'o' && "overscroll"@[1] == 'v' && "overscroll"@[2] == 'e' && "overscroll"@[3] == 'r' && "overscroll"@[4] == 's' && "overscroll"@[5] == 'c' && "overscroll"@[6] == 'r' && "overscroll"@[7] == 'o' && "overscroll"@[8] == 'l' && "overscroll"@[9] == 'l');
    assert("inset"@.len() == 5 && "inset"@[0] == 'i' && "inset"@[1] == 'n' && "inset"@[2] == 's' && "inset"@[3] == 'e' && "inset"@[4] == 't');
    assert("inset-x"@.len() == 7 && "inset-x"@[0] == 'i' && "inset-x"@[1] == 'n' && "inset-x"@[2] == 's' && "inset-x"@[3] == 'e' && "inset-x"@[4] == 't' && "inset-x"@[5] == '-' && "inset-x"@[6] == 'x');
    assert("inset-y"@.len() == 7 && "inset-y"@[0] == 'i' && "inset-y"@[1] == 'n' && "inset-y"@[2] == 's' && "inset-y"@[3] == 'e' && "inset-y"@[4] == 't' && "inset-y"@[5] == '-' && "inset-y"@[6] == 'y');
    assert("flex"@.len() == 4 && "flex"@[0] == 'f' && "flex"@[1] == 'l' && "flex"@[2] == 'e' && "flex"@[3] == 'x');
    assert("gap"@.len() == 3 && "gap"@[0] == 'g' && "gap"@[1] == 'a' && "gap"@[2] == 'p');
    assert("p"@.len() == 1 && "p"@[0] == 'p');
    assert("px"@.len() == 2 && "px"@[0] == 'p' && "px"@[1] == 'x');
    assert("py"@.len() == 2 && "py"@[0] == 'p' && "py"@[1] == 'y');
    assert("m"@.len() == 1 && "m"@[0] == 'm');
    assert("mx"@.len() == 2 && "mx"@[0] == 'm' && "mx"@[1] == 'x');
    assert("my"@.len() == 2 && "my"@[0] == 'm' && "my"@[1] == 'y');
    assert("size"@.len() == 4 && "size"@[0] == 's' && "size"@[1] == 'i' && "size"@[2] == 'z' && "size"@[3] == 'e');
    assert("fvn-normal"@.len() == 10 && "fvn-normal"@[0] == 'f' && "fvn-normal"@[1] == 'v' && "fvn-normal"@[2] == 'n' && "fvn-normal"@[3] == '-' && "fvn-normal"@[4] == 'n' && "fvn-normal"@[5] == 'o' && "fvn-normal"@[6] == 'r' && "fvn-normal"@[7] == 'm' && "fvn-normal"@[8] == 'a' && "fvn-normal"@[9] == 'l');
    assert("fvn-ordinal"@.len() == 11 && "fvn-ordinal"@[0] == 'f' && "fvn-ordinal"@[1] == 'v' && "fvn-ordinal"@[2] == 'n' && "fvn-ordinal"@[3] == '-' && "fvn-ordinal"@[4] == 'o' && "fvn-ordinal"@[5] == 'r' && "fvn-ordinal"@[6] == 'd' && "fvn-ordinal"@[7] == 'i' && "fvn-ordinal"@[8] == 'n' && "fvn-ordinal"@[9] == 'a' && "fvn-ordinal"@[10] == 'l');
    assert("fvn-slashed-zero"@.len() == 16 && "fvn-slashed-zero"@[0] == 'f' && "fvn-slashed-zero"@[1] == 'v' && "fvn-slashed-zero"@[2] == 'n' && "fvn-slashed-zero"@[3] == '-' && "fvn-slashed-zero"@[4] == 's' && "fvn-slashed-zero"@[5] == 'l' && "fvn-slashed-zero"@[6] == 'a' && "fvn-slashed-zero"@[7] == 's' && "fvn-slashed-zero"@[8] == 'h' && "fvn-slashed-zero"@[9] == 'e' && "fvn-slashed-zero"@[10] == 'd' && "fvn-slashed-zero"@[11] == '-' && "fvn-slashed-zero"@[12] == 'z' && "fvn-slashed-zero"@[13] == 'e' && "fvn-slashed-zero"@[14] == 'r' && "fvn-slashed-zero"@[15] == 'o');
    assert("fvn-figure"@.len() == 10 && "fvn-figure"@[0] == 'f' && "fvn-figure"@[1] == 'v' && "fvn-figure"@[2] == 'n' && "fvn-figure"@[3] == '-' && "fvn-figure"@[4] == 'f' && "fvn-figure"@[5] == 'i' && "fvn-figure"@[6] == 'g' && "fvn-figure"@[7] == 'u' && "fvn-figure"@[8] == 'r' && "fvn-figure"@[9] == 'e');
    assert("fvn-spacing"@.len() == 11 && "fvn-spacing"@[0] == 'f' && "fvn-spacing"@[1] == 'v' && "fvn-spacing"@[2] == 'n' && "fvn-spacing"@[3] == '-' && "fvn-spacing"@[4] == 's' && "fvn-spacing"@[5] == 'p' && "fvn-spacing"@[6] == 'a' && "fvn-spacing"@[7] == 'c' && "fvn-spacing"@[8] == 'i' && "fvn-spacing"@[9] == 'n' && "fvn-spacing"@[10] == 'g');
    assert("fvn-fraction"@.len() == 12 && "fvn-fraction"@[0] == 'f' && "fvn-fraction"@[1] == 'v' && "fvn-fraction"@[2] == 'n' && "fvn-fraction"@[3] == '-' && "fvn-fraction"@[4] == 'f' && "fvn-fraction"@[5] == 'r' && "fvn-fraction"@[6] == 'a' && "fvn-fraction"@[7] == 'c' && "fvn-fraction"@[8] == 't' && "fvn-fraction"@[9] == 'i' && "fvn-fraction"@[10] == 'o' && "fvn-fraction"@[11] == 'n');
    assert("line-clamp"@.len() == 10 && "line-clamp"@[0] == 'l' && "line-clamp"@[1] == 'i' && "line-clamp"@[2] == 'n' && "line-clamp"@[3] == 'e' && "line-clamp"@[4] == '-' && "line-clamp"@[5] == 'c' && "line-clamp"@[6] == 'l' && "line-clamp"@[7] == 'a' && "line-clamp"@[8] == 'm' && "line-clamp"@[9] == 'p');
    assert("rounded"@.len() == 7 && "rounded"@[0] == 'r' && "rounded"@[1] == 'o' && "rounded"@[2] == 'u' && "rounded"@[3] == 'n' && "rounded"@[4] == 'd' && "rounded"@[5] == 'e' && "rounded"@[6] == 'd');
}

/// The family of each shorthand of `css_shorthands`.
spec fn shorthand_family(a: int) -> Seq<char> {
    if a == 0 {
        "overflow"@
    } else if a == 1 {
        "overscroll"@
    } else if a == 2 {
        "gap"@
    } else if a == 3 {
        "flex"@
    } else if a == 4 {
        "inset"@
    } else {
        "rounded"@
    }
}

/// The families of the longhands of each shorthand of `css_shorthands`.
spec fn longhand_families(a: int) -> Seq<Seq<char>> {
    if a == 0 {
        seq!["overflow-x"@, "overflow-y"@]
    } else if a == 1 {
        seq!["overscroll-x"@, "overscroll-y"@]
    } else if a == 2 {
        seq!["gap-x"@, "gap-y"@]
    } else if a == 3 {
        seq!["basis"@, "grow"@, "shrink"@]
    } else if a == 4 {
        seq!["inset-x"@, "inset-y"@, "inset-s"@, "inset-e"@, "inset-bs"@, "inset-be"@, "top"@, "right"@, "bottom"@, "left"@]
    } else {
        seq!["rounded-ss"@, "rounded-se"@, "rounded-es"@, "rounded-ee"@, "rounded-tl"@, "rounded-tr"@, "rounded-br"@, "rounded-bl"@]
    }
}

/// The shorthand `overflow` against its longhands.
#[verifier::rlimit(100)]
proof fn lemma_shorthand_group_0(u: Seq<char>)
    ensures
        css_shorthands()[0] == ("overflow"@, seq!["overflow-x"@, "overflow-y"@]),
        spec_prop_family("overflow"@, u) == shorthand_family(0),
        forall|b: int| 0 <= b < 2 ==> spec_prop_family(#[trigger] css_shorthands()[0].1[b], u) == longhand_families(0)[b],
        forall|b: int| 0 <= b < 2 ==> spec_conflict_edges(shorthand_family(0)).contains(#[trigger] longhand_families(0)[b]),
        forall|b: int, c: int| 0 <= b < c < 2 ==> #[trigger] longhand_families(0)[b] != #[trigger] longhand_families(0)[c],
        forall|b: int| 0 <= b < 2 ==> #[trigger] longhand_families(0)[b] != shorthand_family(0),
{
    lemma_shorthand_edges();
    lemma_shorthand_prop_families(u);
    reveal_strlit("overflow");
    reveal_strlit("overflow-x");
    reveal_strlit("overflow-y");
    assert("overflow"@.len() == 8 && "overflow"@[0] == 'o' && "overflow"@[1] == 'v' && "overflow"@[2] == 'e' && "overflow"@[3] == 'r' && "overflow"@[4] == 'f' && "overflow"@[5] == 'l' && "overflow"@[6] == 'o' && "overflow"@[7] == 'w');
    assert("overflow-x"@.len() == 10 && "overflow-x"@[0] == 'o' && "overflow-x"@[1] == 'v' && "overflow-x"@[2] == 'e' && "overflow-x"@[3] == 'r' && "overflow-x"@[4] == 'f' && "overflow-x"@[5] == 'l' && "overflow-x"@[6] == 'o' && "overflow-x"@[7] == 'w' && "overflow-x"@[8] == '-' && "overflow-x"@[9] == 'x');
    assert("overflow-y"@.len() == 10 && "overflow-y"@[0] == 'o' && "overflow-y"@[1] == 'v' && "overflow-y"@[2] == 'e' && "overflow-y"@[3] == 'r' && "overflow-y"@[4] == 'f' && "overflow-y"@[5] == 'l' && "overflow-y"@[6] == 'o' && "overflow-y"@[7] == 'w' && "overflow-y"@[8] == '-' && "overflow-y"@[9] == 'y');
    assert forall|b: int| 0 <= b < 2 implies spec_prop_family(#[trigger] css_shorthands()[0].1[b], u) == longhand_families(0)[b]
        && spec_conflict_edges(shorthand_family(0)).contains(longhand_families(0)[b]) by {
        if b == 0 {
            assert(spec_conflict_edges("overflow"@)[0] == "overflow-x"@);
        } else {
            assert(spec_conflict_edges("overflow"@)[1] == "overflow-y"@);
        }
    }
}

/// The shorthand `overscroll-behavior` against its longhands.
#[verifier::rlimit(100)]
proof fn lemma_shorthand_group_1(u: Seq<char>)
    ensures
        css_shorthands()[1] == ("overscroll-behavior"@, seq!["overscroll-behavior-x"@, "overscroll-behavior-y"@]),
        spec_prop_family("overscroll-behavior"@, u) == shorthand_family(1),
        forall|b: int| 0 <= b < 2 ==> spec_prop_family(#[trigger] css_shorthands()[1].1[b], u) == longhand_families(1)[b],
        forall|b: int| 0 <= b < 2 ==> spec_conflict_edges(shorthand_family(1)).contains(#[trigger] longhand_families(1)[b]),
        forall|b: int, c: int| 0 <= b < c < 2 ==> #[trigger] longhand_families(1)[b] != #[trigger] longhand_families(1)[c],
        forall|b: int| 0 <= b < 2 ==> #[trigger] longhand_families(1)[b] != shorthand_family(1),
{
    lemma_shorthand_edges();
    lemma_shorthand_prop_families(u);
    reveal_strlit("overscroll");
    reveal_strlit("overscroll-x");
    reveal_strlit("overscroll-y");
    assert("overscroll"@.len() == 10 && "overscroll"@[0] == 'o' && "overscroll"@[1] == 'v' && "overscroll"@[2] == 'e' && "overscroll"@[3] == 'r' && "overscroll"@[4] == 's' && "overscroll"@[5] == 'c' && "overscroll"@[6] == 'r' && "overscroll"@[7] == 'o' && "overscroll"@[8] == 'l' && "overscroll"@[9] == 'l');
    assert("overscroll-x"@.len() == 12 && "overscroll-x"@[0] == 'o' && "overscroll-x"@[1] == 'v' && "overscroll-x"@[2] == 'e' && "overscroll-x"@[3] == 'r' && "overscroll-x"@[4] == 's' && "overscroll-x"@[5] == 'c' && "overscroll-x"@[6] == 'r' && "overscroll-x"@[7] == 'o' && "overscroll-x"@[8] == 'l' && "overscroll-x"@[9] == 'l' && "overscroll-x"@[10] == '-' && "overscroll-x"@[11] == 'x');
    assert("overscroll-y"@.len() == 12 && "overscroll-y"@[0] == 'o' && "overscroll-y"@[1] == 'v' && "overscroll-y"@[2] == 'e' && "overscroll-y"@[3] == 'r' && "overscroll-y"@[4] == 's' && "overscroll-y"@[5] == 'c' && "overscroll-y"@[6] == 'r' && "overscroll-y"@[7] == 'o' && "overscroll-y"@[8] == 'l' && "overscroll-y"@[9] == 'l' && "overscroll-y"@[10] == '-' && "overscroll-y"@[11] == 'y');
    assert forall|b: int| 0 <= b < 2 implies spec_prop_family(#[trigger] css_shorthands()[1].1[b], u) == longhand_families(1)[b]
        && spec_conflict_edges(shorthand_family(1)).contains(longhand_families(1)[b]) by {
        if b == 0 {
            assert(spec_conflict_edges("overscroll"@)[0] == "overscroll-x"@);
        } else {
            assert(spec_conflict_edges("overscroll"@)[1] == "overscroll-y"@);
        }
    }
}

/// The shorthand `gap` against its longhands.
#[verifier::rlimit(100)]
proof fn lemma_shorthand_group_2(u: Seq<char>)
    ensures
        css_shorthands()[2] == ("gap"@, seq!["column-gap"@, "row-gap"@]),
        spec_prop_family("gap"@, u) == shorthand_family(2),
        forall|b: int| 0 <= b < 2 ==> spec_prop_family(#[trigger] css_shorthands()[2].1[b], u) == longhand_families(2)[b],
        forall|b: int| 0 <= b < 2 ==> spec_conflict_edges(shorthand_family(2)).contains(#[trigger] longhand_families(2)[b]),
        forall|b: int, c: int| 0 <= b < c < 2 ==> #[trigger] longhand_families(2)[b] != #[trigger] longhand_families(2)[c],
        forall|b: int| 0 <= b < 2 ==> #[trigger] longhand_families(2)[b] != shorthand_family(2),
{
    lemma_shorthand_edges();
    lemma_shorthand_prop_families(u);
    reveal_strlit("gap");
    reveal_strlit("gap-x");
    reveal_strlit("gap-y");
    assert("gap"@.len() == 3 && "gap"@[0] == 'g' && "gap"@[1] == 'a' && "gap"@[2] == 'p');
    assert("gap-x"@.len() == 5 && "gap-x"@[0] == 'g' && "gap-x"@[1] == 'a' && "gap-x"@[2] == 'p' && "gap-x"@[3] == '-' && "gap-x"@[4] == 'x');
    assert("gap-y"@.len() == 5 && "gap-y"@[0] == 'g' && "gap-y"@[1] == 'a' && "gap-y"@[2] == 'p' && "gap-y"@[3] == '-' && "gap-y"@[4] == 'y');
    assert forall|b: int| 0 <= b < 2 implies spec_prop_family(#[trigger] css_shorthands()[2].1[b], u) == longhand_families(2)[b]
        && spec_conflict_edges(shorthand_family(2)).contains(longhand_families(2)[b]) by {
        if b == 0 {
            assert(spec_conflict_edges("gap"@)[0] == "gap-x"@);
        } else {
            assert(spec_conflict_edges("gap"@)[1] == "gap-y"@);
        }
    }
}

/// The shorthand `flex` against its longhands.
#[verifier::rlimit(100)]
proof fn lemma_shorthand_group_3(u: Seq<char>)
    ensures
        css_shorthands()[3] == ("flex"@, seq!["flex-basis"@, "flex-grow"@, "flex-shrink"@]),
        spec_prop_family("flex"@, u) == shorthand_family(3),
        forall|b: int| 0 <= b < 3 ==> spec_prop_family(#[trigger] css_shorthands()[3].1[b], u) == longhand_families(3)[b],
        forall|b: int| 0 <= b < 3 ==> spec_conflict_edges(shorthand_family(3)).contains(#[trigger] longhand_families(3)[b]),
        forall|b: int, c: int| 0 <= b < c < 3 ==> #[trigger] longhand_families(3)[b] != #[trigger] longhand_families(3)[c],
        forall|b: int| 0 <= b < 3 ==> #[trigger] longhand_families(3)[b] != shorthand_family(3),
{
    lemma_shorthand_edges();
    lemma_shorthand_prop_families(u);
    reveal_strlit("flex");
    reveal_strlit("basis");
    reveal_strlit("grow");
    reveal_strlit("shrink");
    assert("flex"@.len() == 4 && "flex"@[0] == 'f' && "flex"@[1] == 'l' && "flex"@[2] == 'e' && "flex"@[3] == 'x');
    assert("basis"@.len() == 5 && "basis"@[0] == 'b' && "basis"@[1] == 'a' && "basis"@[2] == 's' && "basis"@[3] == 'i' && "basis"@[4] == 's');
    assert("grow"@.len() == 4 && "grow"@[0] == 'g' && "grow"@[1] == 'r' && "grow"@[2] == 'o' && "grow"@[3] == 'w');
    assert("shrink"@.len() == 6 && "shrink"@[0] == 's' && "shrink"@[1] == 'h' && "shrink"@[2] == 'r' && "shrink"@[3] == 'i' && "shrink"@[4] == 'n' && "shrink"@[5] == 'k');
    assert forall|b: int| 0 <= b < 3 implies spec_prop_family(#[trigger] css_shorthands()[3].1[b], u) == longhand_families(3)[b]
        && spec_conflict_edges(shorthand_family(3)).contains(longhand_families(3)[b]) by {
        if b == 0 {
            assert(spec_conflict_edges("flex"@)[0] == "basis"@);
        } else if b == 1 {
            assert(spec_conflict_edges("flex"@)[1] == "grow"@);
        } else {
            assert(spec_conflict_edges("flex"@)[2] == "shrink"@);
        }
    }
}

/// The shorthand `inset` against its longhands.
#[verifier::rlimit(100)]
proof fn lemma_shorthand_group_4(u: Seq<char>)
    ensures
        css_shorthands()[4] == ("inset"@, seq!["inset-inline"@, "inset-block"@, "inset-inline-start"@, "inset-inline-end"@, "inset-block-start"@, "inset-block-end"@, "top"@, "right"@, "bottom"@, "left"@]),
        spec_prop_family("inset"@, u) == shorthand_family(4),
        forall|b: int| 0 <= b < 10 ==> spec_prop_family(#[trigger] css_shorthands()[4].1[b], u) == longhand_families(4)[b],
        forall|b: int| 0 <= b < 10 ==> spec_conflict_edges(shorthand_family(4)).contains(#[trigger] longhand_families(4)[b]),
        forall|b: int, c: int| 0 <= b < c < 10 ==> #[trigger] longhand_families(4)[b] != #[trigger] longhand_families(4)[c],
        forall|b: int| 0 <= b < 10 ==> #[trigger] longhand_families(4)[b] != shorthand_family(4),
{
    lemma_shorthand_edges();
    lemma_shorthand_prop_families(u);
    reveal_strlit("inset");
    reveal_strlit("inset-x");
    reveal_strlit("inset-y");
    reveal_strlit("inset-s");
    reveal_strlit("inset-e");
    reveal_strlit("inset-bs");
    reveal_strlit("inset-be");
    reveal_strlit("top");
    reveal_strlit("right");
    reveal_strlit("bottom");
    reveal_strlit("left");
    assert("inset"@.len() == 5 && "inset"@[0] == 'i' && "inset"@[1] == 'n' && "inset"@[2] == 's' && "inset"@[3] == 'e' && "inset"@[4] == 't');
    assert("inset-x"@.len() == 7 && "inset-x"@[0] == 'i' && "inset-x"@[1] == 'n' && "inset-x"@[2] == 's' && "inset-x"@[3] == 'e' && "inset-x"@[4] == 't' && "inset-x"@[5] == '-' && "inset-x"@[6] == 'x');
    assert("inset-y"@.len() == 7 && "inset-y"@[0] == 'i' && "inset-y"@[1] == 'n' && "inset-y"@[2] == 's' && "inset-y"@[3] == 'e' && "inset-y"@[4] == 't' && "inset-y"@[5] == '-' && "inset-y"@[6] == 'y');
    assert("inset-s"@.len() == 7 && "inset-s"@[0] == 'i' && "inset-s"@[1] == 'n' && "inset-s"@[2] == 's' && "inset-s"@[3] == 'e' && "inset-s"@[4] == 't' && "inset-s"@[5] == '-' && "inset-s"@[6] == 's');
    assert("inset-e"@.len() == 7 && "inset-e"@[0] == 'i' && "inset-e"@[1] == 'n' && "inset-e"@[2] == 's' && "inset-e"@[3] == 'e' && "inset-e"@[4] == 't' && "inset-e"@[5] == '-' && "inset-e"@[6] == 'e');
    assert("inset-bs"@.len() == 8 && "inset-bs"@[0] == 'i' && "inset-bs"@[1] == 'n' && "inset-bs"@[2] == 's' && "inset-bs"@[3] == 'e' && "inset-bs"@[4] == 't' && "inset-bs"@[5] == '-' && "inset-bs"@[6] == 'b' && "inset-bs"@[7] == 's');
    assert("inset-be"@.len() == 8 && "inset-be"@[0] == 'i' && "inset-be"@[1] == 'n' && "inset-be"@[2] == 's' && "inset-be"@[3] == 'e' && "inset-be"@[4] == 't' && "inset-be"@[5] == '-' && "inset-be"@[6] == 'b' && "inset-be"@[7] == 'e');
    assert("top"@.len() == 3 && "top"@[0] == 't' && "top"@[1] == 'o' && "top"@[2] == 'p');
    assert("right"@.len() == 5 && "right"@[0] == 'r' && "right"@[1] == 'i' && "right"@[2] == 'g' && "right"@[3] == 'h' && "right"@[4] == 't');
    assert("bottom"@.len() == 6 && "bottom"@[0] == 'b' && "bottom"@[1] == 'o' && "bottom"@[2] == 't' && "bottom"@[3] == 't' && "bottom"@[4] == 'o' && "bottom"@[5] == 'm');
    assert("left"@.len() == 4 && "left"@[0] == 'l' && "left"@[1] == 'e' && "left"@[2] == 'f' && "left"@[3] == 't');
    assert forall|b: int| 0 <= b < 10 implies spec_prop_family(#[trigger] css_shorthands()[4].1[b], u) == longhand_families(4)[b]
        && spec_conflict_edges(shorthand_family(4)).contains(longhand_families(4)[b]) by {
        if b == 0 {
            assert(spec_conflict_edges("inset"@)[0] == "inset-x"@);
        } else if b == 1 {
            assert(spec_conflict_edges("inset"@)[1] == "inset-y"@);
        } else if b == 2 {
            assert(spec_conflict_edges("inset"@)[4] == "inset-s"@);
        } else if b == 3 {
            assert(spec_conflict_edges("inset"@)[5] == "inset-e"@);
        } else if b == 4 {
            assert(spec_conflict_edges("inset"@)[2] == "inset-bs"@);
        } else if b == 5 {
            assert(spec_conflict_edges("inset"@)[3] == "inset-be"@);
        } else if b == 6 {
            assert(spec_conflict_edges("inset"@)[6] == "top"@);
        } else if b == 7 {
            assert(spec_conflict_edges("inset"@)[7] == "right"@);
        } else if b == 8 {
            assert(spec_conflict_edges("inset"@)[8] == "bottom"@);
        } else {
            assert(spec_conflict_edges("inset"@)[9] == "left"@);
        }
    }
}

/// The shorthand `border-radius` against its longhands.
#[verifier::rlimit(100)]
proof fn lemma_shorthand_group_5(u: Seq<char>)
    ensures
        css_shorthands()[5] == ("border-radius"@, seq!["border-start-start-radius"@, "border-start-end-radius"@, "border-end-start-radius"@, "border-end-end-radius"@, "border-top-left-radius"@, "border-top-right-radius"@, "border-bottom-right-radius"@, "border-bottom-left-radius"@]),
        spec_prop_family("border-radius"@, u) == shorthand_family(5),
        forall|b: int| 0 <= b < 8 ==> spec_prop_family(#[trigger] css_shorthands()[5].1[b], u) == longhand_families(5)[b],
        forall|b: int| 0 <= b < 8 ==> spec_conflict_edges(shorthand_family(5)).contains(#[trigger] longhand_families(5)[b]),
        forall|b: int, c: int| 0 <= b < c < 8 ==> #[trigger] longhand_families(5)[b] != #[trigger] longhand_families(5)[c],
        forall|b: int| 0 <= b < 8 ==> #[trigger] longhand_families(5)[b] != shorthand_family(5),
{
    lemma_shorthand_edges();
    lemma_shorthand_prop_families(u);
    reveal_strlit("rounded");
    reveal_strlit("rounded-ss");
    reveal_strlit("rounded-se");
    reveal_strlit("rounded-es");
    reveal_strlit("rounded-ee");
    reveal_strlit("rounded-tl");
    reveal_strlit("rounded-tr");
    reveal_strlit("rounded-br");
    reveal_strlit("rounded-bl");
    assert("rounded"@.len() == 7 && "rounded"@[0] == 'r' && "rounded"@[1] == 'o' && "rounded"@[2] == 'u' && "rounded"@[3] == 'n' && "rounded"@[4] == 'd' && "rounded"@[5] == 'e' && "rounded"@[6] == 'd');
    assert("rounded-ss"@.len() == 10 && "rounded-ss"@[0] == 'r' && "rounded-ss"@[1] == 'o' && "rounded-ss"@[2] == 'u' && "rounded-ss"@[3] == 'n' && "rounded-ss"@[4] == 'd' && "rounded-ss"@[5] == 'e' && "rounded-ss"@[6] == 'd' && "rounded-ss"@[7] == '-' && "rounded-ss"@[8] == 's' && "rounded-ss"@[9] == 's');
    assert("rounded-se"@.len() == 10 && "rounded-se"@[0] == 'r' && "rounded-se"@[1] == 'o' && "rounded-se"@[2] == 'u' && "rounded-se"@[3] == 'n' && "rounded-se"@[4] == 'd' && "rounded-se"@[5] == 'e' && "rounded-se"@[6] == 'd' && "rounded-se"@[7] == '-' && "rounded-se"@[8] == 's' && "rounded-se"@[9] == 'e');
    assert("rounded-es"@.len() == 10 && "rounded-es"@[0] == 'r' && "rounded-es"@[1] == 'o' && "rounded-es"@[2] == 'u' && "rounded-es"@[3] == 'n' && "rounded-es"@[4] == 'd' && "rounded-es"@[5] == 'e' && "rounded-es"@[6] == 'd' && "rounded-es"@[7] == '-' && "rounded-es"@[8] == 'e' && "rounded-es"@[9] == 's');
    assert("rounded-ee"@.len() == 10 && "rounded-ee"@[0] == 'r' && "rounded-ee"@[1] == 'o' && "rounded-ee"@[2] == 'u' && "rounded-ee"@[3] == 'n' && "rounded-ee"@[4] == 'd' && "rounded-ee"@[5] == 'e' && "rounded-ee"@[6] == 'd' && "rounded-ee"@[7] == '-' && "rounded-ee"@[8] == 'e' && "rounded-ee"@[9] == 'e');
    assert("rounded-tl"@.len() == 10 && "rounded-tl"@[0] == 'r' && "rounded-tl"@[1] == 'o' && "rounded-tl"@[2] == 'u' && "rounded-tl"@[3] == 'n' && "rounded-tl"@[4] == 'd' && "rounded-tl"@[5] == 'e' && "rounded-tl"@[6] == 'd' && "rounded-tl"@[7] == '-' && "rounded-tl"@[8] == 't' && "rounded-tl"@[9] == 'l');
    assert("rounded-tr"@.len() == 10 && "rounded-tr"@[0] == 'r' && "rounded-tr"@[1] == 'o' && "rounded-tr"@[2] == 'u' && "rounded-tr"@[3] == 'n' && "rounded-tr"@[4] == 'd' && "rounded-tr"@[5] == 'e' && "rounded-tr"@[6] == 'd' && "rounded-tr"@[7] == '-' && "rounded-tr"@[8] == 't' && "rounded-tr"@[9] == 'r');
    assert("rounded-br"@.len() == 10 && "rounded-br"@[0] == 'r' && "rounded-br"@[1] == 'o' && "rounded-br"@[2] == 'u' && "rounded-br"@[3] == 'n' && "rounded-br"@[4] == 'd' && "rounded-br"@[5] == 'e' && "rounded-br"@[6] == 'd' && "rounded-br"@[7] == '-' && "rounded-br"@[8] == 'b' && "rounded-br"@[9] == 'r');
    assert("rounded-bl"@.len() == 10 && "rounded-bl"@[0] == 'r' && "rounded-bl"@[1] == 'o' && "rounded-bl"@[2] == 'u' && "rounded-bl"@[3] == 'n' && "rounded-bl"@[4] == 'd' && "rounded-bl"@[5] == 'e' && "rounded-bl"@[6] == 'd' && "rounded-bl"@[7] == '-' && "rounded-bl"@[8] == 'b' && "rounded-bl"@[9] == 'l');
    assert forall|b: int| 0 <= b < 8 implies spec_prop_family(#[trigger] css_shorthands()[5].1[b], u) == longhand_families(5)[b]
        && spec_conflict_edges(shorthand_family(5)).contains(longhand_families(5)[b]) by {
        if b == 0 {
            assert(spec_conflict_edges("rounded"@)[6] == "rounded-ss"@);
        } else if b == 1 {
            assert(spec_conflict_edges("rounded"@)[7] == "rounded-se"@);
        } else if b == 2 {
            assert(spec_conflict_edges("rounded"@)[9] == "rounded-es"@);
        } else if b == 3 {
            assert(spec_conflict_edges("rounded"@)[8] == "rounded-ee"@);
        } else if b == 4 {
            assert(spec_conflict_edges("rounded"@)[10] == "rounded-tl"@);
        } else if b == 5 {
            assert(spec_conflict_edges("rounded"@)[11] == "rounded-tr"@);
        } else if b == 6 {
            assert(spec_conflict_edges("rounded"@)[12] == "rounded-br"@);
        } else {
            assert(spec_conflict_edges("rounded"@)[13] == "rounded-bl"@);
        }
    }
}

/// A shorthand property (`overflow`, `overscroll-behavior`, `gap`, `flex`,
/// `inset`, `border-radius`) conflicts with every longhand it sets: whatever
/// utilities generate them, the family of each longhand is among the conflict
/// edges of the shorthand's family, and two longhands of one shorthand, or a
/// longhand and the shorthand, never share a family.
pub proof fn law_shorthand_covers_its_longhands(a: int, b: int, c: int, u: Seq<char>, v: Seq<char>)
    requires
        0 <= a < css_shorthands().len(),
        0 <= b < css_shorthands()[a].1.len(),
        0 <= c < css_shorthands()[a].1.len(),
    ensures
        spec_conflict_edges(spec_prop_family(css_shorthands()[a].0, u)).contains(spec_prop_family(css_shorthands()[a].1[b], v)),
        b != c ==> spec_prop_family(css_shorthands()[a].1[b], u) != spec_prop_family(css_shorthands()[a].1[c], v),
        spec_prop_family(css_shorthands()[a].1[b], u) != spec_prop_family(css_shorthands()[a].0, v),
{
    if a == 0 {
        lemma_shorthand_group_0(u);
        lemma_shorthand_group_0(v);
    } else if a == 1 {
        lemma_shorthand_group_1(u);
        lemma_shorthand_group_1(v);
    } else if a == 2 {
        lemma_shorthand_group_2(u);
        lemma_shorthand_group_2(v);
    } else if a == 3 {
        lemma_shorthand_group_3(u);
        lemma_shorthand_group_3(v);
    } else if a == 4 {
        lemma_shorthand_group_4(u);
        lemma_shorthand_group_4(v);
    } else if a == 5 {
        lemma_shorthand_group_5(u);
        lemma_shorthand_group_5(v);
    }
    let l = longhand_families(a);
    assert(spec_prop_family(css_shorthands()[a].1[b], u) == l[b]);
    assert(spec_prop_family(css_shorthands()[a].1[b], v) == l[b]);
    assert(spec_prop_family(css_shorthands()[a].1[c], v) == l[c]);
    if b < c {
        assert(l[b] != l[c]);
    } else if c < b {
        assert(l[c] != l[b]);
    }
    assert(l[b] != shorthand_family(a));
}

} // verus!
