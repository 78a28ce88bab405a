//! Value type validators: the truth tables that decide which class suffixes
//! a `--value(...)` marker accepts. Pattern-shaped checks go through the
//! `regex` crate; number syntax follows the grammar std documents for
//! `f64`/`i64` parsing; the rest is plain byte inspection.

use vstd::prelude::*;
use vstd::utf8::*;
use crate::text::{has_prefix, has_suffix, enc, str_eq, starts_with, ends_with, substr, cut_point};

verus! {

broadcast use vstd::utf8::encode_utf8_valid_utf8;

pub const ARBITRARY_VALUE_RE: &'static str = r"^\[(?:(\w[\w-]*):)?(.+)\]$";
pub const ARBITRARY_VARIABLE_RE: &'static str = r"^\((?:(\w[\w-]*):)?(.+)\)$";
pub const FRACTION_RE: &'static str = r"^\d+(?:\.\d+)?/\d+(?:\.\d+)?$";
pub const TSHIRT_UNIT_RE: &'static str = r"^(\d+(\.\d+)?)?(xs|sm|md|lg|xl)$";
pub const LENGTH_UNIT_RE: &'static str = r"\d+(%|px|r?em|[sdl]?v([hwib]|min|max)|pt|pc|in|cm|mm|cap|ch|ex|r?lh|cq(w|h|i|b|min|max))|\b(calc|min|max|clamp)\(.+\)|^0$";
pub const COLOR_FUNCTION_RE: &'static str = r"^(rgba?|hsla?|hwb|(ok)?(lab|lch)|color-mix)\(.+\)$";
/// A shadow begins with x and y offsets separated by `_`, optionally after `inset_`.
pub const SHADOW_RE: &'static str = r"^(inset_)?-?((\d+)?\.?(\d+)[a-z]+|0)_-?((\d+)?\.?(\d+)[a-z]+|0)";
pub const IMAGE_RE: &'static str = r"^(url|image|image-set|cross-fade|element|(repeating-)?(linear|radial|conic)-gradient)\(.+\)$";

// ---------------------------------------------------------------------------
// The regex crate
// ---------------------------------------------------------------------------

/// Whether `regex::Regex::new` accepts the pattern.
pub uninterp spec fn regex_compiles(pattern: Seq<char>) -> bool;

/// What `regex::Regex::is_match` answers for a compiled pattern and a text.
pub uninterp spec fn regex_is_match(pattern: Seq<char>, text: Seq<char>) -> bool;

/// Capture groups 1 and 2 of `regex::Regex::captures` (group 1 read as the
/// empty string when it did not participate); `None` when there is no match
/// or group 2 did not participate.
pub uninterp spec fn regex_groups(pattern: Seq<char>, text: Seq<char>) -> Option<(Seq<char>, Seq<char>)>;

/// Compiles `pattern` with `regex::Regex::new` and runs `Regex::is_match`
/// on `text`. Claimed: `None` exactly when the pattern does not compile,
/// otherwise the crate's verdict, named by `regex_is_match`.
#[verifier::external_body]
fn regex_find(pattern: &str, text: &str) -> (r: Option<bool>)
    ensures
        r is Some <==> regex_compiles(pattern@),
        r matches Some(b) ==> b == regex_is_match(pattern@, text@),
{
    match regex::Regex::new(pattern) {
        Ok(re) => Some(re.is_match(text)),
        Err(_) => None,
    }
}

/// Compiles `pattern` with `regex::Regex::new` and runs `Regex::captures`
/// on `text`, handing back groups 1 and 2 as owned strings. Claimed: the
/// outer `None` exactly when the pattern does not compile, otherwise the
/// groups named by `regex_groups`.
#[verifier::external_body]
fn regex_capture_groups(pattern: &str, text: &str) -> (r: Option<Option<(String, String)>>)
    ensures
        r is Some <==> regex_compiles(pattern@),
        r matches Some(c) ==> (c is Some <==> regex_groups(pattern@, text@) is Some),
        r matches Some(Some((l, v))) ==> regex_groups(pattern@, text@) == Some((l@, v@)),
{
    match regex::Regex::new(pattern) {
        Ok(re) => Some(match re.captures(text) {
            Some(cap) => match cap.get(2) {
                Some(v) => Some((cap.get(1).map_or("", |m| m.as_str()).to_string(), v.as_str().to_string())),
                None => None,
            },
            None => None,
        }),
        Err(_) => None,
    }
}

/// The pattern compiles and finds a match in `text`.
pub open spec fn re_match(pattern: &str, text: Seq<char>) -> bool {
    regex_compiles(pattern@) && regex_is_match(pattern@, text)
}

/// Label and value of an arbitrary value `[label:value]`.
pub open spec fn arbitrary_parts(text: Seq<char>) -> Option<(Seq<char>, Seq<char>)> {
    if regex_compiles(ARBITRARY_VALUE_RE@) { regex_groups(ARBITRARY_VALUE_RE@, text) } else { None }
}

/// Label and value of an arbitrary variable `(label:value)`.
pub open spec fn arbitrary_variable_parts(text: Seq<char>) -> Option<(Seq<char>, Seq<char>)> {
    if regex_compiles(ARBITRARY_VARIABLE_RE@) { regex_groups(ARBITRARY_VARIABLE_RE@, text) } else { None }
}

fn re_is_match(pattern: &str, text: &str) -> (r: bool)
    ensures
        r == re_match(pattern, text@),
{
    match regex_find(pattern, text) {
        Some(b) => b,
        None => false,
    }
}

fn get_arbitrary_parts(value: &str) -> (r: Option<(String, String)>)
    ensures
        r is Some <==> arbitrary_parts(value@) is Some,
        r matches Some((l, v)) ==> arbitrary_parts(value@) == Some((l@, v@)),
{
    match regex_capture_groups(ARBITRARY_VALUE_RE, value) {
        Some(c) => c,
        None => None,
    }
}

fn get_arbitrary_variable_parts(value: &str) -> (r: Option<(String, String)>)
    ensures
        r is Some <==> arbitrary_variable_parts(value@) is Some,
        r matches Some((l, v)) ==> arbitrary_variable_parts(value@) == Some((l@, v@)),
{
    match regex_capture_groups(ARBITRARY_VARIABLE_RE, value) {
        Some(c) => c,
        None => None,
    }
}

// ---------------------------------------------------------------------------
// Number syntax (the grammar of std's `f64` and `i64` `FromStr`)
// ---------------------------------------------------------------------------

pub open spec fn is_digit(c: u8) -> bool {
    48 <= c <= 57
}

/// ASCII lower-casing of one byte.
pub open spec fn lower(c: u8) -> u8 {
    if 65 <= c <= 90 { (c + 32) as u8 } else { c }
}

pub open spec fn all_digits(s: Seq<u8>) -> bool {
    forall|i: int| 0 <= i < s.len() ==> is_digit(#[trigger] s[i])
}

pub open spec fn is_sign(c: u8) -> bool {
    c == '+' as u8 || c == '-' as u8
}

pub open spec fn unsigned(s: Seq<u8>) -> Seq<u8> {
    if s.len() > 0 && is_sign(s[0]) { s.drop_first() } else { s }
}

pub open spec fn lowered(s: Seq<u8>) -> Seq<u8> {
    s.map_values(|c: u8| lower(c))
}

/// `inf`, `infinity` or `nan`, in any ASCII case.
pub open spec fn float_word(t: Seq<u8>) -> bool {
    let w = lowered(t);
    ||| w == seq!['i' as u8, 'n' as u8, 'f' as u8]
    ||| w == seq!['i' as u8, 'n' as u8, 'f' as u8, 'i' as u8, 'n' as u8, 'i' as u8, 't' as u8, 'y' as u8]
    ||| w == seq!['n' as u8, 'a' as u8, 'n' as u8]
}

/// `Digit+ | Digit+ '.' Digit* | Digit* '.' Digit+`.
pub open spec fn mantissa(m: Seq<u8>) -> bool {
    &&& forall|i: int| 0 <= i < m.len() ==> is_digit(#[trigger] m[i]) || m[i] == '.' as u8
    &&& forall|i: int, j: int| 0 <= i < j < m.len() ==> !(#[trigger] m[i] == '.' as u8 && #[trigger] m[j] == '.' as u8)
    &&& exists|i: int| 0 <= i < m.len() && is_digit(#[trigger] m[i])
}

/// `Sign? Digit+`.
pub open spec fn exponent(e: Seq<u8>) -> bool {
    unsigned(e).len() > 0 && all_digits(unsigned(e))
}

/// `Number ::= Mantissa ('e' Exponent)?`.
pub open spec fn float_number(t: Seq<u8>) -> bool {
    exists|k: int| 0 <= k <= t.len() && #[trigger] mantissa(t.subrange(0, k)) && (k == t.len() || (
        lower(t[k]) == 'e' as u8 && exponent(t.subrange(k + 1, t.len() as int))))
}

/// The strings std's `f64::from_str` accepts (its documented grammar).
pub open spec fn float_syntax(s: Seq<u8>) -> bool {
    float_word(unsigned(s)) || float_number(unsigned(s))
}

/// Decimal value of a digit string.
pub open spec fn digits_value(d: Seq<u8>) -> nat
    decreases d.len(),
{
    if d.len() == 0 { 0 } else { digits_value(d.drop_last()) * 10 + (d.last() - 48) as nat }
}

/// The strings std's `i64::from_str` accepts: optional sign, digits, and a
/// value within range.
pub open spec fn integer_syntax(s: Seq<u8>) -> bool {
    let t = unsigned(s);
    &&& t.len() > 0
    &&& all_digits(t)
    &&& if s[0] == '-' as u8 { digits_value(t) <= 0x8000_0000_0000_0000 } else { digits_value(t) <= 0x7fff_ffff_ffff_ffff }
}

proof fn lemma_digits_value_prefix(d: Seq<u8>, i: int)
    requires
        0 <= i <= d.len(),
        all_digits(d),
    ensures
        digits_value(d.subrange(0, i)) <= digits_value(d),
    decreases d.len() - i,
{
    if i < d.len() {
        lemma_digits_value_prefix(d, i + 1);
        assert(d.subrange(0, i + 1).drop_last() =~= d.subrange(0, i));
        assert(is_digit(d[i]));
    } else {
        assert(d.subrange(0, i) =~= d);
    }
}

fn strip_sign(b: &[u8]) -> (r: usize)
    ensures
        r <= b@.len(),
        b@.subrange(r as int, b@.len() as int) == unsigned(b@),
        r == 0 || r == 1,
{
    if b.len() > 0 && (b[0] == 43u8 || b[0] == 45u8) {
        assert(b@.subrange(1, b@.len() as int) =~= b@.drop_first());
        1
    } else {
        assert(b@.subrange(0, b@.len() as int) =~= b@);
        0
    }
}

fn lower_byte(c: u8) -> (r: u8)
    ensures
        r == lower(c),
{
    if 65 <= c && c <= 90 { c + 32 } else { c }
}

fn word_at(b: &[u8], start: usize, w: &[u8]) -> (r: bool)
    requires
        start <= b@.len(),
    ensures
        r == (lowered(b@.subrange(start as int, b@.len() as int)) == w@),
{
    let ghost t = b@.subrange(start as int, b@.len() as int);
    let bl = b.len();
    let n = bl - start;
    if n != w.len() {
        assert(lowered(t).len() != w@.len());
        return false;
    }
    let mut i: usize = 0;
    while i < w.len()
        invariant
            t == b@.subrange(start as int, b@.len() as int),
            n == w@.len(),
            bl == b@.len(),
            n == b@.len() - start,
            start <= b@.len(),
            0 <= i <= w@.len(),
            forall|j: int| 0 <= j < i ==> lowered(t)[j] == w@[j],
        decreases w@.len() - i,
    {
        if lower_byte(b[start + i]) != w[i] {
            assert(lowered(t)[i as int] != w@[i as int]);
            return false;
        }
        i = i + 1;
    }
    assert(lowered(t) =~= w@);
    true
}

/// A byte that may appear in a mantissa.
pub open spec fn mantissa_byte(c: u8) -> bool {
    is_digit(c) || c == '.' as u8
}

/// `float_number` is decided at the end of the longest run of mantissa bytes.
proof fn lemma_float_number_at(t: Seq<u8>, r: int)
    requires
        0 <= r <= t.len(),
        forall|j: int| 0 <= j < r ==> mantissa_byte(#[trigger] t[j]),
        r == t.len() || !mantissa_byte(t[r]),
    ensures
        float_number(t) <==> (mantissa(t.subrange(0, r)) && (r == t.len() || (lower(t[r]) == 'e' as u8
            && exponent(t.subrange(r + 1, t.len() as int))))),
{
    if float_number(t) {
        let k = choose|k: int| 0 <= k <= t.len() && #[trigger] mantissa(t.subrange(0, k)) && (k == t.len() || (
            lower(t[k]) == 'e' as u8 && exponent(t.subrange(k + 1, t.len() as int))));
        let mk = t.subrange(0, k);
        if k > r {
            assert(mk[r] == t[r]);
        } else if k < r {
            assert(mantissa_byte(t[k]));
        }
        assert(k == r);
    }
}

/// Does `b[lo..hi]`, a run of digits and dots, form a mantissa?
fn check_mantissa(b: &[u8], lo: usize, hi: usize) -> (r: bool)
    requires
        lo <= hi <= b@.len(),
        forall|j: int| lo <= j < hi ==> mantissa_byte(#[trigger] b@[j]),
    ensures
        r == mantissa(b@.subrange(lo as int, hi as int)),
{
    let ghost m = b@.subrange(lo as int, hi as int);
    let mut i = lo;
    let mut dot: Option<usize> = None;
    let mut digit = false;
    while i < hi
        invariant
            lo <= i <= hi <= b@.len(),
            m == b@.subrange(lo as int, hi as int),
            forall|j: int| lo <= j < hi ==> mantissa_byte(#[trigger] b@[j]),
            dot is None ==> forall|j: int| lo <= j < i ==> b@[j] != '.' as u8,
            dot matches Some(p) ==> lo <= p < i && b@[p as int] == '.' as u8
                && forall|j: int| lo <= j < i && j != p ==> b@[j] != '.' as u8,
            digit <==> exists|j: int| lo <= j < i && is_digit(#[trigger] b@[j]),
        decreases hi - i,
    {
        if b[i] == 46u8 {
            if let Some(p) = dot {
                assert(m[p - lo] == '.' as u8);
                assert(m[i - lo] == '.' as u8);
                return false;
            }
            dot = Some(i);
        } else {
            digit = true;
        }
        i = i + 1;
    }
    assert forall|j: int| 0 <= j < m.len() implies mantissa_byte(#[trigger] m[j]) by {
        assert(m[j] == b@[lo + j]);
    }
    assert forall|x: int, y: int| 0 <= x < y < m.len() implies !(#[trigger] m[x] == '.' as u8 && #[trigger] m[y] == '.' as u8) by {
        assert(m[x] == b@[lo + x]);
        assert(m[y] == b@[lo + y]);
    }
    if digit {
        let ghost j = choose|j: int| lo <= j < hi && is_digit(#[trigger] b@[j]);
        assert(m[j - lo] == b@[j]);
    } else {
        assert forall|j: int| 0 <= j < m.len() implies !is_digit(#[trigger] m[j]) by {
            assert(m[j] == b@[lo + j]);
        }
    }
    digit
}

/// Are all bytes of `b[lo..]` digits?
fn all_digits_from(b: &[u8], lo: usize) -> (r: bool)
    requires
        lo <= b@.len(),
    ensures
        r == all_digits(b@.subrange(lo as int, b@.len() as int)),
{
    let ghost d = b@.subrange(lo as int, b@.len() as int);
    let mut i = lo;
    while i < b.len()
        invariant
            lo <= i <= b@.len(),
            d == b@.subrange(lo as int, b@.len() as int),
            forall|j: int| lo <= j < i ==> is_digit(#[trigger] b@[j]),
        decreases b@.len() - i,
    {
        if !(48 <= b[i] && b[i] <= 57) {
            assert(d[i - lo] == b@[i as int]);
            return false;
        }
        i = i + 1;
    }
    assert forall|j: int| 0 <= j < d.len() implies is_digit(#[trigger] d[j]) by {
        assert(d[j] == b@[lo + j]);
    }
    true
}

/// Does `value` parse as an `f64`?
pub fn is_number(value: &str) -> (r: bool)
    ensures
        r == float_syntax(enc(value@)),
{
    let b = value.as_bytes();
    let s = strip_sign(b);
    let ghost t = b@.subrange(s as int, b@.len() as int);
    let w1: [u8; 3] = [105u8, 110u8, 102u8];
    let w2: [u8; 8] = [105u8, 110u8, 102u8, 105u8, 110u8, 105u8, 116u8, 121u8];
    let w3: [u8; 3] = [110u8, 97u8, 110u8];
    assert(w1@ =~= seq!['i' as u8, 'n' as u8, 'f' as u8]);
    assert(w2@ =~= seq!['i' as u8, 'n' as u8, 'f' as u8, 'i' as u8, 'n' as u8, 'i' as u8, 't' as u8, 'y' as u8]);
    assert(w3@ =~= seq!['n' as u8, 'a' as u8, 'n' as u8]);
    if word_at(b, s, &w1) || word_at(b, s, &w2) || word_at(b, s, &w3) {
        return true;
    }
    let mut e = s;
    while e < b.len() && ((48 <= b[e] && b[e] <= 57) || b[e] == 46u8)
        invariant
            s <= e <= b@.len(),
            forall|j: int| s <= j < e ==> mantissa_byte(#[trigger] b@[j]),
        decreases b@.len() - e,
    {
        e = e + 1;
    }
    proof {
        assert forall|j: int| 0 <= j < e - s implies mantissa_byte(#[trigger] t[j]) by {
            assert(t[j] == b@[s + j]);
        }
        if e < b@.len() {
            assert(t[e - s] == b@[e as int]);
        }
        lemma_float_number_at(t, e - s);
        assert(t.subrange(0, e - s) =~= b@.subrange(s as int, e as int));
    }
    if !check_mantissa(b, s, e) {
        return false;
    }
    if e == b.len() {
        return true;
    }
    if lower_byte(b[e]) != 101u8 {
        assert(t[e - s] == b@[e as int]);
        return false;
    }
    let ghost x = t.subrange(e - s + 1, t.len() as int);
    let mut j = e + 1;
    if j < b.len() && (b[j] == 43u8 || b[j] == 45u8) {
        j = j + 1;
    }
    proof {
        assert(t[e - s] == b@[e as int]);
        let ux = b@.subrange(j as int, b@.len() as int);
        if j == e + 2 {
            assert(x[0] == b@[e + 1]);
            assert(x.drop_first() =~= ux);
        } else {
            if x.len() > 0 {
                assert(x[0] == b@[e + 1]);
            }
            assert(x =~= ux);
        }
        assert(ux == unsigned(x));
    }
    j < b.len() && all_digits_from(b, j)
}

/// Does `value` parse as an `i64`?
pub fn is_integer(value: &str) -> (r: bool)
    ensures
        r == (enc(value@).len() > 0 && integer_syntax(enc(value@))),
{
    let b = value.as_bytes();
    if b.len() == 0 {
        return false;
    }
    let s = strip_sign(b);
    let ghost t = b@.subrange(s as int, b@.len() as int);
    if s == b.len() {
        return false;
    }
    let limit: u64 = if b[0] == 45u8 { 0x8000_0000_0000_0000u64 } else { 0x7fff_ffff_ffff_ffffu64 };
    let mut v: u64 = 0;
    let mut i = s;
    while i < b.len()
        invariant
            s < b@.len(),
            s <= i <= b@.len(),
            b@ == enc(value@),
            t == unsigned(b@),
            t == b@.subrange(s as int, b@.len() as int),
            forall|j: int| s <= j < i ==> is_digit(#[trigger] b@[j]),
            v == digits_value(b@.subrange(s as int, i as int)),
            v <= limit,
            limit == (if b@[0] == '-' as u8 { 0x8000_0000_0000_0000u64 } else { 0x7fff_ffff_ffff_ffffu64 }),
        decreases b@.len() - i,
    {
        let c = b[i];
        if !(48 <= c && c <= 57) {
            assert(t[i - s] == c);
            assert(!all_digits(t));
            return false;
        }
        let d = (c - 48) as u64;
        assert(b@.subrange(s as int, i + 1).drop_last() =~= b@.subrange(s as int, i as int));
        if v > (limit - d) / 10 {
            proof {
                assert(v * 10 + d > limit) by (nonlinear_arith)
                    requires v > (limit - d) / 10, d <= 9, d <= limit;
                assert(digits_value(b@.subrange(s as int, i + 1)) > limit);
                if all_digits(t) {
                    assert(t.subrange(0, i + 1 - s) =~= b@.subrange(s as int, i + 1));
                    lemma_digits_value_prefix(t, i + 1 - s);
                }
            }
            return false;
        }
        v = v * 10 + d;
        i = i + 1;
    }
    assert forall|j: int| 0 <= j < t.len() implies is_digit(#[trigger] t[j]) by {
        assert(t[j] == b@[s + j]);
    }
    assert(b@.subrange(s as int, i as int) =~= t);
    true
}


// ---------------------------------------------------------------------------
// The validators
// ---------------------------------------------------------------------------

pub open spec fn spec_is_number(v: Seq<char>) -> bool {
    float_syntax(enc(v))
}

pub open spec fn spec_is_integer(v: Seq<char>) -> bool {
    enc(v).len() > 0 && integer_syntax(enc(v))
}

pub open spec fn spec_is_percent(v: Seq<char>) -> bool {
    let b = enc(v);
    b.len() > 0 && b.last() == '%' as u8 && float_syntax(b.drop_last())
}

pub open spec fn spec_is_fraction(v: Seq<char>) -> bool {
    re_match(FRACTION_RE, v)
}

pub open spec fn spec_is_tshirt_size(v: Seq<char>) -> bool {
    re_match(TSHIRT_UNIT_RE, v)
}

pub open spec fn spec_is_arbitrary_value(v: Seq<char>) -> bool {
    re_match(ARBITRARY_VALUE_RE, v)
}

pub open spec fn spec_is_arbitrary_variable(v: Seq<char>) -> bool {
    re_match(ARBITRARY_VARIABLE_RE, v)
}

pub open spec fn spec_is_any_non_arbitrary(v: Seq<char>) -> bool {
    !spec_is_arbitrary_value(v) && !spec_is_arbitrary_variable(v)
}

pub open spec fn spec_is_length_only(v: Seq<char>) -> bool {
    re_match(LENGTH_UNIT_RE, v) && !re_match(COLOR_FUNCTION_RE, v)
}

pub open spec fn spec_is_shadow(v: Seq<char>) -> bool {
    re_match(SHADOW_RE, v)
}

pub open spec fn spec_is_image(v: Seq<char>) -> bool {
    re_match(IMAGE_RE, v)
}

pub open spec fn spec_is_angle(v: Seq<char>) -> bool {
    spec_is_number(v) || has_suffix(v, "deg"@) || has_suffix(v, "grad"@) || has_suffix(v, "rad"@)
        || has_suffix(v, "turn"@)
}

pub open spec fn spec_is_time(v: Seq<char>) -> bool {
    spec_is_number(v) || has_suffix(v, "ms"@) || has_suffix(v, "s"@)
}

pub open spec fn ident_start(c: u8) -> bool {
    (65 <= c <= 90) || (97 <= c <= 122) || c == '_' as u8 || c == '-' as u8 || c == '\\' as u8
}

pub open spec fn ident_rest(c: u8) -> bool {
    ident_start(c) || is_digit(c)
}

pub open spec fn spec_is_ident(v: Seq<char>) -> bool {
    let b = enc(v);
    b.len() > 0 && ident_start(b[0]) && forall|i: int| 1 <= i < b.len() ==> ident_rest(#[trigger] b[i])
}

pub open spec fn spec_is_position_keyword(v: Seq<char>) -> bool {
    ||| v == "center"@ ||| v == "top"@ ||| v == "bottom"@ ||| v == "left"@ ||| v == "right"@
    ||| v == "top-left"@ ||| v == "left-top"@ ||| v == "top-right"@ ||| v == "right-top"@
    ||| v == "bottom-right"@ ||| v == "right-bottom"@ ||| v == "bottom-left"@ ||| v == "left-bottom"@
}

pub open spec fn spec_is_named_container_query(v: Seq<char>) -> bool {
    let b = enc(v);
    &&& has_prefix(v, "@container"@)
    &&& {
        ||| b.len() > 11 && b[10] == '/' as u8
        ||| b.len() > 16 && b[11] == 's' as u8 && enc("-size/"@).is_prefix_of(b.subrange(10, b.len() as int))
        ||| b.len() > 18 && b[11] == 'n' as u8 && enc("-normal/"@).is_prefix_of(b.subrange(10, b.len() as int))
    }
}

pub fn is_fraction(value: &str) -> (r: bool)
    ensures
        r == spec_is_fraction(value@),
{
    re_is_match(FRACTION_RE, value)
}

pub fn is_percent(value: &str) -> (r: bool)
    ensures
        r == spec_is_percent(value@),
{
    let b = value.as_bytes();
    let n = b.len();
    if n > 0 && b[n - 1] == 37u8 {
        let head = substr(value, 0, n - 1);
        assert(b@.drop_last() =~= b@.subrange(0, n - 1));
        is_number(head)
    } else {
        false
    }
}

pub fn is_tshirt_size(value: &str) -> (r: bool)
    ensures
        r == spec_is_tshirt_size(value@),
{
    re_is_match(TSHIRT_UNIT_RE, value)
}

pub fn is_any(value: &str) -> (r: bool)
    ensures
        r,
{
    true
}

pub fn is_any_non_arbitrary(value: &str) -> (r: bool)
    ensures
        r == spec_is_any_non_arbitrary(value@),
{
    !is_arbitrary_value(value) && !is_arbitrary_variable(value)
}

/// A plain (non-arbitrary) length: a unit, a math function or `0`, and not a
/// color function (whose percentages would otherwise look like lengths).
pub fn is_length_only(value: &str) -> (r: bool)
    ensures
        r == spec_is_length_only(value@),
{
    re_is_match(LENGTH_UNIT_RE, value) && !re_is_match(COLOR_FUNCTION_RE, value)
}

pub fn is_shadow(value: &str) -> (r: bool)
    ensures
        r == spec_is_shadow(value@),
{
    re_is_match(SHADOW_RE, value)
}

pub fn is_image(value: &str) -> (r: bool)
    ensures
        r == spec_is_image(value@),
{
    re_is_match(IMAGE_RE, value)
}

pub fn is_arbitrary_value(value: &str) -> (r: bool)
    ensures
        r == spec_is_arbitrary_value(value@),
{
    re_is_match(ARBITRARY_VALUE_RE, value)
}

pub fn is_arbitrary_variable(value: &str) -> (r: bool)
    ensures
        r == spec_is_arbitrary_variable(value@),
{
    re_is_match(ARBITRARY_VARIABLE_RE, value)
}

pub fn is_named_container_query(value: &str) -> (r: bool)
    ensures
        r == spec_is_named_container_query(value@),
{
    if !starts_with(value, "@container") {
        return false;
    }
    let b = value.as_bytes();
    let n = b.len();
    proof {
        reveal_strlit("@container");
        vstd::utf8::is_ascii_chars_encode_utf8("@container"@);
        assert(enc("@container"@).len() == 10);
        assert(b@[9] == enc("@container"@)[9]);
    }
    if n > 11 && b[10] == 47u8 {
        return true;
    }
    proof {
        if n > 10 {
            assert(b@[9] == 'r' as u8);
            crate::text::lemma_after_ascii(b@, 9);
        }
    }
    if n > 16 && b[11] == 115u8 {
        let rest = substr(value, 10, n);
        if starts_with(rest, "-size/") {
            return true;
        }
    }
    if n > 18 && b[11] == 110u8 {
        let rest = substr(value, 10, n);
        return starts_with(rest, "-normal/");
    }
    false
}

pub open spec fn spec_is_label_length(label: Seq<char>) -> bool {
    label == "length"@
}

pub fn is_label_length(label: &str) -> (r: bool)
    ensures
        r == spec_is_label_length(label@),
{
    str_eq(label, "length")
}

pub open spec fn spec_is_label_size(label: Seq<char>) -> bool {
    label == "length"@ || label == "size"@ || label == "bg-size"@
}

pub fn is_label_size(label: &str) -> (r: bool)
    ensures
        r == spec_is_label_size(label@),
{
    str_eq(label, "length") || str_eq(label, "size") || str_eq(label, "bg-size")
}

pub open spec fn spec_is_label_number(label: Seq<char>) -> bool {
    label == "number"@
}

pub fn is_label_number(label: &str) -> (r: bool)
    ensures
        r == spec_is_label_number(label@),
{
    str_eq(label, "number")
}

pub open spec fn spec_is_label_weight(label: Seq<char>) -> bool {
    label == "number"@ || label == "weight"@
}

pub fn is_label_weight(label: &str) -> (r: bool)
    ensures
        r == spec_is_label_weight(label@),
{
    str_eq(label, "number") || str_eq(label, "weight")
}

pub open spec fn spec_is_label_family_name(label: Seq<char>) -> bool {
    label == "family-name"@
}

pub fn is_label_family_name(label: &str) -> (r: bool)
    ensures
        r == spec_is_label_family_name(label@),
{
    str_eq(label, "family-name")
}

pub open spec fn spec_is_label_position(label: Seq<char>) -> bool {
    label == "position"@ || label == "percentage"@
}

pub fn is_label_position(label: &str) -> (r: bool)
    ensures
        r == spec_is_label_position(label@),
{
    str_eq(label, "position") || str_eq(label, "percentage")
}

pub open spec fn spec_is_label_image(label: Seq<char>) -> bool {
    label == "image"@ || label == "url"@
}

pub fn is_label_image(label: &str) -> (r: bool)
    ensures
        r == spec_is_label_image(label@),
{
    str_eq(label, "image") || str_eq(label, "url")
}

pub open spec fn spec_is_label_shadow(label: Seq<char>) -> bool {
    label == "shadow"@
}

pub fn is_label_shadow(label: &str) -> (r: bool)
    ensures
        r == spec_is_label_shadow(label@),
{
    str_eq(label, "shadow")
}

/// The check on the label and value of an arbitrary value.
pub open spec fn spec_arbitrary_length_parts(label: Seq<char>, value: Seq<char>) -> bool {
    if label.len() == 0 { spec_is_length_only(value) } else { spec_is_label_length(label) }
}

pub open spec fn spec_is_arbitrary_length(v: Seq<char>) -> bool {
    match arbitrary_parts(v) {
        Some((l, x)) => spec_arbitrary_length_parts(l, x),
        None => false,
    }
}

/// The check on the label and value of an arbitrary value, once split.
pub fn arbitrary_length_parts(label: &str, value: &str) -> (r: bool)
    ensures
        r == spec_arbitrary_length_parts(label@, value@),
{
    if label.is_empty() { is_length_only(value) } else { is_label_length(label) }
}

pub fn is_arbitrary_length(value: &str) -> (r: bool)
    ensures
        r == spec_is_arbitrary_length(value@),
{
    match get_arbitrary_parts(value) {
        Some((l, x)) => arbitrary_length_parts(l.as_str(), x.as_str()),
        None => false,
    }
}

/// The check on the label and value of an arbitrary value.
pub open spec fn spec_arbitrary_number_parts(label: Seq<char>, value: Seq<char>) -> bool {
    if label.len() == 0 { spec_is_number(value) } else { spec_is_label_number(label) }
}

pub open spec fn spec_is_arbitrary_number(v: Seq<char>) -> bool {
    match arbitrary_parts(v) {
        Some((l, x)) => spec_arbitrary_number_parts(l, x),
        None => false,
    }
}

/// The check on the label and value of an arbitrary value, once split.
pub fn arbitrary_number_parts(label: &str, value: &str) -> (r: bool)
    ensures
        r == spec_arbitrary_number_parts(label@, value@),
{
    if label.is_empty() { is_number(value) } else { is_label_number(label) }
}

pub fn is_arbitrary_number(value: &str) -> (r: bool)
    ensures
        r == spec_is_arbitrary_number(value@),
{
    match get_arbitrary_parts(value) {
        Some((l, x)) => arbitrary_number_parts(l.as_str(), x.as_str()),
        None => false,
    }
}

/// The check on the label and value of an arbitrary value.
pub open spec fn spec_arbitrary_size_parts(label: Seq<char>, value: Seq<char>) -> bool {
    label.len() > 0 && spec_is_label_size(label)
}

pub open spec fn spec_is_arbitrary_size(v: Seq<char>) -> bool {
    match arbitrary_parts(v) {
        Some((l, x)) => spec_arbitrary_size_parts(l, x),
        None => false,
    }
}

/// The check on the label and value of an arbitrary value, once split.
pub fn arbitrary_size_parts(label: &str, value: &str) -> (r: bool)
    ensures
        r == spec_arbitrary_size_parts(label@, value@),
{
    !label.is_empty() && is_label_size(label)
}

pub fn is_arbitrary_size(value: &str) -> (r: bool)
    ensures
        r == spec_is_arbitrary_size(value@),
{
    match get_arbitrary_parts(value) {
        Some((l, x)) => arbitrary_size_parts(l.as_str(), x.as_str()),
        None => false,
    }
}

/// The check on the label and value of an arbitrary value.
pub open spec fn spec_arbitrary_position_parts(label: Seq<char>, value: Seq<char>) -> bool {
    label.len() > 0 && spec_is_label_position(label)
}

pub open spec fn spec_is_arbitrary_position(v: Seq<char>) -> bool {
    match arbitrary_parts(v) {
        Some((l, x)) => spec_arbitrary_position_parts(l, x),
        None => false,
    }
}

/// The check on the label and value of an arbitrary value, once split.
pub fn arbitrary_position_parts(label: &str, value: &str) -> (r: bool)
    ensures
        r == spec_arbitrary_position_parts(label@, value@),
{
    !label.is_empty() && is_label_position(label)
}

pub fn is_arbitrary_position(value: &str) -> (r: bool)
    ensures
        r == spec_is_arbitrary_position(value@),
{
    match get_arbitrary_parts(value) {
        Some((l, x)) => arbitrary_position_parts(l.as_str(), x.as_str()),
        None => false,
    }
}

/// The check on the label and value of an arbitrary value.
pub open spec fn spec_arbitrary_image_parts(label: Seq<char>, value: Seq<char>) -> bool {
    if label.len() == 0 { spec_is_image(value) } else { spec_is_label_image(label) }
}

pub open spec fn spec_is_arbitrary_image(v: Seq<char>) -> bool {
    match arbitrary_parts(v) {
        Some((l, x)) => spec_arbitrary_image_parts(l, x),
        None => false,
    }
}

/// The check on the label and value of an arbitrary value, once split.
pub fn arbitrary_image_parts(label: &str, value: &str) -> (r: bool)
    ensures
        r == spec_arbitrary_image_parts(label@, value@),
{
    if label.is_empty() { is_image(value) } else { is_label_image(label) }
}

pub fn is_arbitrary_image(value: &str) -> (r: bool)
    ensures
        r == spec_is_arbitrary_image(value@),
{
    match get_arbitrary_parts(value) {
        Some((l, x)) => arbitrary_image_parts(l.as_str(), x.as_str()),
        None => false,
    }
}

/// The check on the label and value of an arbitrary value.
pub open spec fn spec_arbitrary_shadow_parts(label: Seq<char>, value: Seq<char>) -> bool {
    if label.len() == 0 { spec_is_shadow(value) } else { spec_is_label_shadow(label) }
}

pub open spec fn spec_is_arbitrary_shadow(v: Seq<char>) -> bool {
    match arbitrary_parts(v) {
        Some((l, x)) => spec_arbitrary_shadow_parts(l, x),
        None => false,
    }
}

/// The check on the label and value of an arbitrary value, once split.
pub fn arbitrary_shadow_parts(label: &str, value: &str) -> (r: bool)
    ensures
        r == spec_arbitrary_shadow_parts(label@, value@),
{
    if label.is_empty() { is_shadow(value) } else { is_label_shadow(label) }
}

pub fn is_arbitrary_shadow(value: &str) -> (r: bool)
    ensures
        r == spec_is_arbitrary_shadow(value@),
{
    match get_arbitrary_parts(value) {
        Some((l, x)) => arbitrary_shadow_parts(l.as_str(), x.as_str()),
        None => false,
    }
}

/// The check on the label and value of an arbitrary value.
pub open spec fn spec_arbitrary_weight_parts(label: Seq<char>, value: Seq<char>) -> bool {
    if label.len() == 0 { true } else { spec_is_label_weight(label) }
}

pub open spec fn spec_is_arbitrary_weight(v: Seq<char>) -> bool {
    match arbitrary_parts(v) {
        Some((l, x)) => spec_arbitrary_weight_parts(l, x),
        None => false,
    }
}

/// The check on the label and value of an arbitrary value, once split.
pub fn arbitrary_weight_parts(label: &str, value: &str) -> (r: bool)
    ensures
        r == spec_arbitrary_weight_parts(label@, value@),
{
    if label.is_empty() { true } else { is_label_weight(label) }
}

pub fn is_arbitrary_weight(value: &str) -> (r: bool)
    ensures
        r == spec_is_arbitrary_weight(value@),
{
    match get_arbitrary_parts(value) {
        Some((l, x)) => arbitrary_weight_parts(l.as_str(), x.as_str()),
        None => false,
    }
}

/// The check on the label and value of an arbitrary value.
pub open spec fn spec_arbitrary_family_name_parts(label: Seq<char>, value: Seq<char>) -> bool {
    label == "family-name"@
}

pub open spec fn spec_is_arbitrary_family_name(v: Seq<char>) -> bool {
    match arbitrary_parts(v) {
        Some((l, x)) => spec_arbitrary_family_name_parts(l, x),
        None => false,
    }
}

/// The check on the label and value of an arbitrary value, once split.
pub fn arbitrary_family_name_parts(label: &str, value: &str) -> (r: bool)
    ensures
        r == spec_arbitrary_family_name_parts(label@, value@),
{
    str_eq(label, "family-name")
}

pub fn is_arbitrary_family_name(value: &str) -> (r: bool)
    ensures
        r == spec_is_arbitrary_family_name(value@),
{
    match get_arbitrary_parts(value) {
        Some((l, x)) => arbitrary_family_name_parts(l.as_str(), x.as_str()),
        None => false,
    }
}

/// The check on the label and value of an arbitrary value.
pub open spec fn spec_arbitrary_angle_parts(label: Seq<char>, value: Seq<char>) -> bool {
    label.len() == 0 || label == "angle"@
}

pub open spec fn spec_is_arbitrary_angle(v: Seq<char>) -> bool {
    match arbitrary_parts(v) {
        Some((l, x)) => spec_arbitrary_angle_parts(l, x),
        None => false,
    }
}

/// The check on the label and value of an arbitrary value, once split.
pub fn arbitrary_angle_parts(label: &str, value: &str) -> (r: bool)
    ensures
        r == spec_arbitrary_angle_parts(label@, value@),
{
    label.is_empty() || str_eq(label, "angle")
}

pub fn is_arbitrary_angle(value: &str) -> (r: bool)
    ensures
        r == spec_is_arbitrary_angle(value@),
{
    match get_arbitrary_parts(value) {
        Some((l, x)) => arbitrary_angle_parts(l.as_str(), x.as_str()),
        None => false,
    }
}

/// The check on the label and value of an arbitrary value.
pub open spec fn spec_arbitrary_time_parts(label: Seq<char>, value: Seq<char>) -> bool {
    label.len() == 0 || label == "time"@
}

pub open spec fn spec_is_arbitrary_time(v: Seq<char>) -> bool {
    match arbitrary_parts(v) {
        Some((l, x)) => spec_arbitrary_time_parts(l, x),
        None => false,
    }
}

/// The check on the label and value of an arbitrary value, once split.
pub fn arbitrary_time_parts(label: &str, value: &str) -> (r: bool)
    ensures
        r == spec_arbitrary_time_parts(label@, value@),
{
    label.is_empty() || str_eq(label, "time")
}

pub fn is_arbitrary_time(value: &str) -> (r: bool)
    ensures
        r == spec_is_arbitrary_time(value@),
{
    match get_arbitrary_parts(value) {
        Some((l, x)) => arbitrary_time_parts(l.as_str(), x.as_str()),
        None => false,
    }
}

/// The check on the label and value of an arbitrary value.
pub open spec fn spec_arbitrary_ratio_parts(label: Seq<char>, value: Seq<char>) -> bool {
    label.len() == 0 || label == "ratio"@
}

pub open spec fn spec_is_arbitrary_ratio(v: Seq<char>) -> bool {
    match arbitrary_parts(v) {
        Some((l, x)) => spec_arbitrary_ratio_parts(l, x),
        None => false,
    }
}

/// The check on the label and value of an arbitrary value, once split.
pub fn arbitrary_ratio_parts(label: &str, value: &str) -> (r: bool)
    ensures
        r == spec_arbitrary_ratio_parts(label@, value@),
{
    label.is_empty() || str_eq(label, "ratio")
}

pub fn is_arbitrary_ratio(value: &str) -> (r: bool)
    ensures
        r == spec_is_arbitrary_ratio(value@),
{
    match get_arbitrary_parts(value) {
        Some((l, x)) => arbitrary_ratio_parts(l.as_str(), x.as_str()),
        None => false,
    }
}

/// The check on the label and value of an arbitrary value.
pub open spec fn spec_arbitrary_ident_parts(label: Seq<char>, value: Seq<char>) -> bool {
    label.len() == 0 || label == "custom-ident"@
}

pub open spec fn spec_is_arbitrary_ident(v: Seq<char>) -> bool {
    match arbitrary_parts(v) {
        Some((l, x)) => spec_arbitrary_ident_parts(l, x),
        None => false,
    }
}

/// The check on the label and value of an arbitrary value, once split.
pub fn arbitrary_ident_parts(label: &str, value: &str) -> (r: bool)
    ensures
        r == spec_arbitrary_ident_parts(label@, value@),
{
    label.is_empty() || str_eq(label, "custom-ident")
}

pub fn is_arbitrary_ident(value: &str) -> (r: bool)
    ensures
        r == spec_is_arbitrary_ident(value@),
{
    match get_arbitrary_parts(value) {
        Some((l, x)) => arbitrary_ident_parts(l.as_str(), x.as_str()),
        None => false,
    }
}

/// The check on the label and value of an arbitrary value.
pub open spec fn spec_arbitrary_url_parts(label: Seq<char>, value: Seq<char>) -> bool {
    label.len() == 0 || label == "url"@
}

pub open spec fn spec_is_arbitrary_url(v: Seq<char>) -> bool {
    match arbitrary_parts(v) {
        Some((l, x)) => spec_arbitrary_url_parts(l, x),
        None => false,
    }
}

/// The check on the label and value of an arbitrary value, once split.
pub fn arbitrary_url_parts(label: &str, value: &str) -> (r: bool)
    ensures
        r == spec_arbitrary_url_parts(label@, value@),
{
    label.is_empty() || str_eq(label, "url")
}

pub fn is_arbitrary_url(value: &str) -> (r: bool)
    ensures
        r == spec_is_arbitrary_url(value@),
{
    match get_arbitrary_parts(value) {
        Some((l, x)) => arbitrary_url_parts(l.as_str(), x.as_str()),
        None => false,
    }
}

/// The check on the label and value of an arbitrary value.
pub open spec fn spec_arbitrary_percent_parts(label: Seq<char>, value: Seq<char>) -> bool {
    if label.len() == 0 { spec_is_percent(value) } else { spec_is_label_position(label) }
}

pub open spec fn spec_is_arbitrary_percent(v: Seq<char>) -> bool {
    match arbitrary_parts(v) {
        Some((l, x)) => spec_arbitrary_percent_parts(l, x),
        None => false,
    }
}

/// The check on the label and value of an arbitrary value, once split.
pub fn arbitrary_percent_parts(label: &str, value: &str) -> (r: bool)
    ensures
        r == spec_arbitrary_percent_parts(label@, value@),
{
    if label.is_empty() { is_percent(value) } else { is_label_position(label) }
}

pub fn is_arbitrary_percent(value: &str) -> (r: bool)
    ensures
        r == spec_is_arbitrary_percent(value@),
{
    match get_arbitrary_parts(value) {
        Some((l, x)) => arbitrary_percent_parts(l.as_str(), x.as_str()),
        None => false,
    }
}

/// The check on the label and value of an arbitrary value.
pub open spec fn spec_arbitrary_integer_parts(label: Seq<char>, value: Seq<char>) -> bool {
    if label.len() == 0 { spec_is_number(value) } else { label == "number"@ || label == "integer"@ }
}

pub open spec fn spec_is_arbitrary_integer(v: Seq<char>) -> bool {
    match arbitrary_parts(v) {
        Some((l, x)) => spec_arbitrary_integer_parts(l, x),
        None => false,
    }
}

/// The check on the label and value of an arbitrary value, once split.
pub fn arbitrary_integer_parts(label: &str, value: &str) -> (r: bool)
    ensures
        r == spec_arbitrary_integer_parts(label@, value@),
{
    if label.is_empty() { is_number(value) } else { str_eq(label, "number") || str_eq(label, "integer") }
}

pub fn is_arbitrary_integer(value: &str) -> (r: bool)
    ensures
        r == spec_is_arbitrary_integer(value@),
{
    match get_arbitrary_parts(value) {
        Some((l, x)) => arbitrary_integer_parts(l.as_str(), x.as_str()),
        None => false,
    }
}

/// The check on the label and value of an arbitrary value.
pub open spec fn spec_arbitrary_fraction_parts(label: Seq<char>, value: Seq<char>) -> bool {
    if label.len() == 0 { spec_is_fraction(value) } else { label == "number"@ || label == "ratio"@ }
}

pub open spec fn spec_is_arbitrary_fraction(v: Seq<char>) -> bool {
    match arbitrary_parts(v) {
        Some((l, x)) => spec_arbitrary_fraction_parts(l, x),
        None => false,
    }
}

/// The check on the label and value of an arbitrary value, once split.
pub fn arbitrary_fraction_parts(label: &str, value: &str) -> (r: bool)
    ensures
        r == spec_arbitrary_fraction_parts(label@, value@),
{
    if label.is_empty() { is_fraction(value) } else { str_eq(label, "number") || str_eq(label, "ratio") }
}

pub fn is_arbitrary_fraction(value: &str) -> (r: bool)
    ensures
        r == spec_is_arbitrary_fraction(value@),
{
    match get_arbitrary_parts(value) {
        Some((l, x)) => arbitrary_fraction_parts(l.as_str(), x.as_str()),
        None => false,
    }
}

pub fn is_arbitrary_string(value: &str) -> (r: bool)
    ensures
        r == spec_is_arbitrary_value(value@),
{
    is_arbitrary_value(value)
}

pub fn is_arbitrary_function(value: &str) -> (r: bool)
    ensures
        r == spec_is_arbitrary_value(value@),
{
    is_arbitrary_value(value)
}

pub fn is_arbitrary_custom_property(value: &str) -> (r: bool)
    ensures
        r == spec_is_arbitrary_value(value@),
{
    is_arbitrary_value(value)
}

pub fn is_arbitrary_any(value: &str) -> (r: bool)
    ensures
        r == spec_is_arbitrary_value(value@),
{
    is_arbitrary_value(value)
}

/// The check on the label and value of an arbitrary variable.
pub open spec fn spec_arbitrary_variable_length_parts(label: Seq<char>, value: Seq<char>) -> bool {
    label == "length"@
}

pub open spec fn spec_is_arbitrary_variable_length(v: Seq<char>) -> bool {
    match arbitrary_variable_parts(v) {
        Some((l, x)) => spec_arbitrary_variable_length_parts(l, x),
        None => false,
    }
}

/// The check on the label and value of an arbitrary variable, once split.
pub fn arbitrary_variable_length_parts(label: &str, value: &str) -> (r: bool)
    ensures
        r == spec_arbitrary_variable_length_parts(label@, value@),
{
    str_eq(label, "length")
}

pub fn is_arbitrary_variable_length(value: &str) -> (r: bool)
    ensures
        r == spec_is_arbitrary_variable_length(value@),
{
    match get_arbitrary_variable_parts(value) {
        Some((l, x)) => arbitrary_variable_length_parts(l.as_str(), x.as_str()),
        None => false,
    }
}

/// The check on the label and value of an arbitrary variable.
pub open spec fn spec_arbitrary_variable_family_name_parts(label: Seq<char>, value: Seq<char>) -> bool {
    label == "family-name"@
}

pub open spec fn spec_is_arbitrary_variable_family_name(v: Seq<char>) -> bool {
    match arbitrary_variable_parts(v) {
        Some((l, x)) => spec_arbitrary_variable_family_name_parts(l, x),
        None => false,
    }
}

/// The check on the label and value of an arbitrary variable, once split.
pub fn arbitrary_variable_family_name_parts(label: &str, value: &str) -> (r: bool)
    ensures
        r == spec_arbitrary_variable_family_name_parts(label@, value@),
{
    str_eq(label, "family-name")
}

pub fn is_arbitrary_variable_family_name(value: &str) -> (r: bool)
    ensures
        r == spec_is_arbitrary_variable_family_name(value@),
{
    match get_arbitrary_variable_parts(value) {
        Some((l, x)) => arbitrary_variable_family_name_parts(l.as_str(), x.as_str()),
        None => false,
    }
}

/// The check on the label and value of an arbitrary variable.
pub open spec fn spec_arbitrary_variable_position_parts(label: Seq<char>, value: Seq<char>) -> bool {
    spec_is_label_position(label)
}

pub open spec fn spec_is_arbitrary_variable_position(v: Seq<char>) -> bool {
    match arbitrary_variable_parts(v) {
        Some((l, x)) => spec_arbitrary_variable_position_parts(l, x),
        None => false,
    }
}

/// The check on the label and value of an arbitrary variable, once split.
pub fn arbitrary_variable_position_parts(label: &str, value: &str) -> (r: bool)
    ensures
        r == spec_arbitrary_variable_position_parts(label@, value@),
{
    is_label_position(label)
}

pub fn is_arbitrary_variable_position(value: &str) -> (r: bool)
    ensures
        r == spec_is_arbitrary_variable_position(value@),
{
    match get_arbitrary_variable_parts(value) {
        Some((l, x)) => arbitrary_variable_position_parts(l.as_str(), x.as_str()),
        None => false,
    }
}

/// The check on the label and value of an arbitrary variable.
pub open spec fn spec_arbitrary_variable_size_parts(label: Seq<char>, value: Seq<char>) -> bool {
    spec_is_label_size(label)
}

pub open spec fn spec_is_arbitrary_variable_size(v: Seq<char>) -> bool {
    match arbitrary_variable_parts(v) {
        Some((l, x)) => spec_arbitrary_variable_size_parts(l, x),
        None => false,
    }
}

/// The check on the label and value of an arbitrary variable, once split.
pub fn arbitrary_variable_size_parts(label: &str, value: &str) -> (r: bool)
    ensures
        r == spec_arbitrary_variable_size_parts(label@, value@),
{
    is_label_size(label)
}

pub fn is_arbitrary_variable_size(value: &str) -> (r: bool)
    ensures
        r == spec_is_arbitrary_variable_size(value@),
{
    match get_arbitrary_variable_parts(value) {
        Some((l, x)) => arbitrary_variable_size_parts(l.as_str(), x.as_str()),
        None => false,
    }
}

/// The check on the label and value of an arbitrary variable.
pub open spec fn spec_arbitrary_variable_image_parts(label: Seq<char>, value: Seq<char>) -> bool {
    spec_is_label_image(label)
}

pub open spec fn spec_is_arbitrary_variable_image(v: Seq<char>) -> bool {
    match arbitrary_variable_parts(v) {
        Some((l, x)) => spec_arbitrary_variable_image_parts(l, x),
        None => false,
    }
}

/// The check on the label and value of an arbitrary variable, once split.
pub fn arbitrary_variable_image_parts(label: &str, value: &str) -> (r: bool)
    ensures
        r == spec_arbitrary_variable_image_parts(label@, value@),
{
    is_label_image(label)
}

pub fn is_arbitrary_variable_image(value: &str) -> (r: bool)
    ensures
        r == spec_is_arbitrary_variable_image(value@),
{
    match get_arbitrary_variable_parts(value) {
        Some((l, x)) => arbitrary_variable_image_parts(l.as_str(), x.as_str()),
        None => false,
    }
}

/// The check on the label and value of an arbitrary variable.
pub open spec fn spec_arbitrary_variable_shadow_parts(label: Seq<char>, value: Seq<char>) -> bool {
    if label.len() == 0 { true } else { spec_is_label_shadow(label) }
}

pub open spec fn spec_is_arbitrary_variable_shadow(v: Seq<char>) -> bool {
    match arbitrary_variable_parts(v) {
        Some((l, x)) => spec_arbitrary_variable_shadow_parts(l, x),
        None => false,
    }
}

/// The check on the label and value of an arbitrary variable, once split.
pub fn arbitrary_variable_shadow_parts(label: &str, value: &str) -> (r: bool)
    ensures
        r == spec_arbitrary_variable_shadow_parts(label@, value@),
{
    if label.is_empty() { true } else { is_label_shadow(label) }
}

pub fn is_arbitrary_variable_shadow(value: &str) -> (r: bool)
    ensures
        r == spec_is_arbitrary_variable_shadow(value@),
{
    match get_arbitrary_variable_parts(value) {
        Some((l, x)) => arbitrary_variable_shadow_parts(l.as_str(), x.as_str()),
        None => false,
    }
}

/// The check on the label and value of an arbitrary variable.
pub open spec fn spec_arbitrary_variable_weight_parts(label: Seq<char>, value: Seq<char>) -> bool {
    if label.len() == 0 { true } else { spec_is_label_weight(label) }
}

pub open spec fn spec_is_arbitrary_variable_weight(v: Seq<char>) -> bool {
    match arbitrary_variable_parts(v) {
        Some((l, x)) => spec_arbitrary_variable_weight_parts(l, x),
        None => false,
    }
}

/// The check on the label and value of an arbitrary variable, once split.
pub fn arbitrary_variable_weight_parts(label: &str, value: &str) -> (r: bool)
    ensures
        r == spec_arbitrary_variable_weight_parts(label@, value@),
{
    if label.is_empty() { true } else { is_label_weight(label) }
}

pub fn is_arbitrary_variable_weight(value: &str) -> (r: bool)
    ensures
        r == spec_is_arbitrary_variable_weight(value@),
{
    match get_arbitrary_variable_parts(value) {
        Some((l, x)) => arbitrary_variable_weight_parts(l.as_str(), x.as_str()),
        None => false,
    }
}

/// The check on the label and value of an arbitrary variable.
pub open spec fn spec_arbitrary_variable_angle_parts(label: Seq<char>, value: Seq<char>) -> bool {
    label.len() == 0 || label == "angle"@
}

pub open spec fn spec_is_arbitrary_variable_angle(v: Seq<char>) -> bool {
    match arbitrary_variable_parts(v) {
        Some((l, x)) => spec_arbitrary_variable_angle_parts(l, x),
        None => false,
    }
}

/// The check on the label and value of an arbitrary variable, once split.
pub fn arbitrary_variable_angle_parts(label: &str, value: &str) -> (r: bool)
    ensures
        r == spec_arbitrary_variable_angle_parts(label@, value@),
{
    label.is_empty() || str_eq(label, "angle")
}

pub fn is_arbitrary_variable_angle(value: &str) -> (r: bool)
    ensures
        r == spec_is_arbitrary_variable_angle(value@),
{
    match get_arbitrary_variable_parts(value) {
        Some((l, x)) => arbitrary_variable_angle_parts(l.as_str(), x.as_str()),
        None => false,
    }
}

/// The check on the label and value of an arbitrary variable.
pub open spec fn spec_arbitrary_variable_time_parts(label: Seq<char>, value: Seq<char>) -> bool {
    label.len() == 0 || label == "time"@
}

pub open spec fn spec_is_arbitrary_variable_time(v: Seq<char>) -> bool {
    match arbitrary_variable_parts(v) {
        Some((l, x)) => spec_arbitrary_variable_time_parts(l, x),
        None => false,
    }
}

/// The check on the label and value of an arbitrary variable, once split.
pub fn arbitrary_variable_time_parts(label: &str, value: &str) -> (r: bool)
    ensures
        r == spec_arbitrary_variable_time_parts(label@, value@),
{
    label.is_empty() || str_eq(label, "time")
}

pub fn is_arbitrary_variable_time(value: &str) -> (r: bool)
    ensures
        r == spec_is_arbitrary_variable_time(value@),
{
    match get_arbitrary_variable_parts(value) {
        Some((l, x)) => arbitrary_variable_time_parts(l.as_str(), x.as_str()),
        None => false,
    }
}

/// The check on the label and value of an arbitrary variable.
pub open spec fn spec_arbitrary_variable_ident_parts(label: Seq<char>, value: Seq<char>) -> bool {
    label.len() == 0 || label == "custom-ident"@
}

pub open spec fn spec_is_arbitrary_variable_ident(v: Seq<char>) -> bool {
    match arbitrary_variable_parts(v) {
        Some((l, x)) => spec_arbitrary_variable_ident_parts(l, x),
        None => false,
    }
}

/// The check on the label and value of an arbitrary variable, once split.
pub fn arbitrary_variable_ident_parts(label: &str, value: &str) -> (r: bool)
    ensures
        r == spec_arbitrary_variable_ident_parts(label@, value@),
{
    label.is_empty() || str_eq(label, "custom-ident")
}

pub fn is_arbitrary_variable_ident(value: &str) -> (r: bool)
    ensures
        r == spec_is_arbitrary_variable_ident(value@),
{
    match get_arbitrary_variable_parts(value) {
        Some((l, x)) => arbitrary_variable_ident_parts(l.as_str(), x.as_str()),
        None => false,
    }
}

/// The check on the label and value of an arbitrary variable.
pub open spec fn spec_arbitrary_variable_url_parts(label: Seq<char>, value: Seq<char>) -> bool {
    label.len() == 0 || label == "url"@
}

pub open spec fn spec_is_arbitrary_variable_url(v: Seq<char>) -> bool {
    match arbitrary_variable_parts(v) {
        Some((l, x)) => spec_arbitrary_variable_url_parts(l, x),
        None => false,
    }
}

/// The check on the label and value of an arbitrary variable, once split.
pub fn arbitrary_variable_url_parts(label: &str, value: &str) -> (r: bool)
    ensures
        r == spec_arbitrary_variable_url_parts(label@, value@),
{
    label.is_empty() || str_eq(label, "url")
}

pub fn is_arbitrary_variable_url(value: &str) -> (r: bool)
    ensures
        r == spec_is_arbitrary_variable_url(value@),
{
    match get_arbitrary_variable_parts(value) {
        Some((l, x)) => arbitrary_variable_url_parts(l.as_str(), x.as_str()),
        None => false,
    }
}

/// The check on the label and value of an arbitrary variable.
pub open spec fn spec_arbitrary_variable_percent_parts(label: Seq<char>, value: Seq<char>) -> bool {
    label == "percentage"@
}

pub open spec fn spec_is_arbitrary_variable_percent(v: Seq<char>) -> bool {
    match arbitrary_variable_parts(v) {
        Some((l, x)) => spec_arbitrary_variable_percent_parts(l, x),
        None => false,
    }
}

/// The check on the label and value of an arbitrary variable, once split.
pub fn arbitrary_variable_percent_parts(label: &str, value: &str) -> (r: bool)
    ensures
        r == spec_arbitrary_variable_percent_parts(label@, value@),
{
    str_eq(label, "percentage")
}

pub fn is_arbitrary_variable_percent(value: &str) -> (r: bool)
    ensures
        r == spec_is_arbitrary_variable_percent(value@),
{
    match get_arbitrary_variable_parts(value) {
        Some((l, x)) => arbitrary_variable_percent_parts(l.as_str(), x.as_str()),
        None => false,
    }
}

/// The check on the label and value of an arbitrary variable.
pub open spec fn spec_arbitrary_variable_number_parts(label: Seq<char>, value: Seq<char>) -> bool {
    label == "number"@ || label == "integer"@
}

pub open spec fn spec_is_arbitrary_variable_number(v: Seq<char>) -> bool {
    match arbitrary_variable_parts(v) {
        Some((l, x)) => spec_arbitrary_variable_number_parts(l, x),
        None => false,
    }
}

/// The check on the label and value of an arbitrary variable, once split.
pub fn arbitrary_variable_number_parts(label: &str, value: &str) -> (r: bool)
    ensures
        r == spec_arbitrary_variable_number_parts(label@, value@),
{
    str_eq(label, "number") || str_eq(label, "integer")
}

pub fn is_arbitrary_variable_number(value: &str) -> (r: bool)
    ensures
        r == spec_is_arbitrary_variable_number(value@),
{
    match get_arbitrary_variable_parts(value) {
        Some((l, x)) => arbitrary_variable_number_parts(l.as_str(), x.as_str()),
        None => false,
    }
}

/// The check on the label and value of an arbitrary variable.
pub open spec fn spec_arbitrary_variable_fraction_parts(label: Seq<char>, value: Seq<char>) -> bool {
    label == "number"@ || label == "ratio"@
}

pub open spec fn spec_is_arbitrary_variable_fraction(v: Seq<char>) -> bool {
    match arbitrary_variable_parts(v) {
        Some((l, x)) => spec_arbitrary_variable_fraction_parts(l, x),
        None => false,
    }
}

/// The check on the label and value of an arbitrary variable, once split.
pub fn arbitrary_variable_fraction_parts(label: &str, value: &str) -> (r: bool)
    ensures
        r == spec_arbitrary_variable_fraction_parts(label@, value@),
{
    str_eq(label, "number") || str_eq(label, "ratio")
}

pub fn is_arbitrary_variable_fraction(value: &str) -> (r: bool)
    ensures
        r == spec_is_arbitrary_variable_fraction(value@),
{
    match get_arbitrary_variable_parts(value) {
        Some((l, x)) => arbitrary_variable_fraction_parts(l.as_str(), x.as_str()),
        None => false,
    }
}

pub fn is_arbitrary_variable_string(value: &str) -> (r: bool)
    ensures
        r == spec_is_arbitrary_variable(value@),
{
    is_arbitrary_variable(value)
}

pub fn is_arbitrary_variable_custom_property(value: &str) -> (r: bool)
    ensures
        r == spec_is_arbitrary_variable(value@),
{
    is_arbitrary_variable(value)
}

pub fn is_arbitrary_variable_any(value: &str) -> (r: bool)
    ensures
        r == spec_is_arbitrary_variable(value@),
{
    is_arbitrary_variable(value)
}

pub fn is_angle(value: &str) -> (r: bool)
    ensures
        r == spec_is_angle(value@),
{
    is_number(value) || ends_with(value, "deg") || ends_with(value, "grad") || ends_with(value, "rad")
        || ends_with(value, "turn")
}

pub fn is_time(value: &str) -> (r: bool)
    ensures
        r == spec_is_time(value@),
{
    is_number(value) || ends_with(value, "ms") || ends_with(value, "s")
}

pub fn is_ident(value: &str) -> (r: bool)
    ensures
        r == spec_is_ident(value@),
{
    let b = value.as_bytes();
    if b.len() == 0 {
        return false;
    }
    let c = b[0];
    if !((65 <= c && c <= 90) || (97 <= c && c <= 122) || c == 95u8 || c == 45u8 || c == 92u8) {
        return false;
    }
    let mut i: usize = 1;
    while i < b.len()
        invariant
            1 <= i <= b@.len(),
            b@ == enc(value@),
            forall|j: int| 1 <= j < i ==> ident_rest(#[trigger] b@[j]),
        decreases b@.len() - i,
    {
        let c = b[i];
        if !((65 <= c && c <= 90) || (97 <= c && c <= 122) || (48 <= c && c <= 57) || c == 95u8 || c == 45u8
            || c == 92u8) {
            return false;
        }
        i = i + 1;
    }
    true
}

pub fn is_position_keyword(value: &str) -> (r: bool)
    ensures
        r == spec_is_position_keyword(value@),
{
    str_eq(value, "center") || str_eq(value, "top") || str_eq(value, "bottom") || str_eq(value, "left")
        || str_eq(value, "right") || str_eq(value, "top-left") || str_eq(value, "left-top")
        || str_eq(value, "top-right") || str_eq(value, "right-top") || str_eq(value, "bottom-right")
        || str_eq(value, "right-bottom") || str_eq(value, "bottom-left") || str_eq(value, "left-bottom")
}
} // verus!
