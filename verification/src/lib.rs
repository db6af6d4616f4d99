//! Predicates that decide whether a string denotes "rust": the literal name
//! in any ASCII casing, the brand colour as a hex code or an RGB triple, or
//! one of a fixed table of stylized glyph forms — plus the related "rusty"
//! checks.
pub mod model;
pub mod scan;
pub mod laws;

use vstd::prelude::*;
use crate::model::{
    spec_is_rust, spec_str_is_rust, spec_is_rusty, extract, in_table, rgb_shape, views,
};
use crate::scan::{
    to_chars, lower_vec, eq_str, find_first, copy_range, strip_spaces_exec, split_commas_exec,
};

verus! {

/// The parenthesis-aware extraction: what follows the first `'('` (if any),
/// cut at the first `')'` (if any) of what remains.
fn extract_exec(v: &Vec<char>) -> (r: Vec<char>)
    ensures
        r@ == extract(v@),
{
    let n = v.len();
    let a = match find_first(v, '(') {
        Some(i) => {
            proof {
                v@.index_of_first_ensures('(');
                assert(i as int + 1 <= v@.len());
            }
            copy_range(v, i + 1, n)
        },
        None => copy_range(v, 0, n),
    };
    proof {
        assert(v@.subrange(0, v@.len() as int) =~= v@);
    }
    match find_first(&a, ')') {
        Some(j) => {
            proof {
                a@.index_of_first_ensures(')');
            }
            copy_range(&a, 0, j)
        },
        None => a,
    }
}

/// Whether `v` is one of the twenty stylized reference forms.
fn in_table_exec(v: &Vec<char>) -> (r: bool)
    ensures
        r == in_table(v@),
{
    eq_str(v, "\u{FF32}") || eq_str(v, "\u{1D3F}") || eq_str(v, "\u{1D4E1}") || eq_str(
        v,
        "\u{1D5B1}",
    ) || eq_str(v, "\u{1D5E5}") || eq_str(v, "\u{1D57D}") || eq_str(v, "\u{1D64D}") || eq_str(
        v,
        "\u{1D411}",
    ) || eq_str(v, "\u{1D445}") || eq_str(v, "\u{1D479}") || eq_str(v, "\u{1D619}") || eq_str(
        v,
        "\u{1D681}",
    ) || eq_str(v, "\u{1F12C}") || eq_str(v, "\u{1F141}") || eq_str(v, "\u{24C7}") || eq_str(
        v,
        "\u{211B}",
    ) || eq_str(v, "\u{211C}") || eq_str(v, "\u{211D}") || eq_str(v, "fe2o3") || eq_str(
        v,
        "rust is a systems programming language that runs blazingly fast, prevents segfaults, and guarantees thread safety.",
    )
}

/// Whether the split fields match the RGB reference triple, with the
/// four-field alpha tolerance.
fn rgb_check(toks: &Vec<Vec<char>>) -> (r: bool)
    ensures
        r == rgb_shape(views(toks@)),
{
    if toks.len() < 3 {
        return false;
    }
    if !eq_str(&toks[0], "173") {
        return false;
    }
    if !eq_str(&toks[1], "65") {
        return false;
    }
    if !eq_str(&toks[2], "14") {
        return false;
    }
    if toks.len() == 4 {
        let t = &toks[3];
        if t.len() == 0 {
            return false;
        }
        if t[0] != '1' {
            return false;
        }
    }
    true
}

/// The case-sensitive matcher over a character vector.
fn chars_is_rust(v: &Vec<char>) -> (r: bool)
    ensures
        r == spec_str_is_rust(v@),
{
    if eq_str(v, "rust") || eq_str(v, "b7410e") || eq_str(v, "#b7410e") {
        return true;
    }
    let e = extract_exec(v);
    if in_table_exec(&e) {
        return true;
    }
    let d = strip_spaces_exec(&e);
    let toks = split_commas_exec(&d);
    rgb_check(&toks)
}

/// Returns whether a value is rust, comparing case-sensitively: no
/// lowercasing is performed before matching.
pub fn str_is_rust(s: &str) -> (r: bool)
    ensures
        r == spec_str_is_rust(s@),
{
    let v = to_chars(s);
    chars_is_rust(&v)
}

/// Returns whether a value is rust.
///
/// This returns true if, after ASCII lowercasing, the value is `"rust"`, the
/// hex value `"b7410e"` (with or without a leading `"#"`), one of the twenty
/// stylized reference forms, or the RGB value `173, 65, 14` (optionally
/// wrapped in parentheses, and optionally with an alpha component that
/// begins with `"1"`).
pub fn is_rust(s: &str) -> (r: bool)
    ensures
        r == spec_is_rust(s@),
{
    let v = to_chars(s);
    let lv = lower_vec(&v);
    chars_is_rust(&lv)
}

/// Returns whether the given value is, after ASCII lowercasing, exactly
/// `"rusty"` or `"ferris"`.
///
/// This returns false if the value _is_ rust: "rust" is not rust-y, it is
/// rust itself.
pub fn is_rusty(s: &str) -> (r: bool)
    ensures
        r == spec_is_rusty(s@),
{
    let v = to_chars(s);
    let lv = lower_vec(&v);
    eq_str(&lv, "rusty") || eq_str(&lv, "ferris")
}

/// Returns whether a value is `"rusty"` or rust itself, meaning it is at
/// least rusty.
pub fn is_at_least_rusty(s: &str) -> (r: bool)
    ensures
        r == (spec_is_rust(s@) || spec_is_rusty(s@)),
{
    is_rust(s) || is_rusty(s)
}

/// Returns whether all of the given values are rust. Vacuously true of an
/// empty slice.
pub fn is_very_rusty(values: &[&str]) -> (r: bool)
    ensures
        r == (forall|i: int| 0 <= i < values@.len() ==> spec_is_rust(values@[i]@)),
{
    let mut i: usize = 0;
    while i < values.len()
        invariant
            i <= values@.len(),
            forall|j: int| 0 <= j < i ==> spec_is_rust(values@[j]@),
        decreases values@.len() - i,
    {
        if !is_rust(values[i]) {
            return false;
        }
        i = i + 1;
    }
    true
}

/// Returns whether something is _not_ rust: the negation of [`is_rust`].
pub fn is_not_rust(s: &str) -> (r: bool)
    ensures
        r == !spec_is_rust(s@),
{
    !is_rust(s)
}

} // verus!
