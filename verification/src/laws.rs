//! Laws relating the predicates to one another.
use vstd::prelude::*;
use crate::model::{
    spec_is_rust, spec_is_rusty, spec_str_is_rust, lower, lower_char, has_char, in_table,
    rgb_matches, extract, strip_spaces, split_commas,
};
use crate::model::{
    lemma_not_has_char, lemma_extract_id, lemma_strip_no_space, lemma_split_no_comma,
};

verus! {

/// Every ASCII casing variant of the canonical name is rust: any sequence
/// that lowercases to `"rust"` satisfies the matcher.
pub proof fn lemma_any_casing_of_rust_is_rust(s: Seq<char>)
    requires
        lower(s) == "rust"@,
    ensures
        spec_is_rust(s),
{
}

/// ASCII lowercasing is idempotent on a single character.
pub proof fn lemma_lower_char_idempotent(c: char)
    ensures
        lower_char(lower_char(c)) == lower_char(c),
{
}

/// ASCII lowercasing is idempotent.
pub proof fn lemma_lower_idempotent(s: Seq<char>)
    ensures
        lower(lower(s)) == lower(s),
{
    assert(lower(lower(s)) =~= lower(s)) by {
        assert forall|i: int| 0 <= i < s.len() implies lower(lower(s))[i] == lower(s)[i] by {
            lemma_lower_char_idempotent(s[i]);
        }
    }
}

/// The matcher is case-insensitive: a value and its lowercased form are
/// classified alike.
pub proof fn lemma_is_rust_case_insensitive(s: Seq<char>)
    ensures
        spec_is_rust(lower(s)) == spec_is_rust(s),
{
    lemma_lower_idempotent(s);
}

/// A word containing no parenthesis, space or comma, different from the
/// three literal forms and from every table entry, is not rust.
proof fn lemma_plain_word_not_rust(t: Seq<char>)
    requires
        t != "rust"@,
        t != "b7410e"@,
        t != "#b7410e"@,
        !in_table(t),
        !has_char(t, '('),
        !has_char(t, ')'),
        !has_char(t, ' '),
        !has_char(t, ','),
    ensures
        !spec_str_is_rust(t),
{
    lemma_extract_id(t);
    lemma_strip_no_space(t);
    lemma_split_no_comma(t);
    assert(split_commas(strip_spaces(extract(t))) == seq![t]);
    assert(!rgb_matches(extract(t)));
}

/// No character of `t` is a parenthesis, a space or a comma.
spec fn plain(t: Seq<char>) -> bool {
    forall|i: int| 0 <= i < t.len() ==> t[i] != '(' && t[i] != ')' && t[i] != ' ' && t[i] != ','
}

/// The hypotheses of `lemma_plain_word_not_rust` about separator characters.
proof fn lemma_plain_chars(t: Seq<char>)
    requires
        plain(t),
    ensures
        !has_char(t, '('),
        !has_char(t, ')'),
        !has_char(t, ' '),
        !has_char(t, ','),
{
    lemma_not_has_char(t, '(');
    lemma_not_has_char(t, ')');
    lemma_not_has_char(t, ' ');
    lemma_not_has_char(t, ',');
}

/// Rusty values are never rust: the two classifications are disjoint.
/// Whatever lowercases to `"rusty"` or `"ferris"` fails the rust matcher.
pub proof fn lemma_rusty_is_never_rust(s: Seq<char>)
    requires
        spec_is_rusty(s),
    ensures
        !spec_is_rust(s),
{
    reveal_strlit("rust");
    reveal_strlit("b7410e");
    reveal_strlit("#b7410e");
    reveal_strlit("rusty");
    reveal_strlit("ferris");
    reveal_strlit("\u{FF32}");
    reveal_strlit("\u{1D3F}");
    reveal_strlit("\u{1D4E1}");
    reveal_strlit("\u{1D5B1}");
    reveal_strlit("\u{1D5E5}");
    reveal_strlit("\u{1D57D}");
    reveal_strlit("\u{1D64D}");
    reveal_strlit("\u{1D411}");
    reveal_strlit("\u{1D445}");
    reveal_strlit("\u{1D479}");
    reveal_strlit("\u{1D619}");
    reveal_strlit("\u{1D681}");
    reveal_strlit("\u{1F12C}");
    reveal_strlit("\u{1F141}");
    reveal_strlit("\u{24C7}");
    reveal_strlit("\u{211B}");
    reveal_strlit("\u{211C}");
    reveal_strlit("\u{211D}");
    reveal_strlit("fe2o3");
    reveal_strlit(
        "rust is a systems programming language that runs blazingly fast, prevents segfaults, and guarantees thread safety.",
    );
    let t = lower(s);
    assert(plain(t));
    lemma_plain_chars(t);
    if t == "rusty"@ {
        assert(t.len() == 5);
        assert(t[0] == 'r');
        assert(t != "rust"@);
        assert(t != "b7410e"@);
        assert(t != "#b7410e"@);
        assert(t != "fe2o3"@);
        assert(!in_table(t));
    } else {
        assert(t == "ferris"@);
        assert(t.len() == 6);
        assert(t[0] == 'f');
        assert(t != "rust"@);
        assert(t != "b7410e"@);
        assert(t != "#b7410e"@);
        assert(t != "fe2o3"@);
        assert(!in_table(t));
    }
    lemma_plain_word_not_rust(t);
}

} // verus!
