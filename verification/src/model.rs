//! The mathematical model of the matcher: spec functions over `Seq<char>`
//! describing lowercasing, parenthesis extraction, space removal, comma
//! splitting, the reference table, and the resulting predicates.
use vstd::prelude::*;

verus! {

/// ASCII lowercasing of a single character: `'A'..='Z'` map to `'a'..='z'`,
/// every other character (including non-ASCII glyphs) is left unchanged.
pub open spec fn lower_char(c: char) -> char {
    if 65 <= c as u32 && c as u32 <= 90 {
        ((c as u32) + 32) as char
    } else {
        c
    }
}

/// Pointwise ASCII lowercasing of a character sequence.
pub open spec fn lower(s: Seq<char>) -> Seq<char> {
    Seq::new(s.len(), |i: int| lower_char(s[i]))
}

/// Whether `c` occurs anywhere in `s`.
pub open spec fn has_char(s: Seq<char>, c: char) -> bool {
    exists|i: int| 0 <= i < s.len() && s[i] == c
}

/// Everything after the first `'('`, or the whole sequence if there is none.
pub open spec fn after_open(s: Seq<char>) -> Seq<char> {
    match s.index_of_first('(') {
        Some(i) => s.subrange(i + 1, s.len() as int),
        None => s,
    }
}

/// Everything before the first `')'`, or the whole sequence if there is none.
pub open spec fn before_close(s: Seq<char>) -> Seq<char> {
    match s.index_of_first(')') {
        Some(j) => s.subrange(0, j),
        None => s,
    }
}

/// The parenthesis-aware extraction step: take what follows the first `'('`
/// (if any), then cut at the first `')'` (if any) of what remains.
pub open spec fn extract(s: Seq<char>) -> Seq<char> {
    before_close(after_open(s))
}

/// `s` with every space character removed.
pub open spec fn strip_spaces(s: Seq<char>) -> Seq<char>
    decreases s.len(),
{
    if s.len() == 0 {
        Seq::empty()
    } else if s[0] == ' ' {
        strip_spaces(s.drop_first())
    } else {
        seq![s[0]] + strip_spaces(s.drop_first())
    }
}

/// Splitting on commas, with the semantics of `str::split(',')`: the result
/// always has at least one field, and splitting the empty sequence yields one
/// empty field.
pub open spec fn split_commas(s: Seq<char>) -> Seq<Seq<char>>
    decreases s.len(),
{
    if s.len() == 0 {
        seq![Seq::<char>::empty()]
    } else {
        let rest = split_commas(s.drop_first());
        if s[0] == ',' {
            seq![Seq::<char>::empty()] + rest
        } else {
            seq![seq![s[0]] + rest[0]] + rest.drop_first()
        }
    }
}

/// The views of a sequence of character vectors, elementwise.
pub open spec fn views(ts: Seq<Vec<char>>) -> Seq<Seq<char>> {
    Seq::new(ts.len(), |i: int| ts[i]@)
}

/// A sequence without commas splits into the single field that is itself.
pub proof fn lemma_split_no_comma(s: Seq<char>)
    requires
        !has_char(s, ','),
    ensures
        split_commas(s) == seq![s],
    decreases s.len(),
{
    if s.len() == 0 {
        assert(s =~= Seq::<char>::empty());
        assert(split_commas(s) =~= seq![s]);
    } else {
        assert(s[0] != ',');
        assert(!has_char(s.drop_first(), ',')) by {
            if has_char(s.drop_first(), ',') {
                let i = choose|i: int|
                    0 <= i < s.drop_first().len() && s.drop_first()[i] == ',';
                assert(s[i + 1] == ',');
            }
        }
        lemma_split_no_comma(s.drop_first());
        let rest = split_commas(s.drop_first());
        assert(rest == seq![s.drop_first()]);
        assert(seq![s[0]] + rest[0] =~= s);
        assert(rest.drop_first() =~= Seq::<Seq<char>>::empty());
        assert(split_commas(s) =~= seq![s]);
    }
}

/// Splitting a sequence that begins with a comma-free field `a` followed by
/// a comma yields `a` and then the split of the remainder.
pub proof fn lemma_split_first(a: Seq<char>, b: Seq<char>)
    requires
        !has_char(a, ','),
    ensures
        split_commas(a + seq![','] + b) == seq![a] + split_commas(b),
    decreases a.len(),
{
    let s = a + seq![','] + b;
    if a.len() == 0 {
        assert(s[0] == ',');
        assert(s.drop_first() =~= b);
        assert(a =~= Seq::<char>::empty());
        assert(split_commas(s) =~= seq![a] + split_commas(b));
    } else {
        assert(s[0] == a[0]);
        assert(a[0] != ',');
        assert(!has_char(a.drop_first(), ',')) by {
            if has_char(a.drop_first(), ',') {
                let i = choose|i: int|
                    0 <= i < a.drop_first().len() && a.drop_first()[i] == ',';
                assert(a[i + 1] == ',');
            }
        }
        assert(s.drop_first() =~= a.drop_first() + seq![','] + b);
        lemma_split_first(a.drop_first(), b);
        let rest = split_commas(s.drop_first());
        assert(rest == seq![a.drop_first()] + split_commas(b));
        assert(rest[0] == a.drop_first());
        assert(seq![s[0]] + rest[0] =~= a);
        assert(rest.drop_first() =~= split_commas(b));
        assert(split_commas(s) =~= seq![a] + split_commas(b));
    }
}

/// A sequence without spaces is unchanged by space removal.
pub proof fn lemma_strip_no_space(s: Seq<char>)
    requires
        !has_char(s, ' '),
    ensures
        strip_spaces(s) == s,
    decreases s.len(),
{
    if s.len() == 0 {
        assert(strip_spaces(s) =~= s);
    } else {
        assert(s[0] != ' ');
        assert(!has_char(s.drop_first(), ' ')) by {
            if has_char(s.drop_first(), ' ') {
                let i = choose|i: int|
                    0 <= i < s.drop_first().len() && s.drop_first()[i] == ' ';
                assert(s[i + 1] == ' ');
            }
        }
        lemma_strip_no_space(s.drop_first());
        assert(strip_spaces(s) =~= s);
    }
}

/// A character shown absent at every index does not occur.
pub proof fn lemma_not_has_char(s: Seq<char>, c: char)
    requires
        forall|i: int| 0 <= i < s.len() ==> s[i] != c,
    ensures
        !has_char(s, c),
{
}

/// A sequence without parentheses is unchanged by extraction.
pub proof fn lemma_extract_id(s: Seq<char>)
    requires
        !has_char(s, '('),
        !has_char(s, ')'),
    ensures
        extract(s) == s,
{
    s.index_of_first_ensures('(');
    if s.index_of_first('(') is Some {
        let i = choose|i: int| 0 <= i < s.len() && s[i] == '(';
        assert(s[i] != '(');
    }
    s.index_of_first_ensures(')');
    if s.index_of_first(')') is Some {
        let i = choose|i: int| 0 <= i < s.len() && s[i] == ')';
        assert(s[i] != ')');
    }
}

/// Whether `s` is one of the twenty stylized reference forms.
pub open spec fn in_table(s: Seq<char>) -> bool {
    ||| s == "\u{FF32}"@
    ||| s == "\u{1D3F}"@
    ||| s == "\u{1D4E1}"@
    ||| s == "\u{1D5B1}"@
    ||| s == "\u{1D5E5}"@
    ||| s == "\u{1D57D}"@
    ||| s == "\u{1D64D}"@
    ||| s == "\u{1D411}"@
    ||| s == "\u{1D445}"@
    ||| s == "\u{1D479}"@
    ||| s == "\u{1D619}"@
    ||| s == "\u{1D681}"@
    ||| s == "\u{1F12C}"@
    ||| s == "\u{1F141}"@
    ||| s == "\u{24C7}"@
    ||| s == "\u{211B}"@
    ||| s == "\u{211C}"@
    ||| s == "\u{211D}"@
    ||| s == "fe2o3"@
    ||| s == "rust is a systems programming language that runs blazingly fast, prevents segfaults, and guarantees thread safety."@
}

/// Whether a token sequence matches the RGB reference triple `173, 65, 14`:
/// the first three fields must equal the reference components, and when there
/// are exactly four fields the fourth must begin with `'1'`.
pub open spec fn rgb_shape(toks: Seq<Seq<char>>) -> bool {
    &&& toks.len() >= 3
    &&& toks[0] == "173"@
    &&& toks[1] == "65"@
    &&& toks[2] == "14"@
    &&& (toks.len() == 4 ==> toks[3].len() > 0 && toks[3][0] == '1')
}

/// The RGB branch applied to an already-extracted sequence: remove spaces,
/// split on commas, and test the token shape.
pub open spec fn rgb_matches(s: Seq<char>) -> bool {
    rgb_shape(split_commas(strip_spaces(s)))
}

/// The case-sensitive matcher: a sequence denotes rust when it is the
/// canonical name, one of the two hex forms, or when its parenthesis
/// extraction is a stylized reference form or an RGB reference match.
pub open spec fn spec_str_is_rust(s: Seq<char>) -> bool {
    ||| s == "rust"@
    ||| s == "b7410e"@
    ||| s == "#b7410e"@
    ||| in_table(extract(s))
    ||| rgb_matches(extract(s))
}

/// The case-insensitive matcher: lowercase first, then match.
pub open spec fn spec_is_rust(s: Seq<char>) -> bool {
    spec_str_is_rust(lower(s))
}

/// The rusty check: after lowercasing, exactly `"rusty"` or `"ferris"`.
pub open spec fn spec_is_rusty(s: Seq<char>) -> bool {
    lower(s) == "rusty"@ || lower(s) == "ferris"@
}

} // verus!
