//! Verified executable helpers over character vectors: conversion from
//! `&str`, lowercasing, equality with a string slice, first-occurrence
//! search, and subrange copying.
use vstd::prelude::*;
use vstd::string::StrSliceExecFns;
use crate::model::{lower, lower_char, has_char, strip_spaces, split_commas, views};
use crate::model::{lemma_split_no_comma, lemma_split_first};

verus! {

/// The characters of `s`, in order, as a vector.
pub fn to_chars(s: &str) -> (v: Vec<char>)
    ensures
        v@ == s@,
{
    let n = s.unicode_len();
    let mut v: Vec<char> = Vec::new();
    let mut i: usize = 0;
    while i < n
        invariant
            i <= n,
            n == s@.len(),
            v@ == s@.subrange(0, i as int),
        decreases n - i,
    {
        v.push(s.get_char(i));
        i = i + 1;
        proof {
            assert(v@ =~= s@.subrange(0, i as int));
        }
    }
    proof {
        assert(v@ =~= s@);
    }
    v
}

/// Lowercase one character, folding only ASCII letters.
pub fn lower_char_exec(c: char) -> (r: char)
    ensures
        r == lower_char(c),
{
    let u = c as u32;
    if 65 <= u && u <= 90 {
        ((u + 32) as u8) as char
    } else {
        c
    }
}

/// The ASCII-lowercased copy of `v`.
pub fn lower_vec(v: &Vec<char>) -> (r: Vec<char>)
    ensures
        r@ == lower(v@),
{
    let mut r: Vec<char> = Vec::new();
    let mut i: usize = 0;
    while i < v.len()
        invariant
            i <= v@.len(),
            r@ == lower(v@).subrange(0, i as int),
        decreases v@.len() - i,
    {
        r.push(lower_char_exec(v[i]));
        i = i + 1;
        proof {
            assert(r@ =~= lower(v@).subrange(0, i as int));
        }
    }
    proof {
        assert(r@ =~= lower(v@));
    }
    r
}

/// Whether the characters of `v` are exactly those of the string slice `s`.
pub fn eq_str(v: &Vec<char>, s: &str) -> (r: bool)
    ensures
        r == (v@ == s@),
{
    let n = s.unicode_len();
    if v.len() != n {
        proof {
            assert(v@ != s@) by {
                if v@ == s@ {
                    assert(v@.len() == s@.len());
                }
            }
        }
        return false;
    }
    let mut i: usize = 0;
    while i < n
        invariant
            i <= n,
            n == s@.len(),
            n == v@.len(),
            forall|j: int| 0 <= j < i ==> v@[j] == s@[j],
        decreases n - i,
    {
        if v[i] != s.get_char(i) {
            return false;
        }
        i = i + 1;
    }
    proof {
        assert(v@ =~= s@);
    }
    true
}

/// The index of the first occurrence of `c` in `v`, if any.
pub fn find_first(v: &Vec<char>, c: char) -> (r: Option<usize>)
    ensures
        match r {
            Some(i) => v@.index_of_first(c) == Some(i as int),
            None => v@.index_of_first(c) is None,
        },
{
    let mut i: usize = 0;
    while i < v.len()
        invariant
            i <= v@.len(),
            forall|j: int| 0 <= j < i ==> v@[j] != c,
        decreases v@.len() - i,
    {
        if v[i] == c {
            proof {
                v@.index_of_first_ensures(c);
                assert(v@.contains(c));
            }
            return Some(i);
        }
        i = i + 1;
    }
    proof {
        v@.index_of_first_ensures(c);
        assert(!v@.contains(c)) by {
            if v@.contains(c) {
                let k = choose|k: int| 0 <= k < v@.len() && v@[k] == c;
                assert(v@[k] != c);
            }
        }
    }
    None
}

/// The characters of `v` from `a` (inclusive) to `b` (exclusive).
pub fn copy_range(v: &Vec<char>, a: usize, b: usize) -> (r: Vec<char>)
    requires
        a <= b <= v@.len(),
    ensures
        r@ == v@.subrange(a as int, b as int),
{
    let mut r: Vec<char> = Vec::new();
    let mut i: usize = a;
    while i < b
        invariant
            a <= i <= b <= v@.len(),
            r@ == v@.subrange(a as int, i as int),
        decreases b - i,
    {
        r.push(v[i]);
        i = i + 1;
        proof {
            assert(r@ =~= v@.subrange(a as int, i as int));
        }
    }
    r
}

/// `v` with every space character removed.
pub fn strip_spaces_exec(v: &Vec<char>) -> (r: Vec<char>)
    ensures
        r@ == strip_spaces(v@),
{
    let mut r: Vec<char> = Vec::new();
    let mut i: usize = 0;
    proof {
        assert(v@.subrange(0, v@.len() as int) =~= v@);
        assert(r@ + strip_spaces(v@) =~= strip_spaces(v@));
    }
    while i < v.len()
        invariant
            i <= v@.len(),
            strip_spaces(v@) == r@ + strip_spaces(v@.subrange(i as int, v@.len() as int)),
        decreases v@.len() - i,
    {
        proof {
            let t = v@.subrange(i as int, v@.len() as int);
            assert(t.len() > 0);
            assert(t[0] == v@[i as int]);
            assert(t.drop_first() =~= v@.subrange(i + 1, v@.len() as int));
        }
        if v[i] != ' ' {
            let ghost r0 = r@;
            r.push(v[i]);
            proof {
                let t = v@.subrange(i as int, v@.len() as int);
                assert(r@ =~= r0 + seq![t[0]]);
                assert(r0 + strip_spaces(t) =~= r@ + strip_spaces(
                    v@.subrange(i + 1, v@.len() as int),
                ));
            }
        }
        i = i + 1;
    }
    proof {
        assert(v@.subrange(i as int, v@.len() as int) =~= Seq::<char>::empty());
        assert(r@ + strip_spaces(Seq::empty()) =~= r@);
    }
    r
}

/// The comma-separated fields of `v`, with the semantics of
/// `str::split(',')`.
pub fn split_commas_exec(v: &Vec<char>) -> (r: Vec<Vec<char>>)
    ensures
        views(r@) == split_commas(v@),
{
    let mut r: Vec<Vec<char>> = Vec::new();
    let mut cur: Vec<char> = Vec::new();
    let mut i: usize = 0;
    proof {
        assert(cur@ + v@.subrange(0, v@.len() as int) =~= v@);
        assert(views(r@) + split_commas(v@) =~= split_commas(v@));
    }
    while i < v.len()
        invariant
            i <= v@.len(),
            !has_char(cur@, ','),
            split_commas(v@) == views(r@) + split_commas(
                cur@ + v@.subrange(i as int, v@.len() as int),
            ),
        decreases v@.len() - i,
    {
        if v[i] == ',' {
            proof {
                assert(cur@ + v@.subrange(i as int, v@.len() as int) =~= cur@ + seq![',']
                    + v@.subrange(i + 1, v@.len() as int));
                lemma_split_first(cur@, v@.subrange(i + 1, v@.len() as int));
            }
            let ghost r0 = views(r@);
            let ghost c0 = cur@;
            r.push(cur);
            cur = Vec::new();
            proof {
                assert(views(r@) =~= r0 + seq![c0]);
                assert(views(r@) + split_commas(
                    cur@ + v@.subrange(i + 1, v@.len() as int),
                ) =~= split_commas(v@));
            }
        } else {
            let ghost c0 = cur@;
            cur.push(v[i]);
            proof {
                assert(!has_char(cur@, ',')) by {
                    if has_char(cur@, ',') {
                        let k = choose|k: int| 0 <= k < cur@.len() && cur@[k] == ',';
                        if k < cur@.len() - 1 {
                            assert(c0[k] == ',');
                        }
                    }
                }
                assert(cur@ + v@.subrange(i + 1, v@.len() as int) =~= c0 + v@.subrange(
                    i as int,
                    v@.len() as int,
                ));
            }
        }
        i = i + 1;
    }
    proof {
        assert(cur@ + v@.subrange(i as int, v@.len() as int) =~= cur@);
        lemma_split_no_comma(cur@);
    }
    let ghost prev = views(r@);
    let ghost c0 = cur@;
    r.push(cur);
    proof {
        assert(views(r@) =~= prev + seq![c0]);
        assert(views(r@) =~= split_commas(v@));
    }
    r
}

} // verus!
