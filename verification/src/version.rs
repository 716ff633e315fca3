//! The order of version directory names such as `v18.17.0`: by their
//! numbers, read as a tuple of integers.

use vstd::prelude::*;
use crate::text::{lemma_lex_le_total, lemma_lex_le_transitive, lex_le, lex_le_chars, slice_chars, split_chars, split_on, views};

verus! {

/// A decimal digit.
pub open spec fn is_digit(c: char) -> bool {
    '0' <= c && c <= '9'
}

/// The number that a string of decimal digits writes.
pub open spec fn digits_value(s: Seq<char>) -> int
    decreases s.len(),
{
    if s.len() == 0 {
        0
    } else {
        digits_value(s.drop_last()) * 10 + ((s.last() as int) - ('0' as int))
    }
}

/// One number of a version: a non-empty string of digits whose value fits
/// in 64 bits.
pub open spec fn version_part(s: Seq<char>) -> Option<int> {
    if s.len() > 0 && (forall|i: int| 0 <= i < s.len() ==> is_digit(#[trigger] s[i])) && digits_value(s)
        <= u64::MAX {
        Some(digits_value(s))
    } else {
        None
    }
}

/// A name without the `'v'` that it may start with.
pub open spec fn without_v(name: Seq<char>) -> Seq<char> {
    if name.len() > 0 && name[0] == 'v' {
        name.drop_first()
    } else {
        name
    }
}

/// The numbers of a version name `[v]N.N...`, or `None` when the name is
/// not one.
pub open spec fn version_numbers(name: Seq<char>) -> Option<Seq<int>> {
    let parts = split_on(without_v(name), '.');
    if forall|i: int| 0 <= i < parts.len() ==> (#[trigger] version_part(parts[i])) is Some {
        Some(part_values(parts))
    } else {
        None
    }
}

/// The numbers of version parts that are all numbers.
pub open spec fn part_values(parts: Seq<Seq<char>>) -> Seq<int> {
    parts.map_values(|p: Seq<char>| version_part(p)->0)
}

/// Lexicographic order of number tuples (`a <= b`); a tuple comes before
/// its extensions.
pub open spec fn numbers_le(a: Seq<int>, b: Seq<int>) -> bool
    decreases a.len(),
{
    if a.len() == 0 {
        true
    } else if b.len() == 0 {
        false
    } else if a[0] != b[0] {
        a[0] < b[0]
    } else {
        numbers_le(a.drop_first(), b.drop_first())
    }
}

/// The order of version names: versions by their numbers, and names with
/// the same numbers (`v18.17.0`, `18.17.0`) as strings; names that are no
/// version come before all versions and are ordered as strings.
pub open spec fn version_le(a: Seq<char>, b: Seq<char>) -> bool {
    match (version_numbers(a), version_numbers(b)) {
        (Some(x), Some(y)) => if x == y {
            lex_le(a, b)
        } else {
            numbers_le(x, y)
        },
        (None, Some(_)) => true,
        (Some(_), None) => false,
        (None, None) => lex_le(a, b),
    }
}

proof fn lemma_numbers_le_total(a: Seq<int>, b: Seq<int>)
    ensures
        numbers_le(a, a),
        numbers_le(a, b) || numbers_le(b, a),
    decreases a.len(),
{
    if a.len() > 0 {
        lemma_numbers_le_total(a.drop_first(), a.drop_first());
        if b.len() > 0 && a[0] == b[0] {
            lemma_numbers_le_total(a.drop_first(), b.drop_first());
        }
    }
}

proof fn lemma_numbers_le_transitive(a: Seq<int>, b: Seq<int>, c: Seq<int>)
    requires
        numbers_le(a, b),
        numbers_le(b, c),
    ensures
        numbers_le(a, c),
    decreases a.len(),
{
    if a.len() > 0 && b.len() > 0 && c.len() > 0 && a[0] == b[0] && b[0] == c[0] {
        lemma_numbers_le_transitive(a.drop_first(), b.drop_first(), c.drop_first());
    }
}

proof fn lemma_numbers_le_antisymmetric(a: Seq<int>, b: Seq<int>)
    requires
        numbers_le(a, b),
        numbers_le(b, a),
    ensures
        a == b,
    decreases a.len(),
{
    if a.len() > 0 && b.len() > 0 {
        lemma_numbers_le_antisymmetric(a.drop_first(), b.drop_first());
        assert(a =~= seq![a[0]] + a.drop_first());
        assert(b =~= seq![b[0]] + b.drop_first());
    }
}

/// `version_le` is a total order: reflexive and total.
pub proof fn lemma_version_le_total(a: Seq<char>, b: Seq<char>)
    ensures
        version_le(a, a),
        version_le(a, b) || version_le(b, a),
{
    lemma_lex_le_total(a, b);
    lemma_lex_le_total(a, a);
    if let Some(x) = version_numbers(a) {
        if let Some(y) = version_numbers(b) {
            lemma_numbers_le_total(x, y);
        }
    }
}

/// `version_le` is transitive.
pub proof fn lemma_version_le_transitive(a: Seq<char>, b: Seq<char>, c: Seq<char>)
    requires
        version_le(a, b),
        version_le(b, c),
    ensures
        version_le(a, c),
{
    match (version_numbers(a), version_numbers(b), version_numbers(c)) {
        (Some(x), Some(y), Some(z)) => {
            if x == y && y == z {
                lemma_lex_le_transitive(a, b, c);
            } else if x != y && y != z {
                lemma_numbers_le_transitive(x, y, z);
                if x == z {
                    lemma_numbers_le_antisymmetric(x, y);
                }
            }
        },
        (None, None, None) => lemma_lex_le_transitive(a, b, c),
        _ => {},
    }
}

proof fn lemma_digits_value_grows(s: Seq<char>, k: int)
    requires
        0 <= k <= s.len(),
        forall|i: int| 0 <= i < s.len() ==> is_digit(#[trigger] s[i]),
    ensures
        0 <= digits_value(s.take(k)) <= digits_value(s),
    decreases s.len() - k,
{
    if k < s.len() {
        lemma_digits_value_grows(s, k + 1);
        assert(s.take(k + 1).drop_last() =~= s.take(k));
        assert(is_digit(s.take(k + 1).last()));
    } else {
        assert(s.take(k) =~= s);
        lemma_digits_value_nonneg(s);
    }
}

proof fn lemma_digits_value_nonneg(s: Seq<char>)
    requires
        forall|i: int| 0 <= i < s.len() ==> is_digit(#[trigger] s[i]),
    ensures
        0 <= digits_value(s),
    decreases s.len(),
{
    if s.len() > 0 {
        assert(is_digit(s.last()));
        lemma_digits_value_nonneg(s.drop_last());
    }
}

/// One number of a version name.
pub fn parse_version_part(s: &Vec<char>) -> (r: Option<u64>)
    ensures
        match r {
            Some(v) => version_part(s@) == Some(v as int),
            None => version_part(s@) is None,
        },
{
    if s.len() == 0 {
        return None;
    }
    let mut value: u64 = 0;
    let mut k: usize = 0;
    while k < s.len()
        invariant
            k <= s.len(),
            forall|i: int| 0 <= i < k ==> is_digit(#[trigger] s@[i]),
            value == digits_value(s@.take(k as int)),
        decreases s.len() - k,
    {
        let c = s[k];
        if !('0' <= c && c <= '9') {
            return None;
        }
        assert(s@.take(k + 1).drop_last() =~= s@.take(k as int));
        let d = (c as u32 - '0' as u32) as u128;
        let next: u128 = (value as u128) * 10 + d;
        if next > u64::MAX as u128 {
            proof {
                assert(s@.take(k + 1).last() == c);
                assert(digits_value(s@.take(k + 1)) == next);
                if forall|i: int| 0 <= i < s@.len() ==> is_digit(#[trigger] s@[i]) {
                    lemma_digits_value_grows(s@, k + 1);
                }
            }
            return None;
        }
        value = next as u64;
        k = k + 1;
    }
    assert(s@.take(k as int) =~= s@);
    Some(value)
}


/// The numbers of a parsed version.
pub open spec fn nums(v: Seq<u64>) -> Seq<int> {
    v.map_values(|x: u64| x as int)
}

/// The numbers of a version name, or `None` when the name is not one.
pub fn parse_version(name: &Vec<char>) -> (r: Option<Vec<u64>>)
    ensures
        match r {
            Some(v) => version_numbers(name@) == Some(nums(v@)),
            None => version_numbers(name@) is None,
        },
{
    let body = if name.len() > 0 && name[0] == 'v' {
        slice_chars(name, 1, name.len())
    } else {
        slice_chars(name, 0, name.len())
    };
    assert(body@ =~= without_v(name@));
    let parts = split_chars(&body, '.');
    let ghost ps = views(parts@);
    let mut out: Vec<u64> = Vec::new();
    let mut k: usize = 0;
    while k < parts.len()
        invariant
            k <= parts.len(),
            ps == views(parts@),
            ps == split_on(without_v(name@), '.'),
            forall|i: int| 0 <= i < k ==> (#[trigger] version_part(ps[i])) is Some,
            nums(out@) == part_values(ps.take(k as int)),
        decreases parts.len() - k,
    {
        assert(ps[k as int] == parts@[k as int]@);
        match parse_version_part(&parts[k]) {
            Some(v) => {
                let ghost before = out@;
                out.push(v);
                assert(nums(out@) =~= nums(before).push(v as int));
                assert(part_values(ps.take(k + 1)) =~= part_values(ps.take(k as int)).push(version_part(ps[k as int])->0));
            },
            None => {
                return None;
            },
        }
        k = k + 1;
    }
    assert(ps.take(k as int) =~= ps);
    Some(out)
}

/// `a <= b` for number tuples.
pub fn numbers_le_of(a: &Vec<u64>, b: &Vec<u64>) -> (r: bool)
    ensures
        r == numbers_le(nums(a@), nums(b@)),
{
    let ghost x = nums(a@);
    let ghost y = nums(b@);
    let mut k: usize = 0;
    assert(x.skip(0) =~= x);
    assert(y.skip(0) =~= y);
    while k < a.len()
        invariant
            k <= a.len(),
            k <= b.len(),
            x == nums(a@),
            y == nums(b@),
            numbers_le(x, y) == numbers_le(x.skip(k as int), y.skip(k as int)),
        decreases a.len() - k,
    {
        if k == b.len() {
            return false;
        }
        if a[k] != b[k] {
            assert(x.skip(k as int)[0] == a@[k as int] as int);
            assert(y.skip(k as int)[0] == b@[k as int] as int);
            return a[k] < b[k];
        }
        assert(x.skip(k as int).drop_first() =~= x.skip(k + 1));
        assert(y.skip(k as int).drop_first() =~= y.skip(k + 1));
        k = k + 1;
    }
    true
}

/// `a <= b` in the order of version names.
pub fn version_le_of(a: &Vec<char>, b: &Vec<char>) -> (r: bool)
    ensures
        r == version_le(a@, b@),
{
    match (parse_version(a), parse_version(b)) {
        (Some(x), Some(y)) => {
            let xy = numbers_le_of(&x, &y);
            let yx = numbers_le_of(&y, &x);
            proof {
                lemma_numbers_le_total(nums(x@), nums(y@));
                lemma_numbers_le_total(nums(y@), nums(x@));
                if xy && yx {
                    lemma_numbers_le_antisymmetric(nums(x@), nums(y@));
                }
            }
            if xy && yx {
                lex_le_chars(a, b)
            } else {
                xy
            }
        },
        (None, Some(_)) => true,
        (Some(_), None) => false,
        (None, None) => lex_le_chars(a, b),
    }
}

} // verus!
