//! Small text helpers: searching characters, splitting on a separator,
//! joining with literal prefixes.

use vstd::prelude::*;

verus! {

/// The first position at or after `start` where `s` holds `c`, or -1.
pub open spec fn index_from(s: Seq<char>, c: char, start: int) -> int
    decreases s.len() - start,
{
    if start < 0 || start >= s.len() {
        -1
    } else if s[start] == c {
        start
    } else {
        index_from(s, c, start + 1)
    }
}

/// `index_from` is the first matching position at or after `start`.
pub proof fn lemma_index_from(s: Seq<char>, c: char, start: int)
    requires
        0 <= start,
    ensures
        index_from(s, c, start) == -1 || (start <= index_from(s, c, start) < s.len() && s[index_from(
            s,
            c,
            start,
        )] == c),
        index_from(s, c, start) == -1 ==> forall|j: int| start <= j < s.len() ==> s[j] != c,
        index_from(s, c, start) >= 0 ==> forall|j: int| start <= j < index_from(s, c, start) ==> s[j] != c,
    decreases s.len() - start,
{
    if start < s.len() && s[start] != c {
        lemma_index_from(s, c, start + 1);
    }
}


/// `index_from` finds the first match: a position holding `c` with no match
/// between `start` and it.
pub proof fn lemma_index_from_at(s: Seq<char>, c: char, start: int, k: int)
    requires
        0 <= start <= k < s.len(),
        s[k] == c,
        forall|j: int| start <= j < k ==> s[j] != c,
    ensures
        index_from(s, c, start) == k,
    decreases k - start,
{
    if start < k {
        lemma_index_from_at(s, c, start + 1, k);
    }
}

/// `index_from` finds nothing where no position from `start` on holds `c`.
pub proof fn lemma_index_from_none(s: Seq<char>, c: char, start: int)
    requires
        0 <= start,
        forall|j: int| start <= j < s.len() ==> s[j] != c,
    ensures
        index_from(s, c, start) == -1,
    decreases s.len() - start,
{
    if start < s.len() {
        lemma_index_from_none(s, c, start + 1);
    }
}

/// The first position at or after `start` where `s` holds `c`.
pub fn find_char(s: &str, c: char, start: usize) -> (position: Option<usize>)
    ensures
        match position {
            Some(k) => k as int == index_from(s@, c, start as int),
            None => index_from(s@, c, start as int) == -1,
        },
{
    let n = s.unicode_len();
    let mut i = start;
    proof {
        lemma_index_from(s@, c, start as int);
    }
    while i < n
        invariant
            n == s@.len(),
            start <= i,
            index_from(s@, c, start as int) == index_from(s@, c, i as int),
        decreases n - i,
    {
        if s.get_char(i) == c {
            return Some(i);
        }
        i = i + 1;
    }
    None
}

/// The first two fields of `s` split on `sep`: the text before the first
/// separator, and the text from there to the next separator or the end.
/// Nothing when `s` holds no separator.
pub open spec fn first_two_fields(s: Seq<char>, sep: char) -> Option<(Seq<char>, Seq<char>)> {
    let p = index_from(s, sep, 0);
    if p < 0 {
        None
    } else {
        let q = index_from(s, sep, p + 1);
        let end = if q < 0 {
            s.len() as int
        } else {
            q
        };
        Some((s.subrange(0, p), s.subrange(p + 1, end)))
    }
}

/// The first two fields of `s` split on `sep`.
pub fn split_first_two<'a>(s: &'a str, sep: char) -> (fields: Option<(&'a str, &'a str)>)
    ensures
        match fields {
            Some((a, b)) => first_two_fields(s@, sep) == Some((a@, b@)),
            None => first_two_fields(s@, sep) is None,
        },
{
    proof {
        lemma_index_from(s@, sep, 0);
    }
    let n = s.unicode_len();
    match find_char(s, sep, 0) {
        None => None,
        Some(p) => {
            proof {
                lemma_index_from(s@, sep, p + 1);
            }
            let end = match find_char(s, sep, p + 1) {
                Some(q) => q,
                None => n,
            };
            let first = s.substring_char(0, p);
            let second = s.substring_char(p + 1, end);
            Some((first, second))
        },
    }
}

/// `prefix` followed by `rest`.
pub fn concat(prefix: &str, rest: &str) -> (joined: String)
    ensures
        joined@ == prefix@ + rest@,
{
    let mut joined = prefix.to_owned();
    joined.append(rest);
    joined
}

} // verus!
