//! Scanning primitives over character sequences.
//!
//! The wire formats handled by this crate are delimited by ASCII characters,
//! but carry names in arbitrary scripts, so every position in this module is a
//! character position, never a byte offset.

use vstd::prelude::*;
use vstd::string::StringExecFns;

verus! {

/// `pat` occurs in `s` at position `i`.
pub open spec fn occurs_at(s: Seq<char>, pat: Seq<char>, i: int) -> bool {
    0 <= i && i + pat.len() <= s.len() && s.subrange(i, i + pat.len()) == pat
}

/// Position of the first occurrence of `pat` in `s` at or after `from`.
pub open spec fn find_from(s: Seq<char>, pat: Seq<char>, from: int) -> Option<int>
    decreases s.len() + 1 - from,
{
    if 0 <= from && from + pat.len() <= s.len() {
        if occurs_at(s, pat, from) {
            Some(from)
        } else {
            find_from(s, pat, from + 1)
        }
    } else {
        None
    }
}

/// Position of the first occurrence of `pat` in `s`.
pub open spec fn find(s: Seq<char>, pat: Seq<char>) -> Option<int> {
    find_from(s, pat, 0)
}

/// The pieces of `s` between occurrences of `sep`. There is always at least
/// one piece; `n` separators give `n + 1` pieces, some of which may be empty.
pub open spec fn split(s: Seq<char>, sep: char) -> Seq<Seq<char>>
    decreases s.len(),
    via split_decreases
{
    match s.index_of_first(sep) {
        None => seq![s],
        Some(i) => seq![s.take(i)] + split(s.skip(i + 1), sep),
    }
}

#[via_fn]
proof fn split_decreases(s: Seq<char>, sep: char) {
    s.index_of_first_ensures(sep);
}

/// A character found at `i` with none before it is the first occurrence.
pub proof fn lemma_first_is(s: Seq<char>, c: char, i: int)
    requires
        0 <= i < s.len(),
        s[i] == c,
        forall|j: int| 0 <= j < i ==> s[j] != c,
    ensures
        s.index_of_first(c) == Some(i),
{
    s.index_of_first_ensures(c);
}

/// A character found at `i` with none after it is the last occurrence.
pub proof fn lemma_last_is(s: Seq<char>, c: char, i: int)
    requires
        0 <= i < s.len(),
        s[i] == c,
        forall|j: int| i < j < s.len() ==> s[j] != c,
    ensures
        s.index_of_last(c) == Some(i),
{
    s.index_of_last_ensures(c);
}

/// A sequence without `c` has neither a first nor a last occurrence of it.
pub proof fn lemma_absent(s: Seq<char>, c: char)
    requires
        forall|j: int| 0 <= j < s.len() ==> s[j] != c,
    ensures
        s.index_of_first(c) is None,
        s.index_of_last(c) is None,
{
    s.index_of_first_ensures(c);
    s.index_of_last_ensures(c);
}

/// Collects the characters of a string slice, in order.
pub fn to_chars(s: &str) -> (out: Vec<char>)
    ensures
        out@ == s@,
{
    let mut out: Vec<char> = Vec::new();
    let iter = s.chars();
    for c in it: iter
        invariant
            out@ == it.seq().take(it.index@),
            it.seq() == s@,
    {
        out.push(c);
    }
    out
}

/// Tells whether two string slices hold the same characters.
pub fn same_text(a: &str, b: &str) -> (r: bool)
    ensures
        r == (a@ == b@),
{
    let left = String::from_str(a);
    let right = String::from_str(b);
    left == right
}

/// Finds the first `c` in `s[from..to]`. The position returned is absolute.
pub fn find_char(s: &Vec<char>, from: usize, to: usize, c: char) -> (r: Option<usize>)
    requires
        from <= to <= s.len(),
    ensures
        match r {
            Some(i) => from <= i < to && s@.subrange(from as int, to as int).index_of_first(c)
                == Some(i - from),
            None => s@.subrange(from as int, to as int).index_of_first(c) is None,
        },
{
    let ghost window = s@.subrange(from as int, to as int);
    let mut i: usize = from;
    while i < to
        invariant
            from <= i <= to <= s.len(),
            window == s@.subrange(from as int, to as int),
            forall|j: int| 0 <= j < i - from ==> window[j] != c,
        decreases to - i,
    {
        if s[i] == c {
            proof {
                lemma_first_is(window, c, i - from);
            }
            return Some(i);
        }
        i += 1;
    }
    proof {
        lemma_absent(window, c);
    }
    None
}

/// Finds the last `c` in `s[from..to]`. The position returned is absolute.
pub fn rfind_char(s: &Vec<char>, from: usize, to: usize, c: char) -> (r: Option<usize>)
    requires
        from <= to <= s.len(),
    ensures
        match r {
            Some(i) => from <= i < to && s@.subrange(from as int, to as int).index_of_last(c)
                == Some(i - from),
            None => s@.subrange(from as int, to as int).index_of_last(c) is None,
        },
{
    let ghost window = s@.subrange(from as int, to as int);
    let mut i: usize = to;
    while i > from
        invariant
            from <= i <= to <= s.len(),
            window == s@.subrange(from as int, to as int),
            forall|j: int| i - from <= j < window.len() ==> window[j] != c,
        decreases i,
    {
        i -= 1;
        if s[i] == c {
            proof {
                lemma_last_is(window, c, i - from);
            }
            return Some(i);
        }
    }
    proof {
        lemma_absent(window, c);
    }
    None
}

/// Tells whether `pat` occurs in `s` at position `at`.
pub fn matches_at(s: &Vec<char>, pat: &Vec<char>, at: usize) -> (r: bool)
    ensures
        r == occurs_at(s@, pat@, at as int),
{
    if pat.len() > s.len() || at > s.len() - pat.len() {
        return false;
    }
    let mut k: usize = 0;
    while k < pat.len()
        invariant
            k <= pat.len(),
            at + pat.len() <= s.len(),
            forall|j: int| 0 <= j < k ==> s@[at + j] == pat@[j],
        decreases pat.len() - k,
    {
        if s[at + k] != pat[k] {
            return false;
        }
        k += 1;
    }
    proof {
        assert(s@.subrange(at as int, at + pat.len()) =~= pat@);
    }
    true
}

/// Finds the first occurrence of `pat` in `s`.
pub fn find_str(s: &Vec<char>, pat: &Vec<char>) -> (r: Option<usize>)
    ensures
        match r {
            Some(i) => find(s@, pat@) == Some(i as int) && i + pat.len() <= s.len(),
            None => find(s@, pat@) is None,
        },
{
    if pat.len() > s.len() {
        return None;
    }
    let last: usize = s.len() - pat.len();
    let mut i: usize = 0;
    loop
        invariant
            i <= last,
            last == s.len() - pat.len(),
            find(s@, pat@) == find_from(s@, pat@, i as int),
        decreases last - i,
    {
        if matches_at(s, pat, i) {
            return Some(i);
        }
        if i == last {
            assert(find_from(s@, pat@, i + 1) is None);
            return None;
        }
        i += 1;
    }
}

/// The bounds `ranges` tile `from..to`, leaving out one position, that of a
/// separator, between each range and the next.
#[verifier::opaque]
pub open spec fn tiles(ranges: Seq<(usize, usize)>, from: int, to: int) -> bool {
    &&& ranges.len() > 0
    &&& ranges[0].0 == from
    &&& ranges.last().1 == to
    &&& forall|k: int| 0 <= k < ranges.len() ==> (#[trigger] ranges[k]).0 <= ranges[k].1
    &&& forall|k: int| 0 < k < ranges.len() ==> (#[trigger] ranges[k]).0 == ranges[k - 1].1 + 1
}

/// Splits `s[from..to]` at every `sep` and returns the bounds of the pieces,
/// as absolute positions.
pub fn split_ranges(s: &Vec<char>, from: usize, to: usize, sep: char) -> (r: Vec<(usize, usize)>)
    requires
        from <= to <= s.len(),
    ensures
        tiles(r@, from as int, to as int),
        r@.len() == split(s@.subrange(from as int, to as int), sep).len(),
        forall|k: int|
            0 <= k < r@.len() ==> from <= (#[trigger] r@[k]).0 <= r@[k].1 <= to && s@.subrange(
                r@[k].0 as int,
                r@[k].1 as int,
            ) == split(s@.subrange(from as int, to as int), sep)[k],
{
    let ghost window = s@.subrange(from as int, to as int);
    let mut out: Vec<(usize, usize)> = Vec::new();
    let mut start: usize = from;
    loop
        invariant
            from <= start <= to <= s.len(),
            window == s@.subrange(from as int, to as int),
            out@.len() == 0 ==> start == from,
            out@.len() > 0 ==> out@[0].0 == from && start == out@.last().1 + 1,
            forall|k: int| 0 < k < out@.len() ==> (#[trigger] out@[k]).0 == out@[k - 1].1 + 1,
            split(window, sep).len() == out@.len() + split(
                s@.subrange(start as int, to as int),
                sep,
            ).len(),
            forall|k: int|
                0 <= k < out@.len() ==> from <= (#[trigger] out@[k]).0 <= out@[k].1 <= to
                    && s@.subrange(out@[k].0 as int, out@[k].1 as int) == split(window, sep)[k],
            forall|k: int|
                0 <= k < split(s@.subrange(start as int, to as int), sep).len() ==> split(
                    window,
                    sep,
                )[out@.len() + k] == #[trigger] split(s@.subrange(start as int, to as int), sep)[k],
        decreases to - start,
    {
        let ghost rest = s@.subrange(start as int, to as int);
        match find_char(s, start, to, sep) {
            None => {
                proof {
                    assert(split(rest, sep)[0] == rest);
                }
                out.push((start, to));
                proof {
                    reveal(tiles);
                }
                return out;
            },
            Some(i) => {
                proof {
                    let tail = s@.subrange(i + 1, to as int);
                    assert(rest.skip(i - start + 1) =~= tail);
                    assert(split(rest, sep)[0] == rest.take(i - start));
                    assert forall|k: int| 0 <= k < split(tail, sep).len() implies split(
                        window,
                        sep,
                    )[out@.len() + 1 + k] == #[trigger] split(tail, sep)[k] by {
                        assert(split(rest, sep)[k + 1] == split(tail, sep)[k]);
                    }
                }
                out.push((start, i));
                start = i + 1;
            },
        }
    }
}

} // verus!
