//! The operator's choice among search results, typed as `"{index}:{count}"`.
use crate::text::{
    back_run_len, chars_of, find_char, lemma_back_run_len, lemma_run_len, lemma_run_len_stops, number_of,
    parse_number, run_len,
};
use vstd::prelude::*;

verus! {

/// Why a selection was refused.
#[derive(Clone, Copy, Debug, PartialEq, Eq, Structural)]
pub enum SelectionError {
    /// The text before the first `:` is not an index.
    BadIndex,
    /// There is no count after the `:`, or it is not a number.
    BadCount,
    /// The index names no search result.
    OutOfRange,
}

/// A valid selection: which result, and how many copies to add.
#[derive(Clone, Copy, Debug, PartialEq, Eq, Structural)]
pub struct Selection {
    pub index: usize,
    pub count: u32,
}

/// Unicode whitespace (the `White_Space` property), which is trimmed from
/// both ends of a selection.
pub open spec fn is_space(c: char) -> bool {
    ('\t' <= c <= '\r') || c == ' ' || c == '\u{85}' || c == '\u{A0}' || c == '\u{1680}' || ('\u{2000}'
        <= c <= '\u{200A}') || c == '\u{2028}' || c == '\u{2029}' || c == '\u{202F}' || c == '\u{205F}'
        || c == '\u{3000}'
}

/// Whether `c` is whitespace.
pub fn is_space_char(c: char) -> (r: bool)
    ensures
        r == is_space(c),
{
    ('\t' <= c && c <= '\r') || c == ' ' || c == '\u{85}' || c == '\u{A0}' || c == '\u{1680}' || ('\u{2000}'
        <= c && c <= '\u{200A}') || c == '\u{2028}' || c == '\u{2029}' || c == '\u{202F}' || c == '\u{205F}'
        || c == '\u{3000}'
}

/// `s` without the whitespace at its ends.
pub open spec fn trimmed(s: Seq<char>) -> Seq<char> {
    let lo = run_len(s, |c: char| is_space(c));
    if lo == s.len() {
        Seq::empty()
    } else {
        s.subrange(lo as int, s.len() - back_run_len(s, |c: char| is_space(c)))
    }
}

/// What a selection text means when there are `n` search results: the
/// trimmed text is split at `:`, the first piece is the index, the second
/// the count; further pieces are ignored.
pub open spec fn selection_of(text: Seq<char>, n: nat) -> Result<(nat, nat), SelectionError> {
    let t = trimmed(text);
    let c = run_len(t, |ch: char| ch != ':');
    match number_of(t.take(c as int)) {
        Some(i) if i <= usize::MAX => if c == t.len() {
            Err(SelectionError::BadCount)
        } else {
            let rest = t.skip((c + 1) as int);
            match number_of(rest.take(run_len(rest, |ch: char| ch != ':') as int)) {
                Some(k) if k <= u32::MAX => if i < n {
                    Ok((i, k))
                } else {
                    Err(SelectionError::OutOfRange)
                },
                _ => Err(SelectionError::BadCount),
            }
        },
        _ => Err(SelectionError::BadIndex),
    }
}

/// The first position in `from..to` that holds no whitespace; `to` when
/// there is none.
fn skip_while_space(v: &Vec<char>, from: usize, to: usize) -> (r: usize)
    requires
        from <= to <= v@.len(),
    ensures
        r == from + run_len(v@.subrange(from as int, to as int), |c: char| is_space(c)),
        from <= r <= to,
{
    let ghost s = v@.subrange(from as int, to as int);
    let mut i = from;
    while i < to && is_space_char(v[i])
        invariant
            from <= i <= to <= v@.len(),
            s == v@.subrange(from as int, to as int),
            forall|k: int| 0 <= k < i - from ==> is_space(s[k]),
        decreases to - i,
    {
        i = i + 1;
    }
    proof {
        lemma_run_len(s, |c: char| is_space(c), i - from);
    }
    i
}

/// The bounds of the text without its whitespace ends.
fn trim_bounds(v: &Vec<char>) -> (r: (usize, usize))
    ensures
        r.0 <= r.1 <= v@.len(),
        v@.subrange(r.0 as int, r.1 as int) == trimmed(v@),
{
    let n = v.len();
    let lo = skip_while_space(v, 0, n);
    assert(v@.subrange(0, n as int) =~= v@);
    if lo == n {
        assert(v@.subrange(lo as int, lo as int) =~= Seq::<char>::empty());
        return (n, n);
    }
    let mut j = n;
    while j > lo + 1 && is_space_char(v[j - 1])
        invariant
            lo + 1 <= j <= n == v@.len(),
            forall|k: int| j <= k < n ==> is_space(v@[k]),
        decreases j,
    {
        j = j - 1;
    }
    proof {
        assert(!is_space(v@[lo as int])) by {
            if is_space(v@[lo as int]) {
                assert(v@.subrange(0, n as int)[lo as int] == v@[lo as int]);
                lemma_run_len_stops(v@, |c: char| is_space(c), lo as int);
            }
        }
        lemma_back_run_len(v@, |c: char| is_space(c), n - j);
    }
    (lo, j)
}

/// Reads a selection among `n_results` search results.
pub fn parse_selection(text: &str, n_results: usize) -> (r: Result<Selection, SelectionError>)
    ensures
        match selection_of(text@, n_results as nat) {
            Ok((i, k)) => r == Ok::<Selection, SelectionError>(Selection { index: i as usize, count: k as u32 }),
            Err(e) => r == Err::<Selection, SelectionError>(e),
        },
{
    let v = chars_of(text);
    let (lo, hi) = trim_bounds(&v);
    let ghost t = v@.subrange(lo as int, hi as int);
    let c = find_char(&v, lo, hi, ':');
    assert(t.take(c - lo) =~= v@.subrange(lo as int, c as int));
    let index = match parse_number(&v, lo, c, usize::MAX as u64) {
        Some(i) => i as usize,
        None => return Err(SelectionError::BadIndex),
    };
    if c == hi {
        return Err(SelectionError::BadCount);
    }
    let c2 = find_char(&v, c + 1, hi, ':');
    assert(t.skip(c + 1 - lo) =~= v@.subrange(c + 1, hi as int));
    assert(t.skip(c + 1 - lo).take(c2 - (c + 1)) =~= v@.subrange(c + 1, c2 as int));
    let count = match parse_number(&v, c + 1, c2, 0xffff_ffff) {
        Some(k) => k as u32,
        None => return Err(SelectionError::BadCount),
    };
    if index < n_results {
        Ok(Selection { index, count })
    } else {
        Err(SelectionError::OutOfRange)
    }
}

} // verus!
