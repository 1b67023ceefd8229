//! Runs of characters and decimal numbers in text.
use vstd::prelude::*;

verus! {

/// The length of the longest prefix of `s` whose characters all satisfy `p`.
pub open spec fn run_len(s: Seq<char>, p: spec_fn(char) -> bool) -> nat
    decreases s.len(),
{
    if s.len() > 0 && p(s[0]) {
        1 + run_len(s.drop_first(), p)
    } else {
        0
    }
}

/// The length of the longest suffix of `s` whose characters all satisfy `p`.
pub open spec fn back_run_len(s: Seq<char>, p: spec_fn(char) -> bool) -> nat
    decreases s.len(),
{
    if s.len() > 0 && p(s.last()) {
        1 + back_run_len(s.drop_last(), p)
    } else {
        0
    }
}


/// The value of a text of decimal digits.
pub open spec fn digits_value(s: Seq<char>) -> nat
    decreases s.len(),
{
    if s.len() == 0 {
        0
    } else {
        (digits_value(s.drop_last()) * 10 + (s.last() as int - '0' as int)) as nat
    }
}

pub open spec fn all_digits(s: Seq<char>) -> bool {
    forall|i: int| 0 <= i < s.len() ==> '0' <= #[trigger] s[i] <= '9'
}

/// The unsigned number a text denotes: an optional `+`, then one or more
/// decimal digits.
pub open spec fn number_of(s: Seq<char>) -> Option<nat> {
    let body = if s.len() > 0 && s[0] == '+' {
        s.drop_first()
    } else {
        s
    };
    if body.len() > 0 && all_digits(body) {
        Some(digits_value(body))
    } else {
        None
    }
}


pub proof fn lemma_run_len(s: Seq<char>, p: spec_fn(char) -> bool, i: int)
    requires
        0 <= i <= s.len(),
        forall|k: int| 0 <= k < i ==> p(s[k]),
        i == s.len() || !p(s[i]),
    ensures
        run_len(s, p) == i,
    decreases i,
{
    if i > 0 {
        lemma_run_len(s.drop_first(), p, i - 1);
    }
}

pub proof fn lemma_back_run_len(s: Seq<char>, p: spec_fn(char) -> bool, i: int)
    requires
        0 <= i <= s.len(),
        forall|k: int| s.len() - i <= k < s.len() ==> p(s[k]),
        i == s.len() || !p(s[s.len() - i - 1]),
    ensures
        back_run_len(s, p) == i,
    decreases i,
{
    if i > 0 {
        lemma_back_run_len(s.drop_last(), p, i - 1);
    }
}


/// A run never stops on a character that satisfies its predicate.
pub proof fn lemma_run_len_stops(s: Seq<char>, p: spec_fn(char) -> bool, i: int)
    requires
        0 <= i < s.len(),
        run_len(s, p) == i,
    ensures
        !p(s[i]),
    decreases i,
{
    if i > 0 {
        assert(s.drop_first()[i - 1] == s[i]);
        lemma_run_len_stops(s.drop_first(), p, i - 1);
    }
}

/// The characters of a text.
pub fn chars_of(s: &str) -> (r: Vec<char>)
    ensures
        r@ == s@,
{
    let n = s.unicode_len();
    let mut r: Vec<char> = Vec::new();
    let mut i: usize = 0;
    while i < n
        invariant
            n == s@.len(),
            i <= n,
            r@ == s@.take(i as int),
        decreases n - i,
    {
        r.push(s.get_char(i));
        i = i + 1;
        assert(r@ =~= s@.take(i as int));
    }
    assert(s@.take(n as int) =~= s@);
    r
}

/// Adding a digit never makes a number smaller.
pub proof fn lemma_digits_prefix(s: Seq<char>, k: int)
    requires
        0 <= k <= s.len(),
        all_digits(s),
    ensures
        digits_value(s.take(k)) <= digits_value(s),
    decreases s.len() - k,
{
    if k < s.len() {
        lemma_digits_prefix(s, k + 1);
        assert(s.take(k + 1).drop_last() =~= s.take(k));
        assert('0' <= s.take(k + 1).last() <= '9');
    } else {
        assert(s.take(k) =~= s);
    }
}

/// The number written in `from..to`, when it is one and at most `max`.
pub fn parse_number(v: &Vec<char>, from: usize, to: usize, max: u64) -> (r: Option<u64>)
    requires
        from <= to <= v@.len(),
        max >= 9,
    ensures
        match number_of(v@.subrange(from as int, to as int)) {
            Some(k) => if k <= max {
                r == Some(k as u64)
            } else {
                r is None
            },
            None => r is None,
        },
{
    let ghost s = v@.subrange(from as int, to as int);
    let mut start = from;
    if start < to && v[start] == '+' {
        start = start + 1;
        assert(s.drop_first() =~= v@.subrange(start as int, to as int));
    } else {
        assert(s =~= v@.subrange(start as int, to as int));
    }
    let ghost body = v@.subrange(start as int, to as int);
    assert(number_of(s) == if body.len() > 0 && all_digits(body) {
        Some(digits_value(body))
    } else {
        None::<nat>
    });
    if start == to {
        return None;
    }
    let mut val: u64 = 0;
    let mut i = start;
    while i < to
        invariant
            from <= start <= i <= to <= v@.len(),
            body == v@.subrange(start as int, to as int),
            all_digits(body.take(i - start)),
            val as nat == digits_value(body.take(i - start)),
            val <= max,
            max >= 9,
            number_of(v@.subrange(from as int, to as int)) == if body.len() > 0 && all_digits(body) {
                Some(digits_value(body))
            } else {
                None::<nat>
            },
        decreases to - i,
    {
        let c = v[i];
        if !('0' <= c && c <= '9') {
            assert(body[i - start] == c);
            assert(!all_digits(body));
            return None;
        }
        let d = (c as u32 - '0' as u32) as u64;
        assert(d <= 9);
        assert(body.take(i + 1 - start).drop_last() =~= body.take(i - start));
        assert(all_digits(body.take(i + 1 - start)));
        if val > (max - d) / 10 {
            proof {
                assert(digits_value(body.take(i + 1 - start)) > max) by (nonlinear_arith)
                    requires
                        digits_value(body.take(i + 1 - start)) == val * 10 + d,
                        val > (max - d) / 10,
                        d <= 9,
                        d <= max,
                ;
                if all_digits(body) {
                    lemma_digits_prefix(body, i + 1 - start);
                }
            }
            return None;
        }
        val = val * 10 + d;
        i = i + 1;
    }
    assert(body.take(i - start) =~= body);
    Some(val)
}

/// The first position in `from..to` that holds `ch`; `to` when there is
/// none.
pub fn find_char(v: &Vec<char>, from: usize, to: usize, ch: char) -> (r: usize)
    requires
        from <= to <= v@.len(),
    ensures
        r == from + run_len(v@.subrange(from as int, to as int), |c: char| c != ch),
        from <= r <= to,
{
    let ghost s = v@.subrange(from as int, to as int);
    let mut i = from;
    while i < to && v[i] != ch
        invariant
            from <= i <= to <= v@.len(),
            s == v@.subrange(from as int, to as int),
            forall|k: int| 0 <= k < i - from ==> s[k] != ch,
        decreases to - i,
    {
        i = i + 1;
    }
    proof {
        lemma_run_len(s, |c: char| c != ch, i - from);
    }
    i
}

/// The character of a decimal digit.
pub open spec fn digit_char(d: nat) -> char {
    "0123456789"@[d as int]
}

/// The decimal text of a number, without leading zeros.
pub open spec fn decimal_of(n: nat) -> Seq<char>
    decreases n,
{
    if n < 10 {
        seq![digit_char(n)]
    } else {
        decimal_of(n / 10) + seq![digit_char(n % 10)]
    }
}

fn digit_text(d: u64) -> (r: &'static str)
    requires
        d < 10,
    ensures
        r@ == seq![digit_char(d as nat)],
{
    let digits: &'static str = "0123456789";
    proof {
        reveal_strlit("0123456789");
    }
    let r = digits.substring_char(d as usize, d as usize + 1);
    assert(r@ =~= seq![digit_char(d as nat)]);
    r
}

/// The decimal text of a number.
pub fn decimal_text(n: u64) -> (r: String)
    ensures
        r@ == decimal_of(n as nat),
    decreases n,
{
    if n < 10 {
        String::from_str(digit_text(n))
    } else {
        let mut r = decimal_text(n / 10);
        r.append(digit_text(n % 10));
        r
    }
}

/// An amount of cents as money text: whole units, `.`, then two digits.
pub open spec fn cents_text_of(c: nat) -> Seq<char> {
    decimal_of(c / 100) + "."@ + seq![digit_char((c / 10) % 10)] + seq![digit_char(c % 10)]
}

/// An amount of cents as money text, such as `"1.50"` for 150.
pub fn cents_text(c: u64) -> (r: String)
    ensures
        r@ == cents_text_of(c as nat),
{
    let mut r = decimal_text(c / 100);
    r.append(".");
    r.append(digit_text((c / 10) % 10));
    r.append(digit_text(c % 10));
    r
}

} // verus!
