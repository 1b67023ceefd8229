//! What the collection shows of a product: its display name, its escaped
//! description, and the worth of a whole collection.
use vstd::prelude::*;

verus! {

/// `pat` occurs in `s` starting at position `i`.
pub open spec fn occurs_at(s: Seq<char>, pat: Seq<char>, i: int) -> bool {
    0 <= i && i + pat.len() <= s.len() && s.subrange(i, i + pat.len()) == pat
}

/// `pat` occurs somewhere in `s`.
pub open spec fn contains_text(s: Seq<char>, pat: Seq<char>) -> bool {
    exists|i: int| occurs_at(s, pat, i)
}

/// Whether `pat` occurs in `s`.
pub fn text_contains(s: &str, pat: &str) -> (r: bool)
    ensures
        r == contains_text(s@, pat@),
{
    let n = s.unicode_len();
    let m = pat.unicode_len();
    if m > n {
        return false;
    }
    let mut i: usize = 0;
    while i <= n - m
        invariant
            n == s@.len(),
            m == pat@.len(),
            m <= n,
            forall|k: int| 0 <= k < i ==> !occurs_at(s@, pat@, k),
        decreases n - m + 1 - i,
    {
        let mut j: usize = 0;
        let mut same = true;
        while j < m && same
            invariant
                n == s@.len(),
                m == pat@.len(),
                i + m <= n,
                j <= m,
                same ==> forall|l: int| 0 <= l < j ==> s@[i + l] == pat@[l],
                !same ==> j > 0 && s@[i + j - 1] != pat@[j - 1],
            decreases m - j,
        {
            if s.get_char(i + j) != pat.get_char(j) {
                same = false;
            }
            j = j + 1;
        }
        if same {
            proof {
                assert(s@.subrange(i as int, i + m) =~= pat@);
                assert(occurs_at(s@, pat@, i as int));
            }
            return true;
        }
        proof {
            assert(!occurs_at(s@, pat@, i as int)) by {
                if occurs_at(s@, pat@, i as int) {
                    assert(s@.subrange(i as int, i + m)[j - 1] == s@[i + j - 1]);
                }
            }
        }
        i = i + 1;
    }
    proof {
        assert forall|k: int| !occurs_at(s@, pat@, k) by {
            if 0 <= k && k + m <= n {
                assert(k < i);
            }
        }
    }
    false
}

/// The collector number, or the empty text when it is absent.
pub open spec fn number_text(number: Option<&str>) -> Seq<char> {
    match number {
        Some(n) => n@,
        None => Seq::empty(),
    }
}

/// `"{name} {number}"`, followed by `" (Pre Release)"` when the set's url
/// name contains `"Pre Release"`. A missing number leaves the space in place.
pub open spec fn display_name_of(name: Seq<char>, number: Seq<char>, set_url_name: Seq<char>) -> Seq<char> {
    if contains_text(set_url_name, "Pre Release"@) {
        name + " "@ + number + " (Pre Release)"@
    } else {
        name + " "@ + number
    }
}

/// The name a product is shown under.
pub fn display_name(product_name: &str, number: Option<&str>, set_url_name: &str) -> (r: String)
    ensures
        r@ == display_name_of(product_name@, number_text(number), set_url_name@),
{
    let mut r = String::from_str(product_name);
    r.append(" ");
    match number {
        Some(n) => r.append(n),
        None => {
            proof {
                assert(r@ + number_text(number) =~= r@);
            }
        },
    }
    if text_contains(set_url_name, "Pre Release") {
        r.append(" (Pre Release)");
    }
    r
}

/// The text that stands for one character of a description: spaces are put
/// before `<` and after `>`.
pub open spec fn escaped_char(c: char) -> Seq<char> {
    if c == '<' {
        " <"@
    } else if c == '>' {
        "> "@
    } else {
        seq![c]
    }
}

pub open spec fn escaped(s: Seq<char>) -> Seq<char>
    decreases s.len(),
{
    if s.len() == 0 {
        Seq::empty()
    } else {
        escaped(s.drop_last()) + escaped_char(s.last())
    }
}

/// A description as the report shows it: each `<` preceded and each `>`
/// followed by a space. An absent description reads
/// `"No description provided."`.
pub fn description_html(description: Option<&str>) -> (r: String)
    ensures
        description matches Some(d) ==> r@ == escaped(d@),
        description is None ==> r@ == "No description provided."@,
{
    match description {
        None => String::from_str("No description provided."),
        Some(d) => {
            let n = d.unicode_len();
            let mut r = String::new();
            let mut i: usize = 0;
            while i < n
                invariant
                    n == d@.len(),
                    i <= n,
                    r@ == escaped(d@.take(i as int)),
                decreases n - i,
            {
                let c = d.get_char(i);
                if c == '<' {
                    r.append(" <");
                } else if c == '>' {
                    r.append("> ");
                } else {
                    r.append(d.substring_char(i, i + 1));
                    assert(d@.subrange(i as int, i + 1) =~= seq![c]);
                }
                proof {
                    assert(d@.take(i + 1).drop_last() =~= d@.take(i as int));
                }
                i = i + 1;
            }
            proof {
                assert(d@.take(n as int) =~= d@);
            }
            r
        },
    }
}

/// The sum of the known prices, a missing price counting as zero.
pub open spec fn price_sum(prices: Seq<Option<u64>>) -> nat
    decreases prices.len(),
{
    if prices.len() == 0 {
        0
    } else {
        price_sum(prices.drop_last()) + match prices.last() {
            Some(p) => p as nat,
            None => 0,
        }
    }
}

/// The worth of a collection from the market price of each entry, in cents;
/// `None` when the sum does not fit in a `u64`.
pub fn total_worth(prices: &Vec<Option<u64>>) -> (r: Option<u64>)
    ensures
        r matches Some(t) ==> t as nat == price_sum(prices@),
        r is None ==> price_sum(prices@) > u64::MAX,
{
    let mut total: u64 = 0;
    let mut i: usize = 0;
    while i < prices.len()
        invariant
            i <= prices.len(),
            total as nat == price_sum(prices@.take(i as int)),
        decreases prices.len() - i,
    {
        proof {
            assert(prices@.take(i + 1).drop_last() =~= prices@.take(i as int));
        }
        let p: u64 = match prices[i] {
            Some(p) => p,
            None => 0,
        };
        match total.checked_add(p) {
            Some(t) => total = t,
            None => {
                proof {
                    lemma_price_sum_prefix(prices@, i + 1);
                }
                return None;
            },
        }
        i = i + 1;
    }
    proof {
        assert(prices@.take(i as int) =~= prices@);
    }
    Some(total)
}

/// A longer list never sums to less than a prefix of it.
proof fn lemma_price_sum_prefix(prices: Seq<Option<u64>>, k: int)
    requires
        0 <= k <= prices.len(),
    ensures
        price_sum(prices.take(k)) <= price_sum(prices),
    decreases prices.len() - k,
{
    if k < prices.len() {
        lemma_price_sum_prefix(prices, k + 1);
        assert(prices.take(k + 1).drop_last() =~= prices.take(k));
    } else {
        assert(prices.take(k) =~= prices);
    }
}

/// A search result is offered for selection when it has a collector number
/// and belongs to the One Piece card game.
pub fn is_listed(number: Option<&str>, product_line_name: &str) -> (r: bool)
    ensures
        r == (number_text(number).len() > 0 && product_line_name@ == "One Piece Card Game"@),
{
    let has_number = match number {
        Some(n) => n.unicode_len() > 0,
        None => false,
    };
    has_number && String::from_str(product_line_name) == String::from_str("One Piece Card Game")
}

} // verus!
