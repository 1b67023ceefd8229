//! The collection: an ordered list of owned cards, each known by its
//! product id.
use vstd::prelude::*;

verus! {

/// `s` ends in `".0"`.
pub open spec fn has_point_zero(s: Seq<char>) -> bool {
    s.len() >= 2 && s[s.len() - 2] == '.' && s[s.len() - 1] == '0'
}

/// The normalized form of a product id's text: one trailing `".0"` removed.
pub open spec fn normalized_id(s: Seq<char>) -> Seq<char> {
    if has_point_zero(s) {
        s.take(s.len() - 2)
    } else {
        s
    }
}

/// `s` holds at most one `'.'`, as the text of a number does.
pub open spec fn single_point(s: Seq<char>) -> bool {
    forall|i: int, j: int| 0 <= i < s.len() && 0 <= j < s.len() && s[i] == '.' && s[j] == '.' ==> i == j
}

/// The normalized id used in cache keys and urls: the product id's text with
/// one trailing `".0"` removed.
pub fn format_id(id: &str) -> (r: String)
    ensures
        r@ == normalized_id(id@),
        has_point_zero(id@) ==> r@ + ".0"@ == id@,
        !has_point_zero(id@) ==> r@ == id@,
{
    let n = id.unicode_len();
    if n >= 2 && id.get_char(n - 2) == '.' && id.get_char(n - 1) == '0' {
        let r = String::from_str(id.substring_char(0, n - 2));
        proof {
            reveal_strlit(".0");
            assert(r@ + ".0"@ =~= id@);
        }
        r
    } else {
        String::from_str(id)
    }
}

/// Normalizing the text of a number twice is normalizing it once.
pub proof fn lemma_format_id_idempotent(s: Seq<char>)
    requires
        single_point(s),
    ensures
        normalized_id(normalized_id(s)) == normalized_id(s),
{
    if has_point_zero(s) {
        let t = s.take(s.len() - 2);
        if has_point_zero(t) {
            assert(t[t.len() - 2] == s[s.len() - 4]);
            assert(s[s.len() - 2] == '.');
        }
    }
}

/// An owned card, known by its product id's text (`"12345"` or `"12345.0"`).
#[derive(Clone, Debug)]
pub struct Card {
    pub product_id: String,
}

/// The collection. Order gives display positions only; a product id may
/// appear more than once, one entry per owned copy.
#[derive(Clone, Debug)]
pub struct Database {
    pub cards: Vec<Card>,
}

/// The product ids of a list of cards.
pub open spec fn card_ids(cards: Seq<Card>) -> Seq<Seq<char>> {
    cards.map_values(|c: Card| c.product_id@)
}

impl View for Database {
    type V = Seq<Seq<char>>;

    open spec fn view(&self) -> Seq<Seq<char>> {
        card_ids(self.cards@)
    }
}

impl Database {
    /// The empty collection.
    pub fn new() -> (r: Database)
        ensures
            r@ == Seq::<Seq<char>>::empty(),
    {
        Database { cards: Vec::new() }
    }

    /// Appends `count` copies of the card with the given product id.
    pub fn add_copies(&mut self, product_id: &str, count: u32)
        ensures
            final(self)@ == old(self)@ + Seq::new(count as nat, |i: int| product_id@),
    {
        let mut j: u32 = 0;
        while j < count
            invariant
                j <= count,
                self@ == old(self)@ + Seq::new(j as nat, |i: int| product_id@),
            decreases count - j,
        {
            let ghost prev = self.cards@;
            self.cards.push(Card { product_id: String::from_str(product_id) });
            j = j + 1;
            proof {
                assert(self@ =~= card_ids(prev).push(product_id@));
                assert(self@ =~= old(self)@ + Seq::new(j as nat, |i: int| product_id@));
            }
        }
    }

    /// Removes the entry at `index` when there is one; reports whether it did.
    pub fn remove_at(&mut self, index: usize) -> (r: bool)
        ensures
            r == (index < old(self)@.len()),
            r ==> final(self)@ == old(self)@.remove(index as int),
            !r ==> final(self)@ == old(self)@,
    {
        if index < self.cards.len() {
            self.cards.remove(index);
            proof {
                assert(self@ =~= old(self)@.remove(index as int));
            }
            true
        } else {
            false
        }
    }
}

} // verus!
