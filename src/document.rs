//! Reading the catalog provider's JSON documents: the fields of a product's
//! details, the results of a search, and market prices as whole cents.
use crate::product::{display_name, display_name_of};
use crate::text::{all_digits, chars_of, decimal_of, decimal_text, find_char, number_of, parse_number, run_len};
use vstd::prelude::*;

verus! {

/// The text of the JSON string that `pointer` reaches in the JSON document
/// `doc`; `None` when `doc` is no JSON document, the pointer reaches nothing,
/// or what it reaches is no string.
pub uninterp spec fn json_str_at(doc: Seq<char>, pointer: Seq<char>) -> Option<Seq<char>>;

/// The decimal text of the JSON number that `pointer` reaches in `doc`;
/// `None` when there is no such number.
pub uninterp spec fn json_number_text_at(doc: Seq<char>, pointer: Seq<char>) -> Option<Seq<char>>;

/// The number of items of the JSON array that `pointer` reaches in `doc`;
/// `None` when there is no such array.
pub uninterp spec fn json_array_len_at(doc: Seq<char>, pointer: Seq<char>) -> Option<nat>;

/// The view of an optional text.
pub open spec fn opt_view(o: Option<String>) -> Option<Seq<char>> {
    match o {
        Some(s) => Some(s@),
        None => None,
    }
}

/// Relies on `serde_json::from_str` into a `Value`, then `Value::pointer`
/// and `Value::as_str`: a string field of a JSON document. The result
/// depends on the two texts alone.
#[verifier::external_body]
fn str_at(doc: &str, pointer: &str) -> (r: Option<String>)
    ensures
        opt_view(r) == json_str_at(doc@, pointer@),
{
    match serde_json::from_str::<serde_json::Value>(doc) {
        Ok(v) => match v.pointer(pointer) {
            Some(x) => x.as_str().map(String::from),
            None => None,
        },
        Err(_) => None,
    }
}

/// Relies on `serde_json::from_str` into a `Value`, then `Value::pointer`,
/// `Value::as_number` and `Display` for `serde_json::Number`: the decimal
/// text (such as `"512345"` or `"1.5"`) of a number field. The result
/// depends on the two texts alone.
#[verifier::external_body]
fn number_at(doc: &str, pointer: &str) -> (r: Option<String>)
    ensures
        opt_view(r) == json_number_text_at(doc@, pointer@),
{
    match serde_json::from_str::<serde_json::Value>(doc) {
        Ok(v) => match v.pointer(pointer) {
            Some(x) => x.as_number().map(|n| n.to_string()),
            None => None,
        },
        Err(_) => None,
    }
}

/// Relies on `serde_json::from_str` into a `Value`, then `Value::pointer`
/// and `Value::as_array`: the length of an array field. The result depends
/// on the two texts alone.
#[verifier::external_body]
fn array_len_at(doc: &str, pointer: &str) -> (r: Option<usize>)
    ensures
        r matches Some(n) ==> json_array_len_at(doc@, pointer@) == Some(n as nat),
        r is None ==> json_array_len_at(doc@, pointer@) is None,
{
    match serde_json::from_str::<serde_json::Value>(doc) {
        Ok(v) => match v.pointer(pointer) {
            Some(x) => x.as_array().map(|a| a.len()),
            None => None,
        },
        Err(_) => None,
    }
}

/// The value of the `k`-th digit of `s`, zero past its end.
pub open spec fn digit_at(s: Seq<char>, k: int) -> nat {
    if 0 <= k < s.len() {
        (s[k] as int - '0' as int) as nat
    } else {
        0
    }
}

/// The cents a decimal price text denotes, rounded half up: a whole part,
/// then optionally `.` and one or more digits.
pub open spec fn price_cents_of(s: Seq<char>) -> Option<nat> {
    let p = run_len(s, |c: char| c != '.');
    match number_of(s.take(p as int)) {
        None => None,
        Some(whole) => if p == s.len() {
            Some(whole * 100)
        } else {
            let f = s.skip((p + 1) as int);
            if f.len() > 0 && all_digits(f) {
                Some(whole * 100 + digit_at(f, 0) * 10 + digit_at(f, 1) + if digit_at(f, 2) >= 5 {
                    1nat
                } else {
                    0nat
                })
            } else {
                None
            }
        },
    }
}

/// A price text as whole cents; `None` when it is no decimal price or the
/// cents do not fit in a `u64`.
pub fn price_cents(text: &str) -> (r: Option<u64>)
    ensures
        match price_cents_of(text@) {
            Some(c) => if c <= u64::MAX {
                r == Some(c as u64)
            } else {
                r is None
            },
            None => r is None,
        },
{
    let v = chars_of(text);
    let n = v.len();
    let p = find_char(&v, 0, n, '.');
    assert(v@.subrange(0, n as int) =~= v@);
    assert(v@.subrange(0, p as int) =~= v@.take(p as int));
    let whole = match parse_number(&v, 0, p, 0xffff_ffff_ffff_ffff) {
        Some(w) => w,
        None => return None,
    };
    let mut extra: u64 = 0;
    if p < n {
        let ghost f = v@.skip(p + 1);
        if p + 1 == n {
            return None;
        }
        if !digits_only(&v, p + 1, n) {
            return None;
        }
        assert(v@.subrange(p + 1, n as int) =~= f);
        assert(all_digits(f));
        let d0 = (v[p + 1] as u32 - '0' as u32) as u64;
        let d1 = if n - p > 2 {
            (v[p + 2] as u32 - '0' as u32) as u64
        } else {
            0
        };
        let d2 = if n - p > 3 {
            (v[p + 3] as u32 - '0' as u32) as u64
        } else {
            0
        };
        assert(f[0] == v@[p + 1]);
        assert(p + 2 < n ==> f[1] == v@[p + 2]);
        assert(p + 3 < n ==> f[2] == v@[p + 3]);
        extra = d0 * 10 + d1 + if d2 >= 5 {
            1
        } else {
            0
        };
    }
    match whole.checked_mul(100) {
        Some(w) => w.checked_add(extra),
        None => None,
    }
}

/// Whether `from..to` holds only decimal digits.
fn digits_only(v: &Vec<char>, from: usize, to: usize) -> (r: bool)
    requires
        from <= to <= v@.len(),
    ensures
        r == all_digits(v@.subrange(from as int, to as int)),
{
    let ghost s = v@.subrange(from as int, to as int);
    let mut i = from;
    while i < to
        invariant
            from <= i <= to <= v@.len(),
            s == v@.subrange(from as int, to as int),
            forall|k: int| 0 <= k < i - from ==> '0' <= #[trigger] s[k] <= '9',
        decreases to - i,
    {
        if !('0' <= v[i] && v[i] <= '9') {
            assert(s[i - from] == v@[i as int]);
            return false;
        }
        i = i + 1;
    }
    true
}

/// What the collection reads of a product's details.
pub struct ProductInfo {
    pub product_name: String,
    pub set_url_name: String,
    /// The collector number, such as `"OP01-001"`.
    pub number: Option<String>,
    pub description: Option<String>,
    /// The decimal text of the market price.
    pub market_price: Option<String>,
}

/// The text of an optional field; empty when it is absent.
pub open spec fn opt_text(s: Option<String>) -> Seq<char> {
    match s {
        Some(t) => t@,
        None => Seq::empty(),
    }
}

impl ProductInfo {
    /// The name the product is shown under.
    pub fn display_name(&self) -> (r: String)
        ensures
            r@ == display_name_of(self.product_name@, opt_text(self.number), self.set_url_name@),
    {
        match &self.number {
            Some(n) => display_name(self.product_name.as_str(), Some(n.as_str()), self.set_url_name.as_str()),
            None => display_name(self.product_name.as_str(), None, self.set_url_name.as_str()),
        }
    }

    /// The market price in cents; zero when it is missing, not a decimal
    /// price, or too large.
    pub fn price_cents(&self) -> (r: u64)
        ensures
            r == cents_or_zero(opt_view(self.market_price)),
    {
        match &self.market_price {
            Some(t) => match price_cents(t.as_str()) {
                Some(c) => c,
                None => 0,
            },
            None => 0,
        }
    }
}

/// The fields of a product-details document; `None` when it lacks the
/// product's name or set.
pub fn product_info(json: &str) -> (r: Option<ProductInfo>)
    ensures
        r is Some <==> (json_str_at(json@, "/productName"@) is Some && json_str_at(json@, "/setUrlName"@) is Some),
        r matches Some(p) ==> {
            &&& json_str_at(json@, "/productName"@) == Some(p.product_name@)
            &&& json_str_at(json@, "/setUrlName"@) == Some(p.set_url_name@)
            &&& opt_view(p.number) == json_str_at(json@, "/customAttributes/number"@)
            &&& opt_view(p.description) == json_str_at(json@, "/customAttributes/description"@)
            &&& opt_view(p.market_price) == json_number_text_at(json@, "/marketPrice"@)
        },
{
    let product_name = match str_at(json, "/productName") {
        Some(s) => s,
        None => return None,
    };
    let set_url_name = match str_at(json, "/setUrlName") {
        Some(s) => s,
        None => return None,
    };
    Some(ProductInfo {
        product_name,
        set_url_name,
        number: str_at(json, "/customAttributes/number"),
        description: str_at(json, "/customAttributes/description"),
        market_price: number_at(json, "/marketPrice"),
    })
}

/// The cents of an optional price text; zero when it is missing, not a
/// decimal price, or too large.
pub open spec fn cents_or_zero(price: Option<Seq<char>>) -> u64 {
    match price {
        Some(t) => match price_cents_of(t) {
            Some(c) => if c <= u64::MAX {
                c as u64
            } else {
                0
            },
            None => 0,
        },
        None => 0,
    }
}

/// The market price, in cents, in a product-details document; zero when the
/// price is missing or not a decimal price.
pub fn market_price_cents(json: &str) -> (r: u64)
    ensures
        r == cents_or_zero(json_number_text_at(json@, "/marketPrice"@)),
{
    match number_at(json, "/marketPrice") {
        Some(t) => match price_cents(t.as_str()) {
            Some(c) => c,
            None => 0,
        },
        None => 0,
    }
}

/// One result of a search, as the selection list reads it.
pub struct SearchHit {
    pub product_name: Option<String>,
    pub product_line_name: Option<String>,
    pub set_url_name: Option<String>,
    pub number: Option<String>,
    /// The decimal text of the product id.
    pub product_id: Option<String>,
}

/// The pointer to a field of the `i`-th search result.
pub open spec fn hit_pointer(i: nat, field: Seq<char>) -> Seq<char> {
    "/results/0/results/"@ + decimal_of(i) + field
}

/// `h` holds the fields of the `i`-th result of the search document `doc`.
pub open spec fn hit_of(h: SearchHit, doc: Seq<char>, i: nat) -> bool {
    &&& opt_view(h.product_name) == json_str_at(doc, hit_pointer(i, "/productName"@))
    &&& opt_view(h.product_line_name) == json_str_at(doc, hit_pointer(i, "/productLineName"@))
    &&& opt_view(h.set_url_name) == json_str_at(doc, hit_pointer(i, "/setUrlName"@))
    &&& opt_view(h.number) == json_str_at(doc, hit_pointer(i, "/customAttributes/number"@))
    &&& opt_view(h.product_id) == json_number_text_at(doc, hit_pointer(i, "/productId"@))
}

fn field_pointer(prefix: &String, field: &str) -> (r: String)
    ensures
        r@ == prefix@ + field@,
{
    let mut r = prefix.clone();
    r.append(field);
    r
}

/// The results of a search response, in order; `None` when it has no result
/// list.
pub fn search_hits(json: &str) -> (r: Option<Vec<SearchHit>>)
    ensures
        r is Some <==> json_array_len_at(json@, "/results/0/results"@) is Some,
        r matches Some(h) ==> {
            &&& json_array_len_at(json@, "/results/0/results"@) == Some(h@.len())
            &&& forall|i: int| 0 <= i < h@.len() ==> #[trigger] hit_of(h@[i], json@, i as nat)
        },
{
    let n = match array_len_at(json, "/results/0/results") {
        Some(n) => n,
        None => return None,
    };
    let mut hits: Vec<SearchHit> = Vec::new();
    let mut i: usize = 0;
    while i < n
        invariant
            i <= n,
            hits@.len() == i,
            forall|k: int| 0 <= k < i ==> #[trigger] hit_of(hits@[k], json@, k as nat),
        decreases n - i,
    {
        let mut prefix = String::from_str("/results/0/results/");
        let index = decimal_text(i as u64);
        prefix.append(index.as_str());
        let hit = SearchHit {
            product_name: str_at(json, field_pointer(&prefix, "/productName").as_str()),
            product_line_name: str_at(json, field_pointer(&prefix, "/productLineName").as_str()),
            set_url_name: str_at(json, field_pointer(&prefix, "/setUrlName").as_str()),
            number: str_at(json, field_pointer(&prefix, "/customAttributes/number").as_str()),
            product_id: number_at(json, field_pointer(&prefix, "/productId").as_str()),
        };
        assert(hit_of(hit, json@, i as nat));
        hits.push(hit);
        i = i + 1;
    }
    Some(hits)
}

} // verus!
