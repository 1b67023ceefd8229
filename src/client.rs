//! The cache-backed access layer for the catalog provider. Each query first
//! consults the cache; on a miss it names the request to send, and the
//! response that comes back is recorded under the query's key.
use crate::cache::{cached, WebCache};
use base64::Engine;
use vstd::prelude::*;

verus! {

/// The fixed JSON body of a search request.
pub const SEARCH_BODY: &'static str = r#"{"algorithm":"sales_synonym_v2","from":0,"size":24,"filters":{"term":{},"range":{},"match":{}},"listingSearch":{"context":{"cart":{}},"filters":{"term":{"sellerStatus":"Live","channelId":0},"range":{"quantity":{"gte":1}},"exclude":{"channelExclusion":0}}},"context":{"cart":{},"shippingCountry":"US","userProfile":{}},"settings":{"useFuzzySearch":true,"didYouMean":{}},"sort":{}}"#;

pub open spec fn details_key(id: Seq<char>) -> Seq<char> {
    "get_product_details:"@ + id
}

pub open spec fn search_key(term: Seq<char>) -> Seq<char> {
    "search:"@ + term
}

pub open spec fn image_key(id: Seq<char>) -> Seq<char> {
    "card_image_b64:"@ + id
}

pub open spec fn details_url(id: Seq<char>) -> Seq<char> {
    "https://mp-search-api.tcgplayer.com/v2/product/"@ + id + "/details"@
}

pub open spec fn search_url(term: Seq<char>) -> Seq<char> {
    "https://mp-search-api.tcgplayer.com/v1/search/request?q="@ + term
}

pub open spec fn image_url(id: Seq<char>) -> Seq<char> {
    "https://tcgplayer-cdn.tcgplayer.com/product/"@ + id + "_in_1000x1000.jpg"@
}

/// The base64 text (standard alphabet, padded) of some bytes.
pub uninterp spec fn base64_standard(b: Seq<u8>) -> Seq<char>;

#[derive(Clone, Copy, Debug, PartialEq, Eq, Structural)]
pub enum HttpMethod {
    Get,
    Post,
}

/// A request to the catalog provider, and the cache key its response is
/// stored under.
pub struct Request {
    pub key: String,
    pub method: HttpMethod,
    pub url: String,
    /// The JSON body sent with a `Post`.
    pub json_body: Option<String>,
}

/// The outcome of consulting the cache for a query.
pub enum Lookup {
    /// The cached response.
    Hit(String),
    /// Nothing is cached: this request is to be sent.
    Miss(Request),
}

/// `r` answers a query for `key` against cache `c`: the cached response when
/// there is one, else a request with the given method, url and body.
pub open spec fn answers(
    r: Lookup,
    c: Map<Seq<char>, Seq<char>>,
    key: Seq<char>,
    method: HttpMethod,
    url: Seq<char>,
    body: Option<Seq<char>>,
) -> bool {
    match cached(c, key) {
        Some(v) => r matches Lookup::Hit(h) && h@ == v,
        None => r matches Lookup::Miss(q) && q.key@ == key && q.method == method && q.url@ == url
            && match (q.json_body, body) {
            (Some(a), Some(b)) => a@ == b,
            (None, None) => true,
            _ => false,
        },
    }
}

fn join2(a: &str, b: &str) -> (r: String)
    ensures
        r@ == a@ + b@,
{
    let mut r = String::from_str(a);
    r.append(b);
    r
}

fn join(a: &str, b: &str, c: &str) -> (r: String)
    ensures
        r@ == a@ + b@ + c@,
{
    let mut r = String::from_str(a);
    r.append(b);
    r.append(c);
    r
}

/// The cached response stored under `method_params`, if any.
pub fn check_cache(method_params: String, webcache: &WebCache) -> (r: Option<String>)
    ensures
        r matches Some(v) ==> cached(webcache@, method_params@) == Some(v@),
        r is None ==> cached(webcache@, method_params@) is None,
{
    webcache.get(&method_params)
}

/// A fresh, empty cache.
pub fn clear_cache() -> (r: WebCache)
    ensures
        r@ == Map::<Seq<char>, Seq<char>>::empty(),
{
    WebCache::new()
}

fn consult(key: String, method: HttpMethod, url: String, json_body: Option<String>, webcache: &WebCache) -> (r: Lookup)
    ensures
        answers(r, webcache@, key@, method, url@, match json_body {
            Some(b) => Some(b@),
            None => None,
        }),
{
    match check_cache(key.clone(), webcache) {
        Some(v) => Lookup::Hit(v),
        None => Lookup::Miss(Request { key, method, url, json_body }),
    }
}

/// Consults the cache for the details of a product, by its normalized id.
pub fn get_product_details(formatted_product_id: &str, webcache: &WebCache) -> (r: Lookup)
    ensures
        answers(r, webcache@, details_key(formatted_product_id@), HttpMethod::Get,
            details_url(formatted_product_id@), None),
{
    let key = join2("get_product_details:", formatted_product_id);
    let url = join("https://mp-search-api.tcgplayer.com/v2/product/", formatted_product_id, "/details");
    consult(key, HttpMethod::Get, url, None, webcache)
}

/// Consults the cache for a search by free text, taken verbatim.
pub fn search(card_name: &str, webcache: &WebCache) -> (r: Lookup)
    ensures
        answers(r, webcache@, search_key(card_name@), HttpMethod::Post, search_url(card_name@),
            Some(SEARCH_BODY@)),
{
    let key = join2("search:", card_name);
    let url = join2("https://mp-search-api.tcgplayer.com/v1/search/request?q=", card_name);
    consult(key, HttpMethod::Post, url, Some(String::from_str(SEARCH_BODY)), webcache)
}

/// Consults the cache for the base64 text of a product's image.
pub fn card_image_b64(formatted_product_id: &str, webcache: &WebCache) -> (r: Lookup)
    ensures
        answers(r, webcache@, image_key(formatted_product_id@), HttpMethod::Get,
            image_url(formatted_product_id@), None),
{
    let key = join2("card_image_b64:", formatted_product_id);
    let url = join("https://tcgplayer-cdn.tcgplayer.com/product/", formatted_product_id, "_in_1000x1000.jpg");
    consult(key, HttpMethod::Get, url, None, webcache)
}

/// Records the response body to a request: it is returned, and stored under
/// the request's key.
pub fn record_response(request: &Request, body: String, webcache: WebCache) -> (r: (String, WebCache))
    ensures
        r.0@ == body@,
        r.1@ == webcache@.insert(request.key@, body@),
{
    let mut c = webcache;
    c.insert(request.key.clone(), body.clone());
    (body, c)
}

/// Relies on base64's `Engine::encode` with the `STANDARD` engine: the
/// result depends on the bytes alone and is padded to whole groups of four.
/// It panics only when that length overflows `usize`.
#[verifier::external_body]
fn encode_base64(bytes: &Vec<u8>) -> (r: String)
    requires
        bytes@.len() <= isize::MAX,
    ensures
        r@ == base64_standard(bytes@),
        r@.len() == 4 * ((bytes@.len() + 2) / 3),
{
    base64::prelude::BASE64_STANDARD.encode(bytes)
}

/// Records the image bytes fetched for a request: their base64 text is
/// returned, and stored under the request's key.
pub fn record_image(request: &Request, bytes: &Vec<u8>, webcache: WebCache) -> (r: (String, WebCache))
    requires
        bytes@.len() <= isize::MAX,
    ensures
        r.0@ == base64_standard(bytes@),
        r.0@.len() == 4 * ((bytes@.len() + 2) / 3),
        r.1@ == webcache@.insert(request.key@, base64_standard(bytes@)),
{
    let text = encode_base64(bytes);
    record_response(request, text, webcache)
}

/// A query whose key the cache lacks is sent to the provider; recording the
/// response gives the old cache plus exactly that one entry, and the same
/// query against the new cache is a hit on that response, which leaves the
/// new cache as it is.
pub proof fn lemma_miss_then_hit(c: Map<Seq<char>, Seq<char>>, key: Seq<char>, response: Seq<char>)
    requires
        cached(c, key) is None,
    ensures
        c.insert(key, response) == c.union_prefer_right(map![key => response]),
        c.insert(key, response).dom() == c.dom().insert(key),
        cached(c.insert(key, response), key) == Some(response),
        forall|other: Seq<char>| other != key ==> cached(c.insert(key, response), other) == cached(c, other),
{
    assert(c.insert(key, response) =~= c.union_prefer_right(map![key => response]));
    assert(c.insert(key, response).dom() =~= c.dom().insert(key));
}

} // verus!
