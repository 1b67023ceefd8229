use card_db::cache::WebCache;
use card_db::client::{
    card_image_b64, check_cache, clear_cache, get_product_details, record_image, record_response, search,
    HttpMethod, Lookup, SEARCH_BODY,
};

fn key(s: &str) -> String {
    s.to_string()
}

#[test]
fn miss_then_record_then_hit() {
    let cache = WebCache::new();
    let req = match get_product_details("512345", &cache) {
        Lookup::Miss(r) => r,
        Lookup::Hit(_) => panic!("empty cache answered"),
    };
    assert_eq!(req.key, "get_product_details:512345");
    assert_eq!(req.url, "https://mp-search-api.tcgplayer.com/v2/product/512345/details");
    assert_eq!(req.method, HttpMethod::Get);
    assert!(req.json_body.is_none());
    let (body, cache) = record_response(&req, "{\"marketPrice\":1.5}".to_string(), cache);
    assert_eq!(body, "{\"marketPrice\":1.5}");
    assert_eq!(cache.to_entries().len(), 1);
    match get_product_details("512345", &cache) {
        Lookup::Hit(b) => assert_eq!(b, "{\"marketPrice\":1.5}"),
        Lookup::Miss(_) => panic!("recorded response was not served"),
    }
    assert_eq!(cache.to_entries().len(), 1);
}

#[test]
fn other_keys_untouched_by_record() {
    let mut cache = WebCache::new();
    cache.insert(key("search:zoro"), key("[]"));
    let req = match card_image_b64("7", &cache) {
        Lookup::Miss(r) => r,
        Lookup::Hit(_) => panic!("unexpected hit"),
    };
    let (_, cache) = record_response(&req, key("img"), cache);
    assert_eq!(check_cache(key("search:zoro"), &cache), Some(key("[]")));
    assert_eq!(check_cache(key("card_image_b64:7"), &cache), Some(key("img")));
    assert_eq!(check_cache(key("get_product_details:7"), &cache), None);
}

#[test]
fn search_request_is_post_with_fixed_body() {
    let cache = WebCache::new();
    match search("Monkey D. Luffy", &cache) {
        Lookup::Miss(r) => {
            assert_eq!(r.key, "search:Monkey D. Luffy");
            assert_eq!(r.url, "https://mp-search-api.tcgplayer.com/v1/search/request?q=Monkey D. Luffy");
            assert_eq!(r.method, HttpMethod::Post);
            assert_eq!(r.json_body.as_deref(), Some(SEARCH_BODY));
        }
        Lookup::Hit(_) => panic!("unexpected hit"),
    }
}

#[test]
fn search_term_is_taken_verbatim() {
    let mut cache = WebCache::new();
    cache.insert(key("search:luffy"), key("a"));
    assert!(matches!(search("luffy", &cache), Lookup::Hit(_)));
    assert!(matches!(search("Luffy", &cache), Lookup::Miss(_)));
    assert!(matches!(search("luffy ", &cache), Lookup::Miss(_)));
}

#[test]
fn image_url_and_base64_recording() {
    let cache = WebCache::new();
    let req = match card_image_b64("42", &cache) {
        Lookup::Miss(r) => r,
        Lookup::Hit(_) => panic!("unexpected hit"),
    };
    assert_eq!(req.url, "https://tcgplayer-cdn.tcgplayer.com/product/42_in_1000x1000.jpg");
    let (text, cache) = record_image(&req, &b"abcd".to_vec(), cache);
    assert_eq!(text, "YWJjZA==");
    assert_eq!(check_cache(key("card_image_b64:42"), &cache), Some(key("YWJjZA==")));
}

#[test]
fn later_write_wins() {
    let mut cache = WebCache::new();
    cache.insert(key("k"), key("one"));
    cache.insert(key("k"), key("two"));
    assert_eq!(cache.get(&key("k")), Some(key("two")));
}

#[test]
fn cleared_cache_is_empty() {
    let c = clear_cache();
    assert!(c.to_entries().is_empty());
    assert_eq!(check_cache(key("search:x"), &c), None);
}

#[test]
fn cache_round_trip_through_entries() {
    let mut cache = WebCache::new();
    cache.insert(key("get_product_details:1"), key("{}"));
    cache.insert(key("search:nami"), key("[1]"));
    let back = WebCache::from_entries(cache.to_entries());
    for k in ["get_product_details:1", "search:nami", "search:other"] {
        assert_eq!(back.get(&key(k)), cache.get(&key(k)));
    }
}

#[test]
fn reloading_in_another_order_gives_same_cache() {
    let pairs = vec![
        (key("get_product_details:1"), key("{}")),
        (key("search:nami"), key("[1]")),
        (key("card_image_b64:1"), key("QUJD")),
    ];
    let mut reversed = pairs.clone();
    reversed.reverse();
    let a = WebCache::from_entries(pairs);
    let b = WebCache::from_entries(reversed);
    for k in ["get_product_details:1", "search:nami", "card_image_b64:1", "search:none"] {
        assert_eq!(a.get(&key(k)), b.get(&key(k)));
    }
}
