use card_db::document::{market_price_cents, price_cents, product_info, search_hits};
use card_db::product::total_worth;

#[test]
fn price_texts_to_cents() {
    assert_eq!(price_cents("1.5"), Some(150));
    assert_eq!(price_cents("1.50"), Some(150));
    assert_eq!(price_cents("2"), Some(200));
    assert_eq!(price_cents("0.07"), Some(7));
    assert_eq!(price_cents("0.005"), Some(1));
    assert_eq!(price_cents("0.0049"), Some(0));
    assert_eq!(price_cents("12.345"), Some(1235));
}

#[test]
fn price_texts_refused() {
    assert_eq!(price_cents(""), None);
    assert_eq!(price_cents("1."), None);
    assert_eq!(price_cents(".5"), None);
    assert_eq!(price_cents("1e5"), None);
    assert_eq!(price_cents("-1.5"), None);
    assert_eq!(price_cents("184467440737095517"), None);
    assert_eq!(price_cents("184467440737095516.16"), None);
    assert_eq!(price_cents("184467440737095516.15"), Some(18446744073709551615));
}

#[test]
fn worth_of_priced_and_unpriced_entries() {
    let a = r#"{"productName":"Luffy","setUrlName":"Romance Dawn","marketPrice":1.50}"#;
    let b = r#"{"productName":"Zoro","setUrlName":"Romance Dawn"}"#;
    assert_eq!(market_price_cents(a), 150);
    assert_eq!(market_price_cents(b), 0);
    assert_eq!(total_worth(&vec![Some(market_price_cents(a)), Some(market_price_cents(b))]), Some(150));
    assert_eq!(market_price_cents("not json"), 0);
    assert_eq!(market_price_cents(r#"{"marketPrice":"1.5"}"#), 0);
}

#[test]
fn details_document_fields() {
    let doc = r#"{"productName":"Luffy","setUrlName":"Romance Dawn Pre Release","marketPrice":3,
        "customAttributes":{"number":"OP01-001","description":"<b>Rush</b>"}}"#;
    let info = product_info(doc).unwrap();
    assert_eq!(info.display_name(), "Luffy OP01-001 (Pre Release)");
    assert_eq!(info.description.as_deref(), Some("<b>Rush</b>"));
    assert_eq!(info.market_price.as_deref(), Some("3"));
    assert_eq!(info.price_cents(), 300);
}

#[test]
fn details_document_missing_number() {
    let doc = r#"{"productName":"Luffy","setUrlName":"Romance Dawn","customAttributes":{}}"#;
    let info = product_info(doc).unwrap();
    assert_eq!(info.display_name(), "Luffy ");
    assert_eq!(info.price_cents(), 0);
    assert!(product_info(r#"{"setUrlName":"x"}"#).is_none());
    assert!(product_info("{").is_none());
}

#[test]
fn search_document_results() {
    let doc = r#"{"results":[{"results":[
        {"productName":"Luffy","productLineName":"One Piece Card Game","setUrlName":"Romance Dawn",
         "customAttributes":{"number":"OP01-001"},"productId":512345.0},
        {"productName":"Other","productLineName":"Magic","productId":7}]}]}"#;
    let hits = search_hits(doc).unwrap();
    assert_eq!(hits.len(), 2);
    assert_eq!(hits[0].number.as_deref(), Some("OP01-001"));
    assert_eq!(hits[0].product_id.as_deref(), Some("512345.0"));
    assert_eq!(hits[1].product_id.as_deref(), Some("7"));
    assert_eq!(hits[1].number, None);
    assert!(search_hits(r#"{"results":[]}"#).is_none());
}
