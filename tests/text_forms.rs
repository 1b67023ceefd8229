use card_db::cache::WebCache;
use card_db::client::{card_image_b64, record_image, Lookup};
use card_db::selection::{parse_selection, Selection};
use card_db::text::{cents_text, decimal_text};

#[test]
fn cents_as_money_text() {
    assert_eq!(cents_text(150), "1.50");
    assert_eq!(cents_text(0), "0.00");
    assert_eq!(cents_text(7), "0.07");
    assert_eq!(cents_text(123456), "1234.56");
    assert_eq!(cents_text(u64::MAX), "184467440737095516.15");
}

#[test]
fn decimal_texts() {
    assert_eq!(decimal_text(0), "0");
    assert_eq!(decimal_text(10), "10");
    assert_eq!(decimal_text(u64::MAX), "18446744073709551615");
}

#[test]
fn selection_trims_unicode_whitespace() {
    assert_eq!(parse_selection("\u{A0}1:2\u{0B}", 3), Ok(Selection { index: 1, count: 2 }));
    assert_eq!(parse_selection("\u{3000}0:1\u{2028}", 1), Ok(Selection { index: 0, count: 1 }));
}

#[test]
fn image_text_is_padded_to_groups_of_four() {
    let cache = WebCache::new();
    let req = match card_image_b64("9", &cache) {
        Lookup::Miss(r) => r,
        Lookup::Hit(_) => panic!("unexpected hit"),
    };
    let (text, _) = record_image(&req, &vec![0xff, 0x00], cache);
    assert_eq!(text, "/wA=");
    assert_eq!(text.len(), 4);
}
