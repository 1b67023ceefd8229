use card_db::cache::WebCache;
use card_db::freshness::{cache_age_hours, cache_too_old, should_offer_wipe, startup_cache, NO_CACHE_FILE};
use card_db::selection::{parse_selection, Selection, SelectionError};

const NOW: u64 = 1_700_000_000;

fn loaded() -> WebCache {
    let mut c = WebCache::new();
    c.insert("search:a".to_string(), "b".to_string());
    c
}

#[test]
fn age_twenty_five_hours_is_too_old() {
    let age = cache_age_hours(Some(NOW - 25 * 3600), NOW);
    assert_eq!(age, 25);
    assert!(cache_too_old(age));
    assert!(should_offer_wipe(age));
}

#[test]
fn age_twenty_three_hours_is_fresh() {
    let age = cache_age_hours(Some(NOW - 23 * 3600), NOW);
    assert_eq!(age, 23);
    assert!(!cache_too_old(age));
    assert!(!should_offer_wipe(age));
    assert_eq!(startup_cache(loaded(), age, true).to_entries().len(), 1);
}

#[test]
fn missing_file_gives_empty_cache_without_prompt() {
    let age = cache_age_hours(None, NOW);
    assert_eq!(age, NO_CACHE_FILE);
    assert!(!should_offer_wipe(age));
    assert!(startup_cache(loaded(), age, false).to_entries().is_empty());
}

#[test]
fn wipe_only_when_confirmed() {
    assert!(startup_cache(loaded(), 30, true).to_entries().is_empty());
    assert_eq!(startup_cache(loaded(), 30, false).to_entries().len(), 1);
    assert_eq!(cache_age_hours(Some(NOW + 7200), NOW), 0);
}

#[test]
fn selection_valid() {
    assert_eq!(parse_selection("0:1", 3), Ok(Selection { index: 0, count: 1 }));
    assert_eq!(parse_selection("  2:4 \n", 3), Ok(Selection { index: 2, count: 4 }));
    assert_eq!(parse_selection("+1:2:9", 3), Ok(Selection { index: 1, count: 2 }));
}

#[test]
fn selection_errors() {
    assert_eq!(parse_selection("x:1", 3), Err(SelectionError::BadIndex));
    assert_eq!(parse_selection(":1", 3), Err(SelectionError::BadIndex));
    assert_eq!(parse_selection("1", 3), Err(SelectionError::BadCount));
    assert_eq!(parse_selection("1:", 3), Err(SelectionError::BadCount));
    assert_eq!(parse_selection("1:-2", 3), Err(SelectionError::BadCount));
    assert_eq!(parse_selection("1:4294967296", 3), Err(SelectionError::BadCount));
    assert_eq!(parse_selection("3:1", 3), Err(SelectionError::OutOfRange));
    assert_eq!(parse_selection("99999999999999999999999:1", 3), Err(SelectionError::BadIndex));
}
