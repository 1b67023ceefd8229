use card_db::card::{format_id, Card, Database};

#[test]
fn format_id_strips_trailing_point_zero() {
    assert_eq!(format_id("512345.0"), "512345");
    assert_eq!(format_id("512345"), "512345");
    assert_eq!(format_id("10"), "10");
    assert_eq!(format_id("1.05"), "1.05");
    assert_eq!(format_id(""), "");
}

#[test]
fn format_id_twice_is_once() {
    for s in ["7.0", "7", "70", "100.0", "3.5"] {
        let once = format_id(s);
        assert_eq!(format_id(&once), once);
    }
}

#[test]
fn add_copies_appends() {
    let mut db = Database::new();
    db.add_copies("5.0", 2);
    db.add_copies("6", 1);
    let ids: Vec<&str> = db.cards.iter().map(|c| c.product_id.as_str()).collect();
    assert_eq!(ids, vec!["5.0", "5.0", "6"]);
    db.add_copies("9", 0);
    assert_eq!(db.cards.len(), 3);
}

#[test]
fn remove_at_in_and_out_of_range() {
    let mut db = Database { cards: vec![Card { product_id: "1".to_string() }, Card { product_id: "2".to_string() }] };
    assert!(!db.remove_at(2));
    assert_eq!(db.cards.len(), 2);
    assert!(db.remove_at(0));
    assert_eq!(db.cards.len(), 1);
    assert_eq!(db.cards[0].product_id, "2");
}
