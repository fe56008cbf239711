//! The bulk-data index and the framing of the bulk export file.

use scanner_bot::bulk::{download_uri_of, record_text, BulkIndexEntry, TARGET_BULK_TYPE};
use scanner_bot::text::str_eq;

fn entry(kind: &str, uri: &str) -> BulkIndexEntry {
    BulkIndexEntry { bulk_type: kind.to_string(), download_uri: uri.to_string() }
}

#[test]
fn the_target_export_is_all_cards() {
    assert_eq!(TARGET_BULK_TYPE, "all_cards");
}

#[test]
fn download_uri_of_takes_the_first_entry_of_the_kind() {
    let entries = vec![
        entry("oracle_cards", "https://data/oracle.json"),
        entry("all_cards", "https://data/all-1.json"),
        entry("rulings", "https://data/rulings.json"),
        entry("all_cards", "https://data/all-2.json"),
    ];
    assert_eq!(download_uri_of(&entries, TARGET_BULK_TYPE), Some("https://data/all-1.json".to_string()));
    assert_eq!(download_uri_of(&entries, "rulings"), Some("https://data/rulings.json".to_string()));
    assert_eq!(download_uri_of(&entries, "oracle_cards"), Some("https://data/oracle.json".to_string()));
}

#[test]
fn download_uri_of_finds_nothing_without_the_kind() {
    let entries = vec![entry("oracle_cards", "https://data/oracle.json"), entry("rulings", "u")];
    assert_eq!(download_uri_of(&entries, TARGET_BULK_TYPE), None);
    assert_eq!(download_uri_of(&entries, "all_card"), None);
    assert_eq!(download_uri_of(&entries, "All_Cards"), None);
    assert_eq!(download_uri_of(&Vec::new(), TARGET_BULK_TYPE), None);
}

#[test]
fn record_text_skips_the_brackets() {
    assert_eq!(record_text("["), None);
    assert_eq!(record_text("]"), None);
}

#[test]
fn record_text_drops_the_separator() {
    assert_eq!(record_text("{\"object\":\"card\"},"), Some("{\"object\":\"card\"}"));
    assert_eq!(record_text("{\"name\":\"Æther Vial\"},"), Some("{\"name\":\"Æther Vial\"}"));
    assert_eq!(record_text("{\"object\":\"card\"}"), Some("{\"object\":\"card\""));
    assert_eq!(record_text(","), Some(""));
    assert_eq!(record_text("[,"), Some("["));
    assert_eq!(record_text("[]"), Some("["));
}

#[test]
fn str_eq_compares_characters() {
    assert!(str_eq("all_cards", "all_cards"));
    assert!(str_eq("", ""));
    assert!(str_eq("Æther", "Æther"));
    assert!(!str_eq("all_cards", "all_card"));
    assert!(!str_eq("a", "b"));
    assert!(!str_eq("Æ", "A"));
    assert!(!str_eq("", " "));
}
