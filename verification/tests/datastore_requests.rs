use hodlvoice::datastore::{
    datastore_htlc_expiry, datastore_new_state, datastore_update_state,
    datastore_update_state_forced, del_datastore_htlc_expiry, del_datastore_state,
    list_datastore_htlc_expiry, list_datastore_state, listdatastore_htlc_expiry,
    listdatastore_state, make_plugin_key, DatastoreMode, StoredEntry,
};
use hodlvoice::error::HodlError;

fn key(field: &str) -> Vec<String> {
    vec!["hodlvoice".to_string(), "abcd".to_string(), field.to_string()]
}

fn entry(string: Option<&str>) -> StoredEntry {
    StoredEntry { key: key("expiry"), generation: Some(3), string: string.map(|s| s.to_string()) }
}

#[test]
fn new_state_must_create() {
    let w = datastore_new_state("abcd".to_string(), "open".to_string());
    assert_eq!(w.key, key("state"));
    assert_eq!(w.string, "open");
    assert_eq!(w.mode, DatastoreMode::MustCreate);
    assert_eq!(w.generation, None);
}

#[test]
fn update_state_compares_generation() {
    let w = datastore_update_state("abcd".to_string(), "accepted".to_string(), 7);
    assert_eq!(w.key, key("state"));
    assert_eq!(w.string, "accepted");
    assert_eq!(w.mode, DatastoreMode::MustReplace);
    assert_eq!(w.generation, Some(7));
}

#[test]
fn forced_update_has_no_generation() {
    let w = datastore_update_state_forced("abcd".to_string(), "settled".to_string());
    assert_eq!(w.key, key("state"));
    assert_eq!(w.string, "settled");
    assert_eq!(w.mode, DatastoreMode::MustReplace);
    assert_eq!(w.generation, None);
}

#[test]
fn expiry_is_created_or_replaced() {
    let w = datastore_htlc_expiry("abcd".to_string(), "900050".to_string());
    assert_eq!(w.key, key("expiry"));
    assert_eq!(w.string, "900050");
    assert_eq!(w.mode, DatastoreMode::CreateOrReplace);
    assert_eq!(w.generation, None);
}

#[test]
fn deletions_name_both_fields() {
    assert_eq!(del_datastore_state("abcd".to_string()).key, key("state"));
    assert_eq!(del_datastore_htlc_expiry("abcd".to_string()).key, key("expiry"));
    assert_eq!(make_plugin_key(), vec!["hodlvoice".to_string()]);
}

#[test]
fn state_listing_gives_first_entry() {
    let entries = vec![entry(Some("open")), entry(Some("settled"))];
    assert_eq!(list_datastore_state(&entries), Ok(&entries[0]));
    assert_eq!(listdatastore_state(&entries), Ok(&entries[0]));
    assert_eq!(list_datastore_state(&Vec::new()), Err(HodlError::MissingEntry));
    assert_eq!(listdatastore_state(&Vec::new()), Err(HodlError::MissingEntry));
}

#[test]
fn expiry_listing_is_parsed() {
    assert_eq!(list_datastore_htlc_expiry(&vec![entry(Some("900050"))]), Ok(900_050));
    assert_eq!(listdatastore_htlc_expiry(&vec![entry(Some("4294967295"))]), Ok(u32::MAX));
    assert_eq!(list_datastore_htlc_expiry(&Vec::new()), Err(HodlError::MissingEntry));
    assert_eq!(list_datastore_htlc_expiry(&vec![entry(None)]), Err(HodlError::Parse));
    assert_eq!(list_datastore_htlc_expiry(&vec![entry(Some("4294967296"))]), Err(HodlError::Parse));
    assert_eq!(listdatastore_htlc_expiry(&vec![entry(Some("12x"))]), Err(HodlError::Parse));
}
