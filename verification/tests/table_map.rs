use hodlvoice::table::Table;
use hodlvoice::PluginState;

#[test]
fn empty_table() {
    let t: Table<u64> = Table::new();
    assert_eq!(t.len(), 0);
    assert!(!t.contains_key("a"));
    assert_eq!(t.get("a"), None);
    assert!(t.keys().is_empty());
}

#[test]
fn insert_get_replace() {
    let mut t: Table<u64> = Table::new();
    t.insert("a".to_string(), 1);
    t.insert("b".to_string(), 2);
    assert_eq!(t.len(), 2);
    assert_eq!(t.get("a"), Some(&1));
    assert_eq!(t.get("b"), Some(&2));
    t.insert("a".to_string(), 3);
    assert_eq!(t.len(), 2);
    assert_eq!(t.get("a"), Some(&3));
    assert_eq!(t.get("b"), Some(&2));
}

#[test]
fn remove_entries() {
    let mut t: Table<u64> = Table::new();
    t.insert("a".to_string(), 1);
    t.insert("b".to_string(), 2);
    t.insert("c".to_string(), 3);
    t.remove("b");
    assert_eq!(t.len(), 2);
    assert_eq!(t.get("a"), Some(&1));
    assert_eq!(t.get("b"), None);
    assert_eq!(t.get("c"), Some(&3));
    t.remove("zz");
    assert_eq!(t.len(), 2);
    let mut keys = t.keys();
    keys.sort();
    assert_eq!(keys, vec!["a".to_string(), "c".to_string()]);
}

#[test]
fn held_amounts() {
    let mut p = PluginState::new();
    assert!(p.hold_amount("h", 600));
    assert_eq!(p.invoice_amts.get("h"), Some(&600));
    assert!(p.hold_amount("h", 400));
    assert_eq!(p.invoice_amts.get("h"), Some(&1000));
    assert!(!p.hold_amount("h", u64::MAX));
    assert_eq!(p.invoice_amts.get("h"), Some(&1000));
    assert!(p.release_amount("h", 400));
    assert_eq!(p.invoice_amts.get("h"), Some(&600));
    assert!(!p.release_amount("h", 601));
    assert_eq!(p.invoice_amts.get("h"), Some(&600));
    assert!(p.release_amount("h", 600));
    assert_eq!(p.invoice_amts.get("h"), Some(&0));
    assert!(!p.release_amount("other", 0));
    assert_eq!(p.invoice_amts.get("other"), None);
}
