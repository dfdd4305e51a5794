use hodlvoice::datastore::{DatastoreMode, StoredEntry};
use hodlvoice::error::HodlError;
use hodlvoice::plugin::{payment_hash_hex, Lookup, Server};
use hodlvoice::state::HodlState;

fn state_entry(string: &str) -> Vec<StoredEntry> {
    vec![StoredEntry {
        key: vec!["hodlvoice".to_string(), "00ff10".to_string(), "state".to_string()],
        generation: Some(2),
        string: Some(string.to_string()),
    }]
}

fn expiry_entry(string: &str) -> Vec<StoredEntry> {
    vec![StoredEntry {
        key: vec!["hodlvoice".to_string(), "00ff10".to_string(), "expiry".to_string()],
        generation: Some(0),
        string: Some(string.to_string()),
    }]
}

fn server() -> Server {
    Server::new("lightning-rpc")
}

#[test]
fn hex_is_lowercase_and_two_digits_a_byte() {
    assert_eq!(payment_hash_hex(&vec![]), "");
    assert_eq!(payment_hash_hex(&vec![0x00, 0xff, 0x10]), "00ff10");
    assert_eq!(payment_hash_hex(&vec![0xab, 0xcd, 0xef, 0x09, 0x9a]), "abcdef099a");
    assert_eq!(payment_hash_hex(&b"01".to_vec()), "3031");
}

#[test]
fn server_keeps_its_path() {
    assert_eq!(server().rpc_path(), "lightning-rpc");
}

#[test]
fn ping_greets() {
    assert_eq!(server().ping("world"), "Hello world!");
    assert_eq!(server().ping(""), "Hello !");
}

#[test]
fn new_invoice_is_created_open() {
    let w = server().hodl_invoice("00ff10".to_string());
    assert_eq!(w.key, vec!["hodlvoice".to_string(), "00ff10".to_string(), "state".to_string()]);
    assert_eq!(w.string, "open");
    assert_eq!(w.mode, DatastoreMode::MustCreate);
    assert_eq!(w.generation, None);
}

#[test]
fn queries_use_the_hex_hash() {
    let hash = vec![0x00, 0xff, 0x10];
    assert_eq!(
        server().state_query(&hash),
        vec!["hodlvoice".to_string(), "00ff10".to_string(), "state".to_string()]
    );
    assert_eq!(
        server().expiry_query(&hash),
        vec!["hodlvoice".to_string(), "00ff10".to_string(), "expiry".to_string()]
    );
}

#[test]
fn settle_accepted() {
    let m = server().hodl_invoice_settle(&vec![0x00, 0xff, 0x10], &state_entry("accepted")).unwrap();
    assert_eq!(m.state, 1);
    assert_eq!(m.write.key, vec!["hodlvoice".to_string(), "00ff10".to_string(), "state".to_string()]);
    assert_eq!(m.write.string, "settled");
    assert_eq!(m.write.mode, DatastoreMode::MustReplace);
    assert_eq!(m.write.generation, None);
}

#[test]
fn settle_in_every_wrong_state() {
    for s in ["open", "settled", "canceled"] {
        let r = server().hodl_invoice_settle(&vec![0x00, 0xff, 0x10], &state_entry(s));
        assert_eq!(r.err(), Some(HodlError::WrongState), "{}", s);
    }
}

#[test]
fn cancel_open_or_accepted() {
    for s in ["open", "accepted", "Accepted"] {
        let m = server().hodl_invoice_cancel(&vec![0x00, 0xff, 0x10], &state_entry(s)).unwrap();
        assert_eq!(m.state, 2);
        assert_eq!(m.write.string, "canceled");
        assert_eq!(m.write.mode, DatastoreMode::MustReplace);
        assert_eq!(m.write.generation, None);
        assert_eq!(m.write.key[1], "00ff10");
    }
}

#[test]
fn cancel_on_terminal_state() {
    for s in ["settled", "canceled"] {
        let r = server().hodl_invoice_cancel(&vec![0x00, 0xff, 0x10], &state_entry(s));
        assert_eq!(r.err(), Some(HodlError::WrongState), "{}", s);
    }
}

#[test]
fn cancel_twice_fails_the_second_time() {
    let hash = vec![0x00, 0xff, 0x10];
    let first = server().hodl_invoice_cancel(&hash, &state_entry("open")).unwrap();
    let after = state_entry(&first.write.string);
    assert_eq!(server().hodl_invoice_cancel(&hash, &after).err(), Some(HodlError::WrongState));
    assert_eq!(server().hodl_invoice_settle(&hash, &after).err(), Some(HodlError::WrongState));
}

#[test]
fn requests_on_missing_or_broken_state() {
    let hash = vec![0x00];
    assert_eq!(server().hodl_invoice_settle(&hash, &Vec::new()).err(), Some(HodlError::MissingEntry));
    assert_eq!(server().hodl_invoice_cancel(&hash, &Vec::new()).err(), Some(HodlError::MissingEntry));
    assert_eq!(server().hodl_invoice_cancel(&hash, &state_entry("paid")).err(), Some(HodlError::Parse));
    let mut e = state_entry("open");
    e[0].string = None;
    assert_eq!(server().hodl_invoice_settle(&hash, &e).err(), Some(HodlError::Parse));
    assert_eq!(server().read_state(&e), Err(HodlError::Parse));
    assert_eq!(server().read_state(&state_entry("ACCEPTED")), Ok(HodlState::Accepted));
}

#[test]
fn lookup_gives_expiry_for_accepted_only() {
    let s = server();
    assert!(s.wants_expiry(HodlState::Accepted));
    assert!(!s.wants_expiry(HodlState::Open));
    assert_eq!(s.hodl_invoice_lookup(HodlState::Open, None), Ok(Lookup { state: 0, htlc_expiry: None }));
    assert_eq!(
        s.hodl_invoice_lookup(HodlState::Settled, Some(&expiry_entry("5"))),
        Ok(Lookup { state: 1, htlc_expiry: None })
    );
    assert_eq!(s.hodl_invoice_lookup(HodlState::Canceled, None), Ok(Lookup { state: 2, htlc_expiry: None }));
    assert_eq!(
        s.hodl_invoice_lookup(HodlState::Accepted, Some(&expiry_entry("900050"))),
        Ok(Lookup { state: 3, htlc_expiry: Some(900_050) })
    );
    assert_eq!(s.hodl_invoice_lookup(HodlState::Accepted, None), Err(HodlError::Rpc));
    assert_eq!(s.hodl_invoice_lookup(HodlState::Accepted, Some(&Vec::new())), Err(HodlError::MissingEntry));
    assert_eq!(s.hodl_invoice_lookup(HodlState::Accepted, Some(&expiry_entry("x"))), Err(HodlError::Parse));
}
