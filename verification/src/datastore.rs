//! Requests to the node's datastore and the reading of its answers.
//!
//! Every item is stored under a key of three parts: the plugin's name, the
//! payment hash in hex, and the field, `state` or `expiry`.

use vstd::prelude::*;
use crate::error::HodlError;
use crate::text::{parse_bounded, parse_unsigned};

verus! {

pub const HODLVOICE_PLUGIN_NAME: &'static str = "hodlvoice";

pub const HODLVOICE_DATASTORE_STATE: &'static str = "state";

pub const HODLVOICE_DATASTORE_HTLC_EXPIRY: &'static str = "expiry";

/// How a write treats an entry that is, or is not, already there.
#[derive(Debug, Clone, Copy, PartialEq, Eq, Structural)]
pub enum DatastoreMode {
    /// Fails if the key exists.
    MustCreate,
    /// Fails if the key does not exist, or if a generation is given and
    /// is not the stored one.
    MustReplace,
    /// Never fails on account of the key.
    CreateOrReplace,
}

/// A write to the datastore.
#[derive(Debug, Clone, PartialEq, Eq)]
pub struct DatastoreWrite {
    pub key: Vec<String>,
    pub string: String,
    pub mode: DatastoreMode,
    pub generation: Option<u64>,
}

/// A write, seen as plain values.
pub struct DatastoreWriteView {
    pub key: Seq<Seq<char>>,
    pub string: Seq<char>,
    pub mode: DatastoreMode,
    pub generation: Option<u64>,
}

impl View for DatastoreWrite {
    type V = DatastoreWriteView;

    open spec fn view(&self) -> DatastoreWriteView {
        DatastoreWriteView {
            key: self.key.deep_view(),
            string: self.string@,
            mode: self.mode,
            generation: self.generation,
        }
    }
}

/// A deletion from the datastore, whatever the generation.
#[derive(Debug, Clone, PartialEq, Eq)]
pub struct DatastoreDelete {
    pub key: Vec<String>,
}

/// An entry as the datastore lists it.
#[derive(Debug, Clone, PartialEq, Eq)]
pub struct StoredEntry {
    pub key: Vec<String>,
    pub generation: Option<u64>,
    pub string: Option<String>,
}

/// The key of the state field of a payment hash.
pub open spec fn state_key(pay_hash: Seq<char>) -> Seq<Seq<char>> {
    seq![HODLVOICE_PLUGIN_NAME@, pay_hash, HODLVOICE_DATASTORE_STATE@]
}

/// The key of the expiry field of a payment hash.
pub open spec fn expiry_key(pay_hash: Seq<char>) -> Seq<Seq<char>> {
    seq![HODLVOICE_PLUGIN_NAME@, pay_hash, HODLVOICE_DATASTORE_HTLC_EXPIRY@]
}

/// The key under which all of the plugin's entries stand.
pub open spec fn plugin_key() -> Seq<Seq<char>> {
    seq![HODLVOICE_PLUGIN_NAME@]
}

fn make_key(pay_hash: String, field: &str) -> (key: Vec<String>)
    ensures
        key.deep_view() == seq![HODLVOICE_PLUGIN_NAME@, pay_hash@, field@],
{
    let mut key: Vec<String> = Vec::new();
    key.push(HODLVOICE_PLUGIN_NAME.to_owned());
    key.push(pay_hash);
    key.push(field.to_owned());
    assert(key.deep_view() =~= seq![HODLVOICE_PLUGIN_NAME@, pay_hash@, field@]);
    key
}

/// The key of the state field of `pay_hash`.
pub fn make_state_key(pay_hash: String) -> (key: Vec<String>)
    ensures
        key.deep_view() == state_key(pay_hash@),
{
    make_key(pay_hash, HODLVOICE_DATASTORE_STATE)
}

/// The key of the expiry field of `pay_hash`.
pub fn make_expiry_key(pay_hash: String) -> (key: Vec<String>)
    ensures
        key.deep_view() == expiry_key(pay_hash@),
{
    make_key(pay_hash, HODLVOICE_DATASTORE_HTLC_EXPIRY)
}

/// The key that lists every entry of the plugin.
pub fn make_plugin_key() -> (key: Vec<String>)
    ensures
        key.deep_view() == plugin_key(),
{
    let mut key: Vec<String> = Vec::new();
    key.push(HODLVOICE_PLUGIN_NAME.to_owned());
    assert(key.deep_view() =~= plugin_key());
    key
}

/// Creates the state of a new invoice; fails if one is stored already.
pub fn datastore_new_state(pay_hash: String, string: String) -> (w: DatastoreWrite)
    ensures
        w@ == (DatastoreWriteView {
            key: state_key(pay_hash@),
            string: string@,
            mode: DatastoreMode::MustCreate,
            generation: None,
        }),
{
    DatastoreWrite {
        key: make_state_key(pay_hash),
        string,
        mode: DatastoreMode::MustCreate,
        generation: None,
    }
}

/// Replaces the state if the stored generation is still `generation`.
pub fn datastore_update_state(pay_hash: String, string: String, generation: u64) -> (w:
    DatastoreWrite)
    ensures
        w@ == (DatastoreWriteView {
            key: state_key(pay_hash@),
            string: string@,
            mode: DatastoreMode::MustReplace,
            generation: Some(generation),
        }),
{
    DatastoreWrite {
        key: make_state_key(pay_hash),
        string,
        mode: DatastoreMode::MustReplace,
        generation: Some(generation),
    }
}

/// Replaces the state whatever its generation.
pub fn datastore_update_state_forced(pay_hash: String, string: String) -> (w: DatastoreWrite)
    ensures
        w@ == (DatastoreWriteView {
            key: state_key(pay_hash@),
            string: string@,
            mode: DatastoreMode::MustReplace,
            generation: None,
        }),
{
    DatastoreWrite {
        key: make_state_key(pay_hash),
        string,
        mode: DatastoreMode::MustReplace,
        generation: None,
    }
}

/// Stores the expiry of an HTLC, in place of any that was stored.
pub fn datastore_htlc_expiry(pay_hash: String, string: String) -> (w: DatastoreWrite)
    ensures
        w@ == (DatastoreWriteView {
            key: expiry_key(pay_hash@),
            string: string@,
            mode: DatastoreMode::CreateOrReplace,
            generation: None,
        }),
{
    DatastoreWrite {
        key: make_expiry_key(pay_hash),
        string,
        mode: DatastoreMode::CreateOrReplace,
        generation: None,
    }
}

/// Deletes the state of `pay_hash`.
pub fn del_datastore_state(pay_hash: String) -> (d: DatastoreDelete)
    ensures
        d.key.deep_view() == state_key(pay_hash@),
{
    DatastoreDelete { key: make_state_key(pay_hash) }
}

/// Deletes the stored expiry of `pay_hash`.
pub fn del_datastore_htlc_expiry(pay_hash: String) -> (d: DatastoreDelete)
    ensures
        d.key.deep_view() == expiry_key(pay_hash@),
{
    DatastoreDelete { key: make_expiry_key(pay_hash) }
}

/// What reading the state field gives: the first listed entry, or
/// `MissingEntry` where nothing is listed.
pub open spec fn first_entry(entries: Seq<StoredEntry>) -> Result<StoredEntry, HodlError> {
    if entries.len() > 0 {
        Ok(entries[0])
    } else {
        Err(HodlError::MissingEntry)
    }
}

/// What reading the expiry field gives: the block height written in the
/// first listed entry. `MissingEntry` where nothing is listed, `Parse` where
/// the entry has no string or the string is no `u32` in decimal.
pub open spec fn stored_expiry(entries: Seq<StoredEntry>) -> Result<u32, HodlError> {
    if entries.len() == 0 {
        Err(HodlError::MissingEntry)
    } else {
        match entries[0].string {
            None => Err(HodlError::Parse),
            Some(text) => match parse_unsigned(text@, u32::MAX as nat) {
                Some(n) => Ok(n as u32),
                None => Err(HodlError::Parse),
            },
        }
    }
}

/// The state entry among the entries listed under a state key.
pub fn list_datastore_state(entries: &Vec<StoredEntry>) -> (r: Result<&StoredEntry, HodlError>)
    ensures
        match r {
            Ok(e) => first_entry(entries@) == Ok::<StoredEntry, HodlError>(*e),
            Err(e) => first_entry(entries@) == Err::<StoredEntry, HodlError>(e),
        },
{
    if entries.len() > 0 {
        Ok(&entries[0])
    } else {
        Err(HodlError::MissingEntry)
    }
}

/// The HTLC expiry among the entries listed under an expiry key.
pub fn list_datastore_htlc_expiry(entries: &Vec<StoredEntry>) -> (r: Result<u32, HodlError>)
    ensures
        r == stored_expiry(entries@),
{
    if entries.len() == 0 {
        return Err(HodlError::MissingEntry);
    }
    match &entries[0].string {
        None => Err(HodlError::Parse),
        Some(text) => match parse_bounded(text.as_str(), 0xffff_ffff) {
            Some(n) => Ok(n as u32),
            None => Err(HodlError::Parse),
        },
    }
}

/// Same as [`list_datastore_htlc_expiry`].
pub fn listdatastore_htlc_expiry(entries: &Vec<StoredEntry>) -> (r: Result<u32, HodlError>)
    ensures
        r == stored_expiry(entries@),
{
    list_datastore_htlc_expiry(entries)
}

/// Same as [`list_datastore_state`].
pub fn listdatastore_state(entries: &Vec<StoredEntry>) -> (r: Result<&StoredEntry, HodlError>)
    ensures
        match r {
            Ok(e) => first_entry(entries@) == Ok::<StoredEntry, HodlError>(*e),
            Err(e) => first_entry(entries@) == Err::<StoredEntry, HodlError>(e),
        },
{
    list_datastore_state(entries)
}

} // verus!
