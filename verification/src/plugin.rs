//! The decisions of the service that creates, settles, cancels and looks
//! up hold-invoices.

use vstd::prelude::*;
use crate::datastore::{
    datastore_new_state, datastore_update_state_forced, first_entry, list_datastore_htlc_expiry,
    make_state_key, state_key, stored_expiry, DatastoreMode, DatastoreWrite, DatastoreWriteView,
    StoredEntry,
};
use crate::error::HodlError;
use crate::state::HodlState;
use crate::text::ascii_folded;

verus! {

/// The character of a hexadecimal digit, in lower case.
pub open spec fn hex_digit(n: int) -> char {
    if n < 10 {
        (48 + n) as u8 as char
    } else {
        (87 + n) as u8 as char
    }
}

/// The lower-case hexadecimal notation of `bytes`: two digits for each
/// byte, the high one first.
pub open spec fn hex_of(bytes: Seq<u8>) -> Seq<char> {
    Seq::new(
        2 * bytes.len(),
        |i: int|
            if i % 2 == 0 {
                hex_digit(bytes[i / 2] as int / 16)
            } else {
                hex_digit(bytes[i / 2] as int % 16)
            },
    )
}

/// Calls `hex::encode`, which writes each byte as two characters taken
/// from `0123456789abcdef`, the one for the high four bits first.
#[verifier::external_body]
fn hex_encode(bytes: &Vec<u8>) -> (s: String)
    ensures
        s@ == hex_of(bytes@),
{
    hex::encode(bytes)
}

/// The payment hash as the datastore's keys hold it: in lower-case hex.
pub fn payment_hash_hex(payment_hash: &Vec<u8>) -> (s: String)
    ensures
        s@ == hex_of(payment_hash@),
{
    hex_encode(payment_hash)
}

/// A forced write of a state, and the state code to answer with once it
/// has been performed.
#[derive(Debug)]
pub struct Mutation {
    pub write: DatastoreWrite,
    pub state: i32,
}

/// The answer to a lookup.
#[derive(Debug, Clone, Copy, PartialEq, Eq, Structural)]
pub struct Lookup {
    pub state: i32,
    /// The stored HTLC expiry, given for an accepted invoice only.
    pub htlc_expiry: Option<u32>,
}

/// The state that the listed entries of a state key hold: `MissingEntry`
/// where nothing is listed, `Parse` where the first entry has no string or
/// its string names no state.
pub open spec fn stored_state(entries: Seq<StoredEntry>) -> Result<HodlState, HodlError> {
    match first_entry(entries) {
        Err(e) => Err(e),
        Ok(entry) => match entry.string {
            None => Err(HodlError::Parse),
            Some(text) => match HodlState::of_name(ascii_folded(text@)) {
                Some(state) => Ok(state),
                None => Err(HodlError::Parse),
            },
        },
    }
}

/// The forced write that puts `to` in the state field of `hash`.
pub open spec fn forced(hash: Seq<char>, to: HodlState) -> DatastoreWriteView {
    DatastoreWriteView {
        key: state_key(hash),
        string: to.name(),
        mode: DatastoreMode::MustReplace,
        generation: None,
    }
}

/// Settling: only an accepted invoice is settled; in any other state the
/// request fails with `WrongState` and nothing is written.
pub open spec fn settled(hash: Seq<char>, entries: Seq<StoredEntry>) -> Result<
    (DatastoreWriteView, int),
    HodlError,
> {
    match stored_state(entries) {
        Err(e) => Err(e),
        Ok(state) => if state == HodlState::Accepted {
            Ok((forced(hash, HodlState::Settled), HodlState::Settled.code()))
        } else {
            Err(HodlError::WrongState)
        },
    }
}

/// Canceling: an open or accepted invoice is canceled; a settled or
/// canceled one fails with `WrongState` and nothing is written.
pub open spec fn canceled(hash: Seq<char>, entries: Seq<StoredEntry>) -> Result<
    (DatastoreWriteView, int),
    HodlError,
> {
    match stored_state(entries) {
        Err(e) => Err(e),
        Ok(state) => if state == HodlState::Open || state == HodlState::Accepted {
            Ok((forced(hash, HodlState::Canceled), HodlState::Canceled.code()))
        } else {
            Err(HodlError::WrongState)
        },
    }
}

/// Looking up: the state's code, and for an accepted invoice the stored
/// HTLC expiry, read from `expiry`; `Rpc` where that reading is wanted and
/// was not made.
pub open spec fn looked_up(state: HodlState, expiry: Option<Seq<StoredEntry>>) -> Result<
    Lookup,
    HodlError,
> {
    if state == HodlState::Accepted {
        match expiry {
            None => Err(HodlError::Rpc),
            Some(entries) => match stored_expiry(entries) {
                Ok(cltv) => Ok(Lookup { state: state.code() as i32, htlc_expiry: Some(cltv) }),
                Err(e) => Err(e),
            },
        }
    } else {
        Ok(Lookup { state: state.code() as i32, htlc_expiry: None })
    }
}

/// The service. It keeps the path of the node's socket for its caller.
#[derive(Debug)]
pub struct Server {
    rpc_path: String,
}

impl Server {
    /// The path of the node's socket.
    pub closed spec fn path(&self) -> Seq<char> {
        self.rpc_path@
    }

    /// A service for the node whose socket is at `path`.
    pub fn new(path: &str) -> (s: Server)
        ensures
            s.path() == path@,
    {
        Server { rpc_path: path.to_owned() }
    }

    /// The path of the node's socket.
    pub fn rpc_path(&self) -> (p: &str)
        ensures
            p@ == self.path(),
    {
        self.rpc_path.as_str()
    }

    /// The greeting that answers a ping.
    pub fn ping(&self, message: &str) -> (reply: String)
        ensures
            reply@ == "Hello "@ + message@ + "!"@,
    {
        let mut reply = "Hello ".to_owned();
        reply.append(message);
        reply.append("!");
        reply
    }

    /// The write that follows the minting of an invoice: its state is
    /// created as open, and must not exist yet.
    pub fn hodl_invoice(&self, payment_hash: String) -> (w: DatastoreWrite)
        ensures
            w@ == (DatastoreWriteView {
                key: state_key(payment_hash@),
                string: HodlState::Open.name(),
                mode: DatastoreMode::MustCreate,
                generation: None,
            }),
    {
        datastore_new_state(payment_hash, HodlState::Open.to_string())
    }

    /// The key under which the state of `payment_hash` is listed.
    pub fn state_query(&self, payment_hash: &Vec<u8>) -> (key: Vec<String>)
        ensures
            key.deep_view() == state_key(hex_of(payment_hash@)),
    {
        make_state_key(payment_hash_hex(payment_hash))
    }

    /// The key under which the HTLC expiry of `payment_hash` is listed.
    pub fn expiry_query(&self, payment_hash: &Vec<u8>) -> (key: Vec<String>)
        ensures
            key.deep_view() == crate::datastore::expiry_key(hex_of(payment_hash@)),
    {
        crate::datastore::make_expiry_key(payment_hash_hex(payment_hash))
    }

    /// The state that the listed entries hold.
    pub fn read_state(&self, entries: &Vec<StoredEntry>) -> (r: Result<HodlState, HodlError>)
        ensures
            r == stored_state(entries@),
    {
        if entries.len() == 0 {
            return Err(HodlError::MissingEntry);
        }
        match &entries[0].string {
            None => Err(HodlError::Parse),
            Some(text) => HodlState::from_str(text.as_str()),
        }
    }

    fn force(&self, payment_hash: &Vec<u8>, to: HodlState) -> (m: Mutation)
        ensures
            m.write@ == forced(hex_of(payment_hash@), to),
            m.state == to.code(),
    {
        Mutation {
            write: datastore_update_state_forced(payment_hash_hex(payment_hash), to.to_string()),
            state: to.as_i32(),
        }
    }

    /// Decides a request to settle, given the listed entries of the
    /// invoice's state.
    pub fn hodl_invoice_settle(&self, payment_hash: &Vec<u8>, entries: &Vec<StoredEntry>) -> (r:
        Result<Mutation, HodlError>)
        ensures
            match r {
                Ok(m) => settled(hex_of(payment_hash@), entries@) == Ok::<
                    (DatastoreWriteView, int),
                    HodlError,
                >((m.write@, m.state as int)),
                Err(e) => settled(hex_of(payment_hash@), entries@) == Err::<
                    (DatastoreWriteView, int),
                    HodlError,
                >(e),
            },
    {
        match self.read_state(entries) {
            Err(e) => Err(e),
            Ok(state) => match state {
                HodlState::Accepted => Ok(self.force(payment_hash, HodlState::Settled)),
                _ => Err(HodlError::WrongState),
            },
        }
    }

    /// Decides a request to cancel, given the listed entries of the
    /// invoice's state.
    pub fn hodl_invoice_cancel(&self, payment_hash: &Vec<u8>, entries: &Vec<StoredEntry>) -> (r:
        Result<Mutation, HodlError>)
        ensures
            match r {
                Ok(m) => canceled(hex_of(payment_hash@), entries@) == Ok::<
                    (DatastoreWriteView, int),
                    HodlError,
                >((m.write@, m.state as int)),
                Err(e) => canceled(hex_of(payment_hash@), entries@) == Err::<
                    (DatastoreWriteView, int),
                    HodlError,
                >(e),
            },
    {
        match self.read_state(entries) {
            Err(e) => Err(e),
            Ok(state) => match state {
                HodlState::Open | HodlState::Accepted => Ok(
                    self.force(payment_hash, HodlState::Canceled),
                ),
                HodlState::Canceled | HodlState::Settled => Err(HodlError::WrongState),
            },
        }
    }

    /// Whether a lookup of an invoice in `state` reads the HTLC expiry.
    pub fn wants_expiry(&self, state: HodlState) -> (b: bool)
        ensures
            b == (state == HodlState::Accepted),
    {
        state == HodlState::Accepted
    }

    /// Answers a lookup, given the state and, where it is wanted, the
    /// listed entries of the HTLC expiry.
    pub fn hodl_invoice_lookup(&self, state: HodlState, expiry: Option<&Vec<StoredEntry>>) -> (r:
        Result<Lookup, HodlError>)
        ensures
            r == looked_up(
                state,
                match expiry {
                    Some(entries) => Some(entries@),
                    None => None,
                },
            ),
    {
        match state {
            HodlState::Accepted => match expiry {
                None => Err(HodlError::Rpc),
                Some(entries) => match list_datastore_htlc_expiry(entries) {
                    Ok(cltv) => Ok(Lookup { state: state.as_i32(), htlc_expiry: Some(cltv) }),
                    Err(e) => Err(e),
                },
            },
            _ => Ok(Lookup { state: state.as_i32(), htlc_expiry: None }),
        }
    }
}

/// A forced write of the service is a valid transition from the state
/// that it read.
pub proof fn lemma_forced_writes_are_valid(hash: Seq<char>, entries: Seq<StoredEntry>)
    ensures
        settled(hash, entries) is Ok ==> stored_state(entries)->Ok_0.can_become(
            HodlState::Settled,
        ),
        canceled(hash, entries) is Ok ==> stored_state(entries)->Ok_0.can_become(
            HodlState::Canceled,
        ),
{
}

/// Once an invoice is canceled, canceling or settling it fails with
/// `WrongState` and hands out no write; the same holds once it is settled.
/// Settling fails in the same way in every state but accepted.
pub proof fn lemma_terminal_requests_fail(hash: Seq<char>, entries: Seq<StoredEntry>)
    ensures
        stored_state(entries) matches Ok(state) && state.is_terminal() ==> canceled(hash, entries)
            == Err::<(DatastoreWriteView, int), HodlError>(HodlError::WrongState) && settled(
            hash,
            entries,
        ) == Err::<(DatastoreWriteView, int), HodlError>(HodlError::WrongState),
        stored_state(entries) matches Ok(state) && state != HodlState::Accepted ==> settled(
            hash,
            entries,
        ) == Err::<(DatastoreWriteView, int), HodlError>(HodlError::WrongState),
{
}

/// What a state field lists once a write of the service was performed on
/// it reads as the state that was written: so a second request of the same
/// kind meets a terminal state and fails.
pub proof fn lemma_request_is_not_repeated(
    hash: Seq<char>,
    entries: Seq<StoredEntry>,
    later: Seq<StoredEntry>,
)
    requires
        later.len() > 0,
        later[0].string is Some,
        (canceled(hash, entries) is Ok && later[0].string->0@ == canceled(
            hash,
            entries,
        )->Ok_0.0.string) || (settled(hash, entries) is Ok && later[0].string->0@ == settled(
            hash,
            entries,
        )->Ok_0.0.string),
    ensures
        stored_state(later) is Ok,
        stored_state(later)->Ok_0.is_terminal(),
        canceled(hash, later) == Err::<(DatastoreWriteView, int), HodlError>(
            HodlError::WrongState,
        ),
        settled(hash, later) == Err::<(DatastoreWriteView, int), HodlError>(HodlError::WrongState),
{
    crate::state::lemma_name_round_trip(HodlState::Canceled);
    crate::state::lemma_name_round_trip(HodlState::Settled);
}

} // verus!
