//! Error kinds shared by every part of the library.

use vstd::prelude::*;

verus! {

/// What can go wrong while handling a hold-invoice.
#[derive(Debug, Clone, Copy, PartialEq, Eq, Structural)]
pub enum HodlError {
    /// A stored or configured value is malformed.
    Parse,
    /// A node call failed or answered in an unexpected shape.
    Rpc,
    /// A datastore key that was expected is absent.
    MissingEntry,
    /// A mutation was asked for from a state that does not permit it.
    WrongState,
    /// An in-memory invariant is broken.
    Fatal,
}

} // verus!
