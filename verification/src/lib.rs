//! Hold-invoice lifecycle logic for a Lightning node plugin.
//!
//! The crate holds the decisions of the plugin: the state codec, the
//! transition relation, the datastore requests, the per-HTLC holding step,
//! the reconciler and clean-up rules and the service decisions. Performing
//! the requests against the node is left to the caller.

pub mod cache;
pub mod config;
pub mod datastore;
pub mod error;
pub mod hooks;
pub mod laws;
pub mod plugin;
pub mod state;
pub mod table;
pub mod tasks;
pub mod text;

pub use crate::cache::{HodlUpdate, InvoiceSnapshot, PluginState};
