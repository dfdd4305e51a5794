//! What the plugin keeps in memory: its configuration, the latest block
//! height, and per payment hash the cached state, the amount held and the
//! invoice.

use vstd::prelude::*;
use crate::config::Config;
use crate::state::HodlState;
use crate::table::Table;

verus! {

/// A state as the datastore held it, with the generation it had.
#[derive(Clone, Debug, Copy, PartialEq, Eq, Structural)]
pub struct HodlUpdate {
    pub state: HodlState,
    pub generation: u64,
}

/// What the controller keeps of an invoice: its amount and when it
/// expires, in seconds since the epoch. The table's key is its payment hash.
#[derive(Clone, Debug, Copy, PartialEq, Eq, Structural)]
pub struct InvoiceSnapshot {
    pub amount_msat: u64,
    pub expires_at: u64,
}

/// The plugin's memory.
pub struct PluginState {
    pub config: Config,
    pub blockheight: u32,
    pub invoice_amts: Table<u64>,
    pub states: Table<HodlUpdate>,
    pub invoices: Table<InvoiceSnapshot>,
}

/// The amount recorded for `hash` in `amts`: zero where there is none.
pub open spec fn held_in(amts: Map<Seq<char>, u64>, hash: Seq<char>) -> int {
    if amts.contains_key(hash) {
        amts[hash] as int
    } else {
        0
    }
}

impl PluginState {
    /// Every table is well formed.
    pub open spec fn wf(&self) -> bool {
        &&& self.invoice_amts.wf()
        &&& self.states.wf()
        &&& self.invoices.wf()
    }

    /// The amount held for a payment hash: zero where none is recorded.
    pub open spec fn held(&self, pay_hash: Seq<char>) -> int {
        held_in(self.invoice_amts@, pay_hash)
    }

    /// A memory with the default configuration, block height zero and
    /// nothing tracked.
    pub fn new() -> (p: PluginState)
        ensures
            p.wf(),
            p.config.cltv_delta.1 == crate::config::CLTV_DELTA_DEFAULT,
            p.blockheight == 0,
            p.invoice_amts@ == Map::<Seq<char>, u64>::empty(),
            p.states@ == Map::<Seq<char>, HodlUpdate>::empty(),
            p.invoices@ == Map::<Seq<char>, InvoiceSnapshot>::empty(),
    {
        PluginState {
            config: Config::new(),
            blockheight: 0,
            invoice_amts: Table::new(),
            states: Table::new(),
            invoices: Table::new(),
        }
    }

    /// Adds `amount_msat` to what is held for `pay_hash`. Returns `false`,
    /// and changes nothing, where the sum does not fit.
    pub fn hold_amount(&mut self, pay_hash: &str, amount_msat: u64) -> (done: bool)
        requires
            old(self).wf(),
        ensures
            final(self).wf(),
            final(self).config == old(self).config,
            final(self).blockheight == old(self).blockheight,
            final(self).states == old(self).states,
            final(self).invoices == old(self).invoices,
            done == (old(self).held(pay_hash@) + amount_msat <= u64::MAX),
            done ==> final(self).invoice_amts@ == old(self).invoice_amts@.insert(
                pay_hash@,
                (old(self).held(pay_hash@) + amount_msat) as u64,
            ),
            !done ==> final(self).invoice_amts == old(self).invoice_amts,
    {
        let current: u64 = match self.invoice_amts.get(pay_hash) {
            Some(amt) => *amt,
            None => 0,
        };
        match current.checked_add(amount_msat) {
            Some(sum) => {
                self.invoice_amts.insert(pay_hash.to_owned(), sum);
                true
            },
            None => false,
        }
    }

    /// Takes `amount_msat` from what is held for `pay_hash`. Returns
    /// `false`, and changes nothing, where nothing is recorded for the hash or
    /// less than `amount_msat` is held.
    pub fn release_amount(&mut self, pay_hash: &str, amount_msat: u64) -> (done: bool)
        requires
            old(self).wf(),
        ensures
            final(self).wf(),
            final(self).config == old(self).config,
            final(self).blockheight == old(self).blockheight,
            final(self).states == old(self).states,
            final(self).invoices == old(self).invoices,
            done == (old(self).invoice_amts@.contains_key(pay_hash@) && old(self).held(pay_hash@)
                >= amount_msat),
            done ==> final(self).invoice_amts@ == old(self).invoice_amts@.insert(
                pay_hash@,
                (old(self).held(pay_hash@) - amount_msat) as u64,
            ),
            !done ==> final(self).invoice_amts == old(self).invoice_amts,
    {
        let current: u64 = match self.invoice_amts.get(pay_hash) {
            Some(amt) => *amt,
            None => {
                return false;
            },
        };
        if current < amount_msat {
            return false;
        }
        self.invoice_amts.insert(pay_hash.to_owned(), current - amount_msat);
        true
    }
}

} // verus!
