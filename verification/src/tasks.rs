//! The two background tasks: the reconciler, which refreshes the cached
//! states from the datastore, and the clean-up, which forgets invoices that
//! ended long ago.

use vstd::prelude::*;
use crate::cache::{HodlUpdate, PluginState};
use crate::datastore::{
    del_datastore_htlc_expiry, del_datastore_state, expiry_key, state_key, DatastoreDelete,
    StoredEntry,
};
use crate::state::HodlState;
use crate::text::ascii_folded;

verus! {

/// Seconds between two rounds of the reconciler.
pub const RECONCILE_SECONDS: u64 = 2;

/// Seconds before the first round of the clean-up.
pub const CLEAN_UP_DELAY_SECONDS: u64 = 60;

/// Seconds between two rounds of the clean-up.
pub const CLEAN_UP_SECONDS: u64 = 3_600;

/// Seconds that an invoice is kept after it expired.
pub const GRACE_SECONDS: u64 = 3_600;

/// What the datastore answered for the state of one payment hash: the
/// entry, or `None` where the read failed or found nothing.
#[derive(Debug)]
pub struct StateRead {
    pub payment_hash: String,
    pub entry: Option<StoredEntry>,
}

/// The cached form of a stored state: its parsed string, with its
/// generation, zero where it has none. `None` where there is no entry or
/// the string is missing or names no state.
pub open spec fn refreshed(entry: Option<StoredEntry>) -> Option<HodlUpdate> {
    match entry {
        None => None,
        Some(e) => match e.string {
            None => None,
            Some(text) => match HodlState::of_name(ascii_folded(text@)) {
                None => None,
                Some(state) => Some(
                    HodlUpdate {
                        state,
                        generation: match e.generation {
                            Some(g) => g,
                            None => 0,
                        },
                    },
                ),
            },
        },
    }
}

/// The cached states after the reads were taken in, one after the other:
/// each read that gives a state replaces what was cached for its hash.
pub open spec fn reconciled(states: Map<Seq<char>, HodlUpdate>, reads: Seq<StateRead>) -> Map<
    Seq<char>,
    HodlUpdate,
>
    decreases reads.len(),
{
    if reads.len() == 0 {
        states
    } else {
        let before = reconciled(states, reads.drop_last());
        match refreshed(reads.last().entry) {
            Some(update) => before.insert(reads.last().payment_hash@, update),
            None => before,
        }
    }
}

/// The cached form of what the datastore answered.
pub fn refresh_entry(entry: &Option<StoredEntry>) -> (r: Option<HodlUpdate>)
    ensures
        r == refreshed(*entry),
{
    let e = match entry {
        Some(e) => e,
        None => {
            return None;
        },
    };
    let text = match &e.string {
        Some(text) => text,
        None => {
            return None;
        },
    };
    let state = match HodlState::from_str(text.as_str()) {
        Ok(state) => state,
        Err(_) => {
            return None;
        },
    };
    let generation: u64 = match e.generation {
        Some(g) => g,
        None => 0,
    };
    Some(HodlUpdate { state, generation })
}

/// The payment hashes whose state the reconciler reads in a round: those
/// that are cached.
pub fn tracked_hashes(plugin: &PluginState) -> (r: Vec<String>)
    requires
        plugin.wf(),
    ensures
        r@.len() == plugin.states@.dom().len(),
        forall|i: int, j: int| 0 <= i < j < r@.len() ==> r@[i]@ != r@[j]@,
        forall|i: int| 0 <= i < r@.len() ==> plugin.states@.contains_key(#[trigger] r@[i]@),
        forall|k: Seq<char>| #[trigger]
            plugin.states@.contains_key(k) ==> exists|i: int| 0 <= i < r@.len() && r@[i]@ == k,
{
    plugin.states.keys()
}

/// One round of the reconciler, after the reads: takes the stored states
/// into the cache. A read that failed, or whose state cannot be parsed, is
/// skipped.
pub fn lookup_state(plugin: &mut PluginState, reads: &Vec<StateRead>)
    requires
        old(plugin).wf(),
    ensures
        final(plugin).wf(),
        final(plugin).config == old(plugin).config,
        final(plugin).blockheight == old(plugin).blockheight,
        final(plugin).invoice_amts == old(plugin).invoice_amts,
        final(plugin).invoices == old(plugin).invoices,
        final(plugin).states@ == reconciled(old(plugin).states@, reads@),
{
    let mut i: usize = 0;
    while i < reads.len()
        invariant
            i <= reads.len(),
            plugin.wf(),
            plugin.config == old(plugin).config,
            plugin.blockheight == old(plugin).blockheight,
            plugin.invoice_amts == old(plugin).invoice_amts,
            plugin.invoices == old(plugin).invoices,
            plugin.states@ == reconciled(old(plugin).states@, reads@.take(i as int)),
        decreases reads.len() - i,
    {
        proof {
            assert(reads@.take(i + 1).drop_last() =~= reads@.take(i as int));
            assert(reads@.take(i + 1).last() == reads@[i as int]);
        }
        match refresh_entry(&reads[i].entry) {
            Some(update) => {
                plugin.states.insert(reads[i].payment_hash.clone(), update);
            },
            None => {},
        }
        i = i + 1;
    }
    proof {
        assert(reads@.take(reads@.len() as int) =~= reads@);
    }
}

/// A round of the reconciler drops no cached state.
pub proof fn lemma_reconciled_keeps_keys(
    states: Map<Seq<char>, HodlUpdate>,
    reads: Seq<StateRead>,
    hash: Seq<char>,
)
    requires
        states.contains_key(hash),
    ensures
        reconciled(states, reads).contains_key(hash),
    decreases reads.len(),
{
    if reads.len() > 0 {
        lemma_reconciled_keeps_keys(states, reads.drop_last(), hash);
    }
}

/// After a round of the reconciler the cache holds, for a payment hash,
/// the state that the last read of it gave; a hash of which no read gave a
/// state is cached as before.
pub proof fn lemma_reconciled_converges(
    states: Map<Seq<char>, HodlUpdate>,
    reads: Seq<StateRead>,
    hash: Seq<char>,
)
    ensures
        (forall|i: int|
            0 <= i < reads.len() && reads[i].payment_hash@ == hash ==> refreshed(
                #[trigger] reads[i].entry,
            ) is None) ==> (reconciled(states, reads).contains_key(hash) == states.contains_key(
            hash,
        ) && (states.contains_key(hash) ==> reconciled(states, reads)[hash] == states[hash])),
        forall|i: int|
            #![trigger reads[i]]
            0 <= i < reads.len() && reads[i].payment_hash@ == hash && refreshed(reads[i].entry)
                is Some && (forall|j: int|
                i < j < reads.len() ==> (#[trigger] reads[j]).payment_hash@ != hash)
                ==> reconciled(states, reads).contains_key(hash) && reconciled(states, reads)[hash]
                == refreshed(reads[i].entry)->0,
    decreases reads.len(),
{
    if reads.len() > 0 {
        let rest = reads.drop_last();
        lemma_reconciled_converges(states, rest, hash);
        assert forall|i: int|
            #![trigger reads[i]]
            0 <= i < reads.len() && reads[i].payment_hash@ == hash && refreshed(reads[i].entry)
                is Some && (forall|j: int|
                i < j < reads.len() ==> (#[trigger] reads[j]).payment_hash@
                    != hash) implies reconciled(states, reads).contains_key(hash) && reconciled(
            states,
            reads,
        )[hash] == refreshed(reads[i].entry)->0 by {
            if i < reads.len() - 1 {
                assert(rest[i] == reads[i]);
                assert(reads[reads.len() - 1].payment_hash@ != hash);
                assert forall|j: int| i < j < rest.len() implies (#[trigger] rest[j]).payment_hash@
                    != hash by {
                    assert(rest[j] == reads[j]);
                }
            }
        }
        if forall|i: int|
            0 <= i < reads.len() && reads[i].payment_hash@ == hash ==> refreshed(
                #[trigger] reads[i].entry,
            ) is None {
            assert forall|i: int|
                0 <= i < rest.len() && rest[i].payment_hash@ == hash implies refreshed(
                #[trigger] rest[i].entry,
            ) is None by {
                assert(rest[i] == reads[i]);
                assert(refreshed(reads[i].entry) is None);
            }
            if reads.last().payment_hash@ == hash {
                assert(refreshed(reads[reads.len() - 1].entry) is None);
            }
        }
    }
}

/// Whether an invoice was paid, has expired, or is still open.
#[derive(Debug, Clone, Copy, PartialEq, Eq, Structural)]
pub enum InvoiceStatus {
    Unpaid,
    Paid,
    Expired,
}

/// An invoice as the node lists it, as far as the clean-up reads it.
#[derive(Debug)]
pub struct ListedInvoice {
    pub payment_hash: String,
    pub expires_at: u64,
    pub status: InvoiceStatus,
}

/// Whether the clean-up forgets an invoice at time `now`: it expired a
/// grace period ago or longer, and is paid or expired.
pub open spec fn reapable(invoice: ListedInvoice, now: u64) -> bool {
    invoice.expires_at + GRACE_SECONDS <= now && invoice.status != InvoiceStatus::Unpaid
}

/// The payment hashes of the invoices that the clean-up forgets, in the
/// order of the listing.
pub open spec fn reapable_hashes(invoices: Seq<ListedInvoice>, now: u64) -> Seq<Seq<char>> {
    invoices.filter(|invoice: ListedInvoice| reapable(invoice, now)).map_values(
        |invoice: ListedInvoice| invoice.payment_hash@,
    )
}

/// The deletions that one listed datastore entry gives rise to: where
/// the second part of its key is a forgotten payment hash, that hash's
/// expiry and state.
pub open spec fn entry_deletions(entry: StoredEntry, expired: Seq<Seq<char>>) -> Seq<
    Seq<Seq<char>>,
> {
    if entry.key@.len() >= 2 && expired.contains(entry.key@[1]@) {
        seq![expiry_key(entry.key@[1]@), state_key(entry.key@[1]@)]
    } else {
        seq![]
    }
}

/// The keys to delete for the listed entries, in the order of the
/// listing.
pub open spec fn deletions(entries: Seq<StoredEntry>, expired: Seq<Seq<char>>) -> Seq<
    Seq<Seq<char>>,
>
    decreases entries.len(),
{
    if entries.len() == 0 {
        seq![]
    } else {
        deletions(entries.drop_last(), expired) + entry_deletions(entries.last(), expired)
    }
}

/// The keys of a list of deletions.
pub open spec fn deleted_keys(list: Seq<DatastoreDelete>) -> Seq<Seq<Seq<char>>> {
    list.map_values(|d: DatastoreDelete| d.key.deep_view())
}

/// The payment hashes that the clean-up forgets at time `unix_now`.
pub fn expired_payment_hashes(invoices: &Vec<ListedInvoice>, unix_now: u64) -> (r: Vec<String>)
    ensures
        r.deep_view() == reapable_hashes(invoices@, unix_now),
{
    let mut r: Vec<String> = Vec::new();
    let mut i: usize = 0;
    proof {
        reveal(Seq::filter);
        assert(r.deep_view() =~= reapable_hashes(invoices@.take(0), unix_now));
    }
    while i < invoices.len()
        invariant
            i <= invoices.len(),
            r.deep_view() == reapable_hashes(invoices@.take(i as int), unix_now),
        decreases invoices.len() - i,
    {
        let invoice = &invoices[i];
        let ghost before = r.deep_view();
        let old_enough = invoice.expires_at as u128 + GRACE_SECONDS as u128 <= unix_now as u128;
        let ended = match invoice.status {
            InvoiceStatus::Paid | InvoiceStatus::Expired => true,
            InvoiceStatus::Unpaid => false,
        };
        if old_enough && ended {
            r.push(invoice.payment_hash.clone());
        }
        proof {
            reveal(Seq::filter);
            let pred = |invoice: ListedInvoice| reapable(invoice, unix_now);
            let shorter = invoices@.take(i as int);
            let longer = invoices@.take(i + 1);
            assert(longer.drop_last() =~= shorter);
            assert(longer.last() == invoices@[i as int]);
            assert(longer.filter(pred) == if pred(longer.last()) {
                shorter.filter(pred).push(longer.last())
            } else {
                shorter.filter(pred)
            });
            if old_enough && ended {
                assert(r.deep_view() =~= before.push(invoice.payment_hash@));
            }
            assert(r.deep_view() =~= reapable_hashes(longer, unix_now));
        }
        i = i + 1;
    }
    proof {
        assert(invoices@.take(invoices@.len() as int) =~= invoices@);
    }
    r
}

/// Whether `list` holds the string `s`.
pub fn contains_string(list: &Vec<String>, s: &String) -> (b: bool)
    ensures
        b == list.deep_view().contains(s@),
{
    let mut i: usize = 0;
    while i < list.len()
        invariant
            i <= list.len(),
            forall|j: int| 0 <= j < i ==> list.deep_view()[j] != s@,
        decreases list.len() - i,
    {
        if list[i] == *s {
            assert(list.deep_view()[i as int] == s@);
            return true;
        }
        i = i + 1;
    }
    false
}

/// The deletions of a round of the clean-up: for each listed datastore
/// entry of a forgotten payment hash, the hash's expiry and its state.
pub fn stale_entries(datastore: &Vec<StoredEntry>, expired: &Vec<String>) -> (r: Vec<
    DatastoreDelete,
>)
    ensures
        deleted_keys(r@) == deletions(datastore@, expired.deep_view()),
{
    let mut r: Vec<DatastoreDelete> = Vec::new();
    let mut i: usize = 0;
    proof {
        assert(deleted_keys(r@) =~= deletions(datastore@.take(0), expired.deep_view()));
    }
    while i < datastore.len()
        invariant
            i <= datastore.len(),
            deleted_keys(r@) == deletions(datastore@.take(i as int), expired.deep_view()),
        decreases datastore.len() - i,
    {
        let entry = &datastore[i];
        let ghost before = deleted_keys(r@);
        proof {
            assert(datastore@.take(i + 1).drop_last() =~= datastore@.take(i as int));
            assert(datastore@.take(i + 1).last() == datastore@[i as int]);
        }
        if entry.key.len() >= 2 && contains_string(expired, &entry.key[1]) {
            r.push(del_datastore_htlc_expiry(entry.key[1].clone()));
            r.push(del_datastore_state(entry.key[1].clone()));
        }
        assert(deleted_keys(r@) =~= before + entry_deletions(*entry, expired.deep_view()));
        i = i + 1;
    }
    proof {
        assert(datastore@.take(datastore@.len() as int) =~= datastore@);
    }
    r
}

/// The end of a round of the clean-up: forgets the payment hashes in
/// `expired`, in all three tables.
pub fn clean_up(plugin: &mut PluginState, expired: &Vec<String>)
    requires
        old(plugin).wf(),
    ensures
        final(plugin).wf(),
        final(plugin).config == old(plugin).config,
        final(plugin).blockheight == old(plugin).blockheight,
        final(plugin).states@ == old(plugin).states@.remove_keys(expired.deep_view().to_set()),
        final(plugin).invoice_amts@ == old(plugin).invoice_amts@.remove_keys(
            expired.deep_view().to_set(),
        ),
        final(plugin).invoices@ == old(plugin).invoices@.remove_keys(
            expired.deep_view().to_set(),
        ),
{
    let ghost all = expired.deep_view();
    let mut i: usize = 0;
    proof {
        assert(all.take(0).to_set() =~= Set::<Seq<char>>::empty());
        assert(plugin.states@ =~= plugin.states@.remove_keys(all.take(0).to_set()));
        assert(plugin.invoice_amts@ =~= plugin.invoice_amts@.remove_keys(all.take(0).to_set()));
        assert(plugin.invoices@ =~= plugin.invoices@.remove_keys(all.take(0).to_set()));
    }
    while i < expired.len()
        invariant
            i <= expired.len(),
            all == expired.deep_view(),
            plugin.wf(),
            plugin.config == old(plugin).config,
            plugin.blockheight == old(plugin).blockheight,
            plugin.states@ == old(plugin).states@.remove_keys(all.take(i as int).to_set()),
            plugin.invoice_amts@ == old(plugin).invoice_amts@.remove_keys(
                all.take(i as int).to_set(),
            ),
            plugin.invoices@ == old(plugin).invoices@.remove_keys(all.take(i as int).to_set()),
        decreases expired.len() - i,
    {
        let key = expired[i].as_str();
        plugin.states.remove(key);
        plugin.invoice_amts.remove(key);
        plugin.invoices.remove(key);
        proof {
            let shorter = all.take(i as int);
            let longer = all.take(i + 1);
            assert(longer =~= shorter.push(key@));
            assert forall|k: Seq<char>| longer.to_set().contains(k) == (shorter.to_set().contains(
                k,
            ) || k == key@) by {
                if shorter.contains(k) {
                    let j = choose|j: int| 0 <= j < shorter.len() && shorter[j] == k;
                    assert(longer[j] == k);
                }
                if k == key@ {
                    assert(longer[i as int] == k);
                }
                if longer.contains(k) {
                    let j = choose|j: int| 0 <= j < longer.len() && longer[j] == k;
                    if j < i {
                        assert(shorter[j] == k);
                    }
                }
            }
            assert(plugin.states@ =~= old(plugin).states@.remove_keys(longer.to_set()));
            assert(plugin.invoice_amts@ =~= old(plugin).invoice_amts@.remove_keys(
                longer.to_set(),
            ));
            assert(plugin.invoices@ =~= old(plugin).invoices@.remove_keys(longer.to_set()));
        }
        i = i + 1;
    }
    proof {
        assert(all.take(all.len() as int) =~= all);
    }
}

} // verus!
