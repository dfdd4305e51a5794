//! What holds of the controller across the steps of any number of
//! handlers.

use vstd::prelude::*;
use crate::cache::{held_in, InvoiceSnapshot, PluginState};
use crate::datastore::StoredEntry;
use crate::hooks::{Handler, Outcome, Phase, Verdict};
use crate::state::HodlState;

verus! {

/// One step of a handler, with what its caller reports.
pub enum Step {
    Start,
    StateRead { entry: Option<StoredEntry> },
    ExpiryWritten { ok: bool },
    Invoices { list: Option<Seq<InvoiceSnapshot>> },
    Tick { now: u64 },
    Swapped { ok: bool },
}

/// The handler's fields agree: the amount is counted exactly while the
/// HTLC is held, or after it was let through, and a held HTLC knows its invoice.
pub open spec fn consistent(h: Handler) -> bool {
    match h.phase {
        Phase::Holding | Phase::Swapping { .. } => h.counted && h.invoice is Some,
        Phase::Done => true,
        _ => !h.counted,
    }
}

/// Whether the handler is holding its HTLC.
pub open spec fn live(h: Handler) -> bool {
    h.phase is Holding || h.phase is Swapping
}

/// What a step of `h` leaves behind.
pub open spec fn step_outcome(h: Handler, p: PluginState, step: Step) -> Outcome {
    match step {
        Step::Start => h.start_outcome(p),
        Step::StateRead { entry } => h.state_read_outcome(p, entry),
        Step::ExpiryWritten { ok } => h.expiry_written_outcome(p, ok),
        Step::Invoices { list } => h.invoices_outcome(p, list),
        Step::Tick { now } => h.tick_outcome(p, now),
        Step::Swapped { ok } => h.swapped_outcome(p, ok),
    }
}

/// The handler after a step.
pub open spec fn after(h: Handler, o: Outcome) -> Handler {
    Handler { htlc: h.htlc, invoice: o.invoice, phase: o.phase, counted: o.counted }
}

/// What `h` adds to the amount held for `hash`.
pub open spec fn share(h: Handler, hash: Seq<char>) -> int {
    if h.htlc.payment_hash@ == hash {
        h.contribution()
    } else {
        0
    }
}

/// The sum of what the handlers add to the amount held for `hash`.
pub open spec fn total_held(handlers: Seq<Handler>, hash: Seq<char>) -> int
    decreases handlers.len(),
{
    if handlers.len() == 0 {
        0
    } else {
        total_held(handlers.drop_last(), hash) + share(handlers.last(), hash)
    }
}

/// Replacing one handler changes the sum by the difference of the shares.
pub proof fn lemma_total_update(handlers: Seq<Handler>, i: int, h: Handler, hash: Seq<char>)
    requires
        0 <= i < handlers.len(),
    ensures
        total_held(handlers.update(i, h), hash) == total_held(handlers, hash) - share(
            handlers[i],
            hash,
        ) + share(h, hash),
    decreases handlers.len(),
{
    let updated = handlers.update(i, h);
    if i == handlers.len() - 1 {
        assert(updated.drop_last() =~= handlers.drop_last());
    } else {
        lemma_total_update(handlers.drop_last(), i, h, hash);
        assert(updated.drop_last() =~= handlers.drop_last().update(i, h));
    }
}

/// A step of a handler changes what is held for its payment hash by the
/// change of its own contribution, leaves every other hash alone, and keeps
/// the handler's fields in agreement.
pub proof fn lemma_step_accounts(h: Handler, p: PluginState, step: Step, hash: Seq<char>)
    requires
        consistent(h),
    ensures
        ({
            let o = step_outcome(h, p, step);
            &&& consistent(after(h, o))
            &&& held_in(o.invoice_amts, hash) - held_in(p.invoice_amts@, hash) == share(
                after(h, o),
                hash,
            ) - share(h, hash)
        }),
{
}

/// The amount held for every payment hash is the sum of the amounts of
/// the HTLCs counted for it, and no less than zero: if that holds before a
/// step of any handler, it holds after it.
pub proof fn lemma_held_is_total(
    handlers: Seq<Handler>,
    p: PluginState,
    i: int,
    step: Step,
    hash: Seq<char>,
)
    requires
        0 <= i < handlers.len(),
        forall|j: int| 0 <= j < handlers.len() ==> consistent(#[trigger] handlers[j]),
        held_in(p.invoice_amts@, hash) == total_held(handlers, hash),
    ensures
        ({
            let o = step_outcome(handlers[i], p, step);
            let next = handlers.update(i, after(handlers[i], o));
            &&& held_in(o.invoice_amts, hash) == total_held(next, hash)
            &&& held_in(o.invoice_amts, hash) >= 0
            &&& forall|j: int| 0 <= j < next.len() ==> consistent(#[trigger] next[j])
        }),
{
    let o = step_outcome(handlers[i], p, step);
    lemma_step_accounts(handlers[i], p, step, hash);
    lemma_total_update(handlers, i, after(handlers[i], o), hash);
}

/// Every handler that holds an HTLC has a cached state for its payment
/// hash: if that holds before a step of any handler, it holds after it. A
/// step drops no cached state, and a handler begins to hold only with the
/// state cached.
pub proof fn lemma_live_is_tracked(handlers: Seq<Handler>, p: PluginState, i: int, step: Step)
    requires
        0 <= i < handlers.len(),
        forall|j: int|
            0 <= j < handlers.len() && live(#[trigger] handlers[j]) ==> p.states@.contains_key(
                handlers[j].htlc.payment_hash@,
            ),
    ensures
        ({
            let o = step_outcome(handlers[i], p, step);
            let next = handlers.update(i, after(handlers[i], o));
            &&& forall|k: Seq<char>| p.states@.contains_key(k) ==> o.states.contains_key(k)
            &&& forall|j: int|
                0 <= j < next.len() && live(#[trigger] next[j]) ==> o.states.contains_key(
                    next[j].htlc.payment_hash@,
                )
        }),
{
    let o = step_outcome(handlers[i], p, step);
    let next = handlers.update(i, after(handlers[i], o));
    assert forall|j: int| 0 <= j < next.len() && live(#[trigger] next[j]) implies o.states.contains_key(
        next[j].htlc.payment_hash@,
    ) by {
        if j != i {
            assert(live(handlers[j]));
        }
    }
}

/// A look at a held HTLC whose cached state is gone fails the handling,
/// and changes nothing.
pub proof fn lemma_untracked_is_fatal(h: Handler, p: PluginState, now: u64)
    requires
        live(h),
        !p.states@.contains_key(h.htlc.payment_hash@),
        h.phase is Holding,
    ensures
        h.tick_outcome(p, now) == h.aborts(p, crate::error::HodlError::Fatal),
{
}

/// Every state change that a handler asks the datastore for is a valid
/// transition from the state that the handler saw in the cache, and is made
/// by compare-and-set on the generation that it saw.
pub proof fn lemma_handler_swaps_validly(h: Handler, p: PluginState, now: u64)
    ensures
        h.tick_outcome(p, now).phase is Swapping ==> ({
            let hash = h.htlc.payment_hash@;
            let o = h.tick_outcome(p, now);
            &&& p.states@.contains_key(hash)
            &&& o.action is Write
            &&& exists|to: HodlState|
                p.states@[hash].state.can_become(to) && o.action->write.string
                    == #[trigger] to.name()
            &&& o.action->write.generation == Some(p.states@[hash].generation)
        }),
{
    let o = h.tick_outcome(p, now);
    if o.phase is Swapping {
        let hash = h.htlc.payment_hash@;
        let look = h.look_at(p, now);
        crate::hooks::lemma_swap_is_valid(look);
        match look.verdict() {
            Verdict::Swap { to, then } => {
                assert(p.states@[hash].state.can_become(to) && o.action->write.string == to.name());
            },
            _ => {},
        }
    }
}

} // verus!
