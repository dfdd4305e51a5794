//! The HTLC controller: what to answer to an `htlc_accepted` hook, decided
//! step by step while the HTLC is held, and the block-height listener.

use vstd::prelude::*;
use crate::cache::{HodlUpdate, InvoiceSnapshot, PluginState};
use crate::datastore::{
    datastore_htlc_expiry, datastore_update_state, expiry_key, make_state_key, state_key,
    DatastoreMode, DatastoreWrite, DatastoreWriteView, StoredEntry,
};
use crate::error::HodlError;
use crate::state::HodlState;
use crate::text::{ascii_folded, decimal, decimal_string, parse_u64, parse_unsigned, chars_of};

verus! {

/// Seconds between two looks at a held HTLC.
pub const POLL_SECONDS: u64 = 3;

/// Seconds to wait after a state change that the datastore refused.
pub const RETRY_SECONDS: u64 = 2;

/// An invoice that expires within this many seconds is canceled.
pub const INVOICE_EXPIRY_MARGIN: u64 = 60;

/// Blocks kept, beside the configured delta, before an HTLC's expiry.
pub const HTLC_EXPIRY_MARGIN: u64 = 6;

/// The answer to the hook.
#[derive(Debug, Clone, Copy, PartialEq, Eq, Structural)]
pub enum HookResult {
    /// Let the node go on with the HTLC: it settles a paid invoice.
    Continue,
    /// Reject the HTLC.
    Fail,
}

impl HookResult {
    /// The word the node expects under `result`.
    pub open spec fn word(self) -> Seq<char> {
        match self {
            HookResult::Continue => "continue"@,
            HookResult::Fail => "fail"@,
        }
    }

    /// The word the node expects under `result`.
    pub fn to_string(&self) -> (s: String)
        ensures
            s@ == self.word(),
    {
        match self {
            HookResult::Continue => "continue".to_owned(),
            HookResult::Fail => "fail".to_owned(),
        }
    }
}

/// What follows a state change that the datastore accepted.
#[derive(Debug, Clone, Copy, PartialEq, Eq, Structural)]
pub enum AfterSwap {
    /// The HTLC is rejected.
    Reject,
    /// The HTLC stays held.
    Hold,
}

/// What one look at a held HTLC decides.
#[derive(Debug, Clone, Copy, PartialEq, Eq, Structural)]
pub enum Verdict {
    /// Ask the datastore to change the state, by compare-and-set.
    Swap { to: HodlState, then: AfterSwap },
    /// Reject the HTLC.
    Reject,
    /// Let the HTLC through.
    Settle,
    /// Keep holding.
    Wait,
}

/// All that one look at a held HTLC depends on.
#[derive(Debug, Clone, Copy, PartialEq, Eq, Structural)]
pub struct Look {
    /// The cached state of the invoice.
    pub state: HodlState,
    /// The invoice's amount and expiry.
    pub invoice: InvoiceSnapshot,
    /// Seconds since the epoch.
    pub now: u64,
    /// Block height at which the HTLC expires.
    pub cltv_expiry: u32,
    /// Latest block height.
    pub blockheight: u32,
    /// Configured safety margin, in blocks.
    pub cltv_delta: u16,
    /// What is held for the invoice, this HTLC included.
    pub held_msat: u64,
    /// This HTLC's amount.
    pub amount_msat: u64,
}

impl Look {
    /// The invoice expires within the margin.
    pub open spec fn invoice_expiring(self) -> bool {
        self.invoice.expires_at <= self.now + INVOICE_EXPIRY_MARGIN
    }

    /// The HTLC expires within the configured delta and the margin.
    pub open spec fn htlc_expiring(self) -> bool {
        self.cltv_expiry <= self.blockheight + self.cltv_delta + HTLC_EXPIRY_MARGIN
    }

    /// The invoice is not covered by what is held without this HTLC.
    pub open spec fn uncovered_without(self) -> bool {
        self.invoice.amount_msat > self.held_msat - self.amount_msat
    }

    /// The decision: first the invoice's expiry, then the HTLC's, then the
    /// state.
    pub open spec fn verdict(self) -> Verdict {
        if self.invoice_expiring() && self.state.can_become(HodlState::Canceled) {
            Verdict::Swap { to: HodlState::Canceled, then: AfterSwap::Reject }
        } else if self.htlc_expiring() && self.state.can_become(HodlState::Open) {
            if self.uncovered_without() && self.state == HodlState::Accepted {
                Verdict::Swap { to: HodlState::Open, then: AfterSwap::Reject }
            } else {
                Verdict::Reject
            }
        } else {
            match self.state {
                HodlState::Open => if self.held_msat >= self.invoice.amount_msat {
                    Verdict::Swap { to: HodlState::Accepted, then: AfterSwap::Hold }
                } else {
                    Verdict::Wait
                },
                HodlState::Accepted => if self.held_msat < self.invoice.amount_msat {
                    Verdict::Swap { to: HodlState::Open, then: AfterSwap::Hold }
                } else {
                    Verdict::Wait
                },
                HodlState::Settled => Verdict::Settle,
                HodlState::Canceled => Verdict::Reject,
            }
        }
    }

    /// Decides what to do with a held HTLC.
    pub fn decide(&self) -> (v: Verdict)
        ensures
            v == self.verdict(),
    {
        let invoice_expiring = self.invoice.expires_at as u128 <= self.now as u128
            + INVOICE_EXPIRY_MARGIN as u128;
        let htlc_expiring = self.cltv_expiry as u64 <= self.blockheight as u64
            + self.cltv_delta as u64 + HTLC_EXPIRY_MARGIN;
        if invoice_expiring && self.state.is_valid_transition(&HodlState::Canceled) {
            return Verdict::Swap { to: HodlState::Canceled, then: AfterSwap::Reject };
        }
        if htlc_expiring && self.state.is_valid_transition(&HodlState::Open) {
            let uncovered = self.invoice.amount_msat as u128 + self.amount_msat as u128
                > self.held_msat as u128;
            if uncovered && self.state == HodlState::Accepted {
                return Verdict::Swap { to: HodlState::Open, then: AfterSwap::Reject };
            }
            return Verdict::Reject;
        }
        match self.state {
            HodlState::Open => {
                if self.invoice.amount_msat <= self.held_msat
                    && self.state.is_valid_transition(&HodlState::Accepted) {
                    Verdict::Swap { to: HodlState::Accepted, then: AfterSwap::Hold }
                } else {
                    Verdict::Wait
                }
            },
            HodlState::Accepted => {
                if self.invoice.amount_msat > self.held_msat && self.state.is_valid_transition(
                    &HodlState::Open,
                ) {
                    Verdict::Swap { to: HodlState::Open, then: AfterSwap::Hold }
                } else {
                    Verdict::Wait
                }
            },
            HodlState::Settled => Verdict::Settle,
            HodlState::Canceled => Verdict::Reject,
        }
    }
}

/// Every state change that the controller asks for is a valid transition
/// from the state it saw.
pub proof fn lemma_swap_is_valid(look: Look)
    ensures
        look.verdict() matches Verdict::Swap { to, .. } ==> look.state.can_become(to),
{
}

/// A settled invoice lets its HTLCs through and a canceled one rejects
/// them, whatever the clock and the block height say; no other state ends
/// the holding without a state change or an expiry.
pub proof fn lemma_terminal_verdicts(look: Look)
    ensures
        look.state == HodlState::Settled ==> look.verdict() == Verdict::Settle,
        look.state == HodlState::Canceled ==> look.verdict() == (Verdict::Swap {
            to: HodlState::Canceled,
            then: AfterSwap::Reject,
        }) || look.verdict() == Verdict::Reject,
        look.verdict() == Verdict::Settle ==> look.state == HodlState::Settled,
        look.verdict() == Verdict::Reject ==> look.state == HodlState::Canceled
            || look.htlc_expiring(),
{
}

/// The block height that a `block_added` notification carries: its
/// `height`, cut to 32 bits.
pub open spec fn height_of(height: u64) -> u32 {
    (height % 0x1_0000_0000) as u32
}

/// The fields of the `htlc` object of a hook call, each as it was found.
#[derive(Debug)]
pub struct HtlcFields {
    pub payment_hash: Option<String>,
    pub cltv_expiry: Option<u64>,
    pub id: Option<u64>,
    pub short_channel_id: Option<String>,
    /// The amount in the node's notation: digits, then `msat`.
    pub amount_msat: Option<String>,
}

/// An HTLC whose fields were all found.
#[derive(Debug)]
pub struct Htlc {
    pub payment_hash: String,
    pub cltv_expiry: u32,
    pub id: u64,
    pub short_channel_id: String,
    pub amount_msat: u64,
}

/// An HTLC, seen as plain values.
pub struct HtlcView {
    pub payment_hash: Seq<char>,
    pub cltv_expiry: u32,
    pub id: u64,
    pub short_channel_id: Seq<char>,
    pub amount_msat: u64,
}

impl View for Htlc {
    type V = HtlcView;

    open spec fn view(&self) -> HtlcView {
        HtlcView {
            payment_hash: self.payment_hash@,
            cltv_expiry: self.cltv_expiry,
            id: self.id,
            short_channel_id: self.short_channel_id@,
            amount_msat: self.amount_msat,
        }
    }
}

/// What the handler asks of its caller next.
#[derive(Debug)]
pub enum Action {
    /// List the datastore under `key`, then call `on_state_read`.
    ReadState { key: Vec<String> },
    /// Perform `write`, then call `on_expiry_written` or `on_swapped`,
    /// whichever the handler's phase asks for.
    Write { write: DatastoreWrite },
    /// List the node's invoices of `payment_hash`, then call `on_invoices`.
    ListInvoices { payment_hash: String },
    /// Sleep for `seconds`, read the clock, then call `on_tick`.
    Poll { seconds: u64 },
    /// Answer the hook with `result`.
    Return { result: HookResult },
    /// Fail the hook with `error`.
    Abort { error: HodlError },
}

/// An action, seen as plain values.
pub enum ActionView {
    ReadState { key: Seq<Seq<char>> },
    Write { write: DatastoreWriteView },
    ListInvoices { payment_hash: Seq<char> },
    Poll { seconds: u64 },
    Return { result: HookResult },
    Abort { error: HodlError },
}

impl View for Action {
    type V = ActionView;

    open spec fn view(&self) -> ActionView {
        match self {
            Action::ReadState { key } => ActionView::ReadState { key: key.deep_view() },
            Action::Write { write } => ActionView::Write { write: write@ },
            Action::ListInvoices { payment_hash } => ActionView::ListInvoices {
                payment_hash: payment_hash@,
            },
            Action::Poll { seconds } => ActionView::Poll { seconds: *seconds },
            Action::Return { result } => ActionView::Return { result: *result },
            Action::Abort { error } => ActionView::Abort { error: *error },
        }
    }
}

/// The amount written in the node's notation: the text without its last
/// four characters, the unit, read as a decimal `u64`.
pub open spec fn amount_of(text: Seq<char>) -> Option<u64> {
    if text.len() < 4 {
        None
    } else {
        match parse_unsigned(text.take(text.len() - 4), u64::MAX as nat) {
            Some(n) => Some(n as u64),
            None => None,
        }
    }
}

/// Reads an amount in the node's notation.
pub fn parse_amount_msat(text: &str) -> (r: Option<u64>)
    ensures
        r == amount_of(text@),
{
    let chars = chars_of(text);
    if chars.len() < 4 {
        return None;
    }
    assert(chars@.subrange(0, chars@.len() - 4) =~= text@.take(text@.len() - 4));
    parse_u64(&chars, 0, chars.len() - 4)
}

/// What the fields of a hook call amount to. Without an `htlc` object the
/// HTLC is let through; with a field missing it is rejected; with an amount
/// that cannot be read the hook fails.
pub open spec fn extracted(fields: Option<HtlcFields>) -> Result<HtlcView, ActionView> {
    match fields {
        None => Err(ActionView::Return { result: HookResult::Continue }),
        Some(f) => if f.payment_hash is None || f.cltv_expiry is None || f.id is None
            || f.short_channel_id is None || f.amount_msat is None {
            Err(ActionView::Return { result: HookResult::Fail })
        } else {
            match amount_of(f.amount_msat->0@) {
                None => Err(ActionView::Abort { error: HodlError::Parse }),
                Some(amount) => Ok(
                    HtlcView {
                        payment_hash: f.payment_hash->0@,
                        cltv_expiry: height_of(f.cltv_expiry->0),
                        id: f.id->0,
                        short_channel_id: f.short_channel_id->0@,
                        amount_msat: amount,
                    },
                ),
            }
        },
    }
}

/// Cuts a height to 32 bits.
pub fn cut_height(height: u64) -> (h: u32)
    ensures
        h == height_of(height),
{
    (height % 0x1_0000_0000) as u32
}

/// Reads the HTLC of a hook call, or says how the hook ends without one.
pub fn extract(fields: Option<HtlcFields>) -> (r: Result<Htlc, Action>)
    ensures
        match r {
            Ok(htlc) => extracted(fields) == Ok::<HtlcView, ActionView>(htlc@),
            Err(action) => extracted(fields) == Err::<HtlcView, ActionView>(action@),
        },
{
    let f = match fields {
        Some(f) => f,
        None => {
            return Err(Action::Return { result: HookResult::Continue });
        },
    };
    match (f.payment_hash, f.cltv_expiry, f.id, f.short_channel_id, f.amount_msat) {
        (Some(payment_hash), Some(cltv_expiry), Some(id), Some(short_channel_id), Some(text)) => {
            match parse_amount_msat(text.as_str()) {
                Some(amount_msat) => Ok(
                    Htlc {
                        payment_hash,
                        cltv_expiry: cut_height(cltv_expiry),
                        id,
                        short_channel_id,
                        amount_msat,
                    },
                ),
                None => Err(Action::Abort { error: HodlError::Parse }),
            }
        },
        _ => Err(Action::Return { result: HookResult::Fail }),
    }
}

/// Where the handling of an HTLC stands.
#[derive(Debug, Clone, Copy, PartialEq, Eq, Structural)]
pub enum Phase {
    /// Nothing was done yet.
    Fresh,
    /// The stored state was asked for.
    ReadingState,
    /// The HTLC's expiry is being stored.
    WritingExpiry { update: HodlUpdate },
    /// The invoice was asked for.
    ListingInvoices { update: HodlUpdate },
    /// The HTLC is held, between two looks.
    Holding,
    /// The HTLC is held, and a state change was asked for.
    Swapping { then: AfterSwap },
    /// The hook was answered or has failed.
    Done,
}

/// The handling of one HTLC, from the hook call to its answer.
#[derive(Debug)]
pub struct Handler {
    pub htlc: Htlc,
    /// The invoice, once it is known.
    pub invoice: Option<InvoiceSnapshot>,
    pub phase: Phase,
    /// Whether the HTLC's amount is part of what is held for its invoice.
    pub counted: bool,
}

/// What a step of a handler leaves behind: the handler's new fields, the
/// three tables, and the action handed out.
pub struct Outcome {
    pub phase: Phase,
    pub invoice: Option<InvoiceSnapshot>,
    pub counted: bool,
    pub invoice_amts: Map<Seq<char>, u64>,
    pub states: Map<Seq<char>, HodlUpdate>,
    pub invoices: Map<Seq<char>, InvoiceSnapshot>,
    pub action: ActionView,
}

impl Handler {
    /// What this HTLC adds to the amount held for its invoice.
    pub open spec fn contribution(self) -> int {
        if self.counted {
            self.htlc.amount_msat as int
        } else {
            0
        }
    }

    /// A step that touches no table and keeps the handler's invoice.
    pub open spec fn moves(self, p: PluginState, phase: Phase, action: ActionView) -> Outcome {
        Outcome {
            phase,
            invoice: self.invoice,
            counted: self.counted,
            invoice_amts: p.invoice_amts@,
            states: p.states@,
            invoices: p.invoices@,
            action,
        }
    }

    /// A step that ends the handling with an error.
    pub open spec fn aborts(self, p: PluginState, error: HodlError) -> Outcome {
        self.moves(p, Phase::Done, ActionView::Abort { error })
    }

    /// A step that answers the hook.
    pub open spec fn answers(self, p: PluginState, result: HookResult) -> Outcome {
        self.moves(p, Phase::Done, ActionView::Return { result })
    }

    /// Taking up an HTLC whose invoice and state are known, with the
    /// tables as given: an HTLC of a canceled invoice is rejected; any other
    /// is added to what is held and looked at without delay. Where the sum
    /// does not fit, the handling fails.
    pub open spec fn admits(
        self,
        p: PluginState,
        state: HodlState,
        invoice: InvoiceSnapshot,
        states: Map<Seq<char>, HodlUpdate>,
        invoices: Map<Seq<char>, InvoiceSnapshot>,
    ) -> Outcome {
        let hash = self.htlc.payment_hash@;
        if state == HodlState::Canceled {
            Outcome {
                phase: Phase::Done,
                invoice: Some(invoice),
                counted: self.counted,
                invoice_amts: p.invoice_amts@,
                states,
                invoices,
                action: ActionView::Return { result: HookResult::Fail },
            }
        } else if p.held(hash) + self.htlc.amount_msat > u64::MAX {
            Outcome {
                phase: Phase::Done,
                invoice: Some(invoice),
                counted: self.counted,
                invoice_amts: p.invoice_amts@,
                states,
                invoices,
                action: ActionView::Abort { error: HodlError::Fatal },
            }
        } else {
            Outcome {
                phase: Phase::Holding,
                invoice: Some(invoice),
                counted: true,
                invoice_amts: p.invoice_amts@.insert(
                    hash,
                    (p.held(hash) + self.htlc.amount_msat) as u64,
                ),
                states,
                invoices,
                action: ActionView::Poll { seconds: 0 },
            }
        }
    }

    /// Rejecting a held HTLC: its amount leaves what is held and the hook
    /// answers `fail`. Where less than the amount is recorded, the handling
    /// fails and nothing changes.
    pub open spec fn rejects(self, p: PluginState) -> Outcome {
        let hash = self.htlc.payment_hash@;
        if p.invoice_amts@.contains_key(hash) && p.invoice_amts@[hash] >= self.htlc.amount_msat {
            Outcome {
                phase: Phase::Done,
                invoice: self.invoice,
                counted: false,
                invoice_amts: p.invoice_amts@.insert(
                    hash,
                    (p.invoice_amts@[hash] - self.htlc.amount_msat) as u64,
                ),
                states: p.states@,
                invoices: p.invoices@,
                action: ActionView::Return { result: HookResult::Fail },
            }
        } else {
            self.aborts(p, HodlError::Fatal)
        }
    }

    /// The first step. An HTLC of a tracked invoice is taken up at once,
    /// with the cached state and invoice; for any other the stored state is
    /// asked for.
    pub open spec fn start_outcome(self, p: PluginState) -> Outcome {
        let hash = self.htlc.payment_hash@;
        if self.phase != Phase::Fresh {
            self.aborts(p, HodlError::Fatal)
        } else if p.states@.contains_key(hash) {
            if p.invoices@.contains_key(hash) {
                self.admits(p, p.states@[hash].state, p.invoices@[hash], p.states@, p.invoices@)
            } else {
                self.aborts(p, HodlError::Fatal)
            }
        } else {
            self.moves(p, Phase::ReadingState, ActionView::ReadState { key: state_key(hash) })
        }
    }

    /// The step after the stored state was read. `None` stands for a read
    /// that failed or found nothing: the HTLC is no hold-invoice's and is let
    /// through. Otherwise the state is parsed and the HTLC's expiry stored.
    pub open spec fn state_read_outcome(self, p: PluginState, entry: Option<StoredEntry>)
        -> Outcome {
        if self.phase != Phase::ReadingState {
            self.aborts(p, HodlError::Fatal)
        } else {
            match entry {
                None => self.answers(p, HookResult::Continue),
                Some(e) => match e.string {
                    None => self.aborts(p, HodlError::Parse),
                    Some(text) => match HodlState::of_name(ascii_folded(text@)) {
                        None => self.aborts(p, HodlError::Parse),
                        Some(state) => self.moves(
                            p,
                            Phase::WritingExpiry {
                                update: HodlUpdate {
                                    state,
                                    generation: match e.generation {
                                        Some(g) => g,
                                        None => 0,
                                    },
                                },
                            },
                            ActionView::Write {
                                write: DatastoreWriteView {
                                    key: expiry_key(self.htlc.payment_hash@),
                                    string: decimal(self.htlc.cltv_expiry as nat),
                                    mode: DatastoreMode::CreateOrReplace,
                                    generation: None,
                                },
                            },
                        ),
                    },
                },
            }
        }
    }

    /// The step after the expiry was stored, or was not.
    pub open spec fn expiry_written_outcome(self, p: PluginState, ok: bool) -> Outcome {
        match self.phase {
            Phase::WritingExpiry { update } => if ok {
                self.moves(
                    p,
                    Phase::ListingInvoices { update },
                    ActionView::ListInvoices { payment_hash: self.htlc.payment_hash@ },
                )
            } else {
                self.aborts(p, HodlError::Rpc)
            },
            _ => self.aborts(p, HodlError::Fatal),
        }
    }

    /// The step after the node's invoices of the payment hash were listed.
    /// `None` stands for a call that failed. With no invoice the HTLC is
    /// rejected; else the first one and the state are cached and the HTLC is
    /// taken up.
    pub open spec fn invoices_outcome(self, p: PluginState, list: Option<Seq<InvoiceSnapshot>>)
        -> Outcome {
        let hash = self.htlc.payment_hash@;
        match self.phase {
            Phase::ListingInvoices { update } => match list {
                None => self.aborts(p, HodlError::Rpc),
                Some(l) => if l.len() == 0 {
                    self.answers(p, HookResult::Fail)
                } else {
                    self.admits(
                        p,
                        update.state,
                        l[0],
                        p.states@.insert(hash, update),
                        p.invoices@.insert(hash, l[0]),
                    )
                },
            },
            _ => self.aborts(p, HodlError::Fatal),
        }
    }

    /// What one look at the held HTLC sees at time `now`.
    pub open spec fn look_at(self, p: PluginState, now: u64) -> Look {
        let hash = self.htlc.payment_hash@;
        Look {
            state: p.states@[hash].state,
            invoice: self.invoice->0,
            now,
            cltv_expiry: self.htlc.cltv_expiry,
            blockheight: p.blockheight,
            cltv_delta: p.config.cltv_delta.1,
            held_msat: p.held(hash) as u64,
            amount_msat: self.htlc.amount_msat,
        }
    }

    /// One look at the held HTLC. Without a cached state for its invoice
    /// the handling fails; else the verdict of the look is carried out.
    pub open spec fn tick_outcome(self, p: PluginState, now: u64) -> Outcome {
        let hash = self.htlc.payment_hash@;
        if self.phase != Phase::Holding || self.invoice is None {
            self.aborts(p, HodlError::Fatal)
        } else if !p.states@.contains_key(hash) {
            self.aborts(p, HodlError::Fatal)
        } else {
            match self.look_at(p, now).verdict() {
                Verdict::Swap { to, then } => self.moves(
                    p,
                    Phase::Swapping { then },
                    ActionView::Write {
                        write: DatastoreWriteView {
                            key: state_key(hash),
                            string: to.name(),
                            mode: DatastoreMode::MustReplace,
                            generation: Some(p.states@[hash].generation),
                        },
                    },
                ),
                Verdict::Reject => self.rejects(p),
                Verdict::Settle => self.answers(p, HookResult::Continue),
                Verdict::Wait => self.moves(
                    p,
                    Phase::Holding,
                    ActionView::Poll { seconds: POLL_SECONDS },
                ),
            }
        }
    }

    /// The step after the datastore accepted a state change, or refused
    /// it. After a refusal the HTLC is looked at again, a little later.
    pub open spec fn swapped_outcome(self, p: PluginState, ok: bool) -> Outcome {
        match self.phase {
            Phase::Swapping { then } => if !ok {
                self.moves(p, Phase::Holding, ActionView::Poll { seconds: RETRY_SECONDS })
            } else {
                match then {
                    AfterSwap::Reject => self.rejects(p),
                    AfterSwap::Hold => self.moves(
                        p,
                        Phase::Holding,
                        ActionView::Poll { seconds: POLL_SECONDS },
                    ),
                }
            },
            _ => self.aborts(p, HodlError::Fatal),
        }
    }

    /// Whether a step from `self` and `p` to `after` and `q`, handing out
    /// `action`, is the step that `o` describes.
    pub open spec fn steps_to(
        self,
        p: PluginState,
        after: Handler,
        q: PluginState,
        action: Action,
        o: Outcome,
    ) -> bool {
        &&& after.htlc == self.htlc
        &&& after.phase == o.phase
        &&& after.invoice == o.invoice
        &&& after.counted == o.counted
        &&& q.wf()
        &&& q.config == p.config
        &&& q.blockheight == p.blockheight
        &&& q.invoice_amts@ == o.invoice_amts
        &&& q.states@ == o.states
        &&& q.invoices@ == o.invoices
        &&& action@ == o.action
    }
}

impl Handler {
    /// A handler that has done nothing yet.
    pub fn new(htlc: Htlc) -> (h: Handler)
        ensures
            h.htlc == htlc,
            h.invoice is None,
            h.phase == Phase::Fresh,
            !h.counted,
    {
        Handler { htlc, invoice: None, phase: Phase::Fresh, counted: false }
    }

    fn abort(&mut self, error: HodlError) -> (action: Action)
        ensures
            final(self).htlc == old(self).htlc,
            final(self).invoice == old(self).invoice,
            final(self).counted == old(self).counted,
            final(self).phase == Phase::Done,
            action@ == (ActionView::Abort { error }),
    {
        self.phase = Phase::Done;
        Action::Abort { error }
    }

    fn answer(&mut self, result: HookResult) -> (action: Action)
        ensures
            final(self).htlc == old(self).htlc,
            final(self).invoice == old(self).invoice,
            final(self).counted == old(self).counted,
            final(self).phase == Phase::Done,
            action@ == (ActionView::Return { result }),
    {
        self.phase = Phase::Done;
        Action::Return { result }
    }

    fn take_up(&mut self, plugin: &mut PluginState, state: HodlState, invoice: InvoiceSnapshot) -> (action:
        Action)
        requires
            old(plugin).wf(),
        ensures
            old(self).steps_to(
                *old(plugin),
                *final(self),
                *final(plugin),
                action,
                old(self).admits(
                    *old(plugin),
                    state,
                    invoice,
                    old(plugin).states@,
                    old(plugin).invoices@,
                ),
            ),
    {
        self.invoice = Some(invoice);
        if state == HodlState::Canceled {
            return self.answer(HookResult::Fail);
        }
        if plugin.hold_amount(self.htlc.payment_hash.as_str(), self.htlc.amount_msat) {
            self.counted = true;
            self.phase = Phase::Holding;
            Action::Poll { seconds: 0 }
        } else {
            self.abort(HodlError::Fatal)
        }
    }

    fn reject(&mut self, plugin: &mut PluginState) -> (action: Action)
        requires
            old(plugin).wf(),
        ensures
            old(self).steps_to(
                *old(plugin),
                *final(self),
                *final(plugin),
                action,
                old(self).rejects(*old(plugin)),
            ),
    {
        if plugin.release_amount(self.htlc.payment_hash.as_str(), self.htlc.amount_msat) {
            self.counted = false;
            self.answer(HookResult::Fail)
        } else {
            self.abort(HodlError::Fatal)
        }
    }

    /// Takes the first step for the HTLC.
    pub fn start(&mut self, plugin: &mut PluginState) -> (action: Action)
        requires
            old(plugin).wf(),
        ensures
            old(self).steps_to(
                *old(plugin),
                *final(self),
                *final(plugin),
                action,
                old(self).start_outcome(*old(plugin)),
            ),
    {
        if self.phase != Phase::Fresh {
            return self.abort(HodlError::Fatal);
        }
        let known: Option<HodlUpdate> = match plugin.states.get(self.htlc.payment_hash.as_str()) {
            Some(update) => Some(*update),
            None => None,
        };
        match known {
            Some(update) => {
                let cached: Option<InvoiceSnapshot> = match plugin.invoices.get(
                    self.htlc.payment_hash.as_str(),
                ) {
                    Some(invoice) => Some(*invoice),
                    None => None,
                };
                match cached {
                    Some(invoice) => self.take_up(plugin, update.state, invoice),
                    None => self.abort(HodlError::Fatal),
                }
            },
            None => {
                self.phase = Phase::ReadingState;
                Action::ReadState { key: make_state_key(self.htlc.payment_hash.clone()) }
            },
        }
    }

    /// Goes on after the stored state was read; `None` where the read
    /// failed or found nothing.
    pub fn on_state_read(&mut self, plugin: &PluginState, entry: Option<StoredEntry>) -> (action:
        Action)
        requires
            plugin.wf(),
        ensures
            old(self).steps_to(
                *plugin,
                *final(self),
                *plugin,
                action,
                old(self).state_read_outcome(*plugin, entry),
            ),
    {
        if self.phase != Phase::ReadingState {
            return self.abort(HodlError::Fatal);
        }
        let e = match entry {
            Some(e) => e,
            None => {
                return self.answer(HookResult::Continue);
            },
        };
        let text = match e.string {
            Some(text) => text,
            None => {
                return self.abort(HodlError::Parse);
            },
        };
        let state = match HodlState::from_str(text.as_str()) {
            Ok(state) => state,
            Err(_) => {
                return self.abort(HodlError::Parse);
            },
        };
        let generation: u64 = match e.generation {
            Some(g) => g,
            None => 0,
        };
        self.phase = Phase::WritingExpiry { update: HodlUpdate { state, generation } };
        Action::Write {
            write: datastore_htlc_expiry(
                self.htlc.payment_hash.clone(),
                decimal_string(self.htlc.cltv_expiry as u64),
            ),
        }
    }

    /// Goes on after the expiry was stored (`ok`) or was not.
    pub fn on_expiry_written(&mut self, plugin: &PluginState, ok: bool) -> (action: Action)
        requires
            plugin.wf(),
        ensures
            old(self).steps_to(
                *plugin,
                *final(self),
                *plugin,
                action,
                old(self).expiry_written_outcome(*plugin, ok),
            ),
    {
        match self.phase {
            Phase::WritingExpiry { update } => {
                if ok {
                    self.phase = Phase::ListingInvoices { update };
                    Action::ListInvoices { payment_hash: self.htlc.payment_hash.clone() }
                } else {
                    self.abort(HodlError::Rpc)
                }
            },
            _ => self.abort(HodlError::Fatal),
        }
    }

    /// Goes on after the invoices were listed; `None` where the call
    /// failed.
    pub fn on_invoices(&mut self, plugin: &mut PluginState, list: Option<Vec<InvoiceSnapshot>>) -> (action:
        Action)
        requires
            old(plugin).wf(),
        ensures
            old(self).steps_to(
                *old(plugin),
                *final(self),
                *final(plugin),
                action,
                old(self).invoices_outcome(
                    *old(plugin),
                    match list {
                        Some(l) => Some(l@),
                        None => None,
                    },
                ),
            ),
    {
        match self.phase {
            Phase::ListingInvoices { update } => {
                let l = match list {
                    Some(l) => l,
                    None => {
                        return self.abort(HodlError::Rpc);
                    },
                };
                if l.len() == 0 {
                    return self.answer(HookResult::Fail);
                }
                let invoice = l[0];
                plugin.invoices.insert(self.htlc.payment_hash.clone(), invoice);
                plugin.states.insert(self.htlc.payment_hash.clone(), update);
                self.take_up(plugin, update.state, invoice)
            },
            _ => self.abort(HodlError::Fatal),
        }
    }

    /// Looks at the held HTLC at time `now`, in seconds since the epoch.
    pub fn on_tick(&mut self, plugin: &mut PluginState, now: u64) -> (action: Action)
        requires
            old(plugin).wf(),
        ensures
            old(self).steps_to(
                *old(plugin),
                *final(self),
                *final(plugin),
                action,
                old(self).tick_outcome(*old(plugin), now),
            ),
    {
        if self.phase != Phase::Holding {
            return self.abort(HodlError::Fatal);
        }
        let invoice = match self.invoice {
            Some(invoice) => invoice,
            None => {
                return self.abort(HodlError::Fatal);
            },
        };
        let update: HodlUpdate = match plugin.states.get(self.htlc.payment_hash.as_str()) {
            Some(update) => *update,
            None => {
                return self.abort(HodlError::Fatal);
            },
        };
        let held_msat: u64 = match plugin.invoice_amts.get(self.htlc.payment_hash.as_str()) {
            Some(amt) => *amt,
            None => 0,
        };
        let look = Look {
            state: update.state,
            invoice,
            now,
            cltv_expiry: self.htlc.cltv_expiry,
            blockheight: plugin.blockheight,
            cltv_delta: plugin.config.cltv_delta.1,
            held_msat,
            amount_msat: self.htlc.amount_msat,
        };
        assert(look == old(self).look_at(*old(plugin), now));
        match look.decide() {
            Verdict::Swap { to, then } => {
                self.phase = Phase::Swapping { then };
                Action::Write {
                    write: datastore_update_state(
                        self.htlc.payment_hash.clone(),
                        to.to_string(),
                        update.generation,
                    ),
                }
            },
            Verdict::Reject => self.reject(plugin),
            Verdict::Settle => self.answer(HookResult::Continue),
            Verdict::Wait => Action::Poll { seconds: POLL_SECONDS },
        }
    }

    /// Goes on after the datastore accepted a state change (`ok`) or
    /// refused it.
    pub fn on_swapped(&mut self, plugin: &mut PluginState, ok: bool) -> (action: Action)
        requires
            old(plugin).wf(),
        ensures
            old(self).steps_to(
                *old(plugin),
                *final(self),
                *final(plugin),
                action,
                old(self).swapped_outcome(*old(plugin), ok),
            ),
    {
        match self.phase {
            Phase::Swapping { then } => {
                if !ok {
                    self.phase = Phase::Holding;
                    return Action::Poll { seconds: RETRY_SECONDS };
                }
                match then {
                    AfterSwap::Reject => self.reject(plugin),
                    AfterSwap::Hold => {
                        self.phase = Phase::Holding;
                        Action::Poll { seconds: POLL_SECONDS }
                    },
                }
            },
            _ => self.abort(HodlError::Fatal),
        }
    }
}

/// Takes in a `block_added` notification: `height` is what was found
/// under `block` and `height`, `None` where either is missing. The height,
/// cut to 32 bits, becomes the latest block height; a notification without
/// one is refused and changes nothing.
pub fn block_added(plugin: &mut PluginState, height: Option<u64>) -> (r: Result<(), HodlError>)
    ensures
        final(plugin).config == old(plugin).config,
        final(plugin).invoice_amts == old(plugin).invoice_amts,
        final(plugin).states == old(plugin).states,
        final(plugin).invoices == old(plugin).invoices,
        match height {
            Some(h) => r == Ok::<(), HodlError>(()) && final(plugin).blockheight == height_of(h),
            None => r == Err::<(), HodlError>(HodlError::Parse) && final(plugin).blockheight == old(
                plugin,
            ).blockheight,
        },
{
    match height {
        Some(h) => {
            plugin.blockheight = cut_height(h);
            Ok(())
        },
        None => Err(HodlError::Parse),
    }
}

} // verus!
