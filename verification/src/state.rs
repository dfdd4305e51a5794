//! The four-valued invoice state, its string and integer forms and the
//! transition relation.

use vstd::prelude::*;
use crate::error::HodlError;
use crate::text::{
    ascii_folded, chars_of, decimal, fold_ascii, push_decimal, str_is, string_from_chars,
};

verus! {

/// State of a hold-invoice.
#[derive(Debug, Clone, Copy, PartialEq, Eq, Structural)]
pub enum HodlState {
    Open,
    Settled,
    Canceled,
    Accepted,
}

impl HodlState {
    /// Canonical name of the state.
    pub open spec fn name(self) -> Seq<char> {
        match self {
            HodlState::Open => "open"@,
            HodlState::Settled => "settled"@,
            HodlState::Canceled => "canceled"@,
            HodlState::Accepted => "accepted"@,
        }
    }

    /// Stable integer code of the state.
    pub open spec fn code(self) -> int {
        match self {
            HodlState::Open => 0,
            HodlState::Settled => 1,
            HodlState::Canceled => 2,
            HodlState::Accepted => 3,
        }
    }

    /// The state whose canonical name is `s`, if there is one.
    pub open spec fn of_name(s: Seq<char>) -> Option<HodlState> {
        if s == "open"@ {
            Some(HodlState::Open)
        } else if s == "settled"@ {
            Some(HodlState::Settled)
        } else if s == "canceled"@ {
            Some(HodlState::Canceled)
        } else if s == "accepted"@ {
            Some(HodlState::Accepted)
        } else {
            None
        }
    }

    /// The transition relation: `Open` may stay, be canceled or accepted;
    /// `Accepted` may go anywhere; `Settled` and `Canceled` are terminal.
    pub open spec fn can_become(self, next: HodlState) -> bool {
        match self {
            HodlState::Open => next != HodlState::Settled,
            HodlState::Settled => next == HodlState::Settled,
            HodlState::Canceled => next == HodlState::Canceled,
            HodlState::Accepted => true,
        }
    }

    /// Whether no transition leaves the state.
    pub open spec fn is_terminal(self) -> bool {
        self == HodlState::Settled || self == HodlState::Canceled
    }

    /// The canonical name of the state: its variant in lower case.
    pub fn to_string(&self) -> (s: String)
        ensures
            s@ == self.name(),
    {
        match self {
            HodlState::Open => "open".to_owned(),
            HodlState::Settled => "settled".to_owned(),
            HodlState::Canceled => "canceled".to_owned(),
            HodlState::Accepted => "accepted".to_owned(),
        }
    }

    /// Reads a state from its canonical, lowercase name.
    pub fn from_canonical(s: &str) -> (r: Result<HodlState, HodlError>)
        ensures
            r == match HodlState::of_name(s@) {
                Some(state) => Ok::<HodlState, HodlError>(state),
                None => Err::<HodlState, HodlError>(HodlError::Parse),
            },
    {
        let chars = chars_of(s);
        HodlState::from_chars(&chars)
    }

    /// Reads a state from the characters of its canonical name.
    pub fn from_chars(chars: &Vec<char>) -> (r: Result<HodlState, HodlError>)
        ensures
            r == match HodlState::of_name(chars@) {
                Some(state) => Ok::<HodlState, HodlError>(state),
                None => Err::<HodlState, HodlError>(HodlError::Parse),
            },
    {
        if str_is(chars, "open") {
            Ok(HodlState::Open)
        } else if str_is(chars, "settled") {
            Ok(HodlState::Settled)
        } else if str_is(chars, "canceled") {
            Ok(HodlState::Canceled)
        } else if str_is(chars, "accepted") {
            Ok(HodlState::Accepted)
        } else {
            Err(HodlError::Parse)
        }
    }

    /// Reads a state from its name, whatever the case of its letters: the
    /// name is compared after its ASCII capitals are made small.
    pub fn from_str(s: &str) -> (r: Result<HodlState, HodlError>)
        ensures
            r == match HodlState::of_name(ascii_folded(s@)) {
                Some(state) => Ok::<HodlState, HodlError>(state),
                None => Err::<HodlState, HodlError>(HodlError::Parse),
            },
    {
        let folded = fold_ascii(s);
        HodlState::from_chars(&folded)
    }

    /// The integer code of the state, as it goes over the wire.
    pub fn as_i32(&self) -> (n: i32)
        ensures
            n == self.code(),
    {
        match self {
            HodlState::Open => 0,
            HodlState::Settled => 1,
            HodlState::Canceled => 2,
            HodlState::Accepted => 3,
        }
    }

    /// Whether the state may be followed by `newstate`.
    pub fn is_valid_transition(&self, newstate: &HodlState) -> (ok: bool)
        ensures
            ok == self.can_become(*newstate),
    {
        match self {
            HodlState::Open => match newstate {
                HodlState::Settled => false,
                _ => true,
            },
            HodlState::Settled => match newstate {
                HodlState::Settled => true,
                _ => false,
            },
            HodlState::Canceled => match newstate {
                HodlState::Canceled => true,
                _ => false,
            },
            HodlState::Accepted => true,
        }
    }
}


/// A short channel id in the usual notation: block height, transaction
/// index and output index, in decimal, with an `x` between them. The height
/// is the id without its low 40 bits, the transaction index the next 24 bits
/// and the output index the low 16 bits.
pub open spec fn scid_text(scid: u64) -> Seq<char> {
    decimal((scid >> 40) as nat) + seq!['x'] + decimal(((scid >> 16) & 0xFFFFFF) as nat) + seq![
        'x',
    ] + decimal((scid & 0xFFFF) as nat)
}

/// Writes a short channel id in the usual notation.
pub fn short_channel_id_to_string(scid: u64) -> (s: String)
    ensures
        s@ == scid_text(scid),
{
    let block_height = scid >> 40;
    let tx_index = (scid >> 16) & 0xFFFFFF;
    let output_index = scid & 0xFFFF;
    let mut out: Vec<char> = Vec::new();
    push_decimal(block_height, &mut out);
    out.push('x');
    push_decimal(tx_index, &mut out);
    out.push('x');
    push_decimal(output_index, &mut out);
    assert(out@ =~= scid_text(scid));
    string_from_chars(&out)
}

/// Writing a state and reading it back gives the same state, through the
/// canonical reader and through the case-insensitive one.
pub proof fn lemma_name_round_trip(state: HodlState)
    ensures
        HodlState::of_name(state.name()) == Some(state),
        HodlState::of_name(ascii_folded(state.name())) == Some(state),
{
    reveal_strlit("open");
    reveal_strlit("settled");
    reveal_strlit("canceled");
    reveal_strlit("accepted");
    assert("open"@.len() == 4 && "settled"@.len() == 7);
    assert("canceled"@[0] == 'c' && "accepted"@[0] == 'a');
    assert(ascii_folded("open"@) =~= "open"@);
    assert(ascii_folded("settled"@) =~= "settled"@);
    assert(ascii_folded("canceled"@) =~= "canceled"@);
    assert(ascii_folded("accepted"@) =~= "accepted"@);
}

/// Two states with the same integer code are the same state.
pub proof fn lemma_code_injective(a: HodlState, b: HodlState)
    requires
        a.code() == b.code(),
    ensures
        a == b,
{
}

/// The integer codes are 0 to 3.
pub proof fn lemma_code_range(state: HodlState)
    ensures
        0 <= state.code() <= 3,
{
}

/// A terminal state has no transition but to itself, and every state may
/// stay as it is.
pub proof fn lemma_transitions(from: HodlState, to: HodlState)
    ensures
        from.can_become(from),
        from.is_terminal() && from.can_become(to) ==> to == from,
        from.can_become(HodlState::Settled) ==> from == HodlState::Accepted || from
            == HodlState::Settled,
{
}

} // verus!
