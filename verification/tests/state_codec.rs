use hodlvoice::error::HodlError;
use hodlvoice::state::HodlState::{Accepted, Canceled, Open, Settled};
use hodlvoice::state::{short_channel_id_to_string, HodlState};

const ALL: [HodlState; 4] =
    [HodlState::Open, HodlState::Settled, HodlState::Canceled, HodlState::Accepted];

#[test]
fn names_are_lowercase() {
    assert_eq!(HodlState::Open.to_string(), "open");
    assert_eq!(HodlState::Settled.to_string(), "settled");
    assert_eq!(HodlState::Canceled.to_string(), "canceled");
    assert_eq!(HodlState::Accepted.to_string(), "accepted");
}

#[test]
fn codes_are_stable() {
    assert_eq!(HodlState::Open.as_i32(), 0);
    assert_eq!(HodlState::Settled.as_i32(), 1);
    assert_eq!(HodlState::Canceled.as_i32(), 2);
    assert_eq!(HodlState::Accepted.as_i32(), 3);
}

#[test]
fn codes_are_distinct() {
    for a in ALL {
        for b in ALL {
            assert_eq!(a.as_i32() == b.as_i32(), a == b);
        }
    }
}

#[test]
fn string_round_trip() {
    for s in ALL {
        assert_eq!(HodlState::from_str(&s.to_string()), Ok(s));
        assert_eq!(HodlState::from_canonical(&s.to_string()), Ok(s));
    }
}

#[test]
fn parsing_ignores_case() {
    assert_eq!(HodlState::from_str("OPEN"), Ok(HodlState::Open));
    assert_eq!(HodlState::from_str("Settled"), Ok(HodlState::Settled));
    assert_eq!(HodlState::from_str("cAnCeLeD"), Ok(HodlState::Canceled));
    assert_eq!(HodlState::from_str("ACCEPTED"), Ok(HodlState::Accepted));
}

#[test]
fn canonical_parsing_minds_case() {
    assert_eq!(HodlState::from_canonical("OPEN"), Err(HodlError::Parse));
    assert_eq!(HodlState::from_canonical("open"), Ok(HodlState::Open));
}

#[test]
fn unknown_names_fail() {
    assert_eq!(HodlState::from_str(""), Err(HodlError::Parse));
    assert_eq!(HodlState::from_str("opened"), Err(HodlError::Parse));
    assert_eq!(HodlState::from_str(" open"), Err(HodlError::Parse));
    assert_eq!(HodlState::from_str("cancelled"), Err(HodlError::Parse));
    assert_eq!(HodlState::from_str("accept\u{00e9}d"), Err(HodlError::Parse));
}

#[test]
fn transition_table() {
    let valid = [
        (Open, Open),
        (Open, Canceled),
        (Open, Accepted),
        (Accepted, Open),
        (Accepted, Accepted),
        (Accepted, Canceled),
        (Accepted, Settled),
        (Settled, Settled),
        (Canceled, Canceled),
    ];
    for from in ALL {
        for to in ALL {
            assert_eq!(
                from.is_valid_transition(&to),
                valid.contains(&(from, to)),
                "{:?} -> {:?}",
                from,
                to
            );
        }
    }
}

#[test]
fn short_channel_id_parts() {
    assert_eq!(short_channel_id_to_string(0), "0x0x0");
    let scid: u64 = (700_000u64 << 40) | (1_234u64 << 16) | 5;
    assert_eq!(short_channel_id_to_string(scid), "700000x1234x5");
    assert_eq!(short_channel_id_to_string(u64::MAX), "16777215x16777215x65535");
}
