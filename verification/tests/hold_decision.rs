use hodlvoice::hooks::{
    block_added, cut_height, extract, parse_amount_msat, Action, AfterSwap, HookResult,
    HtlcFields, Look, Verdict,
};
use hodlvoice::error::HodlError;
use hodlvoice::state::HodlState;
use hodlvoice::{InvoiceSnapshot, PluginState};

fn look(state: HodlState) -> Look {
    Look {
        state,
        invoice: InvoiceSnapshot { amount_msat: 1000, expires_at: 2_000_000 },
        now: 1_000_000,
        cltv_expiry: 1_000_000,
        blockheight: 900_000,
        cltv_delta: 40,
        held_msat: 1000,
        amount_msat: 1000,
    }
}

fn fields() -> HtlcFields {
    HtlcFields {
        payment_hash: Some("abcd".to_string()),
        cltv_expiry: Some(1_000_000),
        id: Some(4),
        short_channel_id: Some("700000x1x0".to_string()),
        amount_msat: Some("1000msat".to_string()),
    }
}

#[test]
fn hook_words() {
    assert_eq!(HookResult::Continue.to_string(), "continue");
    assert_eq!(HookResult::Fail.to_string(), "fail");
}

#[test]
fn open_and_paid_becomes_accepted() {
    assert_eq!(
        look(HodlState::Open).decide(),
        Verdict::Swap { to: HodlState::Accepted, then: AfterSwap::Hold }
    );
}

#[test]
fn open_and_underpaid_waits() {
    let mut l = look(HodlState::Open);
    l.held_msat = 999;
    l.amount_msat = 999;
    assert_eq!(l.decide(), Verdict::Wait);
}

#[test]
fn accepted_and_paid_waits() {
    assert_eq!(look(HodlState::Accepted).decide(), Verdict::Wait);
}

#[test]
fn accepted_and_underpaid_reopens() {
    let mut l = look(HodlState::Accepted);
    l.held_msat = 600;
    l.amount_msat = 600;
    assert_eq!(l.decide(), Verdict::Swap { to: HodlState::Open, then: AfterSwap::Hold });
}

#[test]
fn settled_lets_through_and_canceled_rejects() {
    assert_eq!(look(HodlState::Settled).decide(), Verdict::Settle);
    assert_eq!(look(HodlState::Canceled).decide(), Verdict::Reject);
}

#[test]
fn invoice_expiry_margin_is_sixty_seconds() {
    let mut l = look(HodlState::Open);
    l.invoice.expires_at = l.now + 61;
    assert_eq!(l.decide(), Verdict::Swap { to: HodlState::Accepted, then: AfterSwap::Hold });
    l.invoice.expires_at = l.now + 60;
    assert_eq!(l.decide(), Verdict::Swap { to: HodlState::Canceled, then: AfterSwap::Reject });
    l.state = HodlState::Accepted;
    assert_eq!(l.decide(), Verdict::Swap { to: HodlState::Canceled, then: AfterSwap::Reject });
    l.state = HodlState::Canceled;
    assert_eq!(l.decide(), Verdict::Swap { to: HodlState::Canceled, then: AfterSwap::Reject });
    l.state = HodlState::Settled;
    assert_eq!(l.decide(), Verdict::Settle);
}

#[test]
fn invoice_expiry_near_the_end_of_time() {
    let mut l = look(HodlState::Open);
    l.now = u64::MAX - 10;
    l.invoice.expires_at = u64::MAX;
    assert_eq!(l.decide(), Verdict::Swap { to: HodlState::Canceled, then: AfterSwap::Reject });
}

#[test]
fn htlc_expiry_margin_is_delta_plus_six() {
    let mut l = look(HodlState::Accepted);
    l.held_msat = 1000;
    l.amount_msat = 400;
    l.cltv_expiry = 900_050;
    l.blockheight = 900_000;
    assert_eq!(l.decide(), Verdict::Wait);
    l.blockheight = 900_004;
    assert_eq!(l.decide(), Verdict::Swap { to: HodlState::Open, then: AfterSwap::Reject });
    l.blockheight = 900_003;
    assert_eq!(l.decide(), Verdict::Wait);
    l.blockheight = 900_010;
    assert_eq!(l.decide(), Verdict::Swap { to: HodlState::Open, then: AfterSwap::Reject });
}

#[test]
fn htlc_expiry_with_enough_left_rejects_without_a_swap() {
    let mut l = look(HodlState::Accepted);
    l.held_msat = 1400;
    l.amount_msat = 400;
    l.cltv_expiry = 900_046;
    assert_eq!(l.decide(), Verdict::Reject);
    l.state = HodlState::Open;
    l.held_msat = 400;
    assert_eq!(l.decide(), Verdict::Reject);
}

#[test]
fn htlc_expiry_spares_terminal_states() {
    let mut l = look(HodlState::Settled);
    l.cltv_expiry = 0;
    assert_eq!(l.decide(), Verdict::Settle);
    l.state = HodlState::Canceled;
    assert_eq!(l.decide(), Verdict::Reject);
}

#[test]
fn htlc_expiry_at_the_top_of_the_range() {
    let mut l = look(HodlState::Open);
    l.cltv_expiry = u32::MAX;
    l.blockheight = u32::MAX;
    l.cltv_delta = u16::MAX;
    l.held_msat = 0;
    l.amount_msat = 0;
    assert_eq!(l.decide(), Verdict::Reject);
}

#[test]
fn held_less_than_own_amount_counts_as_uncovered() {
    let mut l = look(HodlState::Accepted);
    l.cltv_expiry = 0;
    l.held_msat = 0;
    l.amount_msat = u64::MAX;
    l.invoice.amount_msat = u64::MAX;
    assert_eq!(l.decide(), Verdict::Swap { to: HodlState::Open, then: AfterSwap::Reject });
}

#[test]
fn every_swap_is_a_valid_transition() {
    let states = [HodlState::Open, HodlState::Settled, HodlState::Canceled, HodlState::Accepted];
    for state in states {
        for expires_at in [0u64, 1_000_060, 1_000_061] {
            for cltv_expiry in [0u32, 900_046, 900_047] {
                for held in [0u64, 999, 1000, 1400] {
                    let l = Look {
                        state,
                        invoice: InvoiceSnapshot { amount_msat: 1000, expires_at },
                        now: 1_000_000,
                        cltv_expiry,
                        blockheight: 900_000,
                        cltv_delta: 40,
                        held_msat: held,
                        amount_msat: 400,
                    };
                    if let Verdict::Swap { to, .. } = l.decide() {
                        assert!(state.is_valid_transition(&to));
                    }
                }
            }
        }
    }
}

#[test]
fn amounts_in_node_notation() {
    assert_eq!(parse_amount_msat("1000msat"), Some(1000));
    assert_eq!(parse_amount_msat("0msat"), Some(0));
    assert_eq!(parse_amount_msat("18446744073709551615msat"), Some(u64::MAX));
    assert_eq!(parse_amount_msat("18446744073709551616msat"), None);
    assert_eq!(parse_amount_msat("msat"), None);
    assert_eq!(parse_amount_msat("100"), None);
    assert_eq!(parse_amount_msat("1000"), None);
    assert_eq!(parse_amount_msat("12345"), Some(1));
    assert_eq!(parse_amount_msat("10 msat"), None);
}

#[test]
fn extract_complete_fields() {
    let htlc = match extract(Some(fields())) {
        Ok(h) => h,
        Err(a) => panic!("{:?}", a),
    };
    assert_eq!(htlc.payment_hash, "abcd");
    assert_eq!(htlc.cltv_expiry, 1_000_000);
    assert_eq!(htlc.id, 4);
    assert_eq!(htlc.short_channel_id, "700000x1x0");
    assert_eq!(htlc.amount_msat, 1000);
}

#[test]
fn extract_without_htlc_lets_through() {
    assert!(matches!(extract(None), Err(Action::Return { result: HookResult::Continue })));
}

#[test]
fn extract_with_a_missing_field_rejects() {
    let mut f = fields();
    f.payment_hash = None;
    assert!(matches!(extract(Some(f)), Err(Action::Return { result: HookResult::Fail })));
    let mut f = fields();
    f.cltv_expiry = None;
    assert!(matches!(extract(Some(f)), Err(Action::Return { result: HookResult::Fail })));
    let mut f = fields();
    f.id = None;
    assert!(matches!(extract(Some(f)), Err(Action::Return { result: HookResult::Fail })));
    let mut f = fields();
    f.short_channel_id = None;
    assert!(matches!(extract(Some(f)), Err(Action::Return { result: HookResult::Fail })));
    let mut f = fields();
    f.amount_msat = None;
    assert!(matches!(extract(Some(f)), Err(Action::Return { result: HookResult::Fail })));
}

#[test]
fn extract_with_a_bad_amount_fails() {
    let mut f = fields();
    f.amount_msat = Some("lots".to_string());
    assert!(matches!(extract(Some(f)), Err(Action::Abort { error: HodlError::Parse })));
}

#[test]
fn extract_cuts_the_expiry_to_32_bits() {
    let mut f = fields();
    f.cltv_expiry = Some(0x1_0000_0005);
    match extract(Some(f)) {
        Ok(h) => assert_eq!(h.cltv_expiry, 5),
        Err(a) => panic!("{:?}", a),
    }
}

#[test]
fn heights_are_cut_to_32_bits() {
    assert_eq!(cut_height(0), 0);
    assert_eq!(cut_height(900_000), 900_000);
    assert_eq!(cut_height(0xffff_ffff), u32::MAX);
    assert_eq!(cut_height(0x1_0000_0000), 0);
    assert_eq!(cut_height(u64::MAX), u32::MAX);
}

#[test]
fn block_added_sets_the_height() {
    let mut plugin = PluginState::new();
    assert_eq!(plugin.blockheight, 0);
    assert_eq!(block_added(&mut plugin, Some(900_000)), Ok(()));
    assert_eq!(plugin.blockheight, 900_000);
    assert_eq!(block_added(&mut plugin, None), Err(HodlError::Parse));
    assert_eq!(plugin.blockheight, 900_000);
    assert_eq!(block_added(&mut plugin, Some(0x2_0000_0007)), Ok(()));
    assert_eq!(plugin.blockheight, 7);
}
