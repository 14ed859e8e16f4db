use liquidity_core::redemption::{
    handle_redeem_fast_fill, redeem_fast_fill, required_record_size, FillDescription, FillType,
    FinalizeOutcome, ParseOutcome, PreparedFill, PreparedFillInfo, PreparedFillRecord,
    RedeemContext, RedeemError, RedeemFastFill, RedeemStep,
};
use liquidity_core::Address;

fn addr(tag: u8) -> Address {
    Address { bytes: [tag; 32] }
}

fn empty_record(balance: u64) -> PreparedFillRecord {
    PreparedFillRecord {
        data_len: 0,
        balance,
        fill: PreparedFill {
            info: PreparedFillInfo {
                vaa_hash: [0; 32],
                bump: 0,
                prepared_custody_token_bump: 0,
                redeemer: addr(0),
                prepared_by: addr(0),
                fill_type: FillType::Unset,
                source_chain: 0,
                order_sender: [0; 32],
            },
            redeemer_message: Vec::new(),
        },
    }
}

fn context() -> RedeemContext {
    RedeemContext {
        vaa_hash: [0xD; 32],
        prepared_fill_bump: 11,
        custody_token_bump: 12,
        payer: addr(3),
        header_size: 75,
        max_record_size: 10_000_000,
    }
}

fn parsed_fill(message_len: usize) -> ParseOutcome {
    ParseOutcome::Parsed(FillDescription {
        source_chain: 23,
        order_sender: [6; 32],
        redeemer: addr(4),
        redeemer_message: vec![0xAB; message_len],
    })
}

#[test]
fn required_size_is_header_plus_message() {
    assert_eq!(required_record_size(75, 120, 10_000_000), Some(195));
    assert_eq!(required_record_size(75, 0, 10_000_000), Some(75));
    assert_eq!(required_record_size(75, 121, 195), None);
    assert_eq!(required_record_size(75, 120, 195), Some(195));
    // The sum is checked against the cap even where it would overflow.
    assert_eq!(required_record_size(usize::MAX, usize::MAX, usize::MAX), None);
}

#[test]
fn redeem_scenario() {
    // Attestation with digest D carrying a 120-byte redeemer message under a
    // 75-byte header: the record, starting at zero bytes, is topped up to
    // the minimum balance for 195 bytes and resized to 195 before the write.
    let mut accounts = RedeemFastFill {
        prepared_fill: empty_record(0),
        payer_balance: 5_000_000,
    };
    assert_eq!(redeem_fast_fill(&accounts), RedeemStep::Proceed);
    let r = handle_redeem_fast_fill(
        &mut accounts,
        &context(),
        FinalizeOutcome::Done,
        parsed_fill(120),
        2_250_000,
    );
    assert_eq!(r, Ok(()));
    assert_eq!(accounts.prepared_fill.data_len, 195);
    assert_eq!(accounts.prepared_fill.balance, 2_250_000);
    assert_eq!(accounts.payer_balance, 5_000_000 - 2_250_000);
    let info = &accounts.prepared_fill.fill.info;
    assert_eq!(info.vaa_hash, [0xD; 32]);
    assert_eq!(info.bump, 11);
    assert_eq!(info.prepared_custody_token_bump, 12);
    assert_eq!(info.redeemer, addr(4));
    assert_eq!(info.prepared_by, addr(3));
    assert_eq!(info.fill_type, FillType::FastFill);
    assert_eq!(info.source_chain, 23);
    assert_eq!(info.order_sender, [6; 32]);
    assert_eq!(accounts.prepared_fill.fill.redeemer_message, vec![0xAB; 120]);
    // Re-invoking redemption for the same digest is a no-op.
    assert_eq!(redeem_fast_fill(&accounts), RedeemStep::AlreadyRedeemed);
}

#[test]
fn repeat_redemption_is_a_no_op() {
    let mut accounts = RedeemFastFill {
        prepared_fill: empty_record(0),
        payer_balance: 1_000,
    };
    assert_eq!(redeem_fast_fill(&accounts), RedeemStep::Proceed);
    handle_redeem_fast_fill(
        &mut accounts,
        &context(),
        FinalizeOutcome::Done,
        parsed_fill(3),
        100,
    )
    .unwrap();
    let after_first = accounts.clone();
    // The dispatch answers the no-op path without touching the record, so
    // the finalize collaborator is never invoked again and no further
    // transfer or write happens.
    assert_eq!(redeem_fast_fill(&accounts), RedeemStep::AlreadyRedeemed);
    assert_eq!(accounts, after_first);
}

#[test]
fn finalize_failure_leaves_no_trace() {
    let mut accounts = RedeemFastFill {
        prepared_fill: empty_record(17),
        payer_balance: 1_000,
    };
    let before = accounts.clone();
    let r = handle_redeem_fast_fill(
        &mut accounts,
        &context(),
        FinalizeOutcome::Failed,
        parsed_fill(3),
        100,
    );
    assert_eq!(r, Err(RedeemError::FinalizeFailed));
    assert_eq!(accounts, before);
}

#[test]
fn malformed_attestation_leaves_no_trace() {
    let mut accounts = RedeemFastFill {
        prepared_fill: empty_record(17),
        payer_balance: 1_000,
    };
    let before = accounts.clone();
    let r = handle_redeem_fast_fill(
        &mut accounts,
        &context(),
        FinalizeOutcome::Done,
        ParseOutcome::Malformed,
        100,
    );
    assert_eq!(r, Err(RedeemError::MalformedAttestation));
    assert_eq!(accounts, before);
}

#[test]
fn oversized_message_is_rejected() {
    let mut accounts = RedeemFastFill {
        prepared_fill: empty_record(0),
        payer_balance: 1_000_000,
    };
    let before = accounts.clone();
    let mut ctx = context();
    ctx.max_record_size = 195;
    let r = handle_redeem_fast_fill(
        &mut accounts,
        &ctx,
        FinalizeOutcome::Done,
        parsed_fill(121),
        100,
    );
    assert_eq!(r, Err(RedeemError::StorageLimitExceeded));
    assert_eq!(accounts, before);
}

#[test]
fn short_payer_is_rejected() {
    let mut accounts = RedeemFastFill {
        prepared_fill: empty_record(50),
        payer_balance: 144,
    };
    let before = accounts.clone();
    let r = handle_redeem_fast_fill(
        &mut accounts,
        &context(),
        FinalizeOutcome::Done,
        parsed_fill(120),
        195,
    );
    assert_eq!(r, Err(RedeemError::InsufficientFunds));
    assert_eq!(accounts, before);
}

#[test]
fn top_up_transfers_exactly_the_shortfall() {
    // The record already holds part of the required balance: only the
    // difference moves from the payer.
    let mut accounts = RedeemFastFill {
        prepared_fill: empty_record(50),
        payer_balance: 145,
    };
    let r = handle_redeem_fast_fill(
        &mut accounts,
        &context(),
        FinalizeOutcome::Done,
        parsed_fill(120),
        195,
    );
    assert_eq!(r, Ok(()));
    assert_eq!(accounts.prepared_fill.balance, 195);
    assert_eq!(accounts.payer_balance, 0);
}

#[test]
fn excess_balance_means_no_transfer() {
    // A record holding more than the minimum keeps its excess and the payer
    // pays nothing.
    let mut accounts = RedeemFastFill {
        prepared_fill: empty_record(500),
        payer_balance: 7,
    };
    let r = handle_redeem_fast_fill(
        &mut accounts,
        &context(),
        FinalizeOutcome::Done,
        parsed_fill(120),
        195,
    );
    assert_eq!(r, Ok(()));
    assert_eq!(accounts.prepared_fill.balance, 500);
    assert_eq!(accounts.payer_balance, 7);
    assert_eq!(accounts.prepared_fill.data_len, 195);
}

#[test]
fn record_size_matches_message() {
    let mut accounts = RedeemFastFill {
        prepared_fill: empty_record(0),
        payer_balance: 10_000,
    };
    let r = handle_redeem_fast_fill(
        &mut accounts,
        &context(),
        FinalizeOutcome::Done,
        parsed_fill(0),
        1_000,
    );
    assert_eq!(r, Ok(()));
    // Storage size is exactly header size plus message length, and the
    // balance held covers the minimum required for that size.
    assert_eq!(accounts.prepared_fill.data_len, 75);
    assert!(accounts.prepared_fill.balance >= 1_000);
    assert!(accounts.prepared_fill.fill.redeemer_message.is_empty());
}
