//! Exactly-once redemption of cross-chain fast-fill attestations.
//!
//! A signed attestation proves that a deposit occurred on a source chain; a
//! prepared-fill record, keyed by the attestation digest, authorizes release
//! of funds on the destination chain. Redemption reconciles the two: it
//! inspects the existing record, short-circuits if the digest was already
//! processed, and otherwise finalizes the fill globally, grows the record to
//! hold the variable-length redeemer message, tops its balance up from the
//! payer by exactly the storage shortfall, and writes the record in one
//! atomic step.
//!
//! The external collaborators — the matching-engine finalize call, the
//! attestation parser and the storage balance provider — run at the caller
//! layer inside the same serializable transaction; their outcomes arrive
//! here as plain values, and every decision taken on them is verified. The
//! caller protocol is: call [`redeem_fast_fill`]; only when it answers
//! [`RedeemStep::Proceed`] invoke the finalize collaborator and the parser,
//! read the balance provider, and hand all three outcomes to
//! [`handle_redeem_fast_fill`], which either commits the whole redemption or
//! leaves every record untouched.

use vstd::prelude::*;

use crate::Address;

verus! {

/// Dispatch key of a prepared-fill record. `Unset` is the only valid state
/// before processing; once a record leaves `Unset` it never changes again.
#[derive(Clone, Copy, PartialEq, Eq, Debug)]
pub enum FillType {
    /// The record has not been populated yet.
    Unset,
    /// The record holds a redeemed fast fill.
    FastFill,
}

/// Fixed-size header of a prepared-fill record.
#[derive(Clone, Copy, PartialEq, Eq, Debug)]
pub struct PreparedFillInfo {
    /// Digest of the source attestation: the natural key and idempotency
    /// token of the record.
    pub vaa_hash: [u8; 32],
    /// Address-derivation material of the record itself.
    pub bump: u8,
    /// Address-derivation material of the record's custody token account.
    pub prepared_custody_token_bump: u8,
    /// Destination-chain recipient extracted from the fill payload.
    pub redeemer: Address,
    /// Payer that initiated the redemption and fronted the storage cost.
    pub prepared_by: Address,
    /// Dispatch key; see [`FillType`].
    pub fill_type: FillType,
    /// Chain the original order came from.
    pub source_chain: u16,
    /// Sender of the original order on the source chain.
    pub order_sender: [u8; 32],
}

/// Logical content of a prepared-fill record: the fixed header followed by
/// the variable-length redeemer message, copied verbatim from the
/// attestation.
#[derive(Clone, PartialEq, Eq, Debug)]
pub struct PreparedFill {
    pub info: PreparedFillInfo,
    pub redeemer_message: Vec<u8>,
}

/// A prepared-fill record together with its storage accounting: the
/// allocated size of its backing storage and the balance it holds to pay
/// for that storage. A record may be pre-allocated empty (zero size, any
/// balance, `fill_type` still `Unset`) before redemption populates it.
#[derive(Clone, PartialEq, Eq, Debug)]
pub struct PreparedFillRecord {
    /// Allocated byte size of the record's backing storage.
    pub data_len: usize,
    /// Storage-fee balance currently held by the record.
    pub balance: u64,
    /// The record's logical content.
    pub fill: PreparedFill,
}

/// The mutable state a redemption call touches: the prepared-fill record
/// keyed by the attestation digest, and the payer's balance, from which the
/// storage top-up is taken.
#[derive(Clone, PartialEq, Eq, Debug)]
pub struct RedeemFastFill {
    pub prepared_fill: PreparedFillRecord,
    pub payer_balance: u64,
}

/// Per-call identity and platform material for a redemption: what the
/// record write needs beyond the parsed fill itself.
#[derive(Clone, Copy, PartialEq, Eq, Debug)]
pub struct RedeemContext {
    /// Digest of the attestation being redeemed.
    pub vaa_hash: [u8; 32],
    /// Address-derivation material of the prepared-fill record.
    pub prepared_fill_bump: u8,
    /// Address-derivation material of the record's custody token account.
    pub custody_token_bump: u8,
    /// Identity of the payer initiating the redemption.
    pub payer: Address,
    /// Fixed header size of the record schema, in bytes.
    pub header_size: usize,
    /// Platform maximum for a record's storage size, in bytes.
    pub max_record_size: usize,
}

/// Typed fill description decoded from an attestation payload by the
/// external message parser.
#[derive(Clone, PartialEq, Eq, Debug)]
pub struct FillDescription {
    /// Chain the original order came from.
    pub source_chain: u16,
    /// Sender of the original order on the source chain.
    pub order_sender: [u8; 32],
    /// Destination-chain recipient of the funds.
    pub redeemer: Address,
    /// Application payload carried by the fill.
    pub redeemer_message: Vec<u8>,
}

/// Outcome of the matching-engine finalize collaborator, which records the
/// fill at the global, cross-component level.
#[derive(Clone, Copy, PartialEq, Eq, Debug)]
pub enum FinalizeOutcome {
    /// The fill was finalized globally.
    Done,
    /// The collaborator rejected the fill; the redemption must abort with
    /// no local state written.
    Failed,
}

/// Outcome of the external message parser on the attestation payload.
#[derive(Clone, PartialEq, Eq, Debug)]
pub enum ParseOutcome {
    /// The payload decoded into a typed fill description.
    Parsed(FillDescription),
    /// The payload is malformed; fatal for this attestation.
    Malformed,
}

/// Decision of the redemption dispatch for a record.
#[derive(Clone, Copy, PartialEq, Eq, Debug)]
pub enum RedeemStep {
    /// The digest was already processed: the call is a no-op. The finalize
    /// collaborator must not be invoked and nothing may be written.
    AlreadyRedeemed,
    /// First redemption of this digest: invoke the collaborators and hand
    /// their outcomes to [`handle_redeem_fast_fill`].
    Proceed,
}

/// Failure of a first-time redemption. Every failure aborts the whole
/// operation with no partial mutation; an already-processed digest is not a
/// failure but the defined no-op outcome of the dispatch.
#[derive(Clone, Copy, PartialEq, Eq, Debug)]
pub enum RedeemError {
    /// The finalize collaborator rejected the fill.
    FinalizeFailed,
    /// The attestation payload could not be parsed into a fill description.
    MalformedAttestation,
    /// The required record size exceeds the platform maximum.
    StorageLimitExceeded,
    /// The payer cannot cover the balance top-up.
    InsufficientFunds,
}

/// What the dispatch decides for a record: proceed exactly when the record
/// has not been processed yet.
pub open spec fn redeem_step_spec(record: PreparedFillRecord) -> RedeemStep {
    if record.fill.info.fill_type is Unset {
        RedeemStep::Proceed
    } else {
        RedeemStep::AlreadyRedeemed
    }
}

/// The balance top-up a record needs to reach `required_min_balance`: a
/// shortfall, never a fixed transfer, so a record already holding enough
/// pays nothing.
pub open spec fn shortfall(required_min_balance: u64, balance: u64) -> int {
    if required_min_balance > balance {
        required_min_balance - balance
    } else {
        0
    }
}

/// Full effect of one successful first-time redemption: record `rec0` and
/// payer balance `payer0` become `rec1` and `payer1`, for the parsed fill
/// `fill` and the balance provider's reading `required_min_balance` for the
/// record's new size.
pub open spec fn redeemed(
    rec0: PreparedFillRecord,
    payer0: u64,
    rec1: PreparedFillRecord,
    payer1: u64,
    ctx: RedeemContext,
    fill: FillDescription,
    required_min_balance: u64,
) -> bool {
    &&& rec1.data_len == ctx.header_size + fill.redeemer_message@.len()
    &&& rec1.balance == rec0.balance + shortfall(required_min_balance, rec0.balance)
    &&& rec1.balance >= required_min_balance
    &&& payer1 == payer0 - shortfall(required_min_balance, rec0.balance)
    &&& payer1 + rec1.balance == payer0 + rec0.balance
    &&& rec1.fill.info == (PreparedFillInfo {
        vaa_hash: ctx.vaa_hash,
        bump: ctx.prepared_fill_bump,
        prepared_custody_token_bump: ctx.custody_token_bump,
        redeemer: fill.redeemer,
        prepared_by: ctx.payer,
        fill_type: FillType::FastFill,
        source_chain: fill.source_chain,
        order_sender: fill.order_sender,
    })
    &&& rec1.fill.redeemer_message@ == fill.redeemer_message@
}

/// Storage size a prepared-fill record needs for a message of
/// `message_len` bytes under a schema with the given fixed header size:
/// exactly `header_size + message_len`, or `None` where that exceeds the
/// platform maximum.
pub fn required_record_size(header_size: usize, message_len: usize, max_record_size: usize) -> (r:
    Option<usize>)
    ensures
        match r {
            Some(n) => {
                &&& n == header_size + message_len
                &&& n <= max_record_size
            },
            None => header_size + message_len > max_record_size,
        },
{
    if message_len <= max_record_size && header_size <= max_record_size - message_len {
        Some(header_size + message_len)
    } else {
        None
    }
}

/// Dispatch of a redemption call: decide, from the existing record state
/// alone, whether this digest was already processed.
///
/// The record is not mutated — the no-op path writes nothing, transfers
/// nothing and invokes no collaborator; only a [`RedeemStep::Proceed`]
/// answer licenses the caller to invoke the finalize collaborator.
pub fn redeem_fast_fill(accounts: &RedeemFastFill) -> (step: RedeemStep)
    ensures
        step == redeem_step_spec(accounts.prepared_fill),
{
    match accounts.prepared_fill.fill.info.fill_type {
        FillType::Unset => RedeemStep::Proceed,
        FillType::FastFill => RedeemStep::AlreadyRedeemed,
    }
}

/// First-time redemption of an attestation, given the collaborators'
/// outcomes: the finalize result, the parser's result, and the balance
/// provider's reading `required_min_balance` for the record's new size.
///
/// Either the whole redemption commits — the record is grown to exactly
/// header size plus message length, its balance topped up from the payer by
/// exactly the shortfall, and the full prepared fill written in one step —
/// or an error is returned and neither the record nor the payer balance
/// changes. In particular a finalize failure leaves no trace locally.
pub fn handle_redeem_fast_fill(
    accounts: &mut RedeemFastFill,
    ctx: &RedeemContext,
    finalize: FinalizeOutcome,
    parsed: ParseOutcome,
    required_min_balance: u64,
) -> (r: Result<(), RedeemError>)
    requires
        old(accounts).prepared_fill.fill.info.fill_type is Unset,
    ensures
        match r {
            Ok(_) => {
                &&& finalize is Done
                &&& parsed matches ParseOutcome::Parsed(fill) && redeemed(
                    old(accounts).prepared_fill,
                    old(accounts).payer_balance,
                    final(accounts).prepared_fill,
                    final(accounts).payer_balance,
                    *ctx,
                    fill,
                    required_min_balance,
                )
            },
            Err(e) => {
                &&& *final(accounts) == *old(accounts)
                &&& match e {
                    RedeemError::FinalizeFailed => finalize is Failed,
                    RedeemError::MalformedAttestation => {
                        &&& finalize is Done
                        &&& parsed is Malformed
                    },
                    RedeemError::StorageLimitExceeded => {
                        &&& finalize is Done
                        &&& parsed matches ParseOutcome::Parsed(fill) && ctx.header_size
                            + fill.redeemer_message@.len() > ctx.max_record_size
                    },
                    RedeemError::InsufficientFunds => {
                        &&& finalize is Done
                        &&& parsed matches ParseOutcome::Parsed(fill) && ctx.header_size
                            + fill.redeemer_message@.len() <= ctx.max_record_size
                        &&& shortfall(required_min_balance, old(accounts).prepared_fill.balance)
                            > old(accounts).payer_balance
                    },
                }
            },
        },
{
    match finalize {
        FinalizeOutcome::Failed => {
            return Err(RedeemError::FinalizeFailed);
        },
        FinalizeOutcome::Done => {},
    }
    let fill = match parsed {
        ParseOutcome::Malformed => {
            return Err(RedeemError::MalformedAttestation);
        },
        ParseOutcome::Parsed(fill) => fill,
    };
    let FillDescription { source_chain, order_sender, redeemer, redeemer_message } = fill;

    let data_len: usize = match required_record_size(
        ctx.header_size,
        redeemer_message.len(),
        ctx.max_record_size,
    ) {
        Some(n) => n,
        None => {
            return Err(RedeemError::StorageLimitExceeded);
        },
    };

    // Top up the record's balance from the payer by exactly the shortfall
    // for the new size — the record may already hold excess from prior
    // allocation, which stays where it is.
    let record_balance: u64 = accounts.prepared_fill.balance;
    let top_up: u64 = if required_min_balance > record_balance {
        required_min_balance - record_balance
    } else {
        0
    };
    if top_up > accounts.payer_balance {
        return Err(RedeemError::InsufficientFunds);
    }
    accounts.payer_balance = accounts.payer_balance - top_up;
    accounts.prepared_fill.balance = record_balance + top_up;

    // Grow the record's storage to fit the header and the message.
    accounts.prepared_fill.data_len = data_len;

    // Write the full prepared fill as a single atomic assignment.
    accounts.prepared_fill.fill = PreparedFill {
        info: PreparedFillInfo {
            vaa_hash: ctx.vaa_hash,
            bump: ctx.prepared_fill_bump,
            prepared_custody_token_bump: ctx.custody_token_bump,
            redeemer,
            prepared_by: ctx.payer,
            fill_type: FillType::FastFill,
            source_chain,
            order_sender,
        },
        redeemer_message,
    };
    Ok(())
}

/// Redemption idempotency: after a successful redemption the record's
/// dispatch key is `FastFill`, so any repeat call for the same digest is
/// answered [`RedeemStep::AlreadyRedeemed`] by [`redeem_fast_fill`] — the
/// finalize collaborator is never invoked a second time, no further balance
/// moves, and the record is never rewritten.
pub proof fn lemma_redemption_idempotent(
    rec0: PreparedFillRecord,
    payer0: u64,
    rec1: PreparedFillRecord,
    payer1: u64,
    ctx: RedeemContext,
    fill: FillDescription,
    required_min_balance: u64,
)
    requires
        redeemed(rec0, payer0, rec1, payer1, ctx, fill, required_min_balance),
    ensures
        redeem_step_spec(rec1) == RedeemStep::AlreadyRedeemed,
{
    assert(rec1.fill.info.fill_type == FillType::FastFill);
}

} // verus!
