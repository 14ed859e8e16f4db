//! Time-delayed governance proposals.
//!
//! An authorized party proposes a change to protocol parameters; the change
//! only becomes eligible for enactment after a mandatory waiting period of
//! one epoch. Proposal identifiers are drawn from a monotonic counter held
//! by the singleton [`Custodian`] record, so they are unique across the
//! deployment's lifetime.

use vstd::prelude::*;

use crate::Address;

verus! {

/// Singleton per-deployment record: the proposal-id counter and the
/// protocol owner identity.
#[derive(Clone, Copy, PartialEq, Eq, Debug)]
pub struct Custodian {
    /// Monotonically increasing counter; strictly increases by exactly one
    /// per created proposal, never reused.
    pub next_proposal_id: u64,
    /// Identity authorized to enact proposals.
    pub owner: Address,
}

/// The closed set of governance actions; the payload is opaque to this core
/// beyond its tag. New kinds of action extend this union.
#[derive(Clone, Copy, PartialEq, Eq, Debug)]
pub enum ProposalAction {
    /// Replace the auction parameter set by the one registered under this id.
    UpdateAuctionParameters { parameters_id: u32 },
}

/// One record per governance action, retained indefinitely as an audit
/// record.
#[derive(Clone, Copy, PartialEq, Eq, Debug)]
pub struct Proposal {
    /// Unique id, assigned from `Custodian::next_proposal_id` at creation.
    pub id: u64,
    /// Address-derivation material for the proposal's storage slot.
    pub bump: u8,
    /// The proposed parameter change.
    pub action: ProposalAction,
    /// Identity that submitted the proposal (may differ from `owner`).
    pub by: Address,
    /// Snapshot of `Custodian::owner` at creation, used to authorize
    /// enactment.
    pub owner: Address,
    /// Slot at which the proposal was created.
    pub slot_proposed_at: u64,
    /// First slot at which the proposal may be enacted; always
    /// `slot_proposed_at + slots_per_epoch` as read at creation.
    pub slot_enact_by: u64,
    /// Set exactly once, when enacted; `None` until then.
    pub slot_enacted_at: Option<u64>,
}

/// Failure of proposal creation.
#[derive(Clone, Copy, PartialEq, Eq, Debug)]
pub enum ProposeError {
    /// The time oracle could not be read; nothing was written.
    TimeUnavailable,
}

/// Failure of proposal enactment.
#[derive(Clone, Copy, PartialEq, Eq, Debug)]
pub enum EnactError {
    /// The current slot is still inside the delay window.
    DelayNotElapsed,
    /// The proposal was already enacted once; it cannot be enacted again.
    AlreadyEnacted,
}

/// Full effect of one successful `propose` call: the proposal `p` created
/// from custodian state `c0` leaves custodian state `c1`.
pub open spec fn proposal_created(
    c0: Custodian,
    c1: Custodian,
    p: Proposal,
    by: Address,
    bump: u8,
    action: ProposalAction,
    now: u64,
    slots_per_epoch: u64,
) -> bool {
    &&& p.id == c0.next_proposal_id
    &&& p.bump == bump
    &&& p.action == action
    &&& p.by == by
    &&& p.owner == c0.owner
    &&& p.slot_proposed_at == now
    &&& p.slot_enact_by == now + slots_per_epoch
    &&& p.slot_enacted_at is None
    &&& c1.next_proposal_id == c0.next_proposal_id + 1
    &&& c1.owner == c0.owner
}

/// Create a time-delayed governance proposal.
///
/// Authorization of `by` is enforced by the caller layer; the slot reading
/// comes from the time oracle (`None` when the oracle is unreadable) and
/// `slots_per_epoch` is the epoch length the oracle reports. On success the
/// new proposal takes the current counter value as its id and the custodian
/// counter advances by exactly one; on failure nothing changes.
pub fn propose(
    custodian: &mut Custodian,
    by: Address,
    proposal_bump_seed: u8,
    action: ProposalAction,
    slot_now: Option<u64>,
    slots_per_epoch: u64,
) -> (r: Result<Proposal, ProposeError>)
    requires
        old(custodian).next_proposal_id < u64::MAX,
        slot_now matches Some(now) ==> now + slots_per_epoch <= u64::MAX,
    ensures
        match r {
            Ok(p) => {
                &&& slot_now matches Some(now) && proposal_created(
                    *old(custodian),
                    *final(custodian),
                    p,
                    by,
                    proposal_bump_seed,
                    action,
                    now,
                    slots_per_epoch,
                )
            },
            Err(e) => {
                &&& e == ProposeError::TimeUnavailable
                &&& slot_now is None
                &&& *final(custodian) == *old(custodian)
            },
        },
{
    match slot_now {
        Some(slot_proposed_at) => {
            let proposal = Proposal {
                id: custodian.next_proposal_id,
                bump: proposal_bump_seed,
                action,
                by,
                owner: custodian.owner,
                slot_proposed_at,
                slot_enact_by: slot_proposed_at + slots_per_epoch,
                slot_enacted_at: None,
            };
            custodian.next_proposal_id = custodian.next_proposal_id + 1;
            Ok(proposal)
        },
        None => Err(ProposeError::TimeUnavailable),
    }
}

/// Effect of one successful enactment at slot `slot`: proposal `p0` becomes
/// `p1`, with only the enactment stamp changing.
pub open spec fn enactment(p0: Proposal, p1: Proposal, slot: u64) -> bool {
    &&& p0.slot_enacted_at is None
    &&& slot >= p0.slot_enact_by
    &&& p1 == (Proposal { slot_enacted_at: Some(slot), ..p0 })
}

/// Enact a proposal whose delay window has elapsed.
///
/// Authorization (the caller acts for the proposal's `owner`) is enforced by
/// the caller layer, as for [`propose`]. Enactment fails while the current
/// slot is inside the delay window and fails once the proposal has been
/// enacted; on failure the proposal is unchanged. On success the enactment
/// stamp is set exactly once and every other field is preserved.
pub fn enact(proposal: &mut Proposal, slot_now: u64) -> (r: Result<(), EnactError>)
    ensures
        match r {
            Ok(_) => enactment(*old(proposal), *final(proposal), slot_now),
            Err(e) => {
                &&& *final(proposal) == *old(proposal)
                &&& match e {
                    EnactError::AlreadyEnacted => old(proposal).slot_enacted_at is Some,
                    EnactError::DelayNotElapsed => {
                        &&& old(proposal).slot_enacted_at is None
                        &&& slot_now < old(proposal).slot_enact_by
                    },
                }
            },
        },
{
    match proposal.slot_enacted_at {
        Some(_) => Err(EnactError::AlreadyEnacted),
        None => {
            if slot_now < proposal.slot_enact_by {
                Err(EnactError::DelayNotElapsed)
            } else {
                proposal.slot_enacted_at = Some(slot_now);
                Ok(())
            }
        },
    }
}

/// The counter-and-id essence of one successful `propose` call.
pub open spec fn propose_step(c0: Custodian, c1: Custodian, p: Proposal) -> bool {
    &&& p.id == c0.next_proposal_id
    &&& c1.next_proposal_id == c0.next_proposal_id + 1
    &&& c1.owner == c0.owner
}

/// A serialized run of successful `propose` calls: `custodians[i]` is the
/// custodian state before the `i`-th call, which created `proposals[i]`.
pub open spec fn propose_run(custodians: Seq<Custodian>, proposals: Seq<Proposal>) -> bool {
    &&& custodians.len() == proposals.len() + 1
    &&& forall|i: int|
        0 <= i < proposals.len() ==> #[trigger] propose_step(
            custodians[i],
            custodians[i + 1],
            proposals[i],
        )
}

/// Every successful `propose` call is a step of a [`propose_run`].
pub proof fn lemma_propose_is_a_step(
    c0: Custodian,
    c1: Custodian,
    p: Proposal,
    by: Address,
    bump: u8,
    action: ProposalAction,
    now: u64,
    slots_per_epoch: u64,
)
    requires
        proposal_created(c0, c1, p, by, bump, action, now, slots_per_epoch),
    ensures
        propose_step(c0, c1, p),
{
}

/// Monotonic proposal ids: a run of `N` successful `propose` calls starting
/// from counter value `k` yields exactly the ids `k, k + 1, ..., k + N - 1`,
/// with no gaps and no repeats, and leaves the counter at `k + N`.
pub proof fn lemma_proposal_ids_consecutive(custodians: Seq<Custodian>, proposals: Seq<Proposal>)
    requires
        propose_run(custodians, proposals),
    ensures
        forall|i: int|
            0 <= i < proposals.len() ==> #[trigger] proposals[i].id == custodians[0].next_proposal_id
                + i,
        forall|i: int, j: int|
            0 <= i < j < proposals.len() ==> proposals[i].id != proposals[j].id,
        custodians[custodians.len() - 1].next_proposal_id == custodians[0].next_proposal_id
            + proposals.len(),
    decreases proposals.len(),
{
    if proposals.len() > 0 {
        let n: int = proposals.len() as int;
        let shorter_custodians = custodians.drop_last();
        let shorter_proposals = proposals.drop_last();
        assert forall|i: int| 0 <= i < shorter_proposals.len() implies #[trigger] propose_step(
            shorter_custodians[i],
            shorter_custodians[i + 1],
            shorter_proposals[i],
        ) by {
            assert(propose_step(custodians[i], custodians[i + 1], proposals[i]));
        }
        lemma_proposal_ids_consecutive(shorter_custodians, shorter_proposals);
        assert(propose_step(custodians[n - 1], custodians[n], proposals[n - 1]));
        assert forall|i: int| 0 <= i < n implies #[trigger] proposals[i].id
            == custodians[0].next_proposal_id + i by {
            if i < n - 1 {
                assert(shorter_proposals[i].id == shorter_custodians[0].next_proposal_id + i);
            } else {
                assert(custodians[n - 1].next_proposal_id == custodians[0].next_proposal_id + (n
                    - 1));
            }
        }
    }
}

/// Delay invariant at creation: a freshly created proposal's enactment
/// window is exactly the epoch length read from the time oracle at creation.
pub proof fn lemma_delay_window(
    c0: Custodian,
    c1: Custodian,
    p: Proposal,
    by: Address,
    bump: u8,
    action: ProposalAction,
    now: u64,
    slots_per_epoch: u64,
)
    requires
        proposal_created(c0, c1, p, by, bump, action, now, slots_per_epoch),
    ensures
        p.slot_enact_by - p.slot_proposed_at == slots_per_epoch,
{
}

/// Delay invariant after creation: enactment, the only transition a
/// proposal undergoes, preserves the delay window.
pub proof fn lemma_delay_window_preserved(p0: Proposal, p1: Proposal, slot: u64)
    requires
        enactment(p0, p1, slot),
    ensures
        p1.slot_proposed_at == p0.slot_proposed_at,
        p1.slot_enact_by == p0.slot_enact_by,
{
}

} // verus!
