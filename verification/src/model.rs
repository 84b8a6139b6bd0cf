//! The pallet's storage as mathematical maps, and what each dispatchable
//! makes of it.
use vstd::prelude::*;

use crate::bounded::MAX_APPROVALS;
use crate::origin::RawOrigin;
use crate::table::{approval_prefix, ApprovalKey, ProposalKey};
use crate::types::{DispatchError, Error, Event, ProposalStatus, ProposalView, TimePoint};

verus! {

/// The pallet's storage, the current block number and the events deposited so far.
#[verifier::ext_equal]
pub struct PalletState {
    /// How long a proposal made without an expiry stays valid.
    pub proposal_lifetime: u64,
    /// The current block number.
    pub block_number: u64,
    /// The index of the extrinsic being applied in the current block, if any.
    pub extrinsic_index: Option<u32>,
    /// Proposals, by call hash and proposing origin.
    pub proposals: Map<ProposalKey, ProposalView>,
    /// The account behind each recorded approval.
    pub approvals: Map<ApprovalKey, u64>,
    /// The encoded calls, by hash.
    pub proposal_calls: Map<[u8; 32], Seq<u8>>,
    /// The time point of the last execution.
    pub current_timepoint: Option<TimePoint>,
    /// The call hash executed at each time point.
    pub executed_calls: Map<TimePoint, Seq<u8>>,
    /// The dummy value.
    pub dummy: Option<u128>,
    /// The events deposited so far.
    pub events: Seq<Event>,
}

/// The key of the proposal of `hash` made by `origin_id`.
pub open spec fn proposal_key(hash: [u8; 32], origin_id: u64) -> ProposalKey {
    ProposalKey { hash, origin_id }
}

/// The key of the approval of that proposal by `approval_origin_id`.
pub open spec fn approval_key(hash: [u8; 32], origin_id: u64, approval_origin_id: u64) -> ApprovalKey {
    ApprovalKey { hash, origin_id, approval_origin_id }
}

pub open spec fn pallet_error<T>(e: Error) -> Result<T, DispatchError> {
    Err(DispatchError::Pallet(e))
}

/// No origin occurs twice in an approval list.
pub open spec fn distinct(s: Seq<u64>) -> bool {
    forall|i: int, j: int| 0 <= i < s.len() && 0 <= j < s.len() && i != j ==> s[i] != s[j]
}

/// Appending an origin that a list does not name keeps it free of duplicates.
pub proof fn lemma_push_distinct(s: Seq<u64>, x: u64)
    requires
        distinct(s),
        !s.contains(x),
    ensures
        distinct(s.push(x)),
{
    let l = s.push(x);
    assert forall|i: int, j: int| 0 <= i < l.len() && 0 <= j < l.len() && i != j implies l[i] != l[j] by {
        if i == s.len() as int {
            assert(s[j] == l[j]);
        } else if j == s.len() as int {
            assert(s[i] == l[i]);
        }
    }
}

/// Removing the element at `i` by swapping in the last keeps a list free of
/// duplicates.
pub proof fn lemma_swap_remove_distinct(s: Seq<u64>, i: int)
    requires
        distinct(s),
        0 <= i < s.len(),
    ensures
        distinct(s.update(i, s.last()).drop_last()),
        s.update(i, s.last()).drop_last().len() == s.len() - 1,
{
    let t = s.update(i, s.last()).drop_last();
    let n = s.len();
    assert forall|a: int, b: int| 0 <= a < t.len() && 0 <= b < t.len() && a != b implies t[a] != t[b] by {
        let sa = if a == i { n - 1 } else { a };
        let sb = if b == i { n - 1 } else { b };
        assert(t[a] == s[sa]);
        assert(t[b] == s[sb]);
    }
}

/// A proposal's approvals fit the bound and name each origin once.
pub open spec fn proposal_ok(p: ProposalView) -> bool {
    p.approvals.len() <= MAX_APPROVALS && distinct(p.approvals)
}

/// What every reachable state satisfies.
pub open spec fn state_ok(s: PalletState) -> bool {
    forall|k: ProposalKey| #[trigger] s.proposals.contains_key(k) ==> proposal_ok(s.proposals[k])
}

/// An approval record is backed by a proposal that has not been executed
/// (it is pending, or expired and not yet removed) and whose list names the
/// approving origin.
pub open spec fn record_backed(s: PalletState, ak: ApprovalKey) -> bool {
    let pk = proposal_key(ak.hash, ak.origin_id);
    &&& s.proposals.contains_key(pk)
    &&& s.proposals[pk].status != ProposalStatus::Executed
    &&& s.proposals[pk].approvals.contains(ak.approval_origin_id)
}

/// Every approval record is backed by its proposal, and the approval list of
/// a pending proposal names only origins with a record.
pub open spec fn records_match_lists(s: PalletState) -> bool {
    &&& forall|ak: ApprovalKey| #[trigger] s.approvals.contains_key(ak) ==> record_backed(s, ak)
    &&& forall|pk: ProposalKey, a: u64|
        s.proposals.contains_key(pk) && s.proposals[pk].status == ProposalStatus::Pending
            && #[trigger] s.proposals[pk].approvals.contains(a)
            ==> s.approvals.contains_key(approval_key(pk.hash, pk.origin_id, a))
}

/// The block after which `p` has expired lies before `now`.
pub open spec fn past_expiry(p: ProposalView, now: u64) -> bool {
    match p.expiry {
        Some(e) => now > e,
        None => false,
    }
}

/// Expiry of a proposal made at `now` without one: `now + lifetime`, saturating.
pub open spec fn default_expiry(now: u64, lifetime: u64) -> u64 {
    if now + lifetime > u64::MAX {
        u64::MAX
    } else {
        (now + lifetime) as u64
    }
}

/// The time point of the current extrinsic: the block number and the
/// extrinsic's index in the block (zero outside an extrinsic).
pub open spec fn current_timepoint_of(s: PalletState) -> TimePoint {
    TimePoint {
        height: s.block_number,
        index: match s.extrinsic_index {
            Some(i) => i,
            None => 0,
        },
    }
}

/// Position of the first occurrence of `x` in `s`.
pub open spec fn first_index(s: Seq<u64>, x: u64) -> int {
    choose|i: int| 0 <= i < s.len() && s[i] == x && forall|j: int| 0 <= j < i ==> s[j] != x
}

/// `propose` once the call's hash is known.
pub open spec fn spec_propose(
    s: PalletState,
    origin: RawOrigin,
    call: Seq<u8>,
    hash: [u8; 32],
    origin_id: u64,
    expiry: Option<u64>,
) -> (PalletState, Result<(), DispatchError>) {
    match origin {
        RawOrigin::Signed(who) => {
            let key = proposal_key(hash, origin_id);
            if s.proposals.contains_key(key) {
                (s, pallet_error(Error::ProposalAlreadyExists))
            } else if expiry matches Some(e) && s.block_number > e {
                (s, pallet_error(Error::ProposalExpired))
            } else {
                let expiry_block = match expiry {
                    Some(e) => e,
                    None => default_expiry(s.block_number, s.proposal_lifetime),
                };
                let p = ProposalView {
                    call_hash: hash,
                    expiry: Some(expiry_block),
                    approvals: seq![origin_id],
                    status: ProposalStatus::Pending,
                    proposer: who,
                };
                (
                    PalletState {
                        proposals: s.proposals.insert(key, p),
                        approvals: s.approvals.insert(approval_key(hash, origin_id, origin_id), who),
                        proposal_calls: s.proposal_calls.insert(hash, call),
                        events: s.events.push(
                            Event::ProposalCreated { proposal_hash: hash, origin_id },
                        ),
                        ..s
                    },
                    Ok(()),
                )
            }
        },
        _ => (s, Err(DispatchError::BadOrigin)),
    }
}

/// Marks the proposal under `key` executed when it is pending, holds
/// `MAX_APPROVALS` approvals and its call is stored, recording the execution
/// under the current time point; the call is then to be dispatched.
pub open spec fn spec_maybe_execute(s: PalletState, key: ProposalKey) -> (
    PalletState,
    Result<Option<Seq<u8>>, DispatchError>,
) {
    let p = s.proposals[key];
    if p.status == ProposalStatus::Pending && p.approvals.len() >= MAX_APPROVALS
        && s.proposal_calls.contains_key(key.hash) {
        let time = current_timepoint_of(s);
        (
            PalletState {
                current_timepoint: Some(time),
                executed_calls: s.executed_calls.insert(time, key.hash@),
                proposals: s.proposals.insert(
                    key,
                    ProposalView { status: ProposalStatus::Executed, ..p },
                ),
                ..s
            },
            Ok(Some(s.proposal_calls[key.hash])),
        )
    } else {
        (s, Ok(None))
    }
}

/// `add_approval`: records the approval and, at the threshold, hands back
/// the call to dispatch. A proposal found past its expiry is marked expired;
/// any other error leaves the state as it was.
pub open spec fn spec_add_approval(
    s: PalletState,
    origin: RawOrigin,
    hash: [u8; 32],
    proposal_origin_id: u64,
    approval_origin_id: u64,
) -> (PalletState, Result<Option<Seq<u8>>, DispatchError>) {
    match origin {
        RawOrigin::Signed(who) => {
            let key = proposal_key(hash, proposal_origin_id);
            let akey = approval_key(hash, proposal_origin_id, approval_origin_id);
            if !s.proposals.contains_key(key) {
                (s, pallet_error(Error::ProposalNotFound))
            } else {
                let p = s.proposals[key];
                if past_expiry(p, s.block_number) {
                    (mark_expired(s, key), pallet_error(Error::ProposalExpired))
                } else if p.status != ProposalStatus::Pending {
                    (s, pallet_error(Error::ProposalNotPending))
                } else if p.proposer == who && proposal_origin_id != approval_origin_id {
                    (s, pallet_error(Error::CannotApproveOwnProposalUsingDifferentOrigin))
                } else if s.approvals.contains_key(akey) {
                    (s, pallet_error(Error::OriginAlreadyApproved))
                } else if !p.approvals.contains(approval_origin_id) && p.approvals.len()
                    >= MAX_APPROVALS {
                    (s, pallet_error(Error::TooManyApprovals))
                } else {
                    let s1 = PalletState { approvals: s.approvals.insert(akey, who), ..s };
                    let approvals = if p.approvals.contains(approval_origin_id) {
                        p.approvals
                    } else {
                        p.approvals.push(approval_origin_id)
                    };
                    let s2 = PalletState {
                        proposals: s1.proposals.insert(key, ProposalView { approvals, ..p }),
                        events: s1.events.push(
                            Event::OriginApprovalAdded {
                                proposal_hash: hash,
                                origin_id: proposal_origin_id,
                                approval_origin_id,
                                who,
                            },
                        ),
                        ..s1
                    };
                    spec_maybe_execute(s2, key)
                }
            }
        },
        _ => (s, Err(DispatchError::BadOrigin)),
    }
}

/// After the dispatch of an executed proposal's call: its approvals and
/// call are cleared and the dispatch's outcome reported in the execution
/// event; a failed dispatch is reported as `FailedToExecute`.
pub open spec fn spec_complete_execution(
    s: PalletState,
    hash: [u8; 32],
    origin_id: u64,
    result: Result<(), DispatchError>,
) -> (PalletState, Result<(), DispatchError>) {
    (
        PalletState {
            approvals: s.approvals.remove_keys(approval_prefix(hash, origin_id)),
            proposal_calls: s.proposal_calls.remove(hash),
            events: s.events.push(
                Event::ProposalExecuted { proposal_hash: hash, origin_id, result },
            ),
            ..s
        },
        if result is Ok {
            Ok(())
        } else {
            pallet_error(Error::FailedToExecute)
        },
    )
}

/// The proposal under `key` marked expired, with the event that says so.
pub open spec fn mark_expired(s: PalletState, key: ProposalKey) -> PalletState {
    PalletState {
        proposals: s.proposals.insert(
            key,
            ProposalView { status: ProposalStatus::Expired, ..s.proposals[key] },
        ),
        events: s.events.push(
            Event::ProposalExpired { proposal_hash: key.hash, origin_id: key.origin_id },
        ),
        ..s
    }
}

/// A proposal counts as expired once its status says so or its expiry block
/// lies behind `now`.
pub open spec fn expired(p: ProposalView, now: u64) -> bool {
    p.status == ProposalStatus::Expired || past_expiry(p, now)
}

/// `cancel_proposal`: the proposer drops a pending proposal.
pub open spec fn spec_cancel_proposal(
    s: PalletState,
    origin: RawOrigin,
    hash: [u8; 32],
    origin_id: u64,
) -> (PalletState, Result<(), DispatchError>) {
    match origin {
        RawOrigin::Signed(who) => {
            let key = proposal_key(hash, origin_id);
            if !s.proposals.contains_key(key) {
                (s, pallet_error(Error::ProposalNotFound))
            } else if s.proposals[key].status != ProposalStatus::Pending {
                (s, pallet_error(Error::ProposalNotPending))
            } else if who != s.proposals[key].proposer {
                (s, pallet_error(Error::NotAuthorized))
            } else {
                (
                    PalletState {
                        approvals: s.approvals.remove_keys(approval_prefix(hash, origin_id)),
                        proposals: s.proposals.remove(key),
                        proposal_calls: s.proposal_calls.remove(hash),
                        events: s.events.push(
                            Event::ProposalCancelled { proposal_hash: hash, origin_id },
                        ),
                        ..s
                    },
                    Ok(()),
                )
            }
        },
        _ => (s, Err(DispatchError::BadOrigin)),
    }
}

/// `remove`: the proposer, or an origin governance admits, drops an expired
/// proposal, whether or not its expiry was recorded in its status.
pub open spec fn spec_remove(
    s: PalletState,
    origin: RawOrigin,
    hash: [u8; 32],
    origin_id: u64,
    governance_admits: bool,
) -> (PalletState, Result<(), DispatchError>) {
    match origin {
        RawOrigin::Signed(who) => {
            let key = proposal_key(hash, origin_id);
            if !s.proposals.contains_key(key) {
                (s, pallet_error(Error::ProposalNotFound))
            } else if !expired(s.proposals[key], s.block_number) {
                (s, pallet_error(Error::ProposalNotExpired))
            } else if !(who == s.proposals[key].proposer || governance_admits) {
                (s, pallet_error(Error::NotAuthorized))
            } else {
                (
                    PalletState {
                        proposal_calls: s.proposal_calls.remove(hash),
                        approvals: s.approvals.remove_keys(approval_prefix(hash, origin_id)),
                        proposals: s.proposals.remove(key),
                        events: s.events.push(
                            Event::ProposalRemoved { proposal_hash: hash, origin_id, who },
                        ),
                        ..s
                    },
                    Ok(()),
                )
            }
        },
        _ => (s, Err(DispatchError::BadOrigin)),
    }
}

/// `withdraw_approval`: the account that gave an approval takes it back.
pub open spec fn spec_withdraw_approval(
    s: PalletState,
    origin: RawOrigin,
    hash: [u8; 32],
    origin_id: u64,
    withdrawing_origin_id: u64,
) -> (PalletState, Result<(), DispatchError>) {
    match origin {
        RawOrigin::Signed(who) => {
            let key = proposal_key(hash, origin_id);
            let akey = approval_key(hash, origin_id, withdrawing_origin_id);
            if !s.proposals.contains_key(key) {
                (s, pallet_error(Error::ProposalNotFound))
            } else {
                let p = s.proposals[key];
                if past_expiry(p, s.block_number) {
                    (mark_expired(s, key), pallet_error(Error::ProposalExpired))
                } else if p.status != ProposalStatus::Pending {
                    (s, pallet_error(Error::ProposalNotPending))
                } else if !s.approvals.contains_key(akey) {
                    (s, pallet_error(Error::OriginApprovalNotFound))
                } else if s.approvals[akey] != who {
                    (s, pallet_error(Error::NotAuthorized))
                } else if !p.approvals.contains(withdrawing_origin_id) {
                    (s, pallet_error(Error::OriginApprovalNotFound))
                } else {
                    let i = first_index(p.approvals, withdrawing_origin_id);
                    let approvals = p.approvals.update(i, p.approvals.last()).drop_last();
                    (
                        PalletState {
                            proposals: s.proposals.insert(key, ProposalView { approvals, ..p }),
                            approvals: s.approvals.remove(akey),
                            events: s.events.push(
                                Event::OriginApprovalWithdrawn {
                                    proposal_hash: hash,
                                    origin_id,
                                    withdrawing_origin_id,
                                },
                            ),
                            ..s
                        },
                        Ok(()),
                    )
                }
            }
        },
        _ => (s, Err(DispatchError::BadOrigin)),
    }
}

/// `set_dummy`: root stores a new dummy value.
pub open spec fn spec_set_dummy(s: PalletState, origin: RawOrigin, new_value: u128) -> (
    PalletState,
    Result<(), DispatchError>,
) {
    match origin {
        RawOrigin::Root => (
            PalletState {
                dummy: Some(new_value),
                events: s.events.push(Event::SetDummy { balance: new_value }),
                ..s
            },
            Ok(()),
        ),
        _ => (s, Err(DispatchError::BadOrigin)),
    }
}

} // verus!
