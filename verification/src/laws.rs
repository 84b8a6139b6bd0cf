//! What holds of the pallet across its dispatchables.
use vstd::prelude::*;

use crate::bounded::MAX_APPROVALS;
use crate::model::{
    approval_key, distinct, first_index, lemma_push_distinct, lemma_swap_remove_distinct,
    mark_expired, past_expiry, proposal_key, proposal_ok, record_backed, records_match_lists,
    spec_add_approval, spec_cancel_proposal, spec_complete_execution, spec_propose, spec_remove,
    spec_set_dummy, spec_withdraw_approval, state_ok, PalletState,
};
use crate::origin::{AndGate, EnsureOrigin, EnsureSignedBy, RawOrigin};
use crate::table::{approval_prefix, ApprovalKey, ProposalKey};
use crate::types::{DispatchError, Error, Event, ProposalStatus, ProposalView};

verus! {

/// The AND gate admits an origin exactly when both of its checks do.
pub proof fn and_gate_admits_only_what_both_admit<A: EnsureOrigin, B: EnsureOrigin>(origin: RawOrigin)
    ensures
        AndGate::<A, B>::admits(origin) == (A::admits(origin) && B::admits(origin)),
{
}

/// No single origin, signed or root, passes an AND gate of two different
/// signers: two approvals are needed.
pub proof fn and_gate_of_two_signers_admits_no_origin<const WA: u64, const WB: u64>(origin: RawOrigin)
    requires
        WA != WB,
    ensures
        !AndGate::<EnsureSignedBy<WA>, EnsureSignedBy<WB>>::admits(origin),
{
}

/// No proposal is marked executed except by `add_approval`: proposing,
/// cancelling, removing, withdrawing an approval, setting the dummy value
/// and completing an execution leave every other proposal's execution
/// status as it was.
pub open spec fn no_new_execution(s: PalletState, t: PalletState) -> bool {
    forall|k|
        #[trigger] t.proposals.contains_key(k) && t.proposals[k].status == ProposalStatus::Executed
            ==> s.proposals.contains_key(k) && s.proposals[k].status == ProposalStatus::Executed
}

/// Only `add_approval` executes proposals.
pub proof fn only_approval_executes(
    s: PalletState,
    origin: RawOrigin,
    call: Seq<u8>,
    hash: [u8; 32],
    origin_id: u64,
    other_origin_id: u64,
    expiry: Option<u64>,
    governance_admits: bool,
    new_value: u128,
    result: Result<(), DispatchError>,
)
    ensures
        no_new_execution(s, spec_propose(s, origin, call, hash, origin_id, expiry).0),
        no_new_execution(s, spec_cancel_proposal(s, origin, hash, origin_id).0),
        no_new_execution(s, spec_remove(s, origin, hash, origin_id, governance_admits).0),
        no_new_execution(s, spec_withdraw_approval(s, origin, hash, origin_id, other_origin_id).0),
        no_new_execution(s, spec_set_dummy(s, origin, new_value).0),
        no_new_execution(s, spec_complete_execution(s, hash, origin_id, result).0),
{
}

/// A proposal is executed by an approval only when it was pending and, with
/// that approval, holds `MAX_APPROVALS` approvals from distinct origins,
/// among them the approving one; the call then handed back is the stored
/// one. An approval that does not execute leaves the proposal pending. So a
/// proposal's call is handed out for dispatch at most once.
pub proof fn execution_needs_two_distinct_approvals(
    s: PalletState,
    origin: RawOrigin,
    hash: [u8; 32],
    proposal_origin_id: u64,
    approval_origin_id: u64,
)
    requires
        state_ok(s),
    ensures
        ({
            let (t, r) = spec_add_approval(s, origin, hash, proposal_origin_id, approval_origin_id);
            let key = proposal_key(hash, proposal_origin_id);
            &&& r matches Ok(Some(call)) ==> {
                &&& s.proposals.contains_key(key)
                &&& s.proposals[key].status == ProposalStatus::Pending
                &&& t.proposals[key].status == ProposalStatus::Executed
                &&& t.proposals[key].approvals.len() == MAX_APPROVALS
                &&& distinct(t.proposals[key].approvals)
                &&& t.proposals[key].approvals.contains(approval_origin_id)
                &&& call == s.proposal_calls[hash]
            }
            &&& r matches Ok(None) ==> t.proposals[key].status == ProposalStatus::Pending
        }),
{
    let key = proposal_key(hash, proposal_origin_id);
    if s.proposals.contains_key(key) {
        assert(proposal_ok(s.proposals[key]));
        let p = s.proposals[key];
        if !p.approvals.contains(approval_origin_id) && p.approvals.len() < MAX_APPROVALS {
            let l = p.approvals.push(approval_origin_id);
            assert(l[l.len() - 1] == approval_origin_id);
            lemma_push_distinct(p.approvals, approval_origin_id);
        }
    }
}

/// An execution is recorded whatever the dispatch of its call gives: after
/// the approval that executes a proposal and the report of the dispatch, the
/// proposal stays executed, its call and approval records are gone, the
/// execution is reported with the dispatch's result, and a failed dispatch
/// is answered with `FailedToExecute`.
pub proof fn execution_is_recorded_whatever_the_dispatch_gives(
    s: PalletState,
    origin: RawOrigin,
    hash: [u8; 32],
    proposal_origin_id: u64,
    approval_origin_id: u64,
    result: Result<(), DispatchError>,
)
    ensures
        ({
            let (t, r) = spec_add_approval(s, origin, hash, proposal_origin_id, approval_origin_id);
            let (f, rf) = spec_complete_execution(t, hash, proposal_origin_id, result);
            let key = proposal_key(hash, proposal_origin_id);
            r matches Ok(Some(_)) ==> {
                &&& f.proposals.contains_key(key)
                &&& f.proposals[key].status == ProposalStatus::Executed
                &&& !f.proposal_calls.contains_key(hash)
                &&& forall|a: u64| !f.approvals.contains_key(#[trigger] approval_key(hash, proposal_origin_id, a))
                &&& f.events.last() == Event::ProposalExecuted {
                    proposal_hash: hash,
                    origin_id: proposal_origin_id,
                    result,
                }
                &&& rf == if result is Ok {
                    Ok::<(), DispatchError>(())
                } else {
                    Err(DispatchError::Pallet(Error::FailedToExecute))
                }
            }
        }),
{
    let (t, r) = spec_add_approval(s, origin, hash, proposal_origin_id, approval_origin_id);
    if r matches Ok(Some(_)) {
        assert forall|a: u64| !spec_complete_execution(t, hash, proposal_origin_id, result).0.approvals.contains_key(
            #[trigger] approval_key(hash, proposal_origin_id, a),
        ) by {
            assert(approval_prefix(hash, proposal_origin_id).contains(approval_key(hash, proposal_origin_id, a)));
        }
    }
}

/// An approval is refused as expired exactly when it is signed, its
/// proposal exists and the current block lies past the proposal's expiry
/// block; a proposal stays approvable up to and including that block.
pub proof fn approval_expires_only_past_the_expiry_block(
    s: PalletState,
    origin: RawOrigin,
    hash: [u8; 32],
    proposal_origin_id: u64,
    approval_origin_id: u64,
)
    ensures
        (spec_add_approval(s, origin, hash, proposal_origin_id, approval_origin_id).1
            == Err::<Option<Seq<u8>>, DispatchError>(DispatchError::Pallet(Error::ProposalExpired)))
            <==> ({
            let key = proposal_key(hash, proposal_origin_id);
            &&& origin is Signed
            &&& s.proposals.contains_key(key)
            &&& s.proposals[key].expiry matches Some(e) && s.block_number > e
        }),
{
}

/// A withdrawal is refused as expired exactly when it is signed, its
/// proposal exists and the current block lies past the proposal's expiry
/// block.
pub proof fn withdrawal_expires_only_past_the_expiry_block(
    s: PalletState,
    origin: RawOrigin,
    hash: [u8; 32],
    origin_id: u64,
    withdrawing_origin_id: u64,
)
    ensures
        (spec_withdraw_approval(s, origin, hash, origin_id, withdrawing_origin_id).1
            == Err::<(), DispatchError>(DispatchError::Pallet(Error::ProposalExpired)))
            <==> ({
            let key = proposal_key(hash, origin_id);
            &&& origin is Signed
            &&& s.proposals.contains_key(key)
            &&& s.proposals[key].expiry matches Some(e) && s.block_number > e
        }),
{
}

/// An approval of a pending proposal whose expiry block has not passed, by
/// an account other than the proposer with an origin that has not approved
/// it yet, while the list has room, succeeds: the approval is recorded under
/// the signer and the origin appended to the list. When that brings the
/// list to `MAX_APPROVALS` and the call is stored, the proposal is marked
/// executed and the stored call handed out; otherwise it stays pending and
/// nothing is handed out.
pub proof fn approval_before_expiry_is_recorded(
    s: PalletState,
    who: u64,
    hash: [u8; 32],
    proposal_origin_id: u64,
    approval_origin_id: u64,
)
    requires
        s.proposals.contains_key(proposal_key(hash, proposal_origin_id)),
        s.proposals[proposal_key(hash, proposal_origin_id)].status == ProposalStatus::Pending,
        s.proposals[proposal_key(hash, proposal_origin_id)].expiry matches Some(e) ==> s.block_number <= e,
        who != s.proposals[proposal_key(hash, proposal_origin_id)].proposer,
        !s.approvals.contains_key(approval_key(hash, proposal_origin_id, approval_origin_id)),
        !s.proposals[proposal_key(hash, proposal_origin_id)].approvals.contains(approval_origin_id),
        s.proposals[proposal_key(hash, proposal_origin_id)].approvals.len() < MAX_APPROVALS,
    ensures
        ({
            let key = proposal_key(hash, proposal_origin_id);
            let akey = approval_key(hash, proposal_origin_id, approval_origin_id);
            let p = s.proposals[key];
            let (t, r) = spec_add_approval(s, RawOrigin::Signed(who), hash, proposal_origin_id, approval_origin_id);
            let executes = p.approvals.len() + 1 == MAX_APPROVALS && s.proposal_calls.contains_key(hash);
            &&& r is Ok
            &&& t.approvals.contains_key(akey)
            &&& t.approvals[akey] == who
            &&& t.proposals.contains_key(key)
            &&& t.proposals[key].approvals == p.approvals.push(approval_origin_id)
            &&& executes ==> r == Ok::<Option<Seq<u8>>, DispatchError>(Some(s.proposal_calls[hash]))
                && t.proposals[key].status == ProposalStatus::Executed
            &&& !executes ==> r == Ok::<Option<Seq<u8>>, DispatchError>(None)
                && t.proposals[key].status == ProposalStatus::Pending
        }),
{
}

/// A signed proposal of a new key succeeds when its explicit expiry block,
/// if any, is not before the current block, and the proposal is stored with
/// exactly that expiry; without one it gets the current block plus the
/// proposal lifetime, saturating at the largest block number. The proposer's
/// origin is its one approval, recorded under the proposer, and the call is
/// stored under its hash.
pub proof fn propose_keeps_the_given_expiry(
    s: PalletState,
    who: u64,
    call: Seq<u8>,
    hash: [u8; 32],
    origin_id: u64,
    expiry: Option<u64>,
)
    requires
        !s.proposals.contains_key(proposal_key(hash, origin_id)),
        expiry matches Some(e) ==> s.block_number <= e,
    ensures
        ({
            let key = proposal_key(hash, origin_id);
            let (t, r) = spec_propose(s, RawOrigin::Signed(who), call, hash, origin_id, expiry);
            let stored = match expiry {
                Some(e) => e,
                None => if s.block_number + s.proposal_lifetime <= u64::MAX {
                    (s.block_number + s.proposal_lifetime) as u64
                } else {
                    u64::MAX
                },
            };
            &&& r is Ok
            &&& t.proposals.contains_key(key)
            &&& t.proposals[key].expiry == Some(stored)
            &&& t.proposals[key].status == ProposalStatus::Pending
            &&& t.proposals[key].proposer == who
            &&& t.proposals[key].approvals == seq![origin_id]
            &&& t.approvals.contains_key(approval_key(hash, origin_id, origin_id))
            &&& t.approvals[approval_key(hash, origin_id, origin_id)] == who
            &&& t.proposal_calls.contains_key(hash)
            &&& t.proposal_calls[hash] == call
        }),
{
}

/// The proposer can cancel a pending proposal at any block, before or after
/// its expiry block: the proposal, its approval records and its call are
/// dropped and the cancellation reported.
pub proof fn proposer_cancels_pending_proposal_at_any_block(
    s: PalletState,
    who: u64,
    hash: [u8; 32],
    origin_id: u64,
)
    requires
        s.proposals.contains_key(proposal_key(hash, origin_id)),
        s.proposals[proposal_key(hash, origin_id)].status == ProposalStatus::Pending,
        s.proposals[proposal_key(hash, origin_id)].proposer == who,
    ensures
        ({
            let (t, r) = spec_cancel_proposal(s, RawOrigin::Signed(who), hash, origin_id);
            &&& r is Ok
            &&& !t.proposals.contains_key(proposal_key(hash, origin_id))
            &&& !t.proposal_calls.contains_key(hash)
            &&& forall|a: u64| !t.approvals.contains_key(#[trigger] approval_key(hash, origin_id, a))
            &&& t.events == s.events.push(Event::ProposalCancelled { proposal_hash: hash, origin_id })
        }),
{
    let t = spec_cancel_proposal(s, RawOrigin::Signed(who), hash, origin_id).0;
    assert forall|a: u64| !t.approvals.contains_key(#[trigger] approval_key(hash, origin_id, a)) by {
        assert(approval_prefix(hash, origin_id).contains(approval_key(hash, origin_id, a)));
    }
}

/// The account that gave an approval of a pending proposal whose expiry
/// block has not passed can withdraw it: the record is dropped and the
/// origin leaves the list, which keeps every other origin it named.
pub proof fn approver_withdraws_before_expiry(
    s: PalletState,
    who: u64,
    hash: [u8; 32],
    origin_id: u64,
    withdrawing_origin_id: u64,
)
    requires
        state_ok(s),
        s.proposals.contains_key(proposal_key(hash, origin_id)),
        s.proposals[proposal_key(hash, origin_id)].status == ProposalStatus::Pending,
        s.proposals[proposal_key(hash, origin_id)].expiry matches Some(e) ==> s.block_number <= e,
        s.approvals.contains_key(approval_key(hash, origin_id, withdrawing_origin_id)),
        s.approvals[approval_key(hash, origin_id, withdrawing_origin_id)] == who,
        s.proposals[proposal_key(hash, origin_id)].approvals.contains(withdrawing_origin_id),
    ensures
        ({
            let key = proposal_key(hash, origin_id);
            let l = s.proposals[key].approvals;
            let (t, r) = spec_withdraw_approval(s, RawOrigin::Signed(who), hash, origin_id, withdrawing_origin_id);
            &&& r is Ok
            &&& !t.approvals.contains_key(approval_key(hash, origin_id, withdrawing_origin_id))
            &&& t.proposals.contains_key(key)
            &&& t.proposals[key].approvals.len() == l.len() - 1
            &&& !t.proposals[key].approvals.contains(withdrawing_origin_id)
            &&& forall|x: u64| x != withdrawing_origin_id ==> (#[trigger] t.proposals[key].approvals.contains(x)
                <==> l.contains(x))
        }),
{
    let key = proposal_key(hash, origin_id);
    let l = s.proposals[key].approvals;
    let wid = withdrawing_origin_id;
    assert(proposal_ok(s.proposals[key]));
    let j0 = choose|j: int| 0 <= j < l.len() && l[j] == wid;
    assert(exists|i: int| 0 <= i < l.len() && l[i] == wid && forall|j: int| 0 <= j < i ==> l[j] != wid) by {
        assert(l[j0] == wid);
        let i = choose|i: int| 0 <= i < l.len() && l[i] == wid && forall|j: int| 0 <= j < i ==> l[j] != wid;
    }
    let i = first_index(l, wid);
    lemma_swap_remove_elements(l, i);
    lemma_swap_remove_distinct(l, i);
}

/// A proposal that has expired, by its recorded status or because the
/// current block lies past its expiry block, can be removed by its proposer
/// or by an origin the governance check admits: the proposal, its approval
/// records and its call are dropped.
pub proof fn expired_proposal_can_be_removed(
    s: PalletState,
    who: u64,
    hash: [u8; 32],
    origin_id: u64,
    governance_admits: bool,
)
    requires
        s.proposals.contains_key(proposal_key(hash, origin_id)),
        s.proposals[proposal_key(hash, origin_id)].status == ProposalStatus::Expired
            || (s.proposals[proposal_key(hash, origin_id)].expiry matches Some(e) && s.block_number > e),
        who == s.proposals[proposal_key(hash, origin_id)].proposer || governance_admits,
    ensures
        ({
            let (t, r) = spec_remove(s, RawOrigin::Signed(who), hash, origin_id, governance_admits);
            &&& r is Ok
            &&& !t.proposals.contains_key(proposal_key(hash, origin_id))
            &&& !t.proposal_calls.contains_key(hash)
            &&& forall|a: u64| !t.approvals.contains_key(#[trigger] approval_key(hash, origin_id, a))
        }),
{
    let t = spec_remove(s, RawOrigin::Signed(who), hash, origin_id, governance_admits).0;
    assert forall|a: u64| !t.approvals.contains_key(#[trigger] approval_key(hash, origin_id, a)) by {
        assert(approval_prefix(hash, origin_id).contains(approval_key(hash, origin_id, a)));
    }
}

/// Withdrawing an approval undoes it: after an approval that did not
/// execute the proposal, its withdrawal by the same account restores the
/// approvals, the proposals and the stored calls.
pub proof fn withdrawal_undoes_approval(
    s: PalletState,
    who: u64,
    hash: [u8; 32],
    proposal_origin_id: u64,
    approval_origin_id: u64,
)
    requires
        state_ok(s),
        spec_add_approval(s, RawOrigin::Signed(who), hash, proposal_origin_id, approval_origin_id).1
            == Ok::<Option<Seq<u8>>, DispatchError>(None),
        s.proposals.contains_key(proposal_key(hash, proposal_origin_id)),
        !s.proposals[proposal_key(hash, proposal_origin_id)].approvals.contains(approval_origin_id),
    ensures
        ({
            let s1 = spec_add_approval(s, RawOrigin::Signed(who), hash, proposal_origin_id, approval_origin_id).0;
            let (s2, r) = spec_withdraw_approval(s1, RawOrigin::Signed(who), hash, proposal_origin_id, approval_origin_id);
            &&& r is Ok
            &&& s2.approvals == s.approvals
            &&& s2.proposals == s.proposals
            &&& s2.proposal_calls == s.proposal_calls
        }),
{
    let key = proposal_key(hash, proposal_origin_id);
    let akey = approval_key(hash, proposal_origin_id, approval_origin_id);
    let p = s.proposals[key];
    let s1 = spec_add_approval(s, RawOrigin::Signed(who), hash, proposal_origin_id, approval_origin_id).0;
    let l = p.approvals.push(approval_origin_id);
    assert(s1.proposals[key].approvals == l);
    assert(l[l.len() - 1] == approval_origin_id);
    assert(l.contains(approval_origin_id));
    let n = p.approvals.len() as int;
    assert(forall|j: int| 0 <= j < n ==> l[j] == p.approvals[j]);
    assert forall|j: int| 0 <= j < n implies l[j] != approval_origin_id by {
        if l[j] == approval_origin_id {
            assert(p.approvals[j] == approval_origin_id);
        }
    }
    let i = first_index(l, approval_origin_id);
    assert(0 <= i < l.len() && l[i] == approval_origin_id && forall|j: int| 0 <= j < i ==> l[j] != approval_origin_id);
    assert(i == n);
    assert(l.update(i, l.last()).drop_last() =~= p.approvals);
    let s2 = spec_withdraw_approval(s1, RawOrigin::Signed(who), hash, proposal_origin_id, approval_origin_id).0;
    assert(s2.approvals =~= s.approvals);
    assert(s2.proposals =~= s.proposals);
}

/// Cancelling undoes proposing: the proposer's cancellation of a fresh
/// proposal, whose call and approvals were not stored before, restores the
/// proposals, the approvals and the stored calls.
pub proof fn cancel_undoes_propose(
    s: PalletState,
    who: u64,
    call: Seq<u8>,
    hash: [u8; 32],
    origin_id: u64,
    expiry: Option<u64>,
)
    requires
        spec_propose(s, RawOrigin::Signed(who), call, hash, origin_id, expiry).1 is Ok,
        !s.proposal_calls.contains_key(hash),
        forall|k| #[trigger] approval_prefix(hash, origin_id).contains(k) ==> !s.approvals.contains_key(k),
    ensures
        ({
            let s1 = spec_propose(s, RawOrigin::Signed(who), call, hash, origin_id, expiry).0;
            let (s2, r) = spec_cancel_proposal(s1, RawOrigin::Signed(who), hash, origin_id);
            &&& r is Ok
            &&& s2.proposals == s.proposals
            &&& s2.approvals == s.approvals
            &&& s2.proposal_calls == s.proposal_calls
        }),
{
    let s1 = spec_propose(s, RawOrigin::Signed(who), call, hash, origin_id, expiry).0;
    let s2 = spec_cancel_proposal(s1, RawOrigin::Signed(who), hash, origin_id).0;
    assert(s2.proposals =~= s.proposals);
    assert(s2.proposal_calls =~= s.proposal_calls);
    assert forall|k| s2.approvals.contains_key(k) == s.approvals.contains_key(k) by {
        if approval_prefix(hash, origin_id).contains(k) {
            assert(!s.approvals.contains_key(k));
        }
    }
    assert(s2.approvals =~= s.approvals);
}

/// The proposing origin counts as the first approval: once a proposal is
/// made, approving it again with the proposing origin is refused, whoever
/// signs, within the block it was made in.
pub proof fn proposing_origin_cannot_approve_again(
    s: PalletState,
    proposer: u64,
    approver: u64,
    call: Seq<u8>,
    hash: [u8; 32],
    origin_id: u64,
    expiry: Option<u64>,
)
    requires
        spec_propose(s, RawOrigin::Signed(proposer), call, hash, origin_id, expiry).1 is Ok,
    ensures
        ({
            let s1 = spec_propose(s, RawOrigin::Signed(proposer), call, hash, origin_id, expiry).0;
            let (s2, r) = spec_add_approval(s1, RawOrigin::Signed(approver), hash, origin_id, origin_id);
            &&& r == Err::<Option<Seq<u8>>, DispatchError>(DispatchError::Pallet(Error::OriginAlreadyApproved))
            &&& s2 == s1
        }),
{
    let s1 = spec_propose(s, RawOrigin::Signed(proposer), call, hash, origin_id, expiry).0;
    let key = proposal_key(hash, origin_id);
    assert(s1.proposals.contains_key(key));
    assert(!past_expiry(s1.proposals[key], s1.block_number));
    assert(s1.approvals.contains_key(approval_key(hash, origin_id, origin_id)));
}

/// Every dispatchable keeps each proposal's approvals within the bound and
/// free of duplicates.
pub proof fn dispatchables_keep_approvals_bounded(
    s: PalletState,
    origin: RawOrigin,
    call: Seq<u8>,
    hash: [u8; 32],
    origin_id: u64,
    other_origin_id: u64,
    expiry: Option<u64>,
    governance_admits: bool,
    new_value: u128,
    result: Result<(), DispatchError>,
)
    requires
        state_ok(s),
    ensures
        state_ok(spec_propose(s, origin, call, hash, origin_id, expiry).0),
        state_ok(spec_add_approval(s, origin, hash, origin_id, other_origin_id).0),
        state_ok(spec_cancel_proposal(s, origin, hash, origin_id).0),
        state_ok(spec_remove(s, origin, hash, origin_id, governance_admits).0),
        state_ok(spec_withdraw_approval(s, origin, hash, origin_id, other_origin_id).0),
        state_ok(spec_set_dummy(s, origin, new_value).0),
        state_ok(spec_complete_execution(s, hash, origin_id, result).0),
{
    let key = proposal_key(hash, origin_id);
    if s.proposals.contains_key(key) {
        let p = s.proposals[key];
        assert(proposal_ok(p));
        // expiry recorded by an approval or a withdrawal
        lemma_mark_expired_ok(s, key);
        // approval that appends
        if !p.approvals.contains(other_origin_id) && p.approvals.len() < MAX_APPROVALS {
            lemma_push_distinct(p.approvals, other_origin_id);
        }
        // withdrawal
        if p.approvals.contains(other_origin_id) {
            let l = p.approvals;
            let j0 = choose|j: int| 0 <= j < l.len() && l[j] == other_origin_id;
            let i = first_index(l, other_origin_id);
            assert(exists|i: int| 0 <= i < l.len() && l[i] == other_origin_id && forall|j: int| 0 <= j < i ==> l[j] != other_origin_id) by {
                assert(l[j0] == other_origin_id);
            }
            lemma_swap_remove_distinct(l, i);
        }
    }
    assert forall|k| #[trigger] spec_propose(s, origin, call, hash, origin_id, expiry).0.proposals.contains_key(k)
        implies proposal_ok(spec_propose(s, origin, call, hash, origin_id, expiry).0.proposals[k]) by {
        if k != key {
            assert(s.proposals.contains_key(k));
        }
    }
}

/// Whether an approval or a withdrawal by `origin` finds the proposal under
/// `key` past its expiry, the one failure that is recorded.
pub open spec fn finds_past_expiry(s: PalletState, origin: RawOrigin, key: ProposalKey) -> bool {
    &&& origin is Signed
    &&& s.proposals.contains_key(key)
    &&& past_expiry(s.proposals[key], s.block_number)
}

/// A dispatchable that fails changes nothing, storage and events alike, with
/// one exception: an approval or a withdrawal that finds its proposal past
/// its expiry records the expiry (the proposal is marked expired and the
/// expiry reported) and fails with `ProposalExpired`.
pub proof fn failures_record_only_expiry(
    s: PalletState,
    origin: RawOrigin,
    call: Seq<u8>,
    hash: [u8; 32],
    origin_id: u64,
    other_origin_id: u64,
    expiry: Option<u64>,
    governance_admits: bool,
    new_value: u128,
)
    ensures
        spec_propose(s, origin, call, hash, origin_id, expiry).1 is Err
            ==> spec_propose(s, origin, call, hash, origin_id, expiry).0 == s,
        spec_add_approval(s, origin, hash, origin_id, other_origin_id).1 is Err
            ==> spec_add_approval(s, origin, hash, origin_id, other_origin_id).0 == if finds_past_expiry(
                s,
                origin,
                proposal_key(hash, origin_id),
            ) {
                mark_expired(s, proposal_key(hash, origin_id))
            } else {
                s
            },
        finds_past_expiry(s, origin, proposal_key(hash, origin_id)) ==> spec_add_approval(
            s,
            origin,
            hash,
            origin_id,
            other_origin_id,
        ).1 == Err::<Option<Seq<u8>>, DispatchError>(DispatchError::Pallet(Error::ProposalExpired)),
        spec_cancel_proposal(s, origin, hash, origin_id).1 is Err
            ==> spec_cancel_proposal(s, origin, hash, origin_id).0 == s,
        spec_remove(s, origin, hash, origin_id, governance_admits).1 is Err
            ==> spec_remove(s, origin, hash, origin_id, governance_admits).0 == s,
        spec_withdraw_approval(s, origin, hash, origin_id, other_origin_id).1 is Err
            ==> spec_withdraw_approval(s, origin, hash, origin_id, other_origin_id).0
                == if finds_past_expiry(s, origin, proposal_key(hash, origin_id)) {
                mark_expired(s, proposal_key(hash, origin_id))
            } else {
                s
            },
        finds_past_expiry(s, origin, proposal_key(hash, origin_id)) ==> spec_withdraw_approval(
            s,
            origin,
            hash,
            origin_id,
            other_origin_id,
        ).1 == Err::<(), DispatchError>(DispatchError::Pallet(Error::ProposalExpired)),
        spec_set_dummy(s, origin, new_value).1 is Err ==> spec_set_dummy(s, origin, new_value).0 == s,
{
}

/// Recording a proposal's expiry keeps every proposal's approvals bounded
/// and free of duplicates.
proof fn lemma_mark_expired_ok(s: PalletState, key: ProposalKey)
    requires
        state_ok(s),
        s.proposals.contains_key(key),
    ensures
        state_ok(mark_expired(s, key)),
{
    let t = mark_expired(s, key);
    assert forall|k: ProposalKey| #[trigger] t.proposals.contains_key(k) implies proposal_ok(t.proposals[k]) by {
        assert(s.proposals.contains_key(k));
    }
}

/// Recording a proposal's expiry keeps the approval records matched with
/// the lists: an expired proposal still backs its records.
proof fn lemma_mark_expired_matches(s: PalletState, key: ProposalKey)
    requires
        records_match_lists(s),
        s.proposals.contains_key(key),
    ensures
        records_match_lists(mark_expired(s, key)),
{
    let t = mark_expired(s, key);
    assert forall|ak: ApprovalKey| #[trigger] t.approvals.contains_key(ak) implies record_backed(t, ak) by {
        assert(s.approvals.contains_key(ak));
        assert(record_backed(s, ak));
    }
    assert forall|pk: ProposalKey, a: u64|
        t.proposals.contains_key(pk) && t.proposals[pk].status == ProposalStatus::Pending
            && #[trigger] t.proposals[pk].approvals.contains(a)
            implies t.approvals.contains_key(approval_key(pk.hash, pk.origin_id, a)) by {
        assert(pk != key);
        assert(s.proposals[pk] == t.proposals[pk]);
    }
}

/// Removing the element at `i` by swapping in the last keeps every other
/// element of a list without duplicates, and adds none.
proof fn lemma_swap_remove_elements(l: Seq<u64>, i: int)
    requires
        distinct(l),
        0 <= i < l.len(),
    ensures
        forall|x: u64| l.contains(x) && x != l[i] ==> #[trigger] l.update(i, l.last()).drop_last().contains(x),
        forall|x: u64| #[trigger] l.update(i, l.last()).drop_last().contains(x) ==> l.contains(x) && x != l[i],
{
    let t = l.update(i, l.last()).drop_last();
    let n = l.len();
    assert forall|x: u64| l.contains(x) && x != l[i] implies #[trigger] t.contains(x) by {
        let j = choose|j: int| 0 <= j < n && l[j] == x;
        if j == n - 1 {
            assert(t[i] == x);
        } else {
            assert(t[j] == x);
        }
    }
    assert forall|x: u64| #[trigger] t.contains(x) implies l.contains(x) && x != l[i] by {
        let j = choose|j: int| 0 <= j < t.len() && t[j] == x;
        let sj = if j == i { n - 1 } else { j };
        assert(t[j] == l[sj]);
        assert(sj != i);
    }
}

proof fn lemma_propose_matches(s: PalletState, origin: RawOrigin, call: Seq<u8>, hash: [u8; 32], origin_id: u64, expiry: Option<u64>)
    requires
        records_match_lists(s),
    ensures
        records_match_lists(spec_propose(s, origin, call, hash, origin_id, expiry).0),
{
    let (t, r) = spec_propose(s, origin, call, hash, origin_id, expiry);
    if r is Ok {
        let key = proposal_key(hash, origin_id);
        let akey = approval_key(hash, origin_id, origin_id);
        assert(t.proposals[key].approvals =~= seq![origin_id]);
        assert(t.proposals[key].approvals[0] == origin_id);
        assert forall|ak: ApprovalKey| #[trigger] t.approvals.contains_key(ak) implies record_backed(t, ak) by {
            if ak != akey {
                assert(s.approvals.contains_key(ak));
                assert(record_backed(s, ak));
            }
        }
        assert forall|pk: ProposalKey, a: u64|
            t.proposals.contains_key(pk) && t.proposals[pk].status == ProposalStatus::Pending
                && #[trigger] t.proposals[pk].approvals.contains(a)
                implies t.approvals.contains_key(approval_key(pk.hash, pk.origin_id, a)) by {
            if pk != key {
                assert(s.proposals[pk] == t.proposals[pk]);
            }
        }
    }
}

proof fn lemma_add_approval_matches(
    s: PalletState,
    origin: RawOrigin,
    hash: [u8; 32],
    pid: u64,
    aid: u64,
    result: Result<(), DispatchError>,
)
    requires
        records_match_lists(s),
    ensures
        ({
            let (t, r) = spec_add_approval(s, origin, hash, pid, aid);
            &&& !(r matches Ok(Some(_))) ==> records_match_lists(t)
            &&& r matches Ok(Some(_)) ==> records_match_lists(
                spec_complete_execution(t, hash, pid, result).0,
            )
        }),
{
    let (t, r) = spec_add_approval(s, origin, hash, pid, aid);
    if finds_past_expiry(s, origin, proposal_key(hash, pid)) {
        lemma_mark_expired_matches(s, proposal_key(hash, pid));
    }
    if r is Ok {
        let who = origin->Signed_0;
        let key = proposal_key(hash, pid);
        let akey = approval_key(hash, pid, aid);
        let p = s.proposals[key];
        // the list cannot already name the approving origin: its record would exist
        assert(!p.approvals.contains(aid));
        let l = p.approvals.push(aid);
        assert(l[l.len() - 1] == aid);
        assert forall|x: u64| #[trigger] l.contains(x) <==> (p.approvals.contains(x) || x == aid) by {
            if p.approvals.contains(x) {
                let j = choose|j: int| 0 <= j < p.approvals.len() && p.approvals[j] == x;
                assert(l[j] == x);
            }
            if l.contains(x) && x != aid {
                let j = choose|j: int| 0 <= j < l.len() && l[j] == x;
                assert(j < p.approvals.len());
                assert(p.approvals[j] == x);
            }
        }
        let s2 = spec_maybe_execute_input(s, who, hash, pid, aid);
        assert(s2.proposals[key].approvals == l);
        assert forall|ak: ApprovalKey| #[trigger] s2.approvals.contains_key(ak) implies record_backed(s2, ak) by {
            if ak != akey {
                assert(s.approvals.contains_key(ak));
                assert(record_backed(s, ak));
                let pk = proposal_key(ak.hash, ak.origin_id);
                if pk == key {
                    assert(l.contains(ak.approval_origin_id));
                }
            }
        }
        assert forall|pk: ProposalKey, a: u64|
            s2.proposals.contains_key(pk) && s2.proposals[pk].status == ProposalStatus::Pending
                && #[trigger] s2.proposals[pk].approvals.contains(a)
                implies s2.approvals.contains_key(approval_key(pk.hash, pk.origin_id, a)) by {
            if pk != key {
                assert(s.proposals[pk] == s2.proposals[pk]);
            } else {
                assert(l.contains(a));
                if a != aid {
                    assert(p.approvals.contains(a));
                }
            }
        }
        assert(records_match_lists(s2));
        if r matches Ok(Some(_)) {
            let f = spec_complete_execution(t, hash, pid, result).0;
            assert forall|ak: ApprovalKey| #[trigger] f.approvals.contains_key(ak) implies record_backed(f, ak) by {
                assert(s2.approvals.contains_key(ak));
                assert(record_backed(s2, ak));
                assert(!approval_prefix(hash, pid).contains(ak));
            }
            assert forall|pk: ProposalKey, a: u64|
                f.proposals.contains_key(pk) && f.proposals[pk].status == ProposalStatus::Pending
                    && #[trigger] f.proposals[pk].approvals.contains(a)
                    implies f.approvals.contains_key(approval_key(pk.hash, pk.origin_id, a)) by {
                assert(pk != key);
                assert(s2.proposals[pk] == f.proposals[pk]);
                assert(s2.approvals.contains_key(approval_key(pk.hash, pk.origin_id, a)));
            }
        } else {
            assert(t == s2);
        }
    }
}

/// The state an approval reaches before the execution check.
spec fn spec_maybe_execute_input(s: PalletState, who: u64, hash: [u8; 32], pid: u64, aid: u64) -> PalletState {
    let key = proposal_key(hash, pid);
    let p = s.proposals[key];
    PalletState {
        proposals: s.proposals.insert(key, ProposalView { approvals: p.approvals.push(aid), ..p }),
        approvals: s.approvals.insert(approval_key(hash, pid, aid), who),
        events: s.events.push(Event::OriginApprovalAdded {
            proposal_hash: hash,
            origin_id: pid,
            approval_origin_id: aid,
            who,
        }),
        ..s
    }
}

proof fn lemma_dropping_proposal_matches(s: PalletState, hash: [u8; 32], origin_id: u64, t: PalletState)
    requires
        records_match_lists(s),
        t.proposals == s.proposals.remove(proposal_key(hash, origin_id)),
        t.approvals == s.approvals.remove_keys(approval_prefix(hash, origin_id)),
    ensures
        records_match_lists(t),
{
    let key = proposal_key(hash, origin_id);
    assert forall|ak: ApprovalKey| #[trigger] t.approvals.contains_key(ak) implies record_backed(t, ak) by {
        assert(s.approvals.contains_key(ak));
        assert(record_backed(s, ak));
        assert(!approval_prefix(hash, origin_id).contains(ak));
    }
    assert forall|pk: ProposalKey, a: u64|
        t.proposals.contains_key(pk) && t.proposals[pk].status == ProposalStatus::Pending
            && #[trigger] t.proposals[pk].approvals.contains(a)
            implies t.approvals.contains_key(approval_key(pk.hash, pk.origin_id, a)) by {
        assert(pk != key);
        assert(s.proposals[pk] == t.proposals[pk]);
        assert(s.approvals.contains_key(approval_key(pk.hash, pk.origin_id, a)));
    }
}

proof fn lemma_withdraw_matches(s: PalletState, origin: RawOrigin, hash: [u8; 32], origin_id: u64, wid: u64)
    requires
        state_ok(s),
        records_match_lists(s),
    ensures
        records_match_lists(spec_withdraw_approval(s, origin, hash, origin_id, wid).0),
{
    let (t, r) = spec_withdraw_approval(s, origin, hash, origin_id, wid);
    if finds_past_expiry(s, origin, proposal_key(hash, origin_id)) {
        lemma_mark_expired_matches(s, proposal_key(hash, origin_id));
    }
    if r is Ok {
        let key = proposal_key(hash, origin_id);
        let akey = approval_key(hash, origin_id, wid);
        let p = s.proposals[key];
        assert(proposal_ok(p));
        let l = p.approvals;
        let j0 = choose|j: int| 0 <= j < l.len() && l[j] == wid;
        assert(exists|i: int| 0 <= i < l.len() && l[i] == wid && forall|j: int| 0 <= j < i ==> l[j] != wid) by {
            assert(l[j0] == wid);
            let i = choose|i: int| 0 <= i < l.len() && l[i] == wid && forall|j: int| 0 <= j < i ==> l[j] != wid;
        }
        let i = first_index(l, wid);
        lemma_swap_remove_elements(l, i);
        let nl = l.update(i, l.last()).drop_last();
        assert(t.proposals[key].approvals == nl);
        assert forall|ak: ApprovalKey| #[trigger] t.approvals.contains_key(ak) implies record_backed(t, ak) by {
            assert(s.approvals.contains_key(ak));
            assert(record_backed(s, ak));
            let pk = proposal_key(ak.hash, ak.origin_id);
            if pk == key {
                assert(ak.approval_origin_id != wid);
                assert(nl.contains(ak.approval_origin_id));
            }
        }
        assert forall|pk: ProposalKey, a: u64|
            t.proposals.contains_key(pk) && t.proposals[pk].status == ProposalStatus::Pending
                && #[trigger] t.proposals[pk].approvals.contains(a)
                implies t.approvals.contains_key(approval_key(pk.hash, pk.origin_id, a)) by {
            if pk != key {
                assert(s.proposals[pk] == t.proposals[pk]);
            } else {
                assert(nl.contains(a));
                assert(l.contains(a) && a != wid);
            }
        }
    }
}

/// For every pending proposal, the approval records and the approval list
/// name the same origins, and every record belongs to a proposal that has
/// not been executed: every dispatchable keeps this, an approval that
/// executes the proposal together with the completion of its execution
/// included, whether the dispatch succeeded or failed.
pub proof fn records_stay_matched_with_lists(
    s: PalletState,
    origin: RawOrigin,
    call: Seq<u8>,
    hash: [u8; 32],
    origin_id: u64,
    other_origin_id: u64,
    expiry: Option<u64>,
    governance_admits: bool,
    new_value: u128,
    result: Result<(), DispatchError>,
)
    requires
        state_ok(s),
        records_match_lists(s),
    ensures
        records_match_lists(spec_propose(s, origin, call, hash, origin_id, expiry).0),
        ({
            let (t, r) = spec_add_approval(s, origin, hash, origin_id, other_origin_id);
            &&& !(r matches Ok(Some(_))) ==> records_match_lists(t)
            &&& r matches Ok(Some(_)) ==> records_match_lists(
                spec_complete_execution(t, hash, origin_id, result).0,
            )
        }),
        records_match_lists(spec_cancel_proposal(s, origin, hash, origin_id).0),
        records_match_lists(spec_remove(s, origin, hash, origin_id, governance_admits).0),
        records_match_lists(spec_withdraw_approval(s, origin, hash, origin_id, other_origin_id).0),
        records_match_lists(spec_set_dummy(s, origin, new_value).0),
{
    lemma_propose_matches(s, origin, call, hash, origin_id, expiry);
    lemma_add_approval_matches(s, origin, hash, origin_id, other_origin_id, result);
    let (c, rc) = spec_cancel_proposal(s, origin, hash, origin_id);
    if rc is Ok {
        lemma_dropping_proposal_matches(s, hash, origin_id, c);
    }
    let (m, rm) = spec_remove(s, origin, hash, origin_id, governance_admits);
    if rm is Ok {
        lemma_dropping_proposal_matches(s, hash, origin_id, m);
    }
    lemma_withdraw_matches(s, origin, hash, origin_id, other_origin_id);
}

} // verus!
