//! The pallet: its storage, and the dispatchables that propose, approve,
//! cancel, remove and withdraw approvals of proposals.
use vstd::prelude::*;

use crate::bounded::{
    approval_list, approval_list_get, approval_list_len, approval_list_new, approval_list_swap_remove,
    approval_list_try_push, ApprovalList, MAX_APPROVALS,
};
use crate::hashing::{blake2_256, blake2_256_of};
use crate::model::{
    first_index, lemma_push_distinct, lemma_swap_remove_distinct, mark_expired, past_expiry,
    proposal_ok, spec_add_approval, spec_cancel_proposal, spec_complete_execution,
    spec_maybe_execute, spec_propose, spec_remove, spec_set_dummy, spec_withdraw_approval,
    state_ok, PalletState,
};
use crate::origin::{ensure_root, ensure_signed, EnsureOrigin, RawOrigin};
use crate::table::{ApprovalKey, ProposalKey, Table};
use crate::types::{
    Config, DispatchError, Error, Event, ProposalInfo, ProposalStatus, ProposalView, TimePoint,
};

verus! {

/// Whether `list` holds `x`.
pub fn list_contains(list: &ApprovalList, x: u64) -> (r: bool)
    ensures
        r == approval_list(*list).contains(x),
{
    match list_position(list, x) {
        Some(_) => true,
        None => false,
    }
}

/// Position of the first occurrence of `x` in `list`.
pub fn list_position(list: &ApprovalList, x: u64) -> (r: Option<usize>)
    ensures
        match r {
            Some(i) => i < approval_list(*list).len() && approval_list(*list)[i as int] == x
                && forall|j: int| 0 <= j < i ==> approval_list(*list)[j] != x,
            None => !approval_list(*list).contains(x),
        },
{
    let n = approval_list_len(list);
    let mut i: usize = 0;
    while i < n
        invariant
            n == approval_list(*list).len(),
            0 <= i <= n,
            forall|j: int| 0 <= j < i ==> approval_list(*list)[j] != x,
        decreases n - i,
    {
        if approval_list_get(list, i) == x {
            return Some(i);
        }
        i = i + 1;
    }
    None
}

/// The first occurrence found by a scan is the one `first_index` names.
proof fn lemma_first_index(s: Seq<u64>, x: u64, i: int)
    requires
        0 <= i < s.len(),
        s[i] == x,
        forall|j: int| 0 <= j < i ==> s[j] != x,
    ensures
        first_index(s, x) == i,
{
    let c = first_index(s, x);
    assert(0 <= c < s.len() && s[c] == x && forall|j: int| 0 <= j < c ==> s[j] != x);
    if c < i {
        assert(s[c] != x);
    } else if c > i {
        assert(s[i] != x);
    }
}

/// The index of each error: its position in the declaration of [`Error`].
pub open spec fn error_index_of(error: Error) -> u8 {
    match error {
        Error::ProposalAlreadyExists => 0,
        Error::ProposalNotFound => 1,
        Error::CannotApproveOwnProposalUsingDifferentOrigin => 2,
        Error::TooManyApprovals => 3,
        Error::NotAuthorized => 4,
        Error::ProposalNotPending => 5,
        Error::ProposalAlreadyExecuted => 6,
        Error::ProposalExpired => 7,
        Error::ProposalNotExpired => 8,
        Error::ProposalCancelled => 9,
        Error::OriginAlreadyApproved => 10,
        Error::InsufficientApprovals => 11,
        Error::OriginApprovalNotFound => 12,
        Error::FailedToExecute => 13,
    }
}

/// What an execution carries: the call to dispatch and the proposal it
/// belongs to.
pub struct ExecutionView {
    pub call: Seq<u8>,
    pub call_hash: [u8; 32],
    pub origin_id: u64,
}

/// A proposal's call, handed out by the approval that executes the
/// proposal, to be dispatched with the root origin and then reported to
/// [`Pallet::complete_execution`].
pub struct Execution {
    call: Vec<u8>,
    call_hash: [u8; 32],
    origin_id: u64,
}

impl View for Execution {
    type V = ExecutionView;

    closed spec fn view(&self) -> ExecutionView {
        ExecutionView {
            call: self.call@,
            call_hash: self.call_hash,
            origin_id: self.origin_id,
        }
    }
}

impl Execution {
    /// The encoded call to dispatch.
    pub fn call(&self) -> (c: &Vec<u8>)
        ensures
            c@ == self@.call,
    {
        &self.call
    }

    /// The hash of the proposal's call.
    pub fn call_hash(&self) -> (h: [u8; 32])
        ensures
            h == self@.call_hash,
    {
        self.call_hash
    }

    /// The origin that made the proposal.
    pub fn origin_id(&self) -> (o: u64)
        ensures
            o == self@.origin_id,
    {
        self.origin_id
    }
}

/// The dispatch outcome of `add_approval` with the call as bytes.
pub open spec fn execution_outcome(r: Result<Option<Execution>, DispatchError>) -> Result<Option<Seq<u8>>, DispatchError> {
    match r {
        Ok(Some(e)) => Ok(Some(e@.call)),
        Ok(None) => Ok(None),
        Err(e) => Err(e),
    }
}

/// The pallet's storage together with the current block number and the
/// events deposited so far.
pub struct Pallet {
    config: Config,
    block_number: u64,
    extrinsic_index: Option<u32>,
    proposals: Table<ProposalKey, ProposalInfo>,
    approvals: Table<ApprovalKey, u64>,
    proposal_calls: Table<[u8; 32], Vec<u8>>,
    current_timepoint: Option<TimePoint>,
    executed_calls: Table<TimePoint, [u8; 32]>,
    dummy: Option<u128>,
    events: Vec<Event>,
}

impl View for Pallet {
    type V = PalletState;

    closed spec fn view(&self) -> PalletState {
        PalletState {
            proposal_lifetime: self.config.proposal_lifetime,
            block_number: self.block_number,
            extrinsic_index: self.extrinsic_index,
            proposals: self.proposals.map(),
            approvals: self.approvals.map(),
            proposal_calls: self.proposal_calls.map(),
            current_timepoint: self.current_timepoint,
            executed_calls: self.executed_calls.map(),
            dummy: self.dummy,
            events: self.events@,
        }
    }
}

impl Pallet {
    /// The storage is well formed.
    pub closed spec fn wf(&self) -> bool {
        &&& self.proposals.wf()
        &&& self.approvals.wf()
        &&& self.proposal_calls.wf()
        &&& self.executed_calls.wf()
        &&& state_ok(self@)
    }

    /// A well-formed pallet's storage satisfies the invariant the laws assume.
    pub proof fn lemma_state_ok(&self)
        requires
            self.wf(),
        ensures
            state_ok(self@),
    {
    }

    /// Empty storage at block zero.
    pub fn new(config: Config) -> (p: Self)
        ensures
            p.wf(),
            p@ == (PalletState {
                proposal_lifetime: config.proposal_lifetime,
                block_number: 0,
                extrinsic_index: None,
                proposals: Map::empty(),
                approvals: Map::empty(),
                proposal_calls: Map::empty(),
                current_timepoint: None,
                executed_calls: Map::empty(),
                dummy: None,
                events: Seq::empty(),
            }),
    {
        let p = Pallet {
            config,
            block_number: 0,
            extrinsic_index: None,
            proposals: Table::new(),
            approvals: Table::new(),
            proposal_calls: Table::new(),
            current_timepoint: None,
            executed_calls: Table::new(),
            dummy: None,
            events: Vec::new(),
        };
        assert(p@.events =~= Seq::<Event>::empty());
        p
    }

    /// Moves to block `n`.
    pub fn set_block_number(&mut self, n: u64)
        requires
            old(self).wf(),
        ensures
            final(self).wf(),
            final(self)@ == (PalletState { block_number: n, ..old(self)@ }),
    {
        self.block_number = n;
        assert(self@ =~= (PalletState { block_number: n, ..old(self)@ }));
    }

    /// Moves to the extrinsic of index `i` in the current block, or out of
    /// any extrinsic.
    pub fn set_extrinsic_index(&mut self, i: Option<u32>)
        requires
            old(self).wf(),
        ensures
            final(self).wf(),
            final(self)@ == (PalletState { extrinsic_index: i, ..old(self)@ }),
    {
        self.extrinsic_index = i;
        assert(self@ =~= (PalletState { extrinsic_index: i, ..old(self)@ }));
    }

    /// The index of the extrinsic being applied, if any.
    pub fn extrinsic_index(&self) -> (i: Option<u32>)
        ensures
            i == self@.extrinsic_index,
    {
        self.extrinsic_index
    }

    /// The current block number.
    pub fn block_number(&self) -> (n: u64)
        ensures
            n == self@.block_number,
    {
        self.block_number
    }

    /// The events deposited so far, oldest first.
    pub fn events(&self) -> (e: &Vec<Event>)
        ensures
            e@ == self@.events,
    {
        &self.events
    }

    /// The proposal of `call_hash` made with `origin_id`.
    pub fn proposals(&self, call_hash: [u8; 32], origin_id: u64) -> (r: Option<&ProposalInfo>)
        requires
            self.wf(),
        ensures
            r is Some == self@.proposals.contains_key(ProposalKey { hash: call_hash, origin_id }),
            r matches Some(p) ==> p@ == self@.proposals[ProposalKey { hash: call_hash, origin_id }],
    {
        self.proposals.get(&ProposalKey { hash: call_hash, origin_id })
    }

    /// The account that approved the proposal `(call_hash, origin_id)` with
    /// `approval_origin_id`.
    pub fn approvals(&self, call_hash: [u8; 32], origin_id: u64, approval_origin_id: u64) -> (r: Option<u64>)
        requires
            self.wf(),
        ensures
            r is Some == self@.approvals.contains_key(ApprovalKey { hash: call_hash, origin_id, approval_origin_id }),
            r matches Some(a) ==> a == self@.approvals[ApprovalKey { hash: call_hash, origin_id, approval_origin_id }],
    {
        match self.approvals.get(&ApprovalKey { hash: call_hash, origin_id, approval_origin_id }) {
            Some(a) => Some(*a),
            None => None,
        }
    }

    /// The stored call of `call_hash`.
    pub fn proposal_calls(&self, call_hash: [u8; 32]) -> (r: Option<&Vec<u8>>)
        requires
            self.wf(),
        ensures
            r is Some == self@.proposal_calls.contains_key(call_hash),
            r matches Some(c) ==> c@ == self@.proposal_calls[call_hash],
    {
        self.proposal_calls.get(&call_hash)
    }

    /// The time point of the last execution.
    pub fn current_timepoint(&self) -> (r: Option<TimePoint>)
        ensures
            r == self@.current_timepoint,
    {
        self.current_timepoint
    }

    /// The call hash executed at `time`.
    pub fn executed_calls(&self, time: TimePoint) -> (r: Option<[u8; 32]>)
        requires
            self.wf(),
        ensures
            r is Some == self@.executed_calls.contains_key(time),
            r matches Some(h) ==> h@ == self@.executed_calls[time],
    {
        match self.executed_calls.get(&time) {
            Some(h) => Some(*h),
            None => None,
        }
    }

    /// The dummy value.
    pub fn dummy(&self) -> (r: Option<u128>)
        ensures
            r == self@.dummy,
    {
        self.dummy
    }

    /// The hash under which an encoded call is proposed.
    pub fn hash_of(call: &[u8]) -> (h: [u8; 32])
        ensures
            h == blake2_256_of(call@),
    {
        blake2_256(call)
    }

    /// Submit a proposal for approval, recording the first origin's approval.
    /// `call` is the encoded call; it is stored under its hash.
    pub fn propose(&mut self, origin: RawOrigin, call: Vec<u8>, origin_id: u64, expiry: Option<u64>) -> (r: Result<(), DispatchError>)
        requires
            old(self).wf(),
        ensures
            final(self).wf(),
            (final(self)@, r) == spec_propose(old(self)@, origin, call@, blake2_256_of(call@), origin_id, expiry),
    {
        let call_hash = blake2_256(call.as_slice());
        self.propose_hashed(origin, call, call_hash, origin_id, expiry)
    }

    /// `propose` for a call whose hash is `call_hash`.
    pub fn propose_hashed(&mut self, origin: RawOrigin, call: Vec<u8>, call_hash: [u8; 32], origin_id: u64, expiry: Option<u64>) -> (r: Result<(), DispatchError>)
        requires
            old(self).wf(),
        ensures
            final(self).wf(),
            (final(self)@, r) == spec_propose(old(self)@, origin, call@, call_hash, origin_id, expiry),
    {
        let ghost s = self@;
        let who = match ensure_signed(origin) {
            Ok(w) => w,
            Err(e) => return Err(e),
        };
        let key = ProposalKey { hash: call_hash, origin_id };
        if self.proposals.contains_key(&key) {
            return Err(DispatchError::Pallet(Error::ProposalAlreadyExists));
        }
        let current_block = self.block_number;
        let expiry_block = match expiry {
            Some(e) => {
                if !(current_block <= e) {
                    return Err(DispatchError::Pallet(Error::ProposalExpired));
                }
                Some(e)
            },
            None => Some(current_block.saturating_add(self.config.proposal_lifetime)),
        };
        let mut approvals = approval_list_new();
        match approval_list_try_push(&mut approvals, origin_id) {
            Ok(()) => {},
            Err(_) => return Err(DispatchError::Pallet(Error::TooManyApprovals)),
        }
        let info = ProposalInfo {
            call_hash,
            expiry: expiry_block,
            approvals,
            status: ProposalStatus::Pending,
            proposer: who,
        };
        assert(info@.approvals =~= seq![origin_id]);
        let ghost pv = info@;
        self.proposals.insert(key, info);
        self.approvals.insert(ApprovalKey { hash: call_hash, origin_id, approval_origin_id: origin_id }, who);
        let ghost call_view = call@;
        self.proposal_calls.insert(call_hash, call);
        self.events.push(Event::ProposalCreated { proposal_hash: call_hash, origin_id });
        proof {
            let t = spec_propose(s, origin, call_view, call_hash, origin_id, expiry).0;
            assert(self@ =~= t);
            assert forall|k: ProposalKey| #[trigger] self@.proposals.contains_key(k) implies proposal_ok(self@.proposals[k]) by {
                if k != key {
                    assert(s.proposals.contains_key(k));
                }
            }
        }
        Ok(())
    }

    /// Whether the proposal under `key` has passed its expiry block; if it
    /// has, its status is updated to expired in storage and the expiry
    /// reported.
    fn is_expired(&mut self, key: &ProposalKey) -> (r: bool)
        requires
            old(self).wf(),
            old(self)@.proposals.contains_key(*key),
        ensures
            final(self).wf(),
            r == past_expiry(old(self)@.proposals[*key], old(self)@.block_number),
            final(self)@ == if r { mark_expired(old(self)@, *key) } else { old(self)@ },
    {
        let ghost s = self@;
        let expiry = match self.proposals.get(key) {
            Some(p) => p.expiry,
            None => None,
        };
        let past = match expiry {
            Some(e) => self.block_number > e,
            None => false,
        };
        if past {
            let mut info = self.proposals.remove(key).unwrap();
            info.status = ProposalStatus::Expired;
            self.proposals.insert(*key, info);
            self.events.push(Event::ProposalExpired { proposal_hash: key.hash, origin_id: key.origin_id });
            proof {
                assert(self@ =~= mark_expired(s, *key));
                assert forall|k: ProposalKey| #[trigger] self@.proposals.contains_key(k) implies proposal_ok(self@.proposals[k]) by {
                    assert(s.proposals.contains_key(k));
                }
            }
        }
        past
    }

    /// Marks the proposal executed, recording the execution under the
    /// current time point, and hands back its call when it is pending, has
    /// enough approvals and its call is stored.
    fn maybe_execute(&mut self, key: &ProposalKey) -> (r: Option<Vec<u8>>)
        requires
            old(self).wf(),
            old(self)@.proposals.contains_key(*key),
        ensures
            final(self).wf(),
            final(self)@ == spec_maybe_execute(old(self)@, *key).0,
            spec_maybe_execute(old(self)@, *key).1 == Ok::<Option<Seq<u8>>, DispatchError>(match r { Some(c) => Some(c@), None => None }),
    {
        let ghost s = self@;
        let (status, count) = match self.proposals.get(key) {
            Some(p) => (p.status, approval_list_len(&p.approvals)),
            None => return None,
        };
        if status == ProposalStatus::Pending && count >= MAX_APPROVALS as usize {
            let call = match self.proposal_calls.get(&key.hash) {
                Some(c) => c.clone(),
                None => return None,
            };
            assert(call@ =~= s.proposal_calls[key.hash]);
            let index = match self.extrinsic_index {
                Some(i) => i,
                None => 0,
            };
            let time = TimePoint { height: self.block_number, index };
            self.current_timepoint = Some(time);
            self.executed_calls.insert(time, key.hash);
            let mut info = self.proposals.remove(key).unwrap();
            info.status = ProposalStatus::Executed;
            self.proposals.insert(*key, info);
            proof {
                assert(self@ =~= spec_maybe_execute(s, *key).0);
                assert forall|k: ProposalKey| #[trigger] self@.proposals.contains_key(k) implies proposal_ok(self@.proposals[k]) by {
                    assert(s.proposals.contains_key(k));
                }
            }
            Some(call)
        } else {
            None
        }
    }

    /// Approve a previously submitted proposal. A proposal found past its
    /// expiry is marked expired (and the expiry reported) and
    /// `ProposalExpired` returned; any other error leaves the state as it
    /// was. When the approval brings the proposal to `MAX_APPROVALS`
    /// approvals and its call is stored, the proposal is marked executed and
    /// an [`Execution`] handed back: the caller dispatches its call with the
    /// root origin and reports the outcome to `complete_execution`.
    pub fn add_approval(&mut self, origin: RawOrigin, call_hash: [u8; 32], proposal_origin_id: u64, approval_origin_id: u64) -> (r: Result<Option<Execution>, DispatchError>)
        requires
            old(self).wf(),
        ensures
            final(self).wf(),
            (final(self)@, execution_outcome(r)) == spec_add_approval(old(self)@, origin, call_hash, proposal_origin_id, approval_origin_id),
            r matches Ok(Some(e)) ==> e@.call_hash == call_hash && e@.origin_id == proposal_origin_id,
    {
        let ghost s = self@;
        let who = match ensure_signed(origin) {
            Ok(w) => w,
            Err(e) => return Err(e),
        };
        let key = ProposalKey { hash: call_hash, origin_id: proposal_origin_id };
        if !self.proposals.contains_key(&key) {
            return Err(DispatchError::Pallet(Error::ProposalNotFound));
        }
        if self.is_expired(&key) {
            return Err(DispatchError::Pallet(Error::ProposalExpired));
        }
        assert(self@ == s);
        let (status, proposer, already, count) = match self.proposals.get(&key) {
            Some(p) => (p.status, p.proposer, list_contains(&p.approvals, approval_origin_id), approval_list_len(&p.approvals)),
            None => return Err(DispatchError::Pallet(Error::ProposalNotFound)),
        };
        if status != ProposalStatus::Pending {
            return Err(DispatchError::Pallet(Error::ProposalNotPending));
        }
        if proposer == who && proposal_origin_id != approval_origin_id {
            return Err(DispatchError::Pallet(Error::CannotApproveOwnProposalUsingDifferentOrigin));
        }
        let akey = ApprovalKey { hash: call_hash, origin_id: proposal_origin_id, approval_origin_id };
        if self.approvals.contains_key(&akey) {
            return Err(DispatchError::Pallet(Error::OriginAlreadyApproved));
        }
        if !already && count >= MAX_APPROVALS as usize {
            return Err(DispatchError::Pallet(Error::TooManyApprovals));
        }
        self.approvals.insert(akey, who);
        let ghost s1 = self@;
        let ghost p = s.proposals[key];
        if !already {
            let mut info = self.proposals.remove(&key).unwrap();
            let _ = approval_list_try_push(&mut info.approvals, approval_origin_id);
            self.proposals.insert(key, info);
        }
        self.events.push(Event::OriginApprovalAdded {
            proposal_hash: call_hash,
            origin_id: proposal_origin_id,
            approval_origin_id,
            who,
        });
        proof {
            let approvals = if p.approvals.contains(approval_origin_id) {
                p.approvals
            } else {
                p.approvals.push(approval_origin_id)
            };
            let s2 = PalletState {
                proposals: s1.proposals.insert(key, ProposalView { approvals, ..p }),
                events: s1.events.push(Event::OriginApprovalAdded {
                    proposal_hash: call_hash,
                    origin_id: proposal_origin_id,
                    approval_origin_id,
                    who,
                }),
                ..s1
            };
            assert(self@.proposals =~= s2.proposals);
            assert(self@ =~= s2);
            assert forall|k: ProposalKey| #[trigger] self@.proposals.contains_key(k) implies proposal_ok(self@.proposals[k]) by {
                if k != key {
                    assert(s.proposals.contains_key(k));
                } else {
                    assert(proposal_ok(p));
                    if !p.approvals.contains(approval_origin_id) {
                        lemma_push_distinct(p.approvals, approval_origin_id);
                    }
                }
            }
        }
        match self.maybe_execute(&key) {
            Some(call) => Ok(Some(Execution { call, call_hash, origin_id: proposal_origin_id })),
            None => Ok(None),
        }
    }

    /// Reports the outcome of dispatching an executed proposal's call. The
    /// proposal stays marked executed either way: its approvals and stored
    /// call are cleared and the execution reported with the dispatch's
    /// result. A failed dispatch is returned as `FailedToExecute`.
    pub fn complete_execution(&mut self, execution: Execution, result: Result<(), DispatchError>) -> (r: Result<(), DispatchError>)
        requires
            old(self).wf(),
        ensures
            final(self).wf(),
            (final(self)@, r) == spec_complete_execution(old(self)@, execution@.call_hash, execution@.origin_id, result),
    {
        let ghost s = self@;
        let Execution { call: _, call_hash, origin_id } = execution;
        self.approvals.remove_prefix(&call_hash, origin_id);
        self.proposal_calls.remove(&call_hash);
        let failed = result.is_err();
        self.events.push(Event::ProposalExecuted { proposal_hash: call_hash, origin_id, result });
        assert(self@ =~= spec_complete_execution(s, call_hash, origin_id, result).0);
        if failed {
            Err(DispatchError::Pallet(Error::FailedToExecute))
        } else {
            Ok(())
        }
    }

    /// Cancel a pending proposal; only the account that proposed it may.
    pub fn cancel_proposal(&mut self, origin: RawOrigin, proposal_hash: [u8; 32], origin_id: u64) -> (r: Result<(), DispatchError>)
        requires
            old(self).wf(),
        ensures
            final(self).wf(),
            (final(self)@, r) == spec_cancel_proposal(old(self)@, origin, proposal_hash, origin_id),
    {
        let ghost s = self@;
        let who = match ensure_signed(origin) {
            Ok(w) => w,
            Err(e) => return Err(e),
        };
        let key = ProposalKey { hash: proposal_hash, origin_id };
        let (status, proposer) = match self.proposals.get(&key) {
            Some(p) => (p.status, p.proposer),
            None => return Err(DispatchError::Pallet(Error::ProposalNotFound)),
        };
        if status != ProposalStatus::Pending {
            return Err(DispatchError::Pallet(Error::ProposalNotPending));
        }
        if who != proposer {
            return Err(DispatchError::Pallet(Error::NotAuthorized));
        }
        let mut info = self.proposals.remove(&key).unwrap();
        info.status = ProposalStatus::Cancelled;
        self.approvals.remove_prefix(&proposal_hash, origin_id);
        self.proposals.insert(key, info);
        self.proposal_calls.remove(&proposal_hash);
        self.proposals.remove(&key);
        self.events.push(Event::ProposalCancelled { proposal_hash, origin_id });
        proof {
            assert(self@.proposals =~= s.proposals.remove(key));
            assert(self@ =~= spec_cancel_proposal(s, origin, proposal_hash, origin_id).0);
            assert forall|k: ProposalKey| #[trigger] self@.proposals.contains_key(k) implies proposal_ok(self@.proposals[k]) by {
                assert(s.proposals.contains_key(k));
            }
        }
        Ok(())
    }

    /// Remove an expired proposal from storage: one whose status says it
    /// expired or whose expiry block has passed. The signer must be the
    /// account that proposed it, or the origin must pass the governance check `G`.
    pub fn remove<G: EnsureOrigin>(&mut self, origin: RawOrigin, call_hash: [u8; 32], origin_id: u64) -> (r: Result<(), DispatchError>)
        requires
            old(self).wf(),
        ensures
            final(self).wf(),
            (final(self)@, r) == spec_remove(old(self)@, origin, call_hash, origin_id, G::admits(origin)),
    {
        let ghost s = self@;
        let who = match ensure_signed(origin) {
            Ok(w) => w,
            Err(e) => return Err(e),
        };
        let key = ProposalKey { hash: call_hash, origin_id };
        let (status, proposer, expiry) = match self.proposals.get(&key) {
            Some(p) => (p.status, p.proposer, p.expiry),
            None => return Err(DispatchError::Pallet(Error::ProposalNotFound)),
        };
        let past = match expiry {
            Some(e) => self.block_number > e,
            None => false,
        };
        if !(status == ProposalStatus::Expired || past) {
            return Err(DispatchError::Pallet(Error::ProposalNotExpired));
        }
        let is_proposer = who == proposer;
        let is_governance = G::try_origin(origin).is_ok();
        if !(is_proposer || is_governance) {
            return Err(DispatchError::Pallet(Error::NotAuthorized));
        }
        self.proposal_calls.remove(&call_hash);
        self.approvals.remove_prefix(&call_hash, origin_id);
        self.proposals.remove(&key);
        self.events.push(Event::ProposalRemoved { proposal_hash: call_hash, origin_id, who });
        proof {
            assert(self@ =~= spec_remove(s, origin, call_hash, origin_id, G::admits(origin)).0);
            assert forall|k: ProposalKey| #[trigger] self@.proposals.contains_key(k) implies proposal_ok(self@.proposals[k]) by {
                assert(s.proposals.contains_key(k));
            }
        }
        Ok(())
    }

    /// Withdraw an approval for the proposal associated with an origin. Only
    /// the account that gave the approval can withdraw it. A proposal found
    /// past its expiry is marked expired (and the expiry reported) and
    /// `ProposalExpired` returned; any other error leaves the state as it was.
    pub fn withdraw_approval(&mut self, origin: RawOrigin, proposal_hash: [u8; 32], origin_id: u64, withdrawing_origin_id: u64) -> (r: Result<(), DispatchError>)
        requires
            old(self).wf(),
        ensures
            final(self).wf(),
            (final(self)@, r) == spec_withdraw_approval(old(self)@, origin, proposal_hash, origin_id, withdrawing_origin_id),
    {
        let ghost s = self@;
        let who = match ensure_signed(origin) {
            Ok(w) => w,
            Err(e) => return Err(e),
        };
        let key = ProposalKey { hash: proposal_hash, origin_id };
        if !self.proposals.contains_key(&key) {
            return Err(DispatchError::Pallet(Error::ProposalNotFound));
        }
        if self.is_expired(&key) {
            return Err(DispatchError::Pallet(Error::ProposalExpired));
        }
        assert(self@ == s);
        let (status, position) = match self.proposals.get(&key) {
            Some(p) => (p.status, list_position(&p.approvals, withdrawing_origin_id)),
            None => return Err(DispatchError::Pallet(Error::ProposalNotFound)),
        };
        if status != ProposalStatus::Pending {
            return Err(DispatchError::Pallet(Error::ProposalNotPending));
        }
        let akey = ApprovalKey { hash: proposal_hash, origin_id, approval_origin_id: withdrawing_origin_id };
        let approval_account = match self.approvals.get(&akey) {
            Some(a) => *a,
            None => return Err(DispatchError::Pallet(Error::OriginApprovalNotFound)),
        };
        if approval_account != who {
            return Err(DispatchError::Pallet(Error::NotAuthorized));
        }
        let pos = match position {
            Some(i) => i,
            None => return Err(DispatchError::Pallet(Error::OriginApprovalNotFound)),
        };
        let ghost p = s.proposals[key];
        proof {
            lemma_first_index(p.approvals, withdrawing_origin_id, pos as int);
            lemma_swap_remove_distinct(p.approvals, pos as int);
        }
        let mut info = self.proposals.remove(&key).unwrap();
        approval_list_swap_remove(&mut info.approvals, pos);
        self.proposals.insert(key, info);
        self.approvals.remove(&akey);
        self.events.push(Event::OriginApprovalWithdrawn { proposal_hash, origin_id, withdrawing_origin_id });
        proof {
            assert(self@ =~= spec_withdraw_approval(s, origin, proposal_hash, origin_id, withdrawing_origin_id).0);
            assert forall|k: ProposalKey| #[trigger] self@.proposals.contains_key(k) implies proposal_ok(self@.proposals[k]) by {
                assert(s.proposals.contains_key(k));
            }
        }
        Ok(())
    }

    /// A privileged call: root stores a new dummy value.
    pub fn set_dummy(&mut self, origin: RawOrigin, new_value: u128) -> (r: Result<(), DispatchError>)
        requires
            old(self).wf(),
        ensures
            final(self).wf(),
            (final(self)@, r) == spec_set_dummy(old(self)@, origin, new_value),
    {
        let ghost s = self@;
        match ensure_root(origin) {
            Ok(()) => {},
            Err(e) => return Err(e),
        }
        self.dummy = Some(new_value);
        self.events.push(Event::SetDummy { balance: new_value });
        assert(self@ =~= spec_set_dummy(s, origin, new_value).0);
        Ok(())
    }

    /// The index of `error`: its position in the declaration of [`Error`].
    pub fn error_index(error: Error) -> (i: u8)
        ensures
            i == error_index_of(error),
    {
        match error {
            Error::ProposalAlreadyExists => 0,
            Error::ProposalNotFound => 1,
            Error::CannotApproveOwnProposalUsingDifferentOrigin => 2,
            Error::TooManyApprovals => 3,
            Error::NotAuthorized => 4,
            Error::ProposalNotPending => 5,
            Error::ProposalAlreadyExecuted => 6,
            Error::ProposalExpired => 7,
            Error::ProposalNotExpired => 8,
            Error::ProposalCancelled => 9,
            Error::OriginAlreadyApproved => 10,
            Error::InsufficientApprovals => 11,
            Error::OriginApprovalNotFound => 12,
            Error::FailedToExecute => 13,
        }
    }
}

} // verus!
