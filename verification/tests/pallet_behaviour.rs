//! Each dispatchable's outcomes, its errors, and the laws of the pallet on
//! concrete values.

use bounded_collections::BoundedVec;
use pallet_origin_and_gate::collective_metadata::api::{create_collective_origin, get_collective_id};
use pallet_origin_and_gate::collective_metadata::helpers::{
    collective_can_execute_call, collective_can_remove_storage_id, get_collective_privilege_level,
    is_whitelisted_collective,
};
use pallet_origin_and_gate::collective_metadata::{CollectiveType, OriginType};
use pallet_origin_and_gate::origin::{AndGate, EnsureOrigin, EnsureRoot, EnsureSignedBy, RawOrigin};
use pallet_origin_and_gate::pallet::Pallet;
use pallet_origin_and_gate::types::{
    Config, DispatchError, Error, Event, GenesisConfig, ProposalStatus, TimePoint,
};

const ALICE: u64 = 1;
const BOB: u64 = 2;
const CHARLIE: u64 = 3;
const ALICE_ORIGIN_ID: u64 = 10;
const BOB_ORIGIN_ID: u64 = 20;
const CHARLIE_ORIGIN_ID: u64 = 30;

fn set_dummy_call(value: u128) -> Vec<u8> {
    let mut call = vec![0u8, 5u8];
    call.extend_from_slice(&value.to_le_bytes());
    call
}

fn dispatch(pallet: &mut Pallet, origin: RawOrigin, call: &[u8]) -> Result<(), DispatchError> {
    match call {
        [0, 5, rest @ ..] if rest.len() == 16 => {
            let mut bytes = [0u8; 16];
            bytes.copy_from_slice(rest);
            pallet.set_dummy(origin, u128::from_le_bytes(bytes))
        },
        [1, 0, ..] => Ok(()),
        _ => Err(DispatchError::Other),
    }
}

fn approve(pallet: &mut Pallet, origin: RawOrigin, hash: [u8; 32], proposal_origin_id: u64, approval_origin_id: u64) -> Result<(), DispatchError> {
    match pallet.add_approval(origin, hash, proposal_origin_id, approval_origin_id)? {
        None => Ok(()),
        Some(execution) => {
            let call = execution.call().clone();
            let result = dispatch(pallet, RawOrigin::Root, &call);
            pallet.complete_execution(execution, result)
        },
    }
}

fn err(e: Error) -> DispatchError {
    DispatchError::Pallet(e)
}

fn fresh() -> Pallet {
    let mut pallet = Pallet::new(Config { proposal_lifetime: 100 });
    pallet.set_block_number(1);
    pallet
}

fn hex(s: &str) -> [u8; 32] {
    let mut out = [0u8; 32];
    for i in 0..32 {
        out[i] = u8::from_str_radix(&s[2 * i..2 * i + 2], 16).unwrap();
    }
    out
}

#[test]
fn hash_of_is_blake2_256() {
    assert_eq!(
        Pallet::hash_of(b""),
        hex("0e5751c026e543b2e8ab2eb06099daa1d1e5df47778f7787faab45cdf12fe3a8")
    );
    assert_eq!(
        Pallet::hash_of(b"abc"),
        hex("bddd813c634239723171ef3fee98579b94964e3bb1cb3e427262c8c068d52319")
    );
}

#[test]
fn propose_stores_proposal_approval_and_call() {
    let mut pallet = fresh();
    let call = set_dummy_call(7);
    let hash = Pallet::hash_of(&call);
    assert_eq!(pallet.propose(RawOrigin::Signed(ALICE), call.clone(), ALICE_ORIGIN_ID, None), Ok(()));
    let p = pallet.proposals(hash, ALICE_ORIGIN_ID).unwrap();
    assert_eq!(p.status, ProposalStatus::Pending);
    assert_eq!(p.proposer, ALICE);
    assert_eq!(p.expiry, Some(101));
    assert_eq!(p.call_hash, hash);
    assert_eq!(p.approvals.to_vec(), vec![ALICE_ORIGIN_ID]);
    assert_eq!(pallet.approvals(hash, ALICE_ORIGIN_ID, ALICE_ORIGIN_ID), Some(ALICE));
    assert_eq!(pallet.proposal_calls(hash), Some(&call));
    assert_eq!(pallet.events().last(), Some(&Event::ProposalCreated { proposal_hash: hash, origin_id: ALICE_ORIGIN_ID }));
}

#[test]
fn propose_errors() {
    let mut pallet = fresh();
    let call = set_dummy_call(7);
    assert_eq!(pallet.propose(RawOrigin::Root, call.clone(), ALICE_ORIGIN_ID, None), Err(DispatchError::BadOrigin));
    assert_eq!(pallet.propose(RawOrigin::Unsigned, call.clone(), ALICE_ORIGIN_ID, None), Err(DispatchError::BadOrigin));
    pallet.set_block_number(10);
    assert_eq!(pallet.propose(RawOrigin::Signed(ALICE), call.clone(), ALICE_ORIGIN_ID, Some(9)), Err(err(Error::ProposalExpired)));
    assert_eq!(pallet.propose(RawOrigin::Signed(ALICE), call.clone(), ALICE_ORIGIN_ID, Some(10)), Ok(()));
    assert_eq!(pallet.propose(RawOrigin::Signed(BOB), call.clone(), ALICE_ORIGIN_ID, None), Err(err(Error::ProposalAlreadyExists)));
    assert_eq!(pallet.events().len(), 1);
}

#[test]
fn default_expiry_saturates() {
    let mut pallet = Pallet::new(Config { proposal_lifetime: 100 });
    pallet.set_block_number(u64::MAX - 10);
    let call = set_dummy_call(1);
    let hash = Pallet::hash_of(&call);
    assert_eq!(pallet.propose(RawOrigin::Signed(ALICE), call, ALICE_ORIGIN_ID, None), Ok(()));
    assert_eq!(pallet.proposals(hash, ALICE_ORIGIN_ID).unwrap().expiry, Some(u64::MAX));
}

#[test]
fn approval_executes_and_records_time_point() {
    let mut pallet = fresh();
    pallet.set_extrinsic_index(Some(3));
    let call = set_dummy_call(42);
    let hash = Pallet::hash_of(&call);
    pallet.propose(RawOrigin::Signed(ALICE), call.clone(), ALICE_ORIGIN_ID, None).unwrap();
    let execution = pallet.add_approval(RawOrigin::Signed(BOB), hash, ALICE_ORIGIN_ID, BOB_ORIGIN_ID).unwrap().unwrap();
    assert_eq!(execution.call(), &call);
    assert_eq!(execution.call_hash(), hash);
    assert_eq!(execution.origin_id(), ALICE_ORIGIN_ID);
    let tp = TimePoint { height: 1, index: 3 };
    assert_eq!(pallet.current_timepoint(), Some(tp));
    assert_eq!(pallet.executed_calls(tp), Some(hash));
    assert_eq!(pallet.proposals(hash, ALICE_ORIGIN_ID).unwrap().status, ProposalStatus::Executed);
    let result = dispatch(&mut pallet, RawOrigin::Root, &call);
    assert_eq!(pallet.complete_execution(execution, result), Ok(()));
    assert_eq!(pallet.dummy(), Some(42));
    assert_eq!(pallet.approvals(hash, ALICE_ORIGIN_ID, ALICE_ORIGIN_ID), None);
    assert_eq!(pallet.approvals(hash, ALICE_ORIGIN_ID, BOB_ORIGIN_ID), None);
    assert_eq!(pallet.proposal_calls(hash), None);
    assert_eq!(pallet.events().last(), Some(&Event::ProposalExecuted { proposal_hash: hash, origin_id: ALICE_ORIGIN_ID, result: Ok(()) }));
    // an executed proposal takes no more approvals
    assert_eq!(
        pallet.add_approval(RawOrigin::Signed(CHARLIE), hash, ALICE_ORIGIN_ID, CHARLIE_ORIGIN_ID).err(),
        Some(err(Error::ProposalNotPending))
    );
}

#[test]
fn failed_dispatch_is_recorded() {
    let mut pallet = fresh();
    pallet.set_extrinsic_index(Some(4));
    let call = vec![9u8, 9u8];
    let hash = Pallet::hash_of(&call);
    pallet.propose(RawOrigin::Signed(ALICE), call, ALICE_ORIGIN_ID, None).unwrap();
    assert_eq!(approve(&mut pallet, RawOrigin::Signed(BOB), hash, ALICE_ORIGIN_ID, BOB_ORIGIN_ID), Err(err(Error::FailedToExecute)));
    let p = pallet.proposals(hash, ALICE_ORIGIN_ID).unwrap();
    assert_eq!(p.status, ProposalStatus::Executed);
    assert_eq!(p.approvals.to_vec(), vec![ALICE_ORIGIN_ID, BOB_ORIGIN_ID]);
    assert_eq!(pallet.approvals(hash, ALICE_ORIGIN_ID, BOB_ORIGIN_ID), None);
    assert_eq!(pallet.approvals(hash, ALICE_ORIGIN_ID, ALICE_ORIGIN_ID), None);
    assert_eq!(pallet.proposal_calls(hash), None);
    let tp = TimePoint { height: 1, index: 4 };
    assert_eq!(pallet.current_timepoint(), Some(tp));
    assert_eq!(pallet.executed_calls(tp), Some(hash));
    assert_eq!(
        pallet.events().last(),
        Some(&Event::ProposalExecuted { proposal_hash: hash, origin_id: ALICE_ORIGIN_ID, result: Err(DispatchError::Other) })
    );
    // the executed proposal takes no more approvals
    assert_eq!(
        pallet.add_approval(RawOrigin::Signed(CHARLIE), hash, ALICE_ORIGIN_ID, CHARLIE_ORIGIN_ID).err(),
        Some(err(Error::ProposalNotPending))
    );
}

#[test]
fn time_point_is_block_and_extrinsic_index() {
    let mut pallet = fresh();
    for (block, ext, v) in [(1u64, 2u32, 5u128), (2, 0, 6)] {
        pallet.set_block_number(block);
        pallet.set_extrinsic_index(Some(ext));
        let call = set_dummy_call(v);
        let hash = Pallet::hash_of(&call);
        pallet.propose(RawOrigin::Signed(ALICE), call, ALICE_ORIGIN_ID, None).unwrap();
        approve(&mut pallet, RawOrigin::Signed(BOB), hash, ALICE_ORIGIN_ID, BOB_ORIGIN_ID).unwrap();
        let tp = TimePoint { height: block, index: ext };
        assert_eq!(pallet.current_timepoint(), Some(tp));
        assert_eq!(pallet.executed_calls(tp), Some(hash));
    }
    pallet.set_extrinsic_index(None);
    let call = set_dummy_call(7);
    let hash = Pallet::hash_of(&call);
    pallet.propose(RawOrigin::Signed(ALICE), call, ALICE_ORIGIN_ID, None).unwrap();
    approve(&mut pallet, RawOrigin::Signed(BOB), hash, ALICE_ORIGIN_ID, BOB_ORIGIN_ID).unwrap();
    assert_eq!(pallet.current_timepoint(), Some(TimePoint { height: 2, index: 0 }));
}

#[test]
fn add_approval_errors() {
    let mut pallet = fresh();
    let call = set_dummy_call(3);
    let hash = Pallet::hash_of(&call);
    assert_eq!(pallet.add_approval(RawOrigin::Root, hash, ALICE_ORIGIN_ID, BOB_ORIGIN_ID).err(), Some(DispatchError::BadOrigin));
    assert_eq!(pallet.add_approval(RawOrigin::Signed(BOB), hash, ALICE_ORIGIN_ID, BOB_ORIGIN_ID).err(), Some(err(Error::ProposalNotFound)));
    pallet.propose(RawOrigin::Signed(ALICE), call, ALICE_ORIGIN_ID, None).unwrap();
    assert_eq!(
        pallet.add_approval(RawOrigin::Signed(ALICE), hash, ALICE_ORIGIN_ID, BOB_ORIGIN_ID).err(),
        Some(err(Error::CannotApproveOwnProposalUsingDifferentOrigin))
    );
    assert_eq!(pallet.add_approval(RawOrigin::Signed(BOB), hash, ALICE_ORIGIN_ID, ALICE_ORIGIN_ID).err(), Some(err(Error::OriginAlreadyApproved)));
    assert_eq!(pallet.proposals(hash, ALICE_ORIGIN_ID).unwrap().status, ProposalStatus::Pending);
}

#[test]
fn expired_proposal_is_refused_and_marked_expired() {
    let mut pallet = fresh();
    let call = set_dummy_call(3);
    let hash = Pallet::hash_of(&call);
    pallet.propose(RawOrigin::Signed(ALICE), call, ALICE_ORIGIN_ID, Some(5)).unwrap();
    pallet.set_block_number(5);
    // at its expiry block the proposal is not yet expired
    assert_eq!(pallet.add_approval(RawOrigin::Signed(BOB), hash, ALICE_ORIGIN_ID, ALICE_ORIGIN_ID).err(), Some(err(Error::OriginAlreadyApproved)));
    assert_eq!(pallet.proposals(hash, ALICE_ORIGIN_ID).unwrap().status, ProposalStatus::Pending);
    pallet.set_block_number(6);
    let events = pallet.events().len();
    assert_eq!(pallet.add_approval(RawOrigin::Signed(BOB), hash, ALICE_ORIGIN_ID, BOB_ORIGIN_ID).err(), Some(err(Error::ProposalExpired)));
    let p = pallet.proposals(hash, ALICE_ORIGIN_ID).unwrap();
    assert_eq!(p.status, ProposalStatus::Expired);
    assert_eq!(p.approvals.to_vec(), vec![ALICE_ORIGIN_ID]);
    assert_eq!(pallet.approvals(hash, ALICE_ORIGIN_ID, BOB_ORIGIN_ID), None);
    assert_eq!(pallet.approvals(hash, ALICE_ORIGIN_ID, ALICE_ORIGIN_ID), Some(ALICE));
    assert_eq!(pallet.events().len(), events + 1);
    assert_eq!(pallet.events().last(), Some(&Event::ProposalExpired { proposal_hash: hash, origin_id: ALICE_ORIGIN_ID }));
    // a withdrawal finds it past its expiry too, and reports the expiry again
    assert_eq!(pallet.withdraw_approval(RawOrigin::Signed(ALICE), hash, ALICE_ORIGIN_ID, ALICE_ORIGIN_ID), Err(err(Error::ProposalExpired)));
    assert_eq!(pallet.proposals(hash, ALICE_ORIGIN_ID).unwrap().status, ProposalStatus::Expired);
    assert_eq!(pallet.events().len(), events + 2);
    // the recorded expiry lets the proposer remove it
    assert_eq!(pallet.remove::<EnsureRoot>(RawOrigin::Signed(ALICE), hash, ALICE_ORIGIN_ID), Ok(()));
    assert!(pallet.proposals(hash, ALICE_ORIGIN_ID).is_none());
}

#[test]
fn too_many_approvals_when_the_call_is_gone() {
    let mut pallet = fresh();
    let call = set_dummy_call(3);
    let hash = Pallet::hash_of(&call);
    pallet.propose(RawOrigin::Signed(ALICE), call.clone(), ALICE_ORIGIN_ID, None).unwrap();
    pallet.propose(RawOrigin::Signed(BOB), call, BOB_ORIGIN_ID, None).unwrap();
    // cancelling Bob's proposal drops the call both proposals share
    pallet.cancel_proposal(RawOrigin::Signed(BOB), hash, BOB_ORIGIN_ID).unwrap();
    assert!(pallet.add_approval(RawOrigin::Signed(BOB), hash, ALICE_ORIGIN_ID, BOB_ORIGIN_ID).unwrap().is_none());
    assert_eq!(pallet.proposals(hash, ALICE_ORIGIN_ID).unwrap().status, ProposalStatus::Pending);
    assert_eq!(pallet.proposals(hash, ALICE_ORIGIN_ID).unwrap().approvals.len(), 2);
    assert_eq!(
        pallet.add_approval(RawOrigin::Signed(CHARLIE), hash, ALICE_ORIGIN_ID, CHARLIE_ORIGIN_ID).err(),
        Some(err(Error::TooManyApprovals))
    );
    assert_eq!(pallet.proposals(hash, ALICE_ORIGIN_ID).unwrap().approvals.len(), 2);
    assert_eq!(pallet.approvals(hash, ALICE_ORIGIN_ID, CHARLIE_ORIGIN_ID), None);
    // Bob's approval can still be withdrawn, after which Charlie's fits
    assert_eq!(pallet.withdraw_approval(RawOrigin::Signed(BOB), hash, ALICE_ORIGIN_ID, BOB_ORIGIN_ID), Ok(()));
    assert!(pallet.add_approval(RawOrigin::Signed(CHARLIE), hash, ALICE_ORIGIN_ID, CHARLIE_ORIGIN_ID).unwrap().is_none());
    assert_eq!(pallet.approvals(hash, ALICE_ORIGIN_ID, CHARLIE_ORIGIN_ID), Some(CHARLIE));
}

#[test]
fn cancel_by_proposer_only() {
    let mut pallet = fresh();
    let call = set_dummy_call(3);
    let hash = Pallet::hash_of(&call);
    pallet.propose(RawOrigin::Signed(ALICE), call, ALICE_ORIGIN_ID, None).unwrap();
    assert_eq!(pallet.cancel_proposal(RawOrigin::Signed(BOB), hash, ALICE_ORIGIN_ID), Err(err(Error::NotAuthorized)));
    assert_eq!(pallet.cancel_proposal(RawOrigin::Root, hash, ALICE_ORIGIN_ID), Err(DispatchError::BadOrigin));
    assert_eq!(pallet.cancel_proposal(RawOrigin::Signed(ALICE), hash, BOB_ORIGIN_ID), Err(err(Error::ProposalNotFound)));
    assert_eq!(pallet.cancel_proposal(RawOrigin::Signed(ALICE), hash, ALICE_ORIGIN_ID), Ok(()));
    assert!(pallet.proposals(hash, ALICE_ORIGIN_ID).is_none());
    assert_eq!(pallet.approvals(hash, ALICE_ORIGIN_ID, ALICE_ORIGIN_ID), None);
    assert_eq!(pallet.proposal_calls(hash), None);
    assert_eq!(pallet.events().last(), Some(&Event::ProposalCancelled { proposal_hash: hash, origin_id: ALICE_ORIGIN_ID }));
}

#[test]
fn cancel_of_executed_proposal_is_refused() {
    let mut pallet = fresh();
    let call = set_dummy_call(3);
    let hash = Pallet::hash_of(&call);
    pallet.propose(RawOrigin::Signed(ALICE), call, ALICE_ORIGIN_ID, None).unwrap();
    approve(&mut pallet, RawOrigin::Signed(BOB), hash, ALICE_ORIGIN_ID, BOB_ORIGIN_ID).unwrap();
    assert_eq!(pallet.cancel_proposal(RawOrigin::Signed(ALICE), hash, ALICE_ORIGIN_ID), Err(err(Error::ProposalNotPending)));
}

type Governance = EnsureSignedBy<CHARLIE>;

#[test]
fn remove_expired_proposal() {
    let mut pallet = fresh();
    let call = set_dummy_call(3);
    let hash = Pallet::hash_of(&call);
    pallet.propose(RawOrigin::Signed(ALICE), call, ALICE_ORIGIN_ID, Some(2)).unwrap();
    assert_eq!(pallet.remove::<Governance>(RawOrigin::Signed(ALICE), hash, ALICE_ORIGIN_ID), Err(err(Error::ProposalNotExpired)));
    pallet.set_block_number(2);
    assert_eq!(pallet.remove::<Governance>(RawOrigin::Signed(ALICE), hash, ALICE_ORIGIN_ID), Err(err(Error::ProposalNotExpired)));
    pallet.set_block_number(3);
    assert_eq!(pallet.remove::<Governance>(RawOrigin::Signed(BOB), hash, ALICE_ORIGIN_ID), Err(err(Error::NotAuthorized)));
    assert_eq!(pallet.remove::<Governance>(RawOrigin::Root, hash, ALICE_ORIGIN_ID), Err(DispatchError::BadOrigin));
    assert_eq!(pallet.remove::<Governance>(RawOrigin::Signed(CHARLIE), hash, ALICE_ORIGIN_ID), Ok(()));
    assert!(pallet.proposals(hash, ALICE_ORIGIN_ID).is_none());
    assert_eq!(pallet.proposal_calls(hash), None);
    assert_eq!(pallet.approvals(hash, ALICE_ORIGIN_ID, ALICE_ORIGIN_ID), None);
    assert_eq!(pallet.events().last(), Some(&Event::ProposalRemoved { proposal_hash: hash, origin_id: ALICE_ORIGIN_ID, who: CHARLIE }));
    assert_eq!(pallet.remove::<Governance>(RawOrigin::Signed(ALICE), hash, ALICE_ORIGIN_ID), Err(err(Error::ProposalNotFound)));
}

#[test]
fn remove_by_proposer() {
    let mut pallet = fresh();
    let call = set_dummy_call(3);
    let hash = Pallet::hash_of(&call);
    pallet.propose(RawOrigin::Signed(ALICE), call, ALICE_ORIGIN_ID, Some(2)).unwrap();
    pallet.set_block_number(3);
    assert!(pallet.withdraw_approval(RawOrigin::Signed(ALICE), hash, ALICE_ORIGIN_ID, ALICE_ORIGIN_ID).is_err());
    assert_eq!(pallet.remove::<EnsureRoot>(RawOrigin::Signed(ALICE), hash, ALICE_ORIGIN_ID), Ok(()));
}

#[test]
fn withdraw_approval_errors() {
    let mut pallet = fresh();
    let call = set_dummy_call(3);
    let hash = Pallet::hash_of(&call);
    assert_eq!(pallet.withdraw_approval(RawOrigin::Signed(ALICE), hash, ALICE_ORIGIN_ID, ALICE_ORIGIN_ID), Err(err(Error::ProposalNotFound)));
    pallet.propose(RawOrigin::Signed(ALICE), call, ALICE_ORIGIN_ID, None).unwrap();
    assert_eq!(pallet.withdraw_approval(RawOrigin::Unsigned, hash, ALICE_ORIGIN_ID, ALICE_ORIGIN_ID), Err(DispatchError::BadOrigin));
    assert_eq!(pallet.withdraw_approval(RawOrigin::Signed(ALICE), hash, ALICE_ORIGIN_ID, BOB_ORIGIN_ID), Err(err(Error::OriginApprovalNotFound)));
    assert_eq!(pallet.withdraw_approval(RawOrigin::Signed(BOB), hash, ALICE_ORIGIN_ID, ALICE_ORIGIN_ID), Err(err(Error::NotAuthorized)));
    assert_eq!(pallet.withdraw_approval(RawOrigin::Signed(ALICE), hash, ALICE_ORIGIN_ID, ALICE_ORIGIN_ID), Ok(()));
    assert_eq!(pallet.proposals(hash, ALICE_ORIGIN_ID).unwrap().approvals.len(), 0);
    assert_eq!(pallet.approvals(hash, ALICE_ORIGIN_ID, ALICE_ORIGIN_ID), None);
    assert_eq!(pallet.events().last(), Some(&Event::OriginApprovalWithdrawn { proposal_hash: hash, origin_id: ALICE_ORIGIN_ID, withdrawing_origin_id: ALICE_ORIGIN_ID }));
}

#[test]
fn withdrawal_undoes_approval_on_values() {
    let mut pallet = fresh();
    let call = set_dummy_call(3);
    let hash = Pallet::hash_of(&call);
    pallet.propose(RawOrigin::Signed(ALICE), call.clone(), ALICE_ORIGIN_ID, None).unwrap();
    pallet.propose(RawOrigin::Signed(BOB), call, BOB_ORIGIN_ID, None).unwrap();
    pallet.cancel_proposal(RawOrigin::Signed(BOB), hash, BOB_ORIGIN_ID).unwrap();
    let before = pallet.proposals(hash, ALICE_ORIGIN_ID).unwrap().approvals.to_vec();
    assert!(pallet.add_approval(RawOrigin::Signed(CHARLIE), hash, ALICE_ORIGIN_ID, CHARLIE_ORIGIN_ID).unwrap().is_none());
    assert_eq!(pallet.withdraw_approval(RawOrigin::Signed(CHARLIE), hash, ALICE_ORIGIN_ID, CHARLIE_ORIGIN_ID), Ok(()));
    assert_eq!(pallet.proposals(hash, ALICE_ORIGIN_ID).unwrap().approvals.to_vec(), before);
    assert_eq!(pallet.approvals(hash, ALICE_ORIGIN_ID, CHARLIE_ORIGIN_ID), None);
}

#[test]
fn cancel_undoes_propose_on_values() {
    let mut pallet = fresh();
    let call = set_dummy_call(3);
    let hash = Pallet::hash_of(&call);
    pallet.propose(RawOrigin::Signed(ALICE), call, ALICE_ORIGIN_ID, None).unwrap();
    pallet.cancel_proposal(RawOrigin::Signed(ALICE), hash, ALICE_ORIGIN_ID).unwrap();
    assert!(pallet.proposals(hash, ALICE_ORIGIN_ID).is_none());
    assert_eq!(pallet.approvals(hash, ALICE_ORIGIN_ID, ALICE_ORIGIN_ID), None);
    assert_eq!(pallet.proposal_calls(hash), None);
}

#[test]
fn and_gate_needs_both_checks() {
    type RootAndRoot = AndGate<EnsureRoot, EnsureRoot>;
    type AliceAndAlice = AndGate<EnsureSignedBy<ALICE>, EnsureSignedBy<ALICE>>;
    assert_eq!(RootAndRoot::try_origin(RawOrigin::Root), Ok(()));
    assert_eq!(RootAndRoot::try_origin(RawOrigin::Signed(ALICE)), Err(RawOrigin::Signed(ALICE)));
    assert_eq!(AliceAndAlice::ensure_origin(RawOrigin::Signed(ALICE)), Ok(()));
    assert_eq!(AliceAndAlice::ensure_origin(RawOrigin::Signed(BOB)), Err(DispatchError::BadOrigin));
    assert_eq!(AndGate::<EnsureSignedBy<ALICE>, EnsureSignedBy<BOB>>::try_origin(RawOrigin::Unsigned), Err(RawOrigin::Unsigned));
}

#[test]
fn set_dummy_needs_root() {
    let mut pallet = fresh();
    assert_eq!(pallet.set_dummy(RawOrigin::Signed(ALICE), 5), Err(DispatchError::BadOrigin));
    assert_eq!(pallet.dummy(), None);
    assert_eq!(pallet.set_dummy(RawOrigin::Root, 5), Ok(()));
    assert_eq!(pallet.dummy(), Some(5));
    assert_eq!(pallet.events().last(), Some(&Event::SetDummy { balance: 5 }));
}

#[test]
fn error_indices() {
    assert_eq!(Pallet::error_index(Error::ProposalAlreadyExists), 0);
    assert_eq!(Pallet::error_index(Error::NotAuthorized), 4);
    assert_eq!(Pallet::error_index(Error::ProposalNotPending), 5);
    assert_eq!(Pallet::error_index(Error::ProposalAlreadyExecuted), 6);
    assert_eq!(Pallet::error_index(Error::ProposalExpired), 7);
    assert_eq!(Pallet::error_index(Error::OriginAlreadyApproved), 10);
    assert_eq!(Pallet::error_index(Error::FailedToExecute), 13);
}

#[test]
fn genesis_config_default_has_no_key() {
    assert_eq!(GenesisConfig::default().key, None);
}

#[test]
fn collective_helpers() {
    assert!(is_whitelisted_collective(4));
    assert!(is_whitelisted_collective(5));
    assert!(is_whitelisted_collective(6));
    assert!(!is_whitelisted_collective(7));
    assert!(!is_whitelisted_collective(3));
    assert_eq!(get_collective_privilege_level(&CollectiveType::TechnicalFellowship), 255);
    assert_eq!(get_collective_privilege_level(&CollectiveType::AmbassadorFellowship), 200);
    assert_eq!(get_collective_privilege_level(&CollectiveType::Other(BoundedVec::try_from(b"x".to_vec()).unwrap())), 100);
    for idx in [0u8, 1, 2, 3, 4, 5, 7, 8] {
        assert!(collective_can_execute_call(1, idx));
    }
    assert!(!collective_can_execute_call(1, 6));
    assert!(collective_can_execute_call(1, 9));
    assert!(!collective_can_execute_call(1, 200));
    assert!(collective_can_execute_call(4, 9));
    assert!(collective_can_execute_call(6, 200));
    assert!(collective_can_remove_storage_id(5, b"a", b"b"));
    assert!(collective_can_remove_storage_id(1, b"ab", b"ab"));
    assert!(!collective_can_remove_storage_id(1, b"ab", b"ac"));
    assert!(!collective_can_remove_storage_id(1, b"ab", b"abc"));
}

#[test]
fn collective_origin_creation() {
    let name = BoundedVec::try_from(b"fellowship".to_vec()).unwrap();
    let origin: OriginType<u64, u64> = create_collective_origin(4, name, CollectiveType::AmbassadorFellowship);
    assert_eq!(get_collective_id(&origin), Some(4));
    assert_eq!(origin.clone(), origin);
    match &origin {
        OriginType::Collective { privilege_level, rank_structure, expertise, fellowship_metrics, name, .. } => {
            assert_eq!(*privilege_level, 200);
            assert_eq!(rank_structure.max_rank, 0);
            assert!(rank_structure.rank_thresholds.is_empty());
            assert!(rank_structure.member_distribution.is_empty());
            assert!(expertise.is_empty());
            assert_eq!(fellowship_metrics.last_action_block, 0);
            assert_eq!(fellowship_metrics.principles_assessment.accountability, 0);
            assert_eq!(name.to_vec(), b"fellowship".to_vec());
        },
        _ => panic!("not a collective"),
    }
    assert_eq!(get_collective_id::<u64, u64>(&OriginType::Root), None);
    assert_eq!(get_collective_id::<u64, u64>(&OriginType::Signed(1)), None);
}

#[test]
fn remove_past_expiry_by_proposer() {
    let mut pallet = fresh();
    let call = set_dummy_call(4);
    let hash = Pallet::hash_of(&call);
    pallet.propose(RawOrigin::Signed(ALICE), call, ALICE_ORIGIN_ID, None).unwrap();
    pallet.set_block_number(102);
    assert_eq!(pallet.remove::<EnsureRoot>(RawOrigin::Signed(ALICE), hash, ALICE_ORIGIN_ID), Ok(()));
    assert!(pallet.proposals(hash, ALICE_ORIGIN_ID).is_none());
}
