//! End-to-end workflows of the origin AND gate, run against a small test
//! runtime that encodes, dispatches and reports calls.

use pallet_origin_and_gate::origin::RawOrigin;
use pallet_origin_and_gate::pallet::Pallet;
use pallet_origin_and_gate::types::{Config, DispatchError, Event};

const ALICE: u64 = 1;
const BOB: u64 = 2;
const ALICE_ORIGIN_ID: u64 = 10;
const BOB_ORIGIN_ID: u64 = 20;
const CHARLIE_ORIGIN_ID: u64 = 30;
const ROOT_ORIGIN_ID: u64 = 0;

/// The pallet's `set_dummy` call, encoded by the test runtime.
fn set_dummy_call(value: u128) -> Vec<u8> {
    let mut call = vec![0u8, 5u8];
    call.extend_from_slice(&value.to_le_bytes());
    call
}

/// Dispatches an encoded call of the test runtime.
fn dispatch(pallet: &mut Pallet, origin: RawOrigin, call: &[u8]) -> Result<(), DispatchError> {
    match call {
        [0, 5, rest @ ..] if rest.len() == 16 => {
            let mut bytes = [0u8; 16];
            bytes.copy_from_slice(rest);
            pallet.set_dummy(origin, u128::from_le_bytes(bytes))
        },
        [1, 0, ..] => Ok(()),
        _ => Err(DispatchError::Other),
    }
}

/// Approves, and when the approval brings the proposal to execution, dispatches the call
/// with the root origin and reports the outcome.
fn approve(pallet: &mut Pallet, origin: RawOrigin, hash: [u8; 32], proposal_origin_id: u64, approval_origin_id: u64) -> Result<(), DispatchError> {
    match pallet.add_approval(origin, hash, proposal_origin_id, approval_origin_id)? {
        None => Ok(()),
        Some(execution) => {
            let call = execution.call().clone();
            let result = dispatch(pallet, RawOrigin::Root, &call);
            pallet.complete_execution(execution, result)
        },
    }
}

fn new_test_ext() -> Pallet {
    Pallet::new(Config { proposal_lifetime: 100 })
}

#[test]
fn test_create_and_retrieve_proposal() {
    let mut pallet = new_test_ext();
    pallet.set_block_number(1);

    let call = set_dummy_call(1000);
    let call_hash = Pallet::hash_of(&call);

    assert!(pallet.propose(RawOrigin::Signed(ALICE), call, ALICE_ORIGIN_ID, None).is_ok());

    let proposal = pallet.proposals(call_hash, ALICE_ORIGIN_ID);
    assert!(proposal.is_some());

    assert!(pallet.events().contains(&Event::ProposalCreated {
        proposal_hash: call_hash,
        origin_id: ALICE_ORIGIN_ID,
    }));
}

#[test]
fn test_proposal_workflow() {
    let mut pallet = new_test_ext();
    pallet.set_block_number(1);

    let call = set_dummy_call(42);
    let call_hash = Pallet::hash_of(&call);

    assert!(pallet.propose(RawOrigin::Signed(ALICE), call.clone(), ALICE_ORIGIN_ID, None).is_ok());

    assert!(approve(&mut pallet, RawOrigin::Signed(BOB), call_hash, ALICE_ORIGIN_ID, BOB_ORIGIN_ID).is_ok());

    let proposal = pallet.proposals(call_hash, ALICE_ORIGIN_ID).unwrap();
    assert_eq!(proposal.approvals.len(), 2);

    assert!(proposal.approvals.contains(&ALICE_ORIGIN_ID));
    assert!(proposal.approvals.contains(&BOB_ORIGIN_ID));

    assert!(pallet.events().contains(&Event::OriginApprovalAdded {
        proposal_hash: call_hash,
        origin_id: ALICE_ORIGIN_ID,
        approval_origin_id: BOB_ORIGIN_ID,
        who: BOB,
    }));
}

#[test]
fn test_origin_ids() {
    assert_eq!(ALICE_ORIGIN_ID, 10);
    assert_eq!(BOB_ORIGIN_ID, 20);
    assert_eq!(CHARLIE_ORIGIN_ID, 30);
    assert_eq!(ROOT_ORIGIN_ID, 0);
}
