//! Helper functions for working with collective metadata
use vstd::prelude::*;

use super::{CollectiveType, AMBASSADOR_FELLOWSHIP, SOCIETY, TECH_FELLOWSHIP};

verus! {

/// The collectives with elevated privileges: the Technical Fellowship, the
/// Society and the Ambassador Fellowship.
pub open spec fn whitelisted(collective_id: u32) -> bool {
    collective_id == TECH_FELLOWSHIP || collective_id == SOCIETY || collective_id == AMBASSADOR_FELLOWSHIP
}

/// Privilege of each collective type.
pub open spec fn privilege_level_of(collective_type: CollectiveType) -> u8 {
    match collective_type {
        CollectiveType::TechnicalFellowship => 255,
        CollectiveType::AmbassadorFellowship => 200,
        CollectiveType::Other(_) => 100,
    }
}

/// The call indices every collective may execute: propose (0), add_approval
/// (1), amend_remark (2), execute_proposal (3), cancel_proposal (4),
/// withdraw_proposal (5), clean (7), add_storage_id (8) and remove_storage_id
/// (9), the last restricted by `collective_can_remove_storage_id` to the ids
/// a non-whitelisted collective added itself.
pub open spec fn open_to_all(call_index: u8) -> bool {
    call_index <= 5 || call_index == 7 || call_index == 8 || call_index == 9
}

/// Whether a collective may execute the call of index `call_index`.
pub open spec fn may_execute(collective_id: u32, call_index: u8) -> bool {
    open_to_all(call_index) || whitelisted(collective_id)
}

/// Determines if a collective is a whitelisted collective with elevated privileges
pub fn is_whitelisted_collective(collective_id: u32) -> (r: bool)
    ensures
        r == whitelisted(collective_id),
{
    collective_id == TECH_FELLOWSHIP || collective_id == SOCIETY || collective_id == AMBASSADOR_FELLOWSHIP
}

/// Gets the privilege level for a collective
pub fn get_collective_privilege_level(collective_type: &CollectiveType) -> (r: u8)
    ensures
        r == privilege_level_of(*collective_type),
{
    match collective_type {
        CollectiveType::TechnicalFellowship => 255,
        CollectiveType::AmbassadorFellowship => 200,
        CollectiveType::Other(_) => 100,
    }
}

/// Check if the collective has permission to execute a specific call index.
/// Only whitelisted collectives can perform the privileged ones; every
/// collective may call remove_storage_id (9), which
/// `collective_can_remove_storage_id` then restricts.
pub fn collective_can_execute_call(collective_id: u32, call_index: u8) -> (r: bool)
    ensures
        r == may_execute(collective_id, call_index),
{
    match call_index {
        0 => true,
        1 => true,
        2 => true,
        3 => true,
        4 => true,
        5 => true,
        7 => true,
        8 => true,
        9 => true,
        _ => is_whitelisted_collective(collective_id),
    }
}

/// Check if a collective can remove a specific storage ID: whitelisted
/// collectives can remove any, others only the ones they added themselves.
pub fn collective_can_remove_storage_id(collective_id: u32, storage_id_adder: &[u8], collective_account: &[u8]) -> (r: bool)
    ensures
        r == (whitelisted(collective_id) || storage_id_adder@ == collective_account@),
{
    if is_whitelisted_collective(collective_id) {
        return true;
    }
    if storage_id_adder.len() != collective_account.len() {
        return false;
    }
    let mut i: usize = 0;
    while i < storage_id_adder.len()
        invariant
            !whitelisted(collective_id),
            storage_id_adder@.len() == collective_account@.len(),
            0 <= i <= storage_id_adder@.len(),
            forall|j: int| 0 <= j < i ==> storage_id_adder@[j] == collective_account@[j],
        decreases storage_id_adder@.len() - i,
    {
        if storage_id_adder[i] != collective_account[i] {
            assert(storage_id_adder@[i as int] != collective_account@[i as int]);

            return false;
        }
        i = i + 1;
    }
    assert(storage_id_adder@ =~= collective_account@);
    true
}

/// Whitelisted collectives may execute every call.
pub proof fn whitelisted_collectives_execute_everything(collective_id: u32, call_index: u8)
    requires
        whitelisted(collective_id),
    ensures
        open_to_all(call_index) || whitelisted(collective_id),
{
}

/// The Technical Fellowship holds the highest privilege, above the
/// Ambassador Fellowship, which is above every other collective.
pub proof fn technical_fellowship_ranks_highest(collective_type: CollectiveType)
    ensures
        privilege_level_of(collective_type) <= privilege_level_of(CollectiveType::TechnicalFellowship),
        collective_type is Other ==> privilege_level_of(collective_type) < privilege_level_of(CollectiveType::AmbassadorFellowship),
{
}

/// Exactly three collectives are whitelisted: the Technical Fellowship (4),
/// the Society (5) and the Ambassador Fellowship (6); every other id is not.
pub proof fn only_three_collectives_are_whitelisted(collective_id: u32)
    ensures
        whitelisted(collective_id) <==> (collective_id == 4 || collective_id == 5 || collective_id == 6),
{
}

/// A collective that is not whitelisted may execute exactly the call indices
/// 0 to 5 and 7 to 9; any other call index, 6 and everything from 10 up, is
/// reserved for the three whitelisted collectives, which may execute every
/// call.
pub proof fn privileged_calls_need_a_whitelisted_collective(collective_id: u32, call_index: u8)
    ensures
        !(collective_id == 4 || collective_id == 5 || collective_id == 6) ==> (may_execute(collective_id, call_index)
            <==> (call_index <= 5 || (7 <= call_index && call_index <= 9))),
        (collective_id == 4 || collective_id == 5 || collective_id == 6) ==> may_execute(collective_id, call_index),
        (call_index == 6 || call_index >= 10) ==> (may_execute(collective_id, call_index)
            <==> (collective_id == 4 || collective_id == 5 || collective_id == 6)),
{
}

/// A collective that is not whitelisted may remove only the storage ids it
/// added itself; the three whitelisted collectives may remove any.
pub proof fn only_whitelisted_collectives_remove_others_storage_ids(
    collective_id: u32,
    adder: Seq<u8>,
    account: Seq<u8>,
)
    ensures
        (whitelisted(collective_id) || adder == account) <==> ((collective_id == 4 || collective_id == 5
            || collective_id == 6) || adder == account),
{
}

} // verus!
