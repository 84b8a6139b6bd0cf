//! The bounded collections of `bounded-collections` (re-exported by
//! `frame_support`) that the pallet keeps its approval lists and the
//! collective metadata keep their tables in.
//!
//! Nothing here is proved: each item below states what the source of
//! `bounded-collections` shows of the method it calls.
use vstd::prelude::*;

use bounded_collections::{BoundedBTreeMap, BoundedVec, ConstU32};

verus! {

#[verifier::external_type_specification]
#[verifier::external_body]
#[verifier::reject_recursive_types(T)]
#[verifier::reject_recursive_types(S)]
pub struct ExBoundedVec<T, S>(BoundedVec<T, S>);

#[verifier::external_type_specification]
#[verifier::external_body]
#[verifier::reject_recursive_types(K)]
#[verifier::reject_recursive_types(V)]
#[verifier::reject_recursive_types(S)]
pub struct ExBoundedBTreeMap<K, V, S>(BoundedBTreeMap<K, V, S>);

#[verifier::external_type_specification]
#[verifier::external_body]
pub struct ExConstU32<const N: u32>(ConstU32<N>);

/// The number of approvals a proposal can hold: one from each of two origins.
pub const MAX_APPROVALS: u32 = 2;

/// Bound of an approval list, as a type.
pub type MaxApprovals = ConstU32<2>;

/// The origins that have approved a proposal, in order of arrival.
pub type ApprovalList = BoundedVec<u64, ConstU32<2>>;

/// Outcome of `try_push`: the element comes back when the list is full.
pub type PushResult = Result<(), u64>;

/// What an approval list holds, first element first.
pub uninterp spec fn approval_list(v: BoundedVec<u64, ConstU32<2>>) -> Seq<u64>;

/// `BoundedVec::default`: the source builds the list from an empty `Vec`.
#[verifier::external_body]
pub fn approval_list_new() -> (v: ApprovalList)
    ensures
        approval_list(v) == Seq::<u64>::empty(),
{
    BoundedVec::default()
}

/// `len` of the inner `Vec` (reached through `Deref`): the number of
/// elements, which never exceeds the bound `ConstU32<2>` (every constructor
/// and mutator of `BoundedVec` keeps the length within the bound).
#[verifier::external_body]
pub fn approval_list_len(v: &ApprovalList) -> (n: usize)
    ensures
        n == approval_list(*v).len(),
        n <= 2,
{
    v.len()
}

/// Indexing (`Index` forwards to the inner `Vec`): the element at `i`.
/// Out of bounds the source panics, so `i` must be in bounds.
#[verifier::external_body]
pub fn approval_list_get(v: &ApprovalList, i: usize) -> (x: u64)
    requires
        i < approval_list(*v).len(),
    ensures
        x == approval_list(*v)[i as int],
{
    v[i]
}

/// `Clone` for `BoundedVec`: the source clones the inner `Vec`. Nothing is
/// stated of the copy, whose element type is generic here.
pub assume_specification<T: Clone, S>[ <BoundedVec<T, S> as Clone>::clone ](v: &BoundedVec<T, S>) -> (r: BoundedVec<T, S>);

/// `Clone` for `BoundedBTreeMap`: the source clones the inner `BTreeMap`.
/// Nothing is stated of the copy, whose key and value types are generic here.
pub assume_specification<K, V, S>[ <BoundedBTreeMap<K, V, S> as Clone>::clone ](m: &BoundedBTreeMap<K, V, S>) -> (r: BoundedBTreeMap<K, V, S>)
    where
        std::collections::BTreeMap<K, V>: Clone,
;

/// `BoundedVec::try_push`: below the bound `ConstU32<2>` the element is
/// appended and `Ok` returned; at the bound the list is unchanged and the
/// element comes back in `Err`.
#[verifier::external_body]
pub fn approval_list_try_push(v: &mut ApprovalList, x: u64) -> (r: PushResult)
    ensures
        r is Ok == (2 > approval_list(*old(v)).len()),
        r is Ok ==> approval_list(*final(v)) == approval_list(*old(v)).push(x),
        r is Err ==> r == PushResult::Err(x) && approval_list(*final(v)) == approval_list(*old(v)),
{
    v.try_push(x)
}

/// `BoundedVec::swap_remove`, which is `Vec::swap_remove` on the inner
/// vector: the element at `i` is returned and the last element takes its
/// place. Out of bounds the source panics, so `i` must be in bounds.
#[verifier::external_body]
pub fn approval_list_swap_remove(v: &mut ApprovalList, i: usize) -> (x: u64)
    requires
        i < approval_list(*old(v)).len(),
    ensures
        x == approval_list(*old(v))[i as int],
        approval_list(*final(v)) == approval_list(*old(v)).update(i as int, approval_list(*old(v)).last()).drop_last(),
{
    v.swap_remove(i)
}

} // verus!
