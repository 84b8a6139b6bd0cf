//! Origins of a dispatch and the checks that admit them, among them the
//! AND gate that admits an origin only when two checks both admit it.
use vstd::prelude::*;

use core::marker::PhantomData;

use crate::types::DispatchError;

verus! {

/// Origin of a dispatch, as the system pallet knows it.
#[derive(Clone, Copy, Debug, PartialEq, Eq)]
pub enum RawOrigin {
    /// The system itself.
    Root,
    /// An extrinsic signed by an account.
    Signed(u64),
    /// An unsigned extrinsic (the system pallet's `None` origin).
    Unsigned,
}

/// The account that signed `origin`, or `BadOrigin`.
pub fn ensure_signed(origin: RawOrigin) -> (r: Result<u64, DispatchError>)
    ensures
        match origin {
            RawOrigin::Signed(who) => r == Ok::<u64, DispatchError>(who),
            _ => r == Err::<u64, DispatchError>(DispatchError::BadOrigin),
        },
{
    match origin {
        RawOrigin::Signed(who) => Ok(who),
        _ => Err(DispatchError::BadOrigin),
    }
}

/// `Ok` for the root origin, `BadOrigin` otherwise.
pub fn ensure_root(origin: RawOrigin) -> (r: Result<(), DispatchError>)
    ensures
        match origin {
            RawOrigin::Root => r is Ok,
            _ => r == Err::<(), DispatchError>(DispatchError::BadOrigin),
        },
{
    match origin {
        RawOrigin::Root => Ok(()),
        _ => Err(DispatchError::BadOrigin),
    }
}

/// A check that admits some origins.
pub trait EnsureOrigin {
    /// The origins this check admits.
    spec fn admits(origin: RawOrigin) -> bool;

    /// Admits `origin` or hands it back.
    fn try_origin(origin: RawOrigin) -> (r: Result<(), RawOrigin>)
        ensures
            r is Ok == Self::admits(origin),
            r matches Err(o) ==> o == origin,
    ;

    /// Admits `origin` or fails with `BadOrigin`.
    fn ensure_origin(origin: RawOrigin) -> (r: Result<(), DispatchError>)
        ensures
            r is Ok == Self::admits(origin),
            r is Err ==> r == Err::<(), DispatchError>(DispatchError::BadOrigin),
    {
        match Self::try_origin(origin) {
            Ok(()) => Ok(()),
            Err(_) => Err(DispatchError::BadOrigin),
        }
    }
}

/// Admits the root origin only.
pub struct EnsureRoot;

impl EnsureOrigin for EnsureRoot {
    open spec fn admits(origin: RawOrigin) -> bool {
        origin == RawOrigin::Root
    }

    fn try_origin(origin: RawOrigin) -> (r: Result<(), RawOrigin>) {
        match origin {
            RawOrigin::Root => Ok(()),
            _ => Err(origin),
        }
    }
}

/// Admits the signed origin of the account `WHO` only.
pub struct EnsureSignedBy<const WHO: u64>;

impl<const WHO: u64> EnsureOrigin for EnsureSignedBy<WHO> {
    open spec fn admits(origin: RawOrigin) -> bool {
        origin == RawOrigin::Signed(WHO)
    }

    fn try_origin(origin: RawOrigin) -> (r: Result<(), RawOrigin>) {
        match origin {
            RawOrigin::Signed(who) => {
                if who == WHO {
                    Ok(())
                } else {
                    Err(origin)
                }
            },
            _ => Err(origin),
        }
    }
}

/// Requires approval from two different origin checks: an origin passes
/// only when both `A` and `B` admit it.
pub struct AndGate<A, B>(PhantomData<A>, PhantomData<B>);

impl<A: EnsureOrigin, B: EnsureOrigin> EnsureOrigin for AndGate<A, B> {
    open spec fn admits(origin: RawOrigin) -> bool {
        A::admits(origin) && B::admits(origin)
    }

    fn try_origin(origin: RawOrigin) -> (r: Result<(), RawOrigin>) {
        let origin_clone = origin;
        match A::try_origin(origin) {
            Ok(_) => B::try_origin(origin_clone),
            Err(_) => Err(origin_clone),
        }
    }
}

} // verus!
