//! Values the pallet stores and reports: statuses, proposals, time points,
//! errors and events.
use vstd::prelude::*;

use crate::bounded::{approval_list, ApprovalList};
use crate::table::TableKey;

verus! {

/// Errors of the pallet.
#[derive(Clone, Copy, Debug, PartialEq, Eq, Structural)]
pub enum Error {
    /// A proposal with these parameters already exists
    ProposalAlreadyExists,
    /// The proposal could not be found
    ProposalNotFound,
    /// The proposer cannot approve their own proposal with different origin ID
    CannotApproveOwnProposalUsingDifferentOrigin,
    /// The proposal has too many approvals
    TooManyApprovals,
    /// The caller is not authorized to approve
    NotAuthorized,
    /// The proposal is not pending
    ProposalNotPending,
    /// The proposal has already been executed
    ProposalAlreadyExecuted,
    /// The proposal has expired
    ProposalExpired,
    /// The proposal is not expired
    ProposalNotExpired,
    /// The proposal was cancelled
    ProposalCancelled,
    /// The proposal was already approved by the origin
    OriginAlreadyApproved,
    /// The proposal does not have enough approvals
    InsufficientApprovals,
    /// The origin approval could not be found
    OriginApprovalNotFound,
    /// Failed to execute proposal
    FailedToExecute,
}

/// Why a dispatch failed.
#[derive(Clone, Copy, Debug, PartialEq, Eq, Structural)]
pub enum DispatchError {
    /// The origin is not the one the call needs.
    BadOrigin,
    /// An error of this pallet.
    Pallet(Error),
    /// An error of another module, by its index and the error's index.
    Module { index: u8, error: u8 },
    /// Any other failure.
    Other,
}

/// Status of proposal
#[derive(Clone, Copy, Debug, PartialEq, Eq, Structural)]
pub enum ProposalStatus {
    /// Proposal is pending and awaiting approvals
    Pending,
    /// Proposal has been executed
    Executed,
    /// Proposal has expired
    Expired,
    /// Proposal has been cancelled
    Cancelled,
}

/// Timepoint is combination of block number and extrinsic index in that block
#[derive(Clone, Copy, Debug, PartialEq, Eq, Structural)]
pub struct TimePoint {
    /// Block number
    pub height: u64,
    /// Extrinsic index
    pub index: u32,
}

impl TableKey for TimePoint {
    fn same_key(&self, other: &Self) -> (r: bool) {
        self.height == other.height && self.index == other.index
    }
}

/// Info about specific proposal
#[derive(Debug, PartialEq, Eq)]
pub struct ProposalInfo {
    /// The call hash of this proposal to execute
    pub call_hash: [u8; 32],
    /// The block number after which this proposal expires
    pub expiry: Option<u64>,
    /// List of origins that have approved this proposal
    pub approvals: ApprovalList,
    /// The current status of this proposal
    pub status: ProposalStatus,
    /// The account that made this proposal
    pub proposer: u64,
}

/// A proposal with its approvals as a sequence.
pub struct ProposalView {
    pub call_hash: [u8; 32],
    pub expiry: Option<u64>,
    pub approvals: Seq<u64>,
    pub status: ProposalStatus,
    pub proposer: u64,
}

impl View for ProposalInfo {
    type V = ProposalView;

    open spec fn view(&self) -> ProposalView {
        ProposalView {
            call_hash: self.call_hash,
            expiry: self.expiry,
            approvals: approval_list(self.approvals),
            status: self.status,
            proposer: self.proposer,
        }
    }
}

/// Events of the pallet.
#[derive(Clone, Copy, Debug, PartialEq, Eq)]
pub enum Event {
    /// A proposal has been created.
    ProposalCreated { proposal_hash: [u8; 32], origin_id: u64 },
    /// An origin has added their approval of a proposal.
    OriginApprovalAdded {
        /// Hash of the proposal.
        proposal_hash: [u8; 32],
        /// Origin identifier.
        origin_id: u64,
        /// Origin identifier of the approval origin.
        approval_origin_id: u64,
        /// Account that added the approval.
        who: u64,
    },
    /// A proposal has been executed.
    ProposalExecuted { proposal_hash: [u8; 32], origin_id: u64, result: Result<(), DispatchError> },
    /// A proposal has expired.
    ProposalExpired { proposal_hash: [u8; 32], origin_id: u64 },
    /// A proposal has been cancelled.
    ProposalCancelled { proposal_hash: [u8; 32], origin_id: u64 },
    /// An origin has withdrawn their approval of a proposal.
    OriginApprovalWithdrawn { proposal_hash: [u8; 32], origin_id: u64, withdrawing_origin_id: u64 },
    /// A proposal has been removed.
    ProposalRemoved { proposal_hash: [u8; 32], origin_id: u64, who: u64 },
    /// The dummy value was set.
    SetDummy { balance: u128 },
}

/// Settings of the pallet.
#[derive(Clone, Copy, Debug)]
pub struct Config {
    /// How long a proposal is valid for, in blocks, when it is made without an expiry.
    pub proposal_lifetime: u64,
}

/// The genesis settings of the pallet.
#[derive(Clone, Copy, Debug)]
pub struct GenesisConfig {
    pub key: Option<u64>,
}

impl Default for GenesisConfig {
    fn default() -> (g: Self)
        ensures
            g.key is None,
    {
        GenesisConfig { key: None }
    }
}

} // verus!
