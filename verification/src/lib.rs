//! Verified core of the origin AND gate: proposals that execute only once
//! two distinct origins have approved them.
//!
//! - [`pallet`]: the pallet's storage and dispatchables, each with a
//!   contract over the model in [`model`];
//! - [`origin`]: origins and the checks that admit them, the AND gate among
//!   them;
//! - [`laws`]: what holds across the dispatchables;
//! - [`collective_metadata`]: metadata of collective origins;
//! - [`table`], [`bounded`], [`hashing`]: storage maps, bounded collections
//!   and the call hash.
pub mod bounded;
pub mod collective_metadata;
pub mod hashing;
pub mod laws;
pub mod model;
pub mod origin;
pub mod pallet;
pub mod table;
pub mod types;

pub use crate::origin::AndGate;
pub use crate::pallet::Pallet;
pub use crate::types::{
    Config, DispatchError, Error, Event, GenesisConfig, ProposalInfo, ProposalStatus, TimePoint,
};
