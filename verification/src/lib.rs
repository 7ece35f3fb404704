//! A custodial vesting vault with multisignature governance: it holds a fixed
//! token balance, releases it along an immutable unlock schedule, and lets a
//! committee of administrators authorize sensitive actions through
//! quorum-weighted proposals whose action batches are dispatched exactly once.
//!
//! All state lives in an explicit [`state::State`] value handed into every
//! operation together with the caller's context; the host performs storage,
//! serialization and the emitted follow-up actions.
#![verifier::loop_isolation(false)]

pub mod contract;
pub mod data_structure;
pub mod error;
pub mod msg;
pub mod permission;
pub mod proposal;
pub mod staking;
pub mod state;
pub mod types;
pub mod vesting;

pub use crate::error::ContractError;
