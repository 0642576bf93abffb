//! Authorization guards for the clips NFT contract.
//!
//! The guards decide, from the contract's stored state and the caller's
//! identity, whether a protected operation may proceed. Reading contract
//! storage and asking the host for the caller's signature are done by the
//! contract shell around this library; the decisions themselves live here,
//! each with a contract that states its result for every input.

pub mod address;
pub mod admin_guard;
pub mod caller_guard;
pub mod composed_guard;
pub mod errors;
pub mod ownership_guard;

pub use address::Address;
pub use errors::Error;

use vstd::prelude::*;

verus! {

/// Identifier of an NFT token.
pub type TokenId = u64;

} // verus!
