//! Caller identity validation guard.
//!
//! The first check of an authorization chain: it accepts any caller whose
//! identity is a valid address. In Soroban every address that reaches a
//! contract has already been validated by the host, so every caller is
//! valid here; the contract shell then asks the host for the caller's
//! signature. The check is kept as its own step so that further caller
//! rules (an allow list, a block list) have a place to go.

use vstd::prelude::*;

use crate::address::Address;
use crate::errors::Error;

verus! {

/// Which callers are valid: every address.
pub open spec fn valid_caller(caller: Address) -> bool {
    true
}

/// Every address is a valid caller, whatever its strkey (account `G...`
/// or contract `C...`).
pub proof fn lemma_every_caller_is_valid(caller: Address)
    ensures
        valid_caller(caller) == true,
{
}

/// Validate that a caller is present and valid.
///
/// Every address is a valid caller, so this returns `Ok(())` for every
/// caller; the caller's signature is checked by the contract shell with it.
pub fn require_caller(caller: &Address) -> (r: Result<(), Error>)
    ensures
        r == Ok::<(), Error>(()),
{
    Ok(())
}

/// Check whether a caller is valid, without asking for a signature.
pub fn is_valid_caller(caller: &Address) -> (r: bool)
    ensures
        r == valid_caller(*caller),
        r == true,
{
    true
}

} // verus!
