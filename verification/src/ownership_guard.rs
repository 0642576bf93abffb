//! Ownership authorization guard.
//!
//! Validates that the caller owns the token being modified, so that only
//! the owner can transfer, burn or update it. The guard distinguishes a
//! token that does not exist ([`Error::TokenNotFound`]) from a caller that
//! does not own it ([`Error::NotTokenOwner`]). A caller that passes must
//! then sign; the contract shell asks the host for that signature only
//! after this guard has passed.

use vstd::prelude::*;

use crate::address::Address;
use crate::errors::Error;

verus! {

/// What the ownership guard answers when the token's stored owner is
/// `stored_owner` (`None` for a token that does not exist) and `caller`
/// claims the token.
pub open spec fn owner_check(stored_owner: Option<Address>, caller: Address) -> Result<(), Error> {
    match stored_owner {
        None => Err(Error::TokenNotFound),
        Some(owner) => if caller@ == owner@ {
            Ok(())
        } else {
            Err(Error::NotTokenOwner)
        },
    }
}

/// What the read-only ownership check answers for `address`.
pub open spec fn owner_query(stored_owner: Option<Address>, address: Address) -> Result<bool, Error> {
    match stored_owner {
        None => Err(Error::TokenNotFound),
        Some(owner) => Ok(address@ == owner@),
    }
}

/// Validate that `caller` owns the token whose stored owner is
/// `stored_owner` (read from the contract's persistent storage, `None` when
/// the token does not exist).
///
/// # Errors
/// - [`Error::TokenNotFound`] if the token does not exist
/// - [`Error::NotTokenOwner`] if the caller does not own the token
pub fn require_token_owner(stored_owner: &Option<Address>, caller: &Address) -> (r: Result<(), Error>)
    ensures
        r == owner_check(*stored_owner, *caller),
        stored_owner is None ==> r == Err::<(), Error>(Error::TokenNotFound),
        forall|owner: Address| *stored_owner == Some(owner) ==> {
            &&& (r == Ok::<(), Error>(())) <==> (caller@ == owner@)
            &&& caller@ != owner@ ==> r == Err::<(), Error>(Error::NotTokenOwner)
        },
{
    match stored_owner {
        None => Err(Error::TokenNotFound),
        Some(owner) => {
            if !caller.same_as(owner) {
                return Err(Error::NotTokenOwner);
            }
            Ok(())
        },
    }
}

/// Retrieve the owner of a token without authorization checks.
///
/// Returns the stored owner, or [`Error::TokenNotFound`] when the token
/// does not exist.
pub fn get_token_owner(stored_owner: Option<Address>) -> (r: Result<Address, Error>)
    ensures
        r == match stored_owner {
            Some(owner) => Ok(owner),
            None => Err::<Address, Error>(Error::TokenNotFound),
        },
{
    match stored_owner {
        Some(owner) => Ok(owner),
        None => Err(Error::TokenNotFound),
    }
}

/// Check whether `address` owns the token, without asking for a signature.
///
/// Returns `Ok(true)` for the owner, `Ok(false)` for any other address, and
/// [`Error::TokenNotFound`] when the token does not exist.
pub fn is_token_owner(stored_owner: &Option<Address>, address: &Address) -> (r: Result<bool, Error>)
    ensures
        r == owner_query(*stored_owner, *address),
        stored_owner is None ==> r == Err::<bool, Error>(Error::TokenNotFound),
        forall|owner: Address| *stored_owner == Some(owner) ==> r == Ok::<bool, Error>(address@ == owner@),
{
    match stored_owner {
        None => Err(Error::TokenNotFound),
        Some(owner) => Ok(address.same_as(owner)),
    }
}

/// The ownership guard and the read-only check agree: the guard passes
/// exactly for the address that the check calls the owner, it rejects with
/// [`Error::NotTokenOwner`] exactly the addresses that the check calls no
/// owner, and both report [`Error::TokenNotFound`] exactly when the token
/// does not exist.
pub proof fn lemma_require_token_owner_agrees_with_is_token_owner(
    stored_owner: Option<Address>,
    caller: Address,
)
    ensures
        (owner_check(stored_owner, caller) == Ok::<(), Error>(())) <==> (owner_query(stored_owner, caller) == Ok::<bool, Error>(true)),
        (owner_check(stored_owner, caller) == Err::<(), Error>(Error::NotTokenOwner))
            <==> (owner_query(stored_owner, caller) == Ok::<bool, Error>(false)),
        (owner_check(stored_owner, caller) == Err::<(), Error>(Error::TokenNotFound)) <==> stored_owner is None,
        (owner_query(stored_owner, caller) == Err::<bool, Error>(Error::TokenNotFound)) <==> stored_owner is None,
{
}

/// The owner that [`get_token_owner`] reports passes the ownership guard
/// and is recognised by the read-only check.
pub proof fn lemma_stored_owner_is_owner(stored_owner: Option<Address>, owner: Address)
    requires
        stored_owner == Some(owner),
    ensures
        owner_check(stored_owner, owner) == Ok::<(), Error>(()),
        owner_query(stored_owner, owner) == Ok::<bool, Error>(true),
{
}

/// For an existing token the read-only check never fails: it answers
/// whether the address is the owner. The guard admits the owner and rejects
/// every other address with [`Error::NotTokenOwner`], and with no other
/// error.
pub proof fn lemma_existing_token_answers(owner: Address, x: Address)
    ensures
        owner_query(Some(owner), x) == Ok::<bool, Error>(x@ == owner@),
        x@ == owner@ ==> owner_check(Some(owner), x) == Ok::<(), Error>(()),
        x@ != owner@ ==> owner_check(Some(owner), x) == Err::<(), Error>(Error::NotTokenOwner),
        owner_check(None, x) == Err::<(), Error>(Error::TokenNotFound),
        owner_query(None, x) == Err::<bool, Error>(Error::TokenNotFound),
{
}

/// A token has one owner: the ownership guard passes for one address only.
pub proof fn lemma_single_owner(stored_owner: Option<Address>, a: Address, b: Address)
    requires
        owner_check(stored_owner, a) == Ok::<(), Error>(()),
        owner_check(stored_owner, b) == Ok::<(), Error>(()),
    ensures
        a@ == b@,
{
}

} // verus!
