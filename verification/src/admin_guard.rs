//! Administrative access control guard.
//!
//! Restricts administrative operations to the configured administrator.
//! The guard distinguishes a contract that has no administrator yet
//! ([`Error::NotInitialized`]) from a caller that is not the administrator
//! ([`Error::UnauthorizedAdmin`]). A caller that passes must then prove its
//! identity by signing; the contract shell asks the host for that signature
//! only after this guard has passed, so a rejected caller is never asked.

use vstd::prelude::*;

use crate::address::Address;
use crate::errors::Error;

verus! {

/// What the administrator guard answers when the stored administrator is
/// `stored_admin` and `caller` asks for administrative rights.
pub open spec fn admin_check(stored_admin: Option<Address>, caller: Address) -> Result<(), Error> {
    match stored_admin {
        None => Err(Error::NotInitialized),
        Some(admin) => if caller@ == admin@ {
            Ok(())
        } else {
            Err(Error::UnauthorizedAdmin)
        },
    }
}

/// What the read-only administrator check answers for `address`.
pub open spec fn admin_query(stored_admin: Option<Address>, address: Address) -> Result<bool, Error> {
    match stored_admin {
        None => Err(Error::NotInitialized),
        Some(admin) => Ok(address@ == admin@),
    }
}

/// Validate that `caller` is the contract administrator.
///
/// `stored_admin` is the administrator held in the contract's instance
/// storage, `None` when the contract has not been initialized.
///
/// # Errors
/// - [`Error::NotInitialized`] if no administrator is stored
/// - [`Error::UnauthorizedAdmin`] if the caller is not the administrator
pub fn require_admin(stored_admin: &Option<Address>, caller: &Address) -> (r: Result<(), Error>)
    ensures
        r == admin_check(*stored_admin, *caller),
        stored_admin is None ==> r == Err::<(), Error>(Error::NotInitialized),
        forall|admin: Address| *stored_admin == Some(admin) ==> {
            &&& (r == Ok::<(), Error>(())) <==> (caller@ == admin@)
            &&& caller@ != admin@ ==> r == Err::<(), Error>(Error::UnauthorizedAdmin)
        },
{
    match stored_admin {
        None => Err(Error::NotInitialized),
        Some(admin) => {
            if !caller.same_as(admin) {
                return Err(Error::UnauthorizedAdmin);
            }
            Ok(())
        },
    }
}

/// Retrieve the configured administrator.
///
/// Returns the stored administrator, or [`Error::NotInitialized`] when none
/// has been set.
pub fn get_admin(stored_admin: Option<Address>) -> (r: Result<Address, Error>)
    ensures
        r == match stored_admin {
            Some(admin) => Ok(admin),
            None => Err::<Address, Error>(Error::NotInitialized),
        },
{
    match stored_admin {
        Some(admin) => Ok(admin),
        None => Err(Error::NotInitialized),
    }
}

/// Check whether `address` is the administrator, without asking for a
/// signature.
///
/// Returns `Ok(true)` for the administrator, `Ok(false)` for any other
/// address, and [`Error::NotInitialized`] when no administrator is stored.
pub fn is_admin(stored_admin: &Option<Address>, address: &Address) -> (r: Result<bool, Error>)
    ensures
        r == admin_query(*stored_admin, *address),
        stored_admin is None ==> r == Err::<bool, Error>(Error::NotInitialized),
        forall|admin: Address| *stored_admin == Some(admin) ==> r == Ok::<bool, Error>(address@ == admin@),
{
    match stored_admin {
        None => Err(Error::NotInitialized),
        Some(admin) => Ok(address.same_as(admin)),
    }
}

/// The administrator guard and the read-only check agree: the guard passes
/// exactly for the address that the check calls the administrator, it
/// rejects with [`Error::UnauthorizedAdmin`] exactly the addresses that the
/// check calls no administrator, and both report [`Error::NotInitialized`]
/// exactly when no administrator is stored.
pub proof fn lemma_require_admin_agrees_with_is_admin(stored_admin: Option<Address>, caller: Address)
    ensures
        (admin_check(stored_admin, caller) == Ok::<(), Error>(())) <==> (admin_query(stored_admin, caller) == Ok::<bool, Error>(true)),
        (admin_check(stored_admin, caller) == Err::<(), Error>(Error::UnauthorizedAdmin))
            <==> (admin_query(stored_admin, caller) == Ok::<bool, Error>(false)),
        (admin_check(stored_admin, caller) == Err::<(), Error>(Error::NotInitialized)) <==> stored_admin is None,
        (admin_query(stored_admin, caller) == Err::<bool, Error>(Error::NotInitialized)) <==> stored_admin is None,
{
}

/// The administrator that [`get_admin`] reports passes the administrator
/// guard and is recognised by the read-only check.
pub proof fn lemma_stored_admin_is_admin(stored_admin: Option<Address>, admin: Address)
    requires
        stored_admin == Some(admin),
    ensures
        admin_check(stored_admin, admin) == Ok::<(), Error>(()),
        admin_query(stored_admin, admin) == Ok::<bool, Error>(true),
{
}

/// Once an administrator is stored, the read-only check never fails: it
/// answers whether the address is the administrator. The guard admits the
/// administrator and rejects every other address with
/// [`Error::UnauthorizedAdmin`], and with no other error.
pub proof fn lemma_initialized_admin_answers(admin: Address, x: Address)
    ensures
        admin_query(Some(admin), x) == Ok::<bool, Error>(x@ == admin@),
        x@ == admin@ ==> admin_check(Some(admin), x) == Ok::<(), Error>(()),
        x@ != admin@ ==> admin_check(Some(admin), x) == Err::<(), Error>(Error::UnauthorizedAdmin),
        admin_check(None, x) == Err::<(), Error>(Error::NotInitialized),
        admin_query(None, x) == Err::<bool, Error>(Error::NotInitialized),
{
}

/// Once the contract is initialized, the administrator guard passes for
/// one address only.
pub proof fn lemma_single_admin(stored_admin: Option<Address>, a: Address, b: Address)
    requires
        admin_check(stored_admin, a) == Ok::<(), Error>(()),
        admin_check(stored_admin, b) == Ok::<(), Error>(()),
    ensures
        a@ == b@,
{
}

} // verus!
