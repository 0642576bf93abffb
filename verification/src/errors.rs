//! Error codes returned by the contract.

use vstd::prelude::*;

verus! {

/// Errors that the contract's entry points report.
///
/// Each variant has a stable numeric contract error code, given by
/// [`Error::code`] and recovered by [`Error::from_code`].
#[derive(Copy, Clone, Debug, PartialEq, Eq, Structural)]
pub enum Error {
    NotInitialized,
    AlreadyInitialized,
    Unauthorized,
    TokenNotFound,
    AlreadyMinted,
    InvalidBasisPoints,
    InvalidRecipient,
    Paused,
    NotPaused,
    MintCooldown,
    /// Returned when an attempt is made to mint a clip that has already been
    /// minted. Each `clip_id` may only be minted once; subsequent mint calls
    /// for the same `clip_id` must return this error.
    ClipAlreadyMinted,
    /// Returned when an invalid wallet address is provided.
    InvalidAddress,
    /// Metadata URI is already associated with another NFT.
    DuplicateMetadata,
    /// Caller is not authorized to mint NFTs.
    UnauthorizedMinter,
    /// URL protocol is not supported (must be https://, ipfs://, or ar://).
    UnsupportedProtocol,
    /// URL is malformed or invalid.
    MalformedUrl,
    /// Batch mint size exceeds the configured maximum limit.
    BatchLimitExceeded,
    /// Caller is not an administrator.
    UnauthorizedAdmin,
    /// Caller identity is invalid or missing.
    InvalidCaller,
    /// Caller does not own the resource being modified.
    NotTokenOwner,
}

/// The contract error code of each error.
pub open spec fn error_code(e: Error) -> u32 {
    match e {
        Error::NotInitialized => 1,
        Error::AlreadyInitialized => 2,
        Error::Unauthorized => 3,
        Error::TokenNotFound => 4,
        Error::AlreadyMinted => 5,
        Error::InvalidBasisPoints => 6,
        Error::InvalidRecipient => 7,
        Error::Paused => 8,
        Error::NotPaused => 9,
        Error::MintCooldown => 10,
        Error::ClipAlreadyMinted => 11,
        Error::InvalidAddress => 12,
        Error::DuplicateMetadata => 21,
        Error::UnauthorizedMinter => 22,
        Error::UnsupportedProtocol => 23,
        Error::MalformedUrl => 24,
        Error::BatchLimitExceeded => 45,
        Error::UnauthorizedAdmin => 46,
        Error::InvalidCaller => 47,
        Error::NotTokenOwner => 48,
    }
}

impl Error {
    /// The numeric contract error code of this error.
    pub fn code(&self) -> (c: u32)
        ensures
            c == error_code(*self),
    {
        match self {
            Error::NotInitialized => 1,
            Error::AlreadyInitialized => 2,
            Error::Unauthorized => 3,
            Error::TokenNotFound => 4,
            Error::AlreadyMinted => 5,
            Error::InvalidBasisPoints => 6,
            Error::InvalidRecipient => 7,
            Error::Paused => 8,
            Error::NotPaused => 9,
            Error::MintCooldown => 10,
            Error::ClipAlreadyMinted => 11,
            Error::InvalidAddress => 12,
            Error::DuplicateMetadata => 21,
            Error::UnauthorizedMinter => 22,
            Error::UnsupportedProtocol => 23,
            Error::MalformedUrl => 24,
            Error::BatchLimitExceeded => 45,
            Error::UnauthorizedAdmin => 46,
            Error::InvalidCaller => 47,
            Error::NotTokenOwner => 48,
        }
    }

    /// The error whose contract error code is `code`, if there is one.
    pub fn from_code(code: u32) -> (r: Option<Error>)
        ensures
            match r {
                Some(e) => error_code(e) == code,
                None => forall|e: Error| error_code(e) != code,
            },
            forall|e: Error| error_code(e) == code ==> r == Some(e),
    {
        match code {
            1 => Some(Error::NotInitialized),
            2 => Some(Error::AlreadyInitialized),
            3 => Some(Error::Unauthorized),
            4 => Some(Error::TokenNotFound),
            5 => Some(Error::AlreadyMinted),
            6 => Some(Error::InvalidBasisPoints),
            7 => Some(Error::InvalidRecipient),
            8 => Some(Error::Paused),
            9 => Some(Error::NotPaused),
            10 => Some(Error::MintCooldown),
            11 => Some(Error::ClipAlreadyMinted),
            12 => Some(Error::InvalidAddress),
            21 => Some(Error::DuplicateMetadata),
            22 => Some(Error::UnauthorizedMinter),
            23 => Some(Error::UnsupportedProtocol),
            24 => Some(Error::MalformedUrl),
            45 => Some(Error::BatchLimitExceeded),
            46 => Some(Error::UnauthorizedAdmin),
            47 => Some(Error::InvalidCaller),
            48 => Some(Error::NotTokenOwner),
            _ => None,
        }
    }
}

/// Distinct errors have distinct codes, so a code names exactly one error.
pub proof fn lemma_error_code_injective(a: Error, b: Error)
    ensures
        error_code(a) == error_code(b) ==> a == b,
{
}

} // verus!
