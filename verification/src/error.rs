//! The failures an escrow operation can report, in three categories.

use vstd::prelude::*;

verus! {

/// The three kinds of failure a caller has to tell apart.
#[derive(Clone, Copy, Debug, PartialEq, Eq, Structural)]
pub enum ErrorCategory {
    /// An input does not fit the offer: a wrong maker, a wrong asset type, a wrong
    /// address, a missing authorisation, an identifier already in use.
    Validation,
    /// A source balance is below the amount required.
    InsufficientFunds,
    /// A record the operation refers to does not exist.
    MissingResource,
}

/// Why an escrow operation was rejected. A rejected operation changes nothing.
#[derive(Clone, Copy, Debug, PartialEq, Eq, Structural)]
pub enum EscrowError {
    /// The offer record does not exist.
    OfferNotFound,
    /// The vault does not exist: the offer was never made, or was already taken.
    VaultNotFound,
    /// A token account that must already exist does not.
    TokenAccountNotFound,
    /// The party that must authorise the operation did not sign.
    MissingSignature,
    /// The token program handle names no known token program.
    InvalidProgramId,
    /// An account is kept by another program than the one that has to keep it.
    ProgramMismatch,
    /// The amount offered is zero.
    ZeroOfferAmount,
    /// An account holds, or a descriptor names, another asset type than the one required.
    MintMismatch,
    /// The stated precision is not the asset's own.
    DecimalsMismatch,
    /// A token account is controlled by another party than the one required.
    OwnerMismatch,
    /// The maker supplied is not the maker recorded in the offer.
    MakerMismatch,
    /// An account is not at the address derived for it.
    AddressMismatch,
    /// The seeds presented do not derive the authority of the vault.
    InvalidAuthority,
    /// The record to create exists already: the maker has used this identifier.
    AccountInUse,
    /// One account was supplied in two places.
    DuplicateAccount,
    /// A balance would exceed the largest representable amount.
    AmountOverflow,
    /// A token account that still holds tokens cannot be closed.
    NonEmptyAccount,
    /// The source token account holds less than the amount to move.
    InsufficientFunds,
    /// The payer holds less than the deposit that a new record requires.
    InsufficientLamports,
}

impl EscrowError {
    /// The category of this error.
    pub open spec fn spec_category(self) -> ErrorCategory {
        match self {
            EscrowError::OfferNotFound => ErrorCategory::MissingResource,
            EscrowError::VaultNotFound => ErrorCategory::MissingResource,
            EscrowError::TokenAccountNotFound => ErrorCategory::MissingResource,
            EscrowError::InsufficientFunds => ErrorCategory::InsufficientFunds,
            EscrowError::InsufficientLamports => ErrorCategory::InsufficientFunds,
            _ => ErrorCategory::Validation,
        }
    }

    /// The category of this error.
    #[verifier::when_used_as_spec(spec_category)]
    pub fn category(self) -> (c: ErrorCategory)
        ensures
            c == self.spec_category(),
    {
        match self {
            EscrowError::OfferNotFound => ErrorCategory::MissingResource,
            EscrowError::VaultNotFound => ErrorCategory::MissingResource,
            EscrowError::TokenAccountNotFound => ErrorCategory::MissingResource,
            EscrowError::InsufficientFunds => ErrorCategory::InsufficientFunds,
            EscrowError::InsufficientLamports => ErrorCategory::InsufficientFunds,
            _ => ErrorCategory::Validation,
        }
    }
}

} // verus!
