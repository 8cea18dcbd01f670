//! Making an offer: the offer record and its vault are created, and the offered
//! asset moves from the maker into the vault.

use vstd::prelude::*;
use crate::address::{contains_duplicates, has_duplicates, Address};
use crate::error::EscrowError;
use crate::pda::{
    associated_token_address, check_token_program, created_program_address, created_view,
    find_associated_token_address, find_offer_address, found_address, found_bump, found_program_address, found_view,
    is_token_program, offer_seeds, offer_signer_seeds,
};
use crate::state::offer::Offer;
use crate::token::{
    balance, check_derived_address, check_mint, check_token_account, create_account,
    create_account_outcome, is_derived_address, mint_fault, pay_deposit, pay_deposit_outcome,
    token_account_fault, transfer_checked, transfer_checked_outcome, Account, Mint, Rent, TokenAccount,
    Wallet,
};

verus! {

/// The accounts of one attempt to make an offer, as they stand when the attempt
/// begins and, after it, as it leaves them.
#[derive(Clone, Copy, Debug, PartialEq, Eq)]
pub struct MakeOffer {
    /// The escrow program's own address, under which offer records are derived.
    pub program_id: Address,
    /// The deposits due for new records.
    pub rent: Rent,
    /// The party that makes the offer; it has to authorise the attempt and pays the
    /// deposits of the new records.
    pub maker: Wallet,
    /// The asset type offered.
    pub mint_a: Mint,
    /// The asset type wanted in return.
    pub mint_b: Mint,
    /// The maker's account of the asset offered.
    pub maker_token_account_a: Account<TokenAccount>,
    /// The place of the offer record to create.
    pub offer: Account<Offer>,
    /// The place of the vault to create.
    pub vault: Account<TokenAccount>,
    /// The token program that keeps the token accounts.
    pub token_program: Address,
    /// The bump seed of the offer record's address. It is found when the accounts
    /// are checked and written into the record when the offer is made.
    pub bump: u8,
}

/// The addresses derived for the accounts of a [`MakeOffer`].
#[derive(Clone, Copy, Debug, PartialEq, Eq)]
pub struct MakeOfferAddresses {
    /// The address of the offer record with its bump seed.
    pub offer: Option<(Address, u8)>,
    /// The address of the maker's account of the asset offered.
    pub maker_token_account_a: Option<Address>,
    /// The address of the vault.
    pub vault: Option<Address>,
}

/// The plain values of a [`MakeOfferAddresses`].
pub struct MakeOfferDerivation {
    pub offer: Option<(Seq<u8>, u8)>,
    pub maker_token_account_a: Option<Seq<u8>>,
    pub vault: Option<Seq<u8>>,
}

impl View for MakeOfferAddresses {
    type V = MakeOfferDerivation;

    open spec fn view(&self) -> MakeOfferDerivation {
        MakeOfferDerivation {
            offer: found_view(self.offer),
            maker_token_account_a: created_view(self.maker_token_account_a),
            vault: created_view(self.vault),
        }
    }
}

impl MakeOffer {
    /// The addresses that the derivation yields for the accounts of an attempt to
    /// make the offer `id`.
    pub open spec fn derivation(self, id: u64) -> MakeOfferDerivation {
        MakeOfferDerivation {
            offer: found_program_address(offer_seeds(self.maker.key@, id), self.program_id@),
            maker_token_account_a: associated_token_address(
                self.maker.key@,
                self.mint_a.key@,
                self.token_program@,
            ),
            vault: associated_token_address(self.offer.key@, self.mint_a.key@, self.token_program@),
        }
    }

    /// The maker and the three accounts of an attempt, in the order of the fields.
    /// An attempt may change every one of them, so no two may be the same: above
    /// all, the offer record, which is to control the vault, is not the maker.
    pub open spec fn changing_keys(self) -> Seq<Address> {
        seq![self.maker.key, self.maker_token_account_a.key, self.offer.key, self.vault.key]
    }

    /// Derives the addresses of the accounts of an attempt to make the offer `id`.
    /// The bump seed found for the offer record is the one with which the program
    /// can later act as the record.
    pub fn derive_addresses(&self, id: u64) -> (derived: MakeOfferAddresses)
        ensures
            derived@ == self.derivation(id),
            derived.offer matches Some((address, bump)) ==> created_program_address(
                offer_signer_seeds(self.maker.key@, id, bump),
                self.program_id@,
            ) == Some(address@),
    {
        MakeOfferAddresses {
            offer: find_offer_address(&self.program_id, &self.maker.key, id),
            maker_token_account_a: find_associated_token_address(
                &self.maker.key,
                &self.mint_a.key,
                &self.token_program,
            ),
            vault: find_associated_token_address(&self.offer.key, &self.mint_a.key, &self.token_program),
        }
    }

    /// What is wrong with the accounts supplied, given the addresses derived for
    /// them; `None` if an offer can be made on them. What does not fit is reported
    /// first, an identifier in use among it; then the maker's source account, where
    /// it is missing or does not fit; last an account supplied twice.
    pub open spec fn accounts_fault(self, derived: MakeOfferDerivation) -> Option<EscrowError> {
        let source_fault = token_account_fault(
            self.maker_token_account_a,
            self.token_program,
            self.mint_a.key,
            self.maker.key,
            derived.maker_token_account_a,
        );
        if !self.maker.is_signer {
            Some(EscrowError::MissingSignature)
        } else if !is_token_program(self.token_program) {
            Some(EscrowError::InvalidProgramId)
        } else if mint_fault(self.mint_a, self.token_program) is Some {
            mint_fault(self.mint_a, self.token_program)
        } else if mint_fault(self.mint_b, self.token_program) is Some {
            mint_fault(self.mint_b, self.token_program)
        } else if !is_derived_address(self.offer.key, found_address(derived.offer)) {
            Some(EscrowError::AddressMismatch)
        } else if self.offer.data is Some {
            Some(EscrowError::AccountInUse)
        } else if !is_derived_address(self.vault.key, derived.vault) {
            Some(EscrowError::AddressMismatch)
        } else if self.vault.data is Some {
            Some(EscrowError::AccountInUse)
        } else if source_fault is Some {
            source_fault
        } else if has_duplicates(self.changing_keys()) {
            Some(EscrowError::DuplicateAccount)
        } else {
            None
        }
    }

    /// The accounts as they stand once they have been checked, the deposit of the
    /// offer record has been paid and the vault has been created, the maker having
    /// paid for both; or the reason why the attempt is rejected. The record itself is
    /// not written yet; the bump seed derived with its address is noted for it. The
    /// new vault is kept by the token program, is empty, holds the offered asset type
    /// and is controlled by the offer record's address.
    pub open spec fn accounts_outcome(self, derived: MakeOfferDerivation) -> Result<MakeOffer, EscrowError> {
        match self.accounts_fault(derived) {
            Some(e) => Err(e),
            None => match pay_deposit_outcome(self.maker, self.offer, self.rent.offer) {
                Err(e) => Err(e),
                Ok((maker, offer)) => match create_account_outcome(
                    maker,
                    self.vault,
                    self.rent.token_account,
                    self.token_program,
                    TokenAccount { mint: self.mint_a.key, owner: self.offer.key, amount: 0 },
                ) {
                    Err(e) => Err(e),
                    Ok((maker, vault)) => Ok(
                        MakeOffer { maker, offer, vault, bump: found_bump(derived.offer), ..self },
                    ),
                },
            },
        }
    }

    /// Checks the accounts against the addresses derived for them.
    fn check_accounts(&self, derived: &MakeOfferAddresses) -> (r: Result<(), EscrowError>)
        ensures
            r == match self.accounts_fault(derived@) {
                Some(e) => Err::<(), EscrowError>(e),
                None => Ok::<(), EscrowError>(()),
            },
    {
        if !self.maker.is_signer {
            return Err(EscrowError::MissingSignature);
        }
        if !check_token_program(&self.token_program) {
            return Err(EscrowError::InvalidProgramId);
        }
        match check_mint(&self.mint_a, &self.token_program) {
            Err(e) => return Err(e),
            Ok(()) => {},
        }
        match check_mint(&self.mint_b, &self.token_program) {
            Err(e) => return Err(e),
            Ok(()) => {},
        }
        let at_derived_address = match derived.offer {
            Some((address, _)) => address.same(&self.offer.key),
            None => false,
        };
        if !at_derived_address {
            return Err(EscrowError::AddressMismatch);
        }
        if self.offer.data.is_some() {
            return Err(EscrowError::AccountInUse);
        }
        if !check_derived_address(&self.vault.key, &derived.vault) {
            return Err(EscrowError::AddressMismatch);
        }
        if self.vault.data.is_some() {
            return Err(EscrowError::AccountInUse);
        }
        match check_token_account(
            &self.maker_token_account_a,
            &self.token_program,
            &self.mint_a.key,
            &self.maker.key,
            &derived.maker_token_account_a,
        ) {
            Err(e) => return Err(e),
            Ok(()) => {},
        }
        let mut keys: Vec<Address> = Vec::new();
        keys.push(self.maker.key);
        keys.push(self.maker_token_account_a.key);
        keys.push(self.offer.key);
        keys.push(self.vault.key);
        assert(keys@ =~= self.changing_keys());
        if contains_duplicates(&keys) {
            return Err(EscrowError::DuplicateAccount);
        }
        Ok(())
    }

    /// Checks the accounts supplied, pays the deposit of the offer record and creates
    /// the vault. On an error nothing has changed.
    pub fn try_accounts(&mut self, derived: &MakeOfferAddresses) -> (r: Result<(), EscrowError>)
        ensures
            match old(self).accounts_outcome(derived@) {
                Ok(ready) => r is Ok && *final(self) == ready,
                Err(e) => r == Err::<(), EscrowError>(e) && *final(self) == *old(self),
            },
    {
        match self.check_accounts(derived) {
            Err(e) => return Err(e),
            Ok(()) => {},
        }
        let bump = match derived.offer {
            Some((_, bump)) => bump,
            None => return Err(EscrowError::AddressMismatch),
        };
        let mut maker = self.maker;
        let mut offer = self.offer;
        let mut vault = self.vault;
        match pay_deposit(&mut maker, &mut offer, self.rent.offer) {
            Err(e) => return Err(e),
            Ok(()) => {},
        }
        match create_account(
            &mut maker,
            &mut vault,
            self.rent.token_account,
            &self.token_program,
            TokenAccount { mint: self.mint_a.key, owner: self.offer.key, amount: 0 },
        ) {
            Err(e) => return Err(e),
            Ok(()) => {},
        }
        self.maker = maker;
        self.offer = offer;
        self.vault = vault;
        self.bump = bump;
        Ok(())
    }

    /// The accounts after the offer record has been written with the maker's terms
    /// and the offered amount has moved into the vault, or the reason why neither
    /// happens. A record is written once: where one exists, that is reported before
    /// anything else and nothing happens.
    pub open spec fn offer_outcome(self, id: u64, offer_amount: u64, wanted_amount: u64) -> Result<
        MakeOffer,
        EscrowError,
    > {
        if self.offer.data is Some {
            Err(EscrowError::AccountInUse)
        } else if self.vault.data is None {
            Err(EscrowError::VaultNotFound)
        } else if self.maker_token_account_a.data is None {
            Err(EscrowError::TokenAccountNotFound)
        } else if offer_amount == 0 {
            Err(EscrowError::ZeroOfferAmount)
        } else {
            match transfer_checked_outcome(
                self.maker_token_account_a.data->0,
                self.vault.data->0,
                self.mint_a,
                self.maker.key,
                self.maker.is_signer,
                offer_amount,
                self.mint_a.decimals,
            ) {
                Err(e) => Err(e),
                Ok((debited, credited)) => Ok(
                    MakeOffer {
                        maker_token_account_a: Account {
                            key: self.maker_token_account_a.key,
                            lamports: self.maker_token_account_a.lamports,
                            program: self.maker_token_account_a.program,
                            data: Some(debited),
                        },
                        offer: Account {
                            key: self.offer.key,
                            lamports: self.offer.lamports,
                            program: self.program_id,
                            data: Some(
                                Offer {
                                    id,
                                    maker: self.maker.key,
                                    mint_a: self.mint_a.key,
                                    mint_b: self.mint_b.key,
                                    wanted_amount,
                                    bump: self.bump,
                                },
                            ),
                        },
                        vault: Account {
                            key: self.vault.key,
                            lamports: self.vault.lamports,
                            program: self.vault.program,
                            data: Some(credited),
                        },
                        ..self
                    },
                ),
            }
        }
    }

    /// Writes the offer record with the maker's terms, to be kept by the escrow
    /// program, and moves `offer_amount` of the offered asset from the maker's
    /// account into the vault, on the maker's word.
    /// On an error nothing has changed.
    pub fn make_offer(&mut self, id: u64, offer_amount: u64, wanted_amount: u64) -> (r: Result<(), EscrowError>)
        ensures
            match old(self).offer_outcome(id, offer_amount, wanted_amount) {
                Ok(made) => r is Ok && *final(self) == made,
                Err(e) => r == Err::<(), EscrowError>(e) && *final(self) == *old(self),
            },
            r is Ok ==> {
                &&& offer_amount > 0
                &&& final(self).offer.data == Some(
                    Offer {
                        id,
                        maker: old(self).maker.key,
                        mint_a: old(self).mint_a.key,
                        mint_b: old(self).mint_b.key,
                        wanted_amount,
                        bump: old(self).bump,
                    },
                )
                &&& balance(final(self).vault) == balance(old(self).vault) + offer_amount
                &&& balance(final(self).maker_token_account_a) == balance(old(self).maker_token_account_a)
                    - offer_amount
            },
    {
        if self.offer.data.is_some() {
            return Err(EscrowError::AccountInUse);
        }
        let mut vault = match self.vault.data {
            Some(vault) => vault,
            None => return Err(EscrowError::VaultNotFound),
        };
        let mut source = match self.maker_token_account_a.data {
            Some(source) => source,
            None => return Err(EscrowError::TokenAccountNotFound),
        };
        if offer_amount == 0 {
            return Err(EscrowError::ZeroOfferAmount);
        }
        match transfer_checked(
            &mut source,
            &mut vault,
            &self.mint_a,
            &self.maker.key,
            self.maker.is_signer,
            offer_amount,
            self.mint_a.decimals,
        ) {
            Err(e) => return Err(e),
            Ok(()) => {},
        }
        self.offer.program = self.program_id;
        self.offer.data = Some(
            Offer {
                id,
                maker: self.maker.key,
                mint_a: self.mint_a.key,
                mint_b: self.mint_b.key,
                wanted_amount,
                bump: self.bump,
            },
        );
        self.maker_token_account_a.data = Some(source);
        self.vault.data = Some(vault);
        Ok(())
    }
}

} // verus!
