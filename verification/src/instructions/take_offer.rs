//! Taking an offer: the taker pays the maker the wanted asset, receives the escrowed
//! asset from the vault, and the vault is closed.

use vstd::prelude::*;
use crate::address::{contains_duplicates, has_duplicates, Address};
use crate::error::EscrowError;
use crate::pda::{
    associated_token_address, check_token_program, created_program_address, created_view,
    derive_offer_authority, find_associated_token_address, find_offer_address, found_address,
    found_program_address,
    found_view, is_token_program, offer_seeds, offer_signer_seeds,
};
use crate::state::offer::Offer;
use crate::token::{
    balance, check_derived_address, check_mint, check_token_account, check_token_slot, close_account,
    close_account_outcome, ensure_token_account, ensure_token_account_outcome, is_derived_address,
    mint_fault, token_account_fault, token_slot_fault, transfer_checked, transfer_checked_outcome,
    Account, Mint, Rent, TokenAccount, Wallet,
};

verus! {

/// The accounts of one attempt to take an offer, as they stand when the attempt
/// begins and, after it, as it leaves them.
#[derive(Clone, Copy, Debug, PartialEq, Eq)]
pub struct TakeOffer {
    /// The escrow program's own address, under which offer records are derived.
    pub program_id: Address,
    /// The deposits due for new records.
    pub rent: Rent,
    /// The party that takes the offer; it has to authorise the attempt.
    pub taker: Wallet,
    /// The party that made the offer; it need not authorise the attempt.
    pub maker: Wallet,
    /// The asset type held in the vault.
    pub mint_a: Mint,
    /// The asset type the taker pays.
    pub mint_b: Mint,
    /// The taker's account of the asset to pay.
    pub taker_token_account_b: Account<TokenAccount>,
    /// The taker's account of the escrowed asset; created if it does not exist.
    pub taker_token_account_a: Account<TokenAccount>,
    /// The maker's account of the asset to receive; created if it does not exist.
    pub maker_token_account_b: Account<TokenAccount>,
    /// The offer record.
    pub offer: Account<Offer>,
    /// The vault that the offer record controls.
    pub vault: Account<TokenAccount>,
    /// The token program that keeps the token accounts.
    pub token_program: Address,
}

/// The addresses derived for the accounts of a [`TakeOffer`].
#[derive(Clone, Copy, Debug, PartialEq, Eq)]
pub struct TakeOfferAddresses {
    /// The address of the offer record with its bump seed.
    pub offer: Option<(Address, u8)>,
    /// The address of the taker's account of the asset to pay.
    pub taker_token_account_b: Option<Address>,
    /// The address of the taker's account of the escrowed asset.
    pub taker_token_account_a: Option<Address>,
    /// The address of the maker's account of the asset to receive.
    pub maker_token_account_b: Option<Address>,
    /// The address of the vault.
    pub vault: Option<Address>,
}

/// The plain values of a [`TakeOfferAddresses`].
pub struct TakeOfferDerivation {
    pub offer: Option<(Seq<u8>, u8)>,
    pub taker_token_account_b: Option<Seq<u8>>,
    pub taker_token_account_a: Option<Seq<u8>>,
    pub maker_token_account_b: Option<Seq<u8>>,
    pub vault: Option<Seq<u8>>,
}

impl View for TakeOfferAddresses {
    type V = TakeOfferDerivation;

    open spec fn view(&self) -> TakeOfferDerivation {
        TakeOfferDerivation {
            offer: found_view(self.offer),
            taker_token_account_b: created_view(self.taker_token_account_b),
            taker_token_account_a: created_view(self.taker_token_account_a),
            maker_token_account_b: created_view(self.maker_token_account_b),
            vault: created_view(self.vault),
        }
    }
}

impl TakeOffer {
    /// The addresses that the derivation yields for the accounts of this attempt.
    /// The offer record's address is derived from the maker supplied and the
    /// identifier that the record itself states.
    pub open spec fn derivation(self) -> TakeOfferDerivation {
        TakeOfferDerivation {
            offer: match self.offer.data {
                Some(record) => found_program_address(offer_seeds(self.maker.key@, record.id), self.program_id@),
                None => None,
            },
            taker_token_account_b: associated_token_address(
                self.taker.key@,
                self.mint_b.key@,
                self.token_program@,
            ),
            taker_token_account_a: associated_token_address(
                self.taker.key@,
                self.mint_a.key@,
                self.token_program@,
            ),
            maker_token_account_b: associated_token_address(
                self.maker.key@,
                self.mint_b.key@,
                self.token_program@,
            ),
            vault: associated_token_address(self.offer.key@, self.mint_a.key@, self.token_program@),
        }
    }

    /// The address as which the program acts when it presents the seeds that the
    /// offer record states: the maker supplied, the record's identifier, its bump seed.
    pub open spec fn authority(self) -> Option<Seq<u8>> {
        match self.offer.data {
            Some(record) => created_program_address(
                offer_signer_seeds(self.maker.key@, record.id, record.bump),
                self.program_id@,
            ),
            None => None,
        }
    }

    /// The two parties and the five accounts of an attempt, in the order of the
    /// fields. An attempt may change every one of them, so no two may be the same.
    pub open spec fn changing_keys(self) -> Seq<Address> {
        seq![
            self.taker.key,
            self.maker.key,
            self.taker_token_account_b.key,
            self.taker_token_account_a.key,
            self.maker_token_account_b.key,
            self.offer.key,
            self.vault.key,
        ]
    }

    /// Derives the addresses of the accounts of this attempt.
    pub fn derive_addresses(&self) -> (derived: TakeOfferAddresses)
        ensures
            derived@ == self.derivation(),
    {
        let offer = match self.offer.data {
            Some(record) => find_offer_address(&self.program_id, &self.maker.key, record.id),
            None => None,
        };
        TakeOfferAddresses {
            offer,
            taker_token_account_b: find_associated_token_address(
                &self.taker.key,
                &self.mint_b.key,
                &self.token_program,
            ),
            taker_token_account_a: find_associated_token_address(
                &self.taker.key,
                &self.mint_a.key,
                &self.token_program,
            ),
            maker_token_account_b: find_associated_token_address(
                &self.maker.key,
                &self.mint_b.key,
                &self.token_program,
            ),
            vault: find_associated_token_address(&self.offer.key, &self.mint_a.key, &self.token_program),
        }
    }

    /// Derives the address as which the program acts for the offer record.
    pub fn derive_authority(&self) -> (authority: Option<Address>)
        ensures
            created_view(authority) == self.authority(),
    {
        match self.offer.data {
            Some(record) => derive_offer_authority(&self.program_id, &self.maker.key, record.id, record.bump),
            None => None,
        }
    }

    /// What is wrong with the accounts supplied, given the addresses derived for
    /// them; `None` if they fit the offer. A missing record or vault is reported
    /// first; then whatever does not fit the record; then the taker's source account,
    /// where it is missing or does not fit; last an account supplied twice.
    pub open spec fn accounts_fault(self, derived: TakeOfferDerivation) -> Option<EscrowError> {
        let vault_fault = token_account_fault(
            self.vault,
            self.token_program,
            self.mint_a.key,
            self.offer.key,
            derived.vault,
        );
        let taker_fault = token_slot_fault(
            self.taker_token_account_a,
            self.token_program,
            self.mint_a.key,
            self.taker.key,
            derived.taker_token_account_a,
        );
        let maker_fault = token_slot_fault(
            self.maker_token_account_b,
            self.token_program,
            self.mint_b.key,
            self.maker.key,
            derived.maker_token_account_b,
        );
        let source_fault = token_account_fault(
            self.taker_token_account_b,
            self.token_program,
            self.mint_b.key,
            self.taker.key,
            derived.taker_token_account_b,
        );
        if self.offer.data is None {
            Some(EscrowError::OfferNotFound)
        } else if self.vault.data is None {
            Some(EscrowError::VaultNotFound)
        } else if !self.taker.is_signer {
            Some(EscrowError::MissingSignature)
        } else if !is_token_program(self.token_program) {
            Some(EscrowError::InvalidProgramId)
        } else if mint_fault(self.mint_a, self.token_program) is Some {
            mint_fault(self.mint_a, self.token_program)
        } else if mint_fault(self.mint_b, self.token_program) is Some {
            mint_fault(self.mint_b, self.token_program)
        } else if self.offer.program != self.program_id {
            Some(EscrowError::ProgramMismatch)
        } else if self.offer.data->0.maker != self.maker.key {
            Some(EscrowError::MakerMismatch)
        } else if self.offer.data->0.mint_a != self.mint_a.key || self.offer.data->0.mint_b
            != self.mint_b.key {
            Some(EscrowError::MintMismatch)
        } else if !is_derived_address(self.offer.key, found_address(derived.offer)) {
            Some(EscrowError::AddressMismatch)
        } else if vault_fault is Some {
            vault_fault
        } else if taker_fault is Some {
            taker_fault
        } else if maker_fault is Some {
            maker_fault
        } else if source_fault is Some {
            source_fault
        } else if has_duplicates(self.changing_keys()) {
            Some(EscrowError::DuplicateAccount)
        } else {
            None
        }
    }

    /// The accounts as they stand once they have been checked and the token accounts
    /// that are created on demand exist, the taker having paid their deposits; or the
    /// reason why the attempt is rejected.
    pub open spec fn accounts_outcome(self, derived: TakeOfferDerivation) -> Result<TakeOffer, EscrowError> {
        match self.accounts_fault(derived) {
            Some(e) => Err(e),
            None => match ensure_token_account_outcome(
                self.taker,
                self.taker_token_account_a,
                self.rent.token_account,
                self.token_program,
                self.mint_a.key,
                self.taker.key,
            ) {
                Err(e) => Err(e),
                Ok((taker, taker_token_account_a)) => match ensure_token_account_outcome(
                    taker,
                    self.maker_token_account_b,
                    self.rent.token_account,
                    self.token_program,
                    self.mint_b.key,
                    self.maker.key,
                ) {
                    Err(e) => Err(e),
                    Ok((taker, maker_token_account_b)) => Ok(
                        TakeOffer { taker, taker_token_account_a, maker_token_account_b, ..self },
                    ),
                },
            },
        }
    }

    /// Checks the accounts against the offer record and the addresses derived for
    /// them.
    fn check_accounts(&self, derived: &TakeOfferAddresses) -> (r: Result<(), EscrowError>)
        ensures
            r == match self.accounts_fault(derived@) {
                Some(e) => Err::<(), EscrowError>(e),
                None => Ok::<(), EscrowError>(()),
            },
    {
        let record = match self.offer.data {
            Some(record) => record,
            None => return Err(EscrowError::OfferNotFound),
        };
        if self.vault.data.is_none() {
            return Err(EscrowError::VaultNotFound);
        }
        if !self.taker.is_signer {
            return Err(EscrowError::MissingSignature);
        }
        if !check_token_program(&self.token_program) {
            return Err(EscrowError::InvalidProgramId);
        }
        match check_mint(&self.mint_a, &self.token_program) {
            Err(e) => return Err(e),
            Ok(()) => {},
        }
        match check_mint(&self.mint_b, &self.token_program) {
            Err(e) => return Err(e),
            Ok(()) => {},
        }
        if !self.offer.program.same(&self.program_id) {
            return Err(EscrowError::ProgramMismatch);
        }
        if !record.maker.same(&self.maker.key) {
            return Err(EscrowError::MakerMismatch);
        }
        if !record.mint_a.same(&self.mint_a.key) || !record.mint_b.same(&self.mint_b.key) {
            return Err(EscrowError::MintMismatch);
        }
        let at_derived_address = match derived.offer {
            Some((address, _)) => address.same(&self.offer.key),
            None => false,
        };
        if !at_derived_address {
            return Err(EscrowError::AddressMismatch);
        }
        match check_token_account(
            &self.vault,
            &self.token_program,
            &self.mint_a.key,
            &self.offer.key,
            &derived.vault,
        ) {
            Err(e) => return Err(e),
            Ok(()) => {},
        }
        match check_token_slot(
            &self.taker_token_account_a,
            &self.token_program,
            &self.mint_a.key,
            &self.taker.key,
            &derived.taker_token_account_a,
        ) {
            Err(e) => return Err(e),
            Ok(()) => {},
        }
        match check_token_slot(
            &self.maker_token_account_b,
            &self.token_program,
            &self.mint_b.key,
            &self.maker.key,
            &derived.maker_token_account_b,
        ) {
            Err(e) => return Err(e),
            Ok(()) => {},
        }
        match check_token_account(
            &self.taker_token_account_b,
            &self.token_program,
            &self.mint_b.key,
            &self.taker.key,
            &derived.taker_token_account_b,
        ) {
            Err(e) => return Err(e),
            Ok(()) => {},
        }
        let mut keys: Vec<Address> = Vec::new();
        keys.push(self.taker.key);
        keys.push(self.maker.key);
        keys.push(self.taker_token_account_b.key);
        keys.push(self.taker_token_account_a.key);
        keys.push(self.maker_token_account_b.key);
        keys.push(self.offer.key);
        keys.push(self.vault.key);
        assert(keys@ =~= self.changing_keys());
        if contains_duplicates(&keys) {
            return Err(EscrowError::DuplicateAccount);
        }
        Ok(())
    }

    /// Checks the accounts supplied and creates the token accounts that are created
    /// on demand. On an error nothing has changed.
    pub fn try_accounts(&mut self, derived: &TakeOfferAddresses) -> (r: Result<(), EscrowError>)
        ensures
            match old(self).accounts_outcome(derived@) {
                Ok(ready) => r is Ok && *final(self) == ready,
                Err(e) => r == Err::<(), EscrowError>(e) && *final(self) == *old(self),
            },
    {
        match self.check_accounts(derived) {
            Err(e) => return Err(e),
            Ok(()) => {},
        }
        let mut taker = self.taker;
        let mut taker_token_account_a = self.taker_token_account_a;
        let mut maker_token_account_b = self.maker_token_account_b;
        match ensure_token_account(
            &mut taker,
            &mut taker_token_account_a,
            self.rent.token_account,
            &self.token_program,
            &self.mint_a.key,
            &self.taker.key,
        ) {
            Err(e) => return Err(e),
            Ok(()) => {},
        }
        match ensure_token_account(
            &mut taker,
            &mut maker_token_account_b,
            self.rent.token_account,
            &self.token_program,
            &self.mint_b.key,
            &self.maker.key,
        ) {
            Err(e) => return Err(e),
            Ok(()) => {},
        }
        self.taker = taker;
        self.taker_token_account_a = taker_token_account_a;
        self.maker_token_account_b = maker_token_account_b;
        Ok(())
    }

    /// The accounts after the payment leg, or the reason why nothing is paid.
    pub open spec fn payment_outcome(self) -> Result<TakeOffer, EscrowError> {
        if self.offer.data is None {
            Err(EscrowError::OfferNotFound)
        } else if self.taker_token_account_b.data is None || self.maker_token_account_b.data is None {
            Err(EscrowError::TokenAccountNotFound)
        } else {
            match transfer_checked_outcome(
                self.taker_token_account_b.data->0,
                self.maker_token_account_b.data->0,
                self.mint_b,
                self.taker.key,
                self.taker.is_signer,
                self.offer.data->0.wanted_amount,
                self.mint_b.decimals,
            ) {
                Err(e) => Err(e),
                Ok((debited, credited)) => Ok(
                    TakeOffer {
                        taker_token_account_b: Account {
                            key: self.taker_token_account_b.key,
                            lamports: self.taker_token_account_b.lamports,
                            program: self.taker_token_account_b.program,
                            data: Some(debited),
                        },
                        maker_token_account_b: Account {
                            key: self.maker_token_account_b.key,
                            lamports: self.maker_token_account_b.lamports,
                            program: self.maker_token_account_b.program,
                            data: Some(credited),
                        },
                        ..self
                    },
                ),
            }
        }
    }

    /// The payment leg: moves exactly the wanted amount of the wanted asset from the
    /// taker's account to the maker's, on the taker's word. On an error nothing has
    /// changed. The vault is never touched.
    pub fn send_wanted_tokens_to_maker(&mut self) -> (r: Result<(), EscrowError>)
        ensures
            match old(self).payment_outcome() {
                Ok(paid) => r is Ok && *final(self) == paid,
                Err(e) => r == Err::<(), EscrowError>(e) && *final(self) == *old(self),
            },
            final(self).vault == old(self).vault,
            r is Ok ==> {
                &&& balance(final(self).maker_token_account_b) == balance(old(self).maker_token_account_b)
                    + old(self).offer.data->0.wanted_amount
                &&& balance(final(self).taker_token_account_b) == balance(old(self).taker_token_account_b)
                    - old(self).offer.data->0.wanted_amount
                &&& old(self).taker.is_signer
            },
    {
        let record = match self.offer.data {
            Some(record) => record,
            None => return Err(EscrowError::OfferNotFound),
        };
        let mut source = match self.taker_token_account_b.data {
            Some(source) => source,
            None => return Err(EscrowError::TokenAccountNotFound),
        };
        let mut destination = match self.maker_token_account_b.data {
            Some(destination) => destination,
            None => return Err(EscrowError::TokenAccountNotFound),
        };
        match transfer_checked(
            &mut source,
            &mut destination,
            &self.mint_b,
            &self.taker.key,
            self.taker.is_signer,
            record.wanted_amount,
            self.mint_b.decimals,
        ) {
            Err(e) => return Err(e),
            Ok(()) => {},
        }
        self.taker_token_account_b.data = Some(source);
        self.maker_token_account_b.data = Some(destination);
        Ok(())
    }

    /// The accounts after the release leg carried out as `authority`, or the reason
    /// why nothing is released. Only the offer record's own address is accepted as
    /// authority; it moves the vault's whole balance to the taker, closes the vault
    /// and hands the vault's deposit to the maker.
    pub open spec fn release_outcome(self, authority: Option<Seq<u8>>) -> Result<TakeOffer, EscrowError> {
        if self.offer.data is None {
            Err(EscrowError::OfferNotFound)
        } else if self.vault.data is None {
            Err(EscrowError::VaultNotFound)
        } else if self.taker_token_account_a.data is None {
            Err(EscrowError::TokenAccountNotFound)
        } else if !is_derived_address(self.offer.key, authority) {
            Err(EscrowError::InvalidAuthority)
        } else {
            match transfer_checked_outcome(
                self.vault.data->0,
                self.taker_token_account_a.data->0,
                self.mint_a,
                self.offer.key,
                true,
                self.vault.data->0.amount,
                self.mint_a.decimals,
            ) {
                Err(e) => Err(e),
                Ok((emptied, credited)) => match close_account_outcome(
                    Account {
                        key: self.vault.key,
                        lamports: self.vault.lamports,
                        program: self.vault.program,
                        data: Some(emptied),
                    },
                    self.maker,
                    self.offer.key,
                    true,
                ) {
                    Err(e) => Err(e),
                    Ok((closed, maker)) => Ok(
                        TakeOffer {
                            maker,
                            taker_token_account_a: Account {
                                key: self.taker_token_account_a.key,
                                lamports: self.taker_token_account_a.lamports,
                                program: self.taker_token_account_a.program,
                                data: Some(credited),
                            },
                            vault: closed,
                            ..self
                        },
                    ),
                },
            }
        }
    }

    /// The release leg, carried out as `authority`: the address as which the program
    /// is entitled to act. On an error nothing has changed.
    pub fn release_vault(&mut self, authority: &Option<Address>) -> (r: Result<(), EscrowError>)
        ensures
            match old(self).release_outcome(created_view(*authority)) {
                Ok(released) => r is Ok && *final(self) == released,
                Err(e) => r == Err::<(), EscrowError>(e) && *final(self) == *old(self),
            },
            r is Ok ==> {
                &&& final(self).vault.data is None
                &&& balance(final(self).taker_token_account_a) == balance(old(self).taker_token_account_a)
                    + balance(old(self).vault)
                &&& final(self).maker.lamports == old(self).maker.lamports + old(self).vault.lamports
                &&& created_view(*authority) == Some(old(self).offer.key@)
                &&& old(self).vault.data->0.owner == old(self).offer.key
            },
    {
        if self.offer.data.is_none() {
            return Err(EscrowError::OfferNotFound);
        }
        let mut vault = match self.vault.data {
            Some(vault) => vault,
            None => return Err(EscrowError::VaultNotFound),
        };
        let mut destination = match self.taker_token_account_a.data {
            Some(destination) => destination,
            None => return Err(EscrowError::TokenAccountNotFound),
        };
        if !check_derived_address(&self.offer.key, authority) {
            return Err(EscrowError::InvalidAuthority);
        }
        let amount = vault.amount;
        match transfer_checked(
            &mut vault,
            &mut destination,
            &self.mint_a,
            &self.offer.key,
            true,
            amount,
            self.mint_a.decimals,
        ) {
            Err(e) => return Err(e),
            Ok(()) => {},
        }
        let mut closing = Account {
            key: self.vault.key,
            lamports: self.vault.lamports,
            program: self.vault.program,
            data: Some(vault),
        };
        let mut maker = self.maker;
        match close_account(&mut closing, &mut maker, &self.offer.key, true) {
            Err(e) => return Err(e),
            Ok(()) => {},
        }
        self.maker = maker;
        self.taker_token_account_a.data = Some(destination);
        self.vault = closing;
        Ok(())
    }

    /// The release leg: acting as the offer record, whose address the program derives
    /// from the seeds that the record states, moves the vault's whole balance to the
    /// taker, closes the vault and hands the vault's deposit to the maker. On an
    /// error nothing has changed.
    pub fn withdraw_n_close_vault(&mut self) -> (r: Result<(), EscrowError>)
        ensures
            match old(self).release_outcome(old(self).authority()) {
                Ok(released) => r is Ok && *final(self) == released,
                Err(e) => r == Err::<(), EscrowError>(e) && *final(self) == *old(self),
            },
            r is Ok ==> {
                &&& final(self).vault.data is None
                &&& balance(final(self).taker_token_account_a) == balance(old(self).taker_token_account_a)
                    + balance(old(self).vault)
                &&& final(self).maker.lamports == old(self).maker.lamports + old(self).vault.lamports
                &&& old(self).authority() == Some(old(self).offer.key@)
                &&& old(self).vault.data->0.owner == old(self).offer.key
            },
    {
        let authority = self.derive_authority();
        self.release_vault(&authority)
    }
}

} // verus!
