//! Two-party atomic token swap through a program-controlled escrow vault.
//!
//! A maker locks an amount of one asset in a vault and names the amount of a second
//! asset that it wants in return. Any taker may pay that amount to the maker and
//! receives the vault's content in the same step. The vault belongs to the offer
//! record, whose address is derived from the maker and an identifier and has no
//! private key.
//!
//! Both operations work on the accounts as the runtime hands them over for one
//! invocation. An operation either succeeds as a whole or reports an error and
//! leaves every account as it was.

use vstd::prelude::*;

pub mod address;
pub mod error;
pub mod instruction;
pub mod instructions;
pub mod laws;
pub mod pda;
pub mod state;
pub mod tag;
pub mod token;

pub use crate::address::Address;
pub use crate::error::{ErrorCategory, EscrowError};
pub use crate::instruction::{DecodeError, Instruction};
pub use crate::instructions::make_offer::{MakeOffer, MakeOfferAddresses};
pub use crate::instructions::take_offer::{TakeOffer, TakeOfferAddresses};
pub use crate::state::offer::Offer;
pub use crate::token::{Account, Mint, Rent, TokenAccount, Wallet};

use crate::instructions::make_offer::MakeOfferDerivation;
use crate::instructions::take_offer::TakeOfferDerivation;
use crate::laws::{
    lemma_make_offer_succeeds_iff_valid, lemma_offer_is_made_in_full, lemma_offer_is_taken_in_full,
    lemma_take_offer_succeeds_iff_valid, offer_made, offer_taken, valid_make, valid_take,
};
use crate::pda::{created_program_address, created_view, found_view, offer_signer_seeds};

verus! {

/// The accounts after an attempt to make the offer `id`, given the addresses derived
/// for them, or the reason why the attempt is rejected: the accounts are checked,
/// the record's deposit is paid and the vault created, then the record is written
/// and the offered amount moves into the vault.
pub open spec fn make_offer_outcome(
    ctx: MakeOffer,
    id: u64,
    offer_amount: u64,
    wanted_amount: u64,
    derived: MakeOfferDerivation,
) -> Result<MakeOffer, EscrowError> {
    match ctx.accounts_outcome(derived) {
        Err(e) => Err(e),
        Ok(ready) => ready.offer_outcome(id, offer_amount, wanted_amount),
    }
}

/// Makes the offer `id` on accounts for which the addresses have been derived.
///
/// Either the offer is made: the record exists with the maker's terms, the vault
/// exists under the record's authority and holds exactly `offer_amount`, and the
/// maker's balance has gone down by that amount. Or an error is returned and no
/// account has changed.
pub fn make_offer_with(
    ctx: &mut MakeOffer,
    id: u64,
    offer_amount: u64,
    wanted_amount: u64,
    derived: &MakeOfferAddresses,
) -> (r: Result<(), EscrowError>)
    ensures
        match make_offer_outcome(*old(ctx), id, offer_amount, wanted_amount, derived@) {
            Ok(made) => r is Ok && *final(ctx) == made,
            Err(e) => r == Err::<(), EscrowError>(e) && *final(ctx) == *old(ctx),
        },
        r is Ok <==> valid_make(*old(ctx), offer_amount, derived@),
        r is Ok ==> offer_made(*old(ctx), *final(ctx), id, offer_amount, wanted_amount),
        r is Ok ==> found_view(derived.offer) == Some((final(ctx).offer.key@, final(ctx).offer.data->0.bump)),
        r is Err ==> *final(ctx) == *old(ctx),
{
    proof {
        lemma_offer_is_made_in_full(*ctx, id, offer_amount, wanted_amount, derived@);
        lemma_make_offer_succeeds_iff_valid(*ctx, id, offer_amount, wanted_amount, derived@);
    }
    let mut next = *ctx;
    match next.try_accounts(derived) {
        Err(e) => return Err(e),
        Ok(()) => {},
    }
    match next.make_offer(id, offer_amount, wanted_amount) {
        Err(e) => return Err(e),
        Ok(()) => {},
    }
    *ctx = next;
    Ok(())
}

/// Makes the offer `id`: the maker escrows `offer_amount` of the asset `mint_a` and
/// asks `wanted_amount` of the asset `mint_b` for it.
///
/// Either the offer is made: the record exists with the maker's terms, the vault
/// exists under the record's authority and holds exactly `offer_amount`, and the
/// maker's balance has gone down by that amount. Or an error is returned and no
/// account has changed. The bump seed written into the record is the one with which
/// the program's seeds derive the record's address.
pub fn make_offer(ctx: &mut MakeOffer, id: u64, offer_amount: u64, wanted_amount: u64) -> (r: Result<
    (),
    EscrowError,
>)
    ensures
        match make_offer_outcome(*old(ctx), id, offer_amount, wanted_amount, old(ctx).derivation(id)) {
            Ok(made) => r is Ok && *final(ctx) == made,
            Err(e) => r == Err::<(), EscrowError>(e) && *final(ctx) == *old(ctx),
        },
        r is Ok <==> valid_make(*old(ctx), offer_amount, old(ctx).derivation(id)),
        r is Ok ==> offer_made(*old(ctx), *final(ctx), id, offer_amount, wanted_amount),
        r is Ok ==> created_program_address(
            offer_signer_seeds(final(ctx).maker.key@, id, final(ctx).offer.data->0.bump),
            final(ctx).program_id@,
        ) == Some(final(ctx).offer.key@),
        r is Err ==> *final(ctx) == *old(ctx),
{
    let derived = ctx.derive_addresses(id);
    make_offer_with(ctx, id, offer_amount, wanted_amount, &derived)
}

/// The accounts after an attempt to take an offer, given the addresses derived for
/// them and the address as which the program acts, or the reason why the attempt is
/// rejected: the accounts are checked and the missing token accounts created, then
/// the taker pays the maker, then the vault is released to the taker and closed.
pub open spec fn take_offer_outcome(
    ctx: TakeOffer,
    derived: TakeOfferDerivation,
    authority: Option<Seq<u8>>,
) -> Result<TakeOffer, EscrowError> {
    match ctx.accounts_outcome(derived) {
        Err(e) => Err(e),
        Ok(ready) => match ready.payment_outcome() {
            Err(e) => Err(e),
            Ok(paid) => paid.release_outcome(authority),
        },
    }
}

/// Takes an offer on accounts for which the addresses and the program's authority
/// have been derived.
///
/// Either the offer is taken: the maker has received exactly the wanted amount from
/// the taker, the taker has received the vault's whole balance, the vault is gone and
/// its deposit is the maker's. Or an error is returned and no account has changed.
pub fn take_offer_with(ctx: &mut TakeOffer, derived: &TakeOfferAddresses, authority: &Option<Address>) -> (r:
    Result<(), EscrowError>)
    ensures
        match take_offer_outcome(*old(ctx), derived@, created_view(*authority)) {
            Ok(taken) => r is Ok && *final(ctx) == taken,
            Err(e) => r == Err::<(), EscrowError>(e) && *final(ctx) == *old(ctx),
        },
        r is Ok <==> valid_take(*old(ctx), derived@, created_view(*authority)),
        r is Ok ==> offer_taken(*old(ctx), *final(ctx)),
        r is Err ==> *final(ctx) == *old(ctx),
{
    proof {
        lemma_offer_is_taken_in_full(*ctx, derived@, created_view(*authority));
        lemma_take_offer_succeeds_iff_valid(*ctx, derived@, created_view(*authority));
    }
    let mut next = *ctx;
    match next.try_accounts(derived) {
        Err(e) => return Err(e),
        Ok(()) => {},
    }
    match next.send_wanted_tokens_to_maker() {
        Err(e) => return Err(e),
        Ok(()) => {},
    }
    match next.release_vault(authority) {
        Err(e) => return Err(e),
        Ok(()) => {},
    }
    *ctx = next;
    Ok(())
}

/// Takes the offer whose record and vault are among the accounts.
///
/// Either the offer is taken: the maker has received exactly the wanted amount from
/// the taker, the taker has received the vault's whole balance, the vault is gone and
/// its deposit is the maker's. Or an error is returned and no account has changed.
/// The vault is released only as the offer record: the address that the program
/// derives from the seeds stated in the record has to be the record's own.
pub fn take_offer(ctx: &mut TakeOffer) -> (r: Result<(), EscrowError>)
    ensures
        match take_offer_outcome(*old(ctx), old(ctx).derivation(), old(ctx).authority()) {
            Ok(taken) => r is Ok && *final(ctx) == taken,
            Err(e) => r == Err::<(), EscrowError>(e) && *final(ctx) == *old(ctx),
        },
        r is Ok <==> valid_take(*old(ctx), old(ctx).derivation(), old(ctx).authority()),
        r is Ok ==> offer_taken(*old(ctx), *final(ctx)),
        r is Err ==> *final(ctx) == *old(ctx),
{
    let derived = ctx.derive_addresses();
    let authority = ctx.derive_authority();
    take_offer_with(ctx, &derived, &authority)
}

} // verus!
