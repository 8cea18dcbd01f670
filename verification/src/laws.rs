//! What holds of the two operations on every input: all or nothing, a single
//! fulfilment, the vault spent by the offer record alone, no substituted asset.

use vstd::prelude::*;
use crate::error::{ErrorCategory, EscrowError};
use crate::instructions::make_offer::{MakeOffer, MakeOfferDerivation};
use crate::instructions::take_offer::{TakeOffer, TakeOfferDerivation};
use crate::address::{has_duplicates, Address};
use crate::pda::{found_address, is_token_program, system_program};
use crate::token::{
    balance, deposit_due, is_derived_address, transfer_checked_outcome, Account, Mint, TokenAccount,
    Wallet,
};
use crate::{make_offer_outcome, take_offer_outcome};

verus! {

/// The accounts `after` are the accounts `before` with the offer `id` made on them:
/// the record exists with the maker's terms, the vault exists under the authority of
/// the record's address, which is not the maker's, and holds exactly `offer_amount`
/// of the offered asset, the maker's balance has gone down by `offer_amount`, the
/// maker has paid the deposits of both new records, and nothing else differs.
pub open spec fn offer_made(
    before: MakeOffer,
    after: MakeOffer,
    id: u64,
    offer_amount: u64,
    wanted_amount: u64,
) -> bool {
    &&& offer_amount > 0
    &&& before.offer.data is None
    &&& before.vault.data is None
    &&& before.maker_token_account_a.data is Some
    &&& after.offer.key == before.offer.key
    &&& after.offer.program == before.program_id
    &&& after.offer.data is Some
    &&& after.offer.data->0.id == id
    &&& after.offer.data->0.maker == before.maker.key
    &&& after.offer.data->0.mint_a == before.mint_a.key
    &&& after.offer.data->0.mint_b == before.mint_b.key
    &&& after.offer.data->0.wanted_amount == wanted_amount
    &&& after.offer.data->0.bump == after.bump
    &&& after.vault.key == before.vault.key
    &&& after.vault.program == before.token_program
    &&& after.vault.data == Some(
        TokenAccount { mint: before.mint_a.key, owner: before.offer.key, amount: offer_amount },
    )
    &&& after.vault.data->0.owner == after.offer.key
    &&& after.vault.data->0.owner != after.maker.key
    &&& after.maker_token_account_a.key == before.maker_token_account_a.key
    &&& after.maker_token_account_a.lamports == before.maker_token_account_a.lamports
    &&& after.maker_token_account_a.program == before.maker_token_account_a.program
    &&& after.maker_token_account_a.data is Some
    &&& after.maker_token_account_a.data->0.mint == before.maker_token_account_a.data->0.mint
    &&& after.maker_token_account_a.data->0.owner == before.maker_token_account_a.data->0.owner
    &&& after.maker_token_account_a.data->0.amount == before.maker_token_account_a.data->0.amount
        - offer_amount
    &&& after.maker.key == before.maker.key
    &&& after.maker.is_signer == before.maker.is_signer
    &&& after.maker.lamports + after.offer.lamports + after.vault.lamports == before.maker.lamports
        + before.offer.lamports + before.vault.lamports
    &&& after.offer.lamports >= before.rent.offer
    &&& after.vault.lamports >= before.rent.token_account
    &&& after.program_id == before.program_id
    &&& after.rent == before.rent
    &&& after.mint_a == before.mint_a
    &&& after.mint_b == before.mint_b
    &&& after.token_program == before.token_program
}

/// The accounts `after` are the accounts `before` with the offer taken: the vault
/// was under the authority of the record's address, which is neither party's; the maker
/// has received exactly the wanted amount of the wanted asset from the taker, the
/// taker has received the vault's whole balance of the escrowed asset, the vault is
/// gone and its deposit is the maker's, the taker has paid the deposits of the token
/// accounts that had to be created, the offer record is as it was, and nothing else
/// differs.
pub open spec fn offer_taken(before: TakeOffer, after: TakeOffer) -> bool {
    &&& before.offer.data is Some
    &&& before.vault.data is Some
    &&& before.taker_token_account_b.data is Some
    &&& before.vault.data->0.owner == before.offer.key
    &&& before.offer.key != before.taker.key
    &&& before.offer.key != before.maker.key
    &&& balance(after.maker_token_account_b) == balance(before.maker_token_account_b)
        + before.offer.data->0.wanted_amount
    &&& balance(after.taker_token_account_b) == balance(before.taker_token_account_b)
        - before.offer.data->0.wanted_amount
    &&& balance(after.taker_token_account_a) == balance(before.taker_token_account_a) + balance(before.vault)
    &&& after.vault == Account::<TokenAccount> {
        key: before.vault.key,
        lamports: 0,
        program: system_program(),
        data: None,
    }
    &&& after.offer == before.offer
    &&& after.maker.key == before.maker.key
    &&& after.maker.is_signer == before.maker.is_signer
    &&& after.maker.lamports == before.maker.lamports + before.vault.lamports
    &&& after.taker.key == before.taker.key
    &&& after.taker.is_signer == before.taker.is_signer
    &&& after.taker.lamports + after.taker_token_account_a.lamports + after.maker_token_account_b.lamports
        == before.taker.lamports + before.taker_token_account_a.lamports
        + before.maker_token_account_b.lamports
    &&& after.taker_token_account_b.key == before.taker_token_account_b.key
    &&& after.taker_token_account_b.lamports == before.taker_token_account_b.lamports
    &&& after.taker_token_account_b.program == before.token_program
    &&& after.taker_token_account_b.data is Some
    &&& after.taker_token_account_b.data->0.mint == before.mint_b.key
    &&& after.taker_token_account_b.data->0.owner == before.taker.key
    &&& after.taker_token_account_a.key == before.taker_token_account_a.key
    &&& after.taker_token_account_a.program == before.token_program
    &&& after.taker_token_account_a.data is Some
    &&& after.taker_token_account_a.data->0.mint == before.mint_a.key
    &&& after.taker_token_account_a.data->0.owner == before.taker.key
    &&& after.maker_token_account_b.key == before.maker_token_account_b.key
    &&& after.maker_token_account_b.program == before.token_program
    &&& after.maker_token_account_b.data is Some
    &&& after.maker_token_account_b.data->0.mint == before.mint_b.key
    &&& after.maker_token_account_b.data->0.owner == before.maker.key
    &&& after.program_id == before.program_id
    &&& after.rent == before.rent
    &&& after.mint_a == before.mint_a
    &&& after.mint_b == before.mint_b
    &&& after.token_program == before.token_program
}

/// An offer is made in full or not at all: whatever addresses the derivation yields,
/// an attempt that is not rejected leaves the record, the vault and the maker's
/// balance exactly as an offer made requires, and the bump seed it records is the
/// one derived with the record's address.
pub proof fn lemma_offer_is_made_in_full(
    ctx: MakeOffer,
    id: u64,
    offer_amount: u64,
    wanted_amount: u64,
    derived: MakeOfferDerivation,
)
    ensures
        make_offer_outcome(ctx, id, offer_amount, wanted_amount, derived) matches Ok(made) ==> offer_made(
            ctx,
            made,
            id,
            offer_amount,
            wanted_amount,
        ) && derived.offer == Some((made.offer.key@, made.offer.data->0.bump)),
{
}

/// An offer is taken in full or not at all: whatever addresses the derivation
/// yields, an attempt that is not rejected leaves both balances, the vault and the
/// deposits exactly as an offer taken requires, and it acted as the offer record.
pub proof fn lemma_offer_is_taken_in_full(
    ctx: TakeOffer,
    derived: TakeOfferDerivation,
    authority: Option<Seq<u8>>,
)
    ensures
        take_offer_outcome(ctx, derived, authority) matches Ok(taken) ==> offer_taken(ctx, taken)
            && authority == Some(ctx.offer.key@),
{
}

/// An offer is fulfilled at most once: when an attempt to take it has succeeded,
/// every later attempt that is handed the vault as the first one left it is rejected
/// for a missing resource, whoever makes it and with whatever accounts.
pub proof fn lemma_single_fulfillment(
    first: TakeOffer,
    first_derived: TakeOfferDerivation,
    first_authority: Option<Seq<u8>>,
    second: TakeOffer,
    second_derived: TakeOfferDerivation,
    second_authority: Option<Seq<u8>>,
)
    requires
        take_offer_outcome(first, first_derived, first_authority) matches Ok(taken) && second.vault
            == taken.vault,
    ensures
        take_offer_outcome(second, second_derived, second_authority) matches Err(e) && e.category()
            == ErrorCategory::MissingResource,
{
    lemma_offer_is_taken_in_full(first, first_derived, first_authority);
}

/// Without a vault no attempt to take an offer succeeds: it is rejected for a
/// missing resource.
pub proof fn lemma_closed_vault_cannot_be_taken(
    ctx: TakeOffer,
    derived: TakeOfferDerivation,
    authority: Option<Seq<u8>>,
)
    requires
        ctx.vault.data is None,
    ensures
        take_offer_outcome(ctx, derived, authority) matches Err(e) && e.category()
            == ErrorCategory::MissingResource,
{
}

/// The vault is released to no authority but the offer record: with any other
/// address, or none, the release leg is rejected; and where it succeeds, the vault
/// was under the control of the offer record's address.
pub proof fn lemma_release_needs_offer_authority(ctx: TakeOffer, authority: Option<Seq<u8>>)
    ensures
        authority != Some(ctx.offer.key@) ==> ctx.release_outcome(authority) is Err,
        ctx.release_outcome(authority) is Ok ==> ctx.vault.data is Some && ctx.vault.data->0.owner
            == ctx.offer.key,
{
}

/// A signature alone moves nothing out of a token account: a transfer on the word of
/// a party that does not control the source account is rejected, signed or not.
pub proof fn lemma_transfer_needs_owner(
    from: TokenAccount,
    to: TokenAccount,
    mint: Mint,
    party: Wallet,
    amount: u64,
    decimals: u8,
)
    requires
        party.key != from.owner,
    ensures
        transfer_checked_outcome(from, to, mint, party.key, party.is_signer, amount, decimals) is Err,
{
}

/// Nothing but the release leg takes from a vault: checking the accounts and the
/// payment leg of a take leave the vault as it is, and making an offer never lowers
/// a vault's balance.
pub proof fn lemma_only_release_debits_vault(
    take: TakeOffer,
    take_derived: TakeOfferDerivation,
    make: MakeOffer,
    make_derived: MakeOfferDerivation,
    id: u64,
    offer_amount: u64,
    wanted_amount: u64,
)
    ensures
        take.accounts_outcome(take_derived) matches Ok(ready) ==> ready.vault == take.vault,
        take.payment_outcome() matches Ok(paid) ==> paid.vault == take.vault,
        make.accounts_outcome(make_derived) matches Ok(ready) ==> balance(ready.vault) == balance(make.vault),
        make.offer_outcome(id, offer_amount, wanted_amount) matches Ok(made) ==> balance(made.vault)
            == balance(make.vault) + offer_amount,
{
}

/// A record is written once and never changes: no offer is made where a record
/// exists, and no step of taking an offer alters the record.
pub proof fn lemma_record_is_written_once(
    make: MakeOffer,
    make_derived: MakeOfferDerivation,
    id: u64,
    offer_amount: u64,
    wanted_amount: u64,
    take: TakeOffer,
    take_derived: TakeOfferDerivation,
    authority: Option<Seq<u8>>,
)
    ensures
        make.offer.data is Some ==> make.offer_outcome(id, offer_amount, wanted_amount) is Err,
        make.offer.data is Some ==> make_offer_outcome(make, id, offer_amount, wanted_amount, make_derived) is Err,
        take.accounts_outcome(take_derived) matches Ok(ready) ==> ready.offer == take.offer,
        take.payment_outcome() matches Ok(paid) ==> paid.offer == take.offer,
        take.release_outcome(authority) matches Ok(released) ==> released.offer == take.offer,
        take_offer_outcome(take, take_derived, authority) matches Ok(taken) ==> taken.offer == take.offer,
{
}

/// Whether some account supplied to an attempt to take an offer holds, or some
/// descriptor names, another asset type than the offer record states for it.
pub open spec fn wrong_asset_supplied(ctx: TakeOffer) -> bool {
    ctx.offer.data matches Some(record) && {
        ||| ctx.mint_a.key != record.mint_a
        ||| ctx.mint_b.key != record.mint_b
        ||| ctx.taker_token_account_b.data is Some && ctx.taker_token_account_b.data->0.mint != record.mint_b
        ||| ctx.taker_token_account_a.data is Some && ctx.taker_token_account_a.data->0.mint != record.mint_a
        ||| ctx.maker_token_account_b.data is Some && ctx.maker_token_account_b.data->0.mint != record.mint_b
        ||| ctx.vault.data is Some && ctx.vault.data->0.mint != record.mint_a
    }
}

/// No asset is substituted: an attempt to take an offer with an account or a
/// descriptor of another asset type than the record states is rejected when the
/// accounts are checked, before either leg moves anything, so that no account
/// changes; and on an open offer, one whose vault exists, it is rejected as invalid.
pub proof fn lemma_wrong_asset_rejected(
    ctx: TakeOffer,
    derived: TakeOfferDerivation,
    authority: Option<Seq<u8>>,
)
    requires
        wrong_asset_supplied(ctx),
    ensures
        ctx.accounts_outcome(derived) is Err,
        take_offer_outcome(ctx, derived, authority) == Err::<TakeOffer, EscrowError>(
            ctx.accounts_outcome(derived)->Err_0,
        ),
        ctx.vault.data is Some ==> take_offer_outcome(ctx, derived, authority)->Err_0.category()
            == ErrorCategory::Validation,
{
}

/// A supplied maker other than the one the record states is rejected when the
/// accounts are checked, so that the payment cannot be redirected.
pub proof fn lemma_wrong_maker_rejected(
    ctx: TakeOffer,
    derived: TakeOfferDerivation,
    authority: Option<Seq<u8>>,
)
    requires
        ctx.offer.data matches Some(record) && record.maker != ctx.maker.key,
    ensures
        ctx.accounts_outcome(derived) is Err,
        take_offer_outcome(ctx, derived, authority) is Err,
{
}

/// Whether the record, the vault, an asset type or an existing token account of an
/// attempt to take an offer is kept by another program than the one that has to
/// keep it: the escrow program the record, the token program everything else.
pub open spec fn foreign_account_supplied(ctx: TakeOffer) -> bool {
    ||| ctx.offer.program != ctx.program_id
    ||| ctx.vault.program != ctx.token_program
    ||| ctx.mint_a.program != ctx.token_program
    ||| ctx.mint_b.program != ctx.token_program
    ||| ctx.taker_token_account_b.data is Some && ctx.taker_token_account_b.program != ctx.token_program
    ||| ctx.taker_token_account_a.data is Some && ctx.taker_token_account_a.program != ctx.token_program
    ||| ctx.maker_token_account_b.data is Some && ctx.maker_token_account_b.program != ctx.token_program
}

/// What another program keeps is not taken for a record or a balance: an attempt to
/// take an offer on such an account is rejected when the accounts are checked, and
/// on an open offer it is rejected as invalid.
pub proof fn lemma_foreign_account_rejected(
    ctx: TakeOffer,
    derived: TakeOfferDerivation,
    authority: Option<Seq<u8>>,
)
    requires
        foreign_account_supplied(ctx),
    ensures
        ctx.accounts_outcome(derived) is Err,
        take_offer_outcome(ctx, derived, authority) is Err,
        ctx.offer.data is Some && ctx.vault.data is Some ==> take_offer_outcome(
            ctx,
            derived,
            authority,
        )->Err_0.category() == ErrorCategory::Validation,
{
}

/// An identifier in use is invalid: where the record exists already, no offer is
/// made, the attempt is rejected as invalid whatever else is wrong with it, and
/// writing the record alone reports the record in use.
pub proof fn lemma_identifier_in_use_is_invalid(
    ctx: MakeOffer,
    id: u64,
    offer_amount: u64,
    wanted_amount: u64,
    derived: MakeOfferDerivation,
)
    requires
        ctx.offer.data is Some,
    ensures
        make_offer_outcome(ctx, id, offer_amount, wanted_amount, derived) matches Err(e) && e.category()
            == ErrorCategory::Validation,
        ctx.offer_outcome(id, offer_amount, wanted_amount) == Err::<MakeOffer, EscrowError>(
            EscrowError::AccountInUse,
        ),
{
}

/// Whether the accounts of the payment leg fit each other: the record and both
/// accounts of the wanted asset exist, both hold the wanted asset type, and the taker
/// controls the source account and has signed.
pub open spec fn payment_fits(ctx: TakeOffer) -> bool {
    &&& ctx.offer.data is Some
    &&& ctx.taker_token_account_b.data is Some
    &&& ctx.maker_token_account_b.data is Some
    &&& ctx.taker_token_account_b.data->0.mint == ctx.mint_b.key
    &&& ctx.maker_token_account_b.data->0.mint == ctx.mint_b.key
    &&& ctx.taker_token_account_b.data->0.owner == ctx.taker.key
    &&& ctx.taker.is_signer
}

/// A taker that holds too little lacks funds, whatever the maker holds: where the
/// accounts of the payment leg fit, the leg is rejected for insufficient funds
/// exactly when the taker's balance is below the wanted amount, and it succeeds
/// exactly when the balance suffices and the maker's balance stays representable.
pub proof fn lemma_payment_needs_funds(ctx: TakeOffer)
    requires
        payment_fits(ctx),
    ensures
        balance(ctx.taker_token_account_b) < ctx.offer.data->0.wanted_amount <==> ctx.payment_outcome()
            == Err::<TakeOffer, EscrowError>(EscrowError::InsufficientFunds),
        ctx.payment_outcome() is Ok <==> balance(ctx.taker_token_account_b)
            >= ctx.offer.data->0.wanted_amount && balance(ctx.maker_token_account_b)
            + ctx.offer.data->0.wanted_amount <= u64::MAX,
{
}

/// An attempt to take an offer on accounts that pass every check, by a taker that
/// holds less than the wanted amount, is rejected for insufficient funds.
pub proof fn lemma_underfunded_take_lacks_funds(
    ctx: TakeOffer,
    derived: TakeOfferDerivation,
    authority: Option<Seq<u8>>,
)
    requires
        ctx.accounts_outcome(derived) is Ok,
        balance(ctx.taker_token_account_b) < ctx.offer.data->0.wanted_amount,
    ensures
        take_offer_outcome(ctx, derived, authority) == Err::<TakeOffer, EscrowError>(
            EscrowError::InsufficientFunds,
        ),
{
}

/// An attempt to make an offer on accounts that pass every check, of a positive
/// amount that the maker does not hold, is rejected for insufficient funds.
pub proof fn lemma_underfunded_make_lacks_funds(
    ctx: MakeOffer,
    id: u64,
    offer_amount: u64,
    wanted_amount: u64,
    derived: MakeOfferDerivation,
)
    requires
        ctx.accounts_outcome(derived) is Ok,
        offer_amount > 0,
        balance(ctx.maker_token_account_a) < offer_amount,
    ensures
        make_offer_outcome(ctx, id, offer_amount, wanted_amount, derived) == Err::<MakeOffer, EscrowError>(
            EscrowError::InsufficientFunds,
        ),
{
}

/// The deposit that the payer owes for a token account that is created on demand:
/// nothing where the account exists.
pub open spec fn deposit_due_on_demand(slot: Account<TokenAccount>, rent: u64) -> u64 {
    if slot.data is Some {
        0
    } else {
        deposit_due(slot.lamports, rent)
    }
}

/// Whether a token account that is created on demand is acceptable: it stands at the
/// address `derived`, and where it exists it is kept by `token_program`, holds `mint`
/// and is controlled by `owner`.
pub open spec fn fits_on_demand(
    slot: Account<TokenAccount>,
    token_program: Address,
    mint: Address,
    owner: Address,
    derived: Option<Seq<u8>>,
) -> bool {
    &&& is_derived_address(slot.key, derived)
    &&& slot.data is Some ==> slot.program == token_program && slot.data->0.mint == mint
        && slot.data->0.owner == owner
}

/// The inputs on which an offer is made: the maker has signed and holds at least the
/// positive amount offered in its own account of the offered asset, every account
/// stands at the address derived for it, neither the record nor the vault exists yet,
/// the record's address is not the maker's own and no account is supplied twice,
/// and the maker can pay both deposits.
pub open spec fn valid_make(ctx: MakeOffer, offer_amount: u64, derived: MakeOfferDerivation) -> bool {
    &&& ctx.maker.is_signer
    &&& is_token_program(ctx.token_program)
    &&& ctx.mint_a.program == ctx.token_program
    &&& ctx.mint_b.program == ctx.token_program
    &&& ctx.maker_token_account_a.data is Some
    &&& ctx.maker_token_account_a.program == ctx.token_program
    &&& ctx.maker_token_account_a.data->0.mint == ctx.mint_a.key
    &&& ctx.maker_token_account_a.data->0.owner == ctx.maker.key
    &&& is_derived_address(ctx.maker_token_account_a.key, derived.maker_token_account_a)
    &&& is_derived_address(ctx.offer.key, found_address(derived.offer))
    &&& ctx.offer.data is None
    &&& is_derived_address(ctx.vault.key, derived.vault)
    &&& ctx.vault.data is None
    &&& ctx.offer.key != ctx.maker.key
    &&& !has_duplicates(ctx.changing_keys())
    &&& ctx.maker.lamports >= deposit_due(ctx.offer.lamports, ctx.rent.offer) + deposit_due(
        ctx.vault.lamports,
        ctx.rent.token_account,
    )
    &&& offer_amount > 0
    &&& ctx.maker_token_account_a.data->0.amount >= offer_amount
}

/// An attempt to make an offer succeeds on exactly the valid inputs.
pub proof fn lemma_make_offer_succeeds_iff_valid(
    ctx: MakeOffer,
    id: u64,
    offer_amount: u64,
    wanted_amount: u64,
    derived: MakeOfferDerivation,
)
    ensures
        make_offer_outcome(ctx, id, offer_amount, wanted_amount, derived) is Ok <==> valid_make(
            ctx,
            offer_amount,
            derived,
        ),
{
}

/// The inputs on which an offer is taken: the record, the vault and the taker's
/// source account exist; the taker has signed; the maker and both asset types
/// supplied are the ones the record states; every account stands at the address
/// derived for it, holds the asset type and is controlled by the party required of
/// it; no account is supplied twice; the program's seeds derive the record's own
/// address; the taker holds the wanted amount and can pay the deposits; and no
/// balance would exceed the largest representable amount.
pub open spec fn valid_take(ctx: TakeOffer, derived: TakeOfferDerivation, authority: Option<Seq<u8>>) -> bool {
    &&& ctx.offer.data is Some
    &&& ctx.vault.data is Some
    &&& ctx.taker_token_account_b.data is Some
    &&& ctx.taker.is_signer
    &&& is_token_program(ctx.token_program)
    &&& ctx.mint_a.program == ctx.token_program
    &&& ctx.mint_b.program == ctx.token_program
    &&& ctx.offer.program == ctx.program_id
    &&& ctx.offer.data->0.maker == ctx.maker.key
    &&& ctx.offer.data->0.mint_a == ctx.mint_a.key
    &&& ctx.offer.data->0.mint_b == ctx.mint_b.key
    &&& is_derived_address(ctx.offer.key, found_address(derived.offer))
    &&& ctx.taker_token_account_b.program == ctx.token_program
    &&& ctx.taker_token_account_b.data->0.mint == ctx.mint_b.key
    &&& ctx.taker_token_account_b.data->0.owner == ctx.taker.key
    &&& is_derived_address(ctx.taker_token_account_b.key, derived.taker_token_account_b)
    &&& fits_on_demand(
        ctx.taker_token_account_a,
        ctx.token_program,
        ctx.mint_a.key,
        ctx.taker.key,
        derived.taker_token_account_a,
    )
    &&& fits_on_demand(
        ctx.maker_token_account_b,
        ctx.token_program,
        ctx.mint_b.key,
        ctx.maker.key,
        derived.maker_token_account_b,
    )
    &&& ctx.vault.program == ctx.token_program
    &&& ctx.vault.data->0.mint == ctx.mint_a.key
    &&& ctx.vault.data->0.owner == ctx.offer.key
    &&& is_derived_address(ctx.vault.key, derived.vault)
    &&& ctx.taker.key != ctx.maker.key
    &&& ctx.offer.key != ctx.taker.key
    &&& ctx.offer.key != ctx.maker.key
    &&& !has_duplicates(ctx.changing_keys())
    &&& ctx.taker.lamports >= deposit_due_on_demand(ctx.taker_token_account_a, ctx.rent.token_account)
        + deposit_due_on_demand(ctx.maker_token_account_b, ctx.rent.token_account)
    &&& ctx.taker_token_account_b.data->0.amount >= ctx.offer.data->0.wanted_amount
    &&& balance(ctx.maker_token_account_b) + ctx.offer.data->0.wanted_amount <= u64::MAX
    &&& is_derived_address(ctx.offer.key, authority)
    &&& balance(ctx.taker_token_account_a) + ctx.vault.data->0.amount <= u64::MAX
    &&& ctx.maker.lamports + ctx.vault.lamports <= u64::MAX
}

/// An attempt to take an offer succeeds on exactly the valid inputs.
pub proof fn lemma_take_offer_succeeds_iff_valid(
    ctx: TakeOffer,
    derived: TakeOfferDerivation,
    authority: Option<Seq<u8>>,
)
    ensures
        take_offer_outcome(ctx, derived, authority) is Ok <==> valid_take(ctx, derived, authority),
{
}

/// What making an offer leaves behind can be taken: the record it wrote states the
/// maker and the asset types of the attempt, and the vault it filled holds the
/// offered asset under the record's authority.
pub proof fn lemma_made_offer_fits_take(
    ctx: MakeOffer,
    id: u64,
    offer_amount: u64,
    wanted_amount: u64,
    derived: MakeOfferDerivation,
)
    requires
        make_offer_outcome(ctx, id, offer_amount, wanted_amount, derived) is Ok,
    ensures
        ({
            let made = make_offer_outcome(ctx, id, offer_amount, wanted_amount, derived)->Ok_0;
            &&& made.offer.data is Some
            &&& made.offer.data->0.maker == made.maker.key
            &&& made.offer.data->0.mint_a == made.mint_a.key
            &&& made.offer.data->0.mint_b == made.mint_b.key
            &&& made.offer.data->0.id == id
            &&& derived.offer == Some((made.offer.key@, made.offer.data->0.bump))
            &&& made.vault.data is Some
            &&& made.vault.data->0.mint == made.mint_a.key
            &&& made.vault.data->0.owner == made.offer.key
            &&& made.vault.data->0.amount == offer_amount
            &&& is_derived_address(made.vault.key, derived.vault)
        }),
{
}

} // verus!
