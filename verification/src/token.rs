//! The accounts an escrow operation works on, as the runtime hands them over for one
//! invocation, and the effect of the token service on them: moving a balance,
//! creating a record, closing a token account.

use vstd::prelude::*;
use crate::address::Address;
use crate::error::EscrowError;
use crate::pda::{system_program, system_program_id};

verus! {

/// A party to the swap: a maker or a taker.
#[derive(Clone, Copy, Debug, PartialEq, Eq)]
pub struct Wallet {
    /// The party's address.
    pub key: Address,
    /// Whether the party authorised this invocation.
    pub is_signer: bool,
    /// The native balance, out of which deposits for new records are paid.
    pub lamports: u64,
}

/// An asset type.
#[derive(Clone, Copy, Debug, PartialEq, Eq)]
pub struct Mint {
    /// The identifier of the asset type.
    pub key: Address,
    /// The program that keeps the asset type.
    pub program: Address,
    /// The asset's authoritative precision.
    pub decimals: u8,
}

/// What a token account holds.
#[derive(Clone, Copy, Debug, PartialEq, Eq)]
pub struct TokenAccount {
    /// The asset type held.
    pub mint: Address,
    /// The authority that may spend from the account.
    pub owner: Address,
    /// The balance.
    pub amount: u64,
}

/// A place on the ledger: an address, the deposit held there, and the record stored
/// there, if one exists.
#[derive(Debug, PartialEq, Eq)]
pub struct Account<T> {
    /// The address of the account.
    pub key: Address,
    /// The deposit that keeps the record alive.
    pub lamports: u64,
    /// The program that keeps the account and alone may change what it stores; the
    /// system program where nothing is stored.
    pub program: Address,
    /// The record, or `None` where the account does not exist.
    pub data: Option<T>,
}

impl<T: Copy> Clone for Account<T> {
    fn clone(&self) -> (copy: Self)
        ensures
            copy == *self,
    {
        *self
    }
}

impl<T: Copy> Copy for Account<T> {

}

/// The deposits the runtime asks for a new record of each kind.
#[derive(Clone, Copy, Debug, PartialEq, Eq)]
pub struct Rent {
    /// The deposit for an offer record.
    pub offer: u64,
    /// The deposit for a token account.
    pub token_account: u64,
}

/// The result of moving `amount` from `from` to `to`: both accounts after the move,
/// or the reason why nothing moves.
pub open spec fn transfer_checked_outcome(
    from: TokenAccount,
    to: TokenAccount,
    mint: Mint,
    authority: Address,
    signed: bool,
    amount: u64,
    decimals: u8,
) -> Result<(TokenAccount, TokenAccount), EscrowError> {
    if from.mint != mint.key || to.mint != mint.key {
        Err(EscrowError::MintMismatch)
    } else if decimals != mint.decimals {
        Err(EscrowError::DecimalsMismatch)
    } else if from.owner != authority {
        Err(EscrowError::OwnerMismatch)
    } else if !signed {
        Err(EscrowError::MissingSignature)
    } else if from.amount < amount {
        Err(EscrowError::InsufficientFunds)
    } else if to.amount + amount > u64::MAX {
        Err(EscrowError::AmountOverflow)
    } else {
        Ok(
            (
                TokenAccount { mint: from.mint, owner: from.owner, amount: (from.amount - amount) as u64 },
                TokenAccount { mint: to.mint, owner: to.owner, amount: (to.amount + amount) as u64 },
            ),
        )
    }
}

/// Moves `amount` of the asset `mint` from `from` to `to` on the word of `authority`.
///
/// The move happens only if both accounts hold `mint`, `decimals` is the asset's
/// precision, `authority` controls `from` and has signed, and the balances allow it.
/// Otherwise neither account changes. What does not fit is reported first; then a
/// source that holds less than `amount`, as insufficient funds whatever the
/// destination holds; last a destination whose balance would exceed the largest
/// amount.
pub fn transfer_checked(
    from: &mut TokenAccount,
    to: &mut TokenAccount,
    mint: &Mint,
    authority: &Address,
    signed: bool,
    amount: u64,
    decimals: u8,
) -> (r: Result<(), EscrowError>)
    ensures
        match transfer_checked_outcome(*old(from), *old(to), *mint, *authority, signed, amount, decimals) {
            Ok((debited, credited)) => r is Ok && *final(from) == debited && *final(to) == credited,
            Err(e) => r == Err::<(), EscrowError>(e) && *final(from) == *old(from) && *final(to) == *old(to),
        },
        r is Ok ==> final(from).amount + final(to).amount == old(from).amount + old(to).amount,
        r is Ok ==> signed && old(from).owner == *authority,
        old(from).mint == mint.key && old(to).mint == mint.key && decimals == mint.decimals && old(from).owner
            == *authority && signed && old(from).amount < amount ==> r == Err::<(), EscrowError>(
            EscrowError::InsufficientFunds,
        ),
{
    if !from.mint.same(&mint.key) || !to.mint.same(&mint.key) {
        return Err(EscrowError::MintMismatch);
    }
    if decimals != mint.decimals {
        return Err(EscrowError::DecimalsMismatch);
    }
    if !from.owner.same(authority) {
        return Err(EscrowError::OwnerMismatch);
    }
    if !signed {
        return Err(EscrowError::MissingSignature);
    }
    if from.amount < amount {
        return Err(EscrowError::InsufficientFunds);
    }
    if amount > u64::MAX - to.amount {
        return Err(EscrowError::AmountOverflow);
    }
    from.amount = from.amount - amount;
    to.amount = to.amount + amount;
    Ok(())
}

/// The part of `rent` that an account holding `held` still lacks.
pub open spec fn deposit_due(held: u64, rent: u64) -> u64 {
    if rent > held {
        (rent - held) as u64
    } else {
        0
    }
}

/// Computes the part of `rent` that an account holding `held` still lacks.
pub fn compute_deposit_due(held: u64, rent: u64) -> (due: u64)
    ensures
        due == deposit_due(held, rent),
{
    if rent > held {
        rent - held
    } else {
        0
    }
}

/// The result of `payer` topping the deposit of `account` up to `rent`: the payer
/// and the account afterwards, or the reason why nothing is paid.
pub open spec fn pay_deposit_outcome<T>(payer: Wallet, account: Account<T>, rent: u64) -> Result<
    (Wallet, Account<T>),
    EscrowError,
> {
    if payer.lamports < deposit_due(account.lamports, rent) {
        Err(EscrowError::InsufficientLamports)
    } else {
        Ok(
            (
                Wallet {
                    key: payer.key,
                    is_signer: payer.is_signer,
                    lamports: (payer.lamports - deposit_due(account.lamports, rent)) as u64,
                },
                Account {
                    key: account.key,
                    lamports: (account.lamports + deposit_due(account.lamports, rent)) as u64,
                    program: account.program,
                    data: account.data,
                },
            ),
        )
    }
}

/// Has `payer` top the deposit of `account` up to `rent`. Fails, changing nothing,
/// if the payer cannot afford what is lacking.
pub fn pay_deposit<T>(payer: &mut Wallet, account: &mut Account<T>, rent: u64) -> (r: Result<(), EscrowError>)
    ensures
        match pay_deposit_outcome(*old(payer), *old(account), rent) {
            Ok((paid, funded)) => r is Ok && *final(payer) == paid && *final(account) == funded,
            Err(e) => r == Err::<(), EscrowError>(e) && *final(payer) == *old(payer) && *final(account) == *old(account),
        },
        r is Ok ==> final(payer).lamports + final(account).lamports == old(payer).lamports + old(account).lamports,
        r is Ok ==> final(account).lamports >= rent,
{
    let due = compute_deposit_due(account.lamports, rent);
    if payer.lamports < due {
        return Err(EscrowError::InsufficientLamports);
    }
    payer.lamports = payer.lamports - due;
    account.lamports = account.lamports + due;
    Ok(())
}

/// The result of creating the record `data` at `account`, to be kept by `program`,
/// with `payer` paying the deposit: the payer and the account afterwards, or the
/// reason why nothing is created.
pub open spec fn create_account_outcome<T>(
    payer: Wallet,
    account: Account<T>,
    rent: u64,
    program: Address,
    data: T,
) -> Result<(Wallet, Account<T>), EscrowError> {
    if account.data is Some {
        Err(EscrowError::AccountInUse)
    } else {
        match pay_deposit_outcome(payer, account, rent) {
            Err(e) => Err(e),
            Ok((paid, funded)) => Ok(
                (paid, Account { key: funded.key, lamports: funded.lamports, program, data: Some(data) }),
            ),
        }
    }
}

/// Creates the record `data` at `account` and hands the account to `program`. The
/// payer tops the account's deposit up to `rent`. Fails, changing nothing, if a
/// record exists there already or the payer cannot afford the deposit.
pub fn create_account<T>(
    payer: &mut Wallet,
    account: &mut Account<T>,
    rent: u64,
    program: &Address,
    data: T,
) -> (r: Result<(), EscrowError>)
    ensures
        match create_account_outcome(*old(payer), *old(account), rent, *program, data) {
            Ok((paid, created)) => r is Ok && *final(payer) == paid && *final(account) == created,
            Err(e) => r == Err::<(), EscrowError>(e) && *final(payer) == *old(payer) && *final(account) == *old(account),
        },
        r is Ok ==> final(payer).lamports + final(account).lamports == old(payer).lamports + old(account).lamports,
{
    if account.data.is_some() {
        return Err(EscrowError::AccountInUse);
    }
    match pay_deposit(payer, account, rent) {
        Err(e) => return Err(e),
        Ok(()) => {},
    }
    account.program = *program;
    account.data = Some(data);
    Ok(())
}

/// The result of closing a token account on the word of `authority`, its deposit
/// going to `destination`: the account and the destination afterwards, or the reason
/// why the account stays.
pub open spec fn close_account_outcome(
    account: Account<TokenAccount>,
    destination: Wallet,
    authority: Address,
    signed: bool,
) -> Result<(Account<TokenAccount>, Wallet), EscrowError> {
    match account.data {
        None => Err(EscrowError::TokenAccountNotFound),
        Some(held) => if held.owner != authority {
            Err(EscrowError::OwnerMismatch)
        } else if !signed {
            Err(EscrowError::MissingSignature)
        } else if held.amount != 0 {
            Err(EscrowError::NonEmptyAccount)
        } else if destination.lamports + account.lamports > u64::MAX {
            Err(EscrowError::AmountOverflow)
        } else {
            Ok(
                (
                    Account { key: account.key, lamports: 0, program: system_program(), data: None },
                    Wallet {
                        key: destination.key,
                        is_signer: destination.is_signer,
                        lamports: (destination.lamports + account.lamports) as u64,
                    },
                ),
            )
        },
    }
}

/// Closes an empty token account on the word of `authority`, hands its deposit to
/// `destination` and the emptied account back to the system program. Fails, changing nothing, if the account does not exist, still holds
/// tokens, or `authority` does not control it or has not signed.
pub fn close_account(
    account: &mut Account<TokenAccount>,
    destination: &mut Wallet,
    authority: &Address,
    signed: bool,
) -> (r: Result<(), EscrowError>)
    ensures
        match close_account_outcome(*old(account), *old(destination), *authority, signed) {
            Ok((closed, paid)) => r is Ok && *final(account) == closed && *final(destination) == paid,
            Err(e) => r == Err::<(), EscrowError>(e) && *final(account) == *old(account) && *final(destination) == *old(destination),
        },
        r is Ok ==> final(account).data is None && final(destination).lamports == old(destination).lamports
            + old(account).lamports,
{
    match account.data {
        None => Err(EscrowError::TokenAccountNotFound),
        Some(held) => {
            if !held.owner.same(authority) {
                return Err(EscrowError::OwnerMismatch);
            }
            if !signed {
                return Err(EscrowError::MissingSignature);
            }
            if held.amount != 0 {
                return Err(EscrowError::NonEmptyAccount);
            }
            if account.lamports > u64::MAX - destination.lamports {
                return Err(EscrowError::AmountOverflow);
            }
            destination.lamports = destination.lamports + account.lamports;
            account.lamports = 0;
            account.program = system_program_id();
            account.data = None;
            Ok(())
        },
    }
}

/// What is wrong with a token account that has to exist, be kept by
/// `token_program`, hold `mint`, be controlled by `owner`, and stand at the address
/// `derived` for that pair; `None` if nothing is.
pub open spec fn token_account_fault(
    slot: Account<TokenAccount>,
    token_program: Address,
    mint: Address,
    owner: Address,
    derived: Option<Seq<u8>>,
) -> Option<EscrowError> {
    match slot.data {
        None => Some(EscrowError::TokenAccountNotFound),
        Some(held) => if slot.program != token_program {
            Some(EscrowError::ProgramMismatch)
        } else if held.mint != mint {
            Some(EscrowError::MintMismatch)
        } else if held.owner != owner {
            Some(EscrowError::OwnerMismatch)
        } else if derived != Some(slot.key@) {
            Some(EscrowError::AddressMismatch)
        } else {
            None
        },
    }
}

/// What is wrong with an asset type that `token_program` has to keep; `None` if
/// nothing is.
pub open spec fn mint_fault(mint: Mint, token_program: Address) -> Option<EscrowError> {
    if mint.program != token_program {
        Some(EscrowError::ProgramMismatch)
    } else {
        None
    }
}

/// Checks that `token_program` keeps the asset type.
pub fn check_mint(mint: &Mint, token_program: &Address) -> (r: Result<(), EscrowError>)
    ensures
        r == match mint_fault(*mint, *token_program) {
            Some(e) => Err::<(), EscrowError>(e),
            None => Ok::<(), EscrowError>(()),
        },
{
    if !mint.program.same(token_program) {
        return Err(EscrowError::ProgramMismatch);
    }
    Ok(())
}

/// Whether `derived` is the address `key`.
pub open spec fn is_derived_address(key: Address, derived: Option<Seq<u8>>) -> bool {
    derived == Some(key@)
}

/// Tells whether `derived` is the address `key`.
pub fn check_derived_address(key: &Address, derived: &Option<Address>) -> (r: bool)
    ensures
        r == is_derived_address(*key, crate::pda::created_view(*derived)),
{
    match derived {
        Some(address) => address.same(key),
        None => false,
    }
}

/// Checks a token account that has to exist against the program, the asset type,
/// the controlling party and the derived address that an operation requires of it.
pub fn check_token_account(
    slot: &Account<TokenAccount>,
    token_program: &Address,
    mint: &Address,
    owner: &Address,
    derived: &Option<Address>,
) -> (r: Result<(), EscrowError>)
    ensures
        r == match token_account_fault(*slot, *token_program, *mint, *owner, crate::pda::created_view(*derived)) {
            Some(e) => Err::<(), EscrowError>(e),
            None => Ok::<(), EscrowError>(()),
        },
{
    let held = match slot.data {
        Some(held) => held,
        None => return Err(EscrowError::TokenAccountNotFound),
    };
    if !slot.program.same(token_program) {
        return Err(EscrowError::ProgramMismatch);
    }
    if !held.mint.same(mint) {
        return Err(EscrowError::MintMismatch);
    }
    if !held.owner.same(owner) {
        return Err(EscrowError::OwnerMismatch);
    }
    if !check_derived_address(&slot.key, derived) {
        return Err(EscrowError::AddressMismatch);
    }
    Ok(())
}

/// What is wrong with a token account that is created on demand: where it exists it
/// is held to the same requirements as any other, where it does not, only its
/// address is.
pub open spec fn token_slot_fault(
    slot: Account<TokenAccount>,
    token_program: Address,
    mint: Address,
    owner: Address,
    derived: Option<Seq<u8>>,
) -> Option<EscrowError> {
    if slot.data is Some {
        token_account_fault(slot, token_program, mint, owner, derived)
    } else if derived != Some(slot.key@) {
        Some(EscrowError::AddressMismatch)
    } else {
        None
    }
}

/// Checks a token account that is created on demand.
pub fn check_token_slot(
    slot: &Account<TokenAccount>,
    token_program: &Address,
    mint: &Address,
    owner: &Address,
    derived: &Option<Address>,
) -> (r: Result<(), EscrowError>)
    ensures
        r == match token_slot_fault(*slot, *token_program, *mint, *owner, crate::pda::created_view(*derived)) {
            Some(e) => Err::<(), EscrowError>(e),
            None => Ok::<(), EscrowError>(()),
        },
{
    if slot.data.is_some() {
        return check_token_account(slot, token_program, mint, owner, derived);
    }
    if !check_derived_address(&slot.key, derived) {
        return Err(EscrowError::AddressMismatch);
    }
    Ok(())
}

/// The balance of a token account; zero where the account does not exist.
pub open spec fn balance(slot: Account<TokenAccount>) -> nat {
    match slot.data {
        Some(held) => held.amount as nat,
        None => 0,
    }
}

/// The result of making sure that a token account exists at `slot`: an existing
/// account is left alone, a missing one is created empty under `token_program`,
/// `payer` paying its deposit.
pub open spec fn ensure_token_account_outcome(
    payer: Wallet,
    slot: Account<TokenAccount>,
    rent: u64,
    token_program: Address,
    mint: Address,
    owner: Address,
) -> Result<(Wallet, Account<TokenAccount>), EscrowError> {
    if slot.data is Some {
        Ok((payer, slot))
    } else {
        create_account_outcome(payer, slot, rent, token_program, TokenAccount { mint, owner, amount: 0 })
    }
}

/// Makes sure that a token account exists at `slot`, creating an empty one for
/// `owner` and `mint` under `token_program` where none exists. Fails, changing
/// nothing, if the payer cannot afford the deposit.
pub fn ensure_token_account(
    payer: &mut Wallet,
    slot: &mut Account<TokenAccount>,
    rent: u64,
    token_program: &Address,
    mint: &Address,
    owner: &Address,
) -> (r: Result<(), EscrowError>)
    ensures
        match ensure_token_account_outcome(*old(payer), *old(slot), rent, *token_program, *mint, *owner) {
            Ok((paid, present)) => r is Ok && *final(payer) == paid && *final(slot) == present,
            Err(e) => r == Err::<(), EscrowError>(e) && *final(payer) == *old(payer) && *final(slot) == *old(slot),
        },
        r is Ok ==> final(slot).data is Some && balance(*final(slot)) == balance(*old(slot)),
{
    if slot.data.is_some() {
        return Ok(());
    }
    create_account(payer, slot, rent, token_program, TokenAccount { mint: *mint, owner: *owner, amount: 0 })
}

} // verus!
