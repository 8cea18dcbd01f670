use swap_escrow::pda::{system_program_id, token_2022_program_id, token_program_id};
use swap_escrow::token::{
    check_mint, check_token_account, check_token_slot, close_account, compute_deposit_due,
    create_account, ensure_token_account, pay_deposit, transfer_checked,
};
use swap_escrow::{Account, Address, ErrorCategory, EscrowError, Mint, Offer, TokenAccount, Wallet};

fn address(n: u8) -> Address {
    Address::new([n; 32])
}

fn holding(mint: u8, owner: u8, amount: u64) -> TokenAccount {
    TokenAccount { mint: address(mint), owner: address(owner), amount }
}

fn asset(key: u8, decimals: u8) -> Mint {
    Mint { key: address(key), program: token_program_id(), decimals }
}

#[test]
fn transfer_moves_the_exact_amount() {
    let mut from = holding(10, 1, 500);
    let mut to = holding(10, 2, 7);
    assert_eq!(transfer_checked(&mut from, &mut to, &asset(10, 6), &address(1), true, 100, 6), Ok(()));
    assert_eq!(from, holding(10, 1, 400));
    assert_eq!(to, holding(10, 2, 107));
}

#[test]
fn transfer_of_the_whole_balance_and_of_nothing() {
    let mut from = holding(10, 1, 500);
    let mut to = holding(10, 2, 0);
    assert_eq!(transfer_checked(&mut from, &mut to, &asset(10, 6), &address(1), true, 500, 6), Ok(()));
    assert_eq!((from.amount, to.amount), (0, 500));
    assert_eq!(transfer_checked(&mut from, &mut to, &asset(10, 6), &address(1), true, 0, 6), Ok(()));
    assert_eq!((from.amount, to.amount), (0, 500));
}

#[test]
fn transfer_rejects_each_fault_and_changes_nothing() {
    let cases: Vec<(TokenAccount, TokenAccount, Mint, u8, bool, u64, u8, EscrowError)> = vec![
        (holding(11, 1, 500), holding(10, 2, 0), asset(10, 6), 1, true, 100, 6, EscrowError::MintMismatch),
        (holding(10, 1, 500), holding(11, 2, 0), asset(10, 6), 1, true, 100, 6, EscrowError::MintMismatch),
        (holding(11, 1, 500), holding(11, 2, 0), asset(10, 6), 1, true, 100, 6, EscrowError::MintMismatch),
        (holding(10, 1, 500), holding(10, 2, 0), asset(10, 6), 1, true, 100, 9, EscrowError::DecimalsMismatch),
        (holding(10, 1, 500), holding(10, 2, 0), asset(10, 6), 3, true, 100, 6, EscrowError::OwnerMismatch),
        (holding(10, 1, 500), holding(10, 2, 0), asset(10, 6), 1, false, 100, 6, EscrowError::MissingSignature),
        (holding(10, 1, 500), holding(10, 2, u64::MAX - 99), asset(10, 6), 1, true, 100, 6, EscrowError::AmountOverflow),
        (holding(10, 1, 99), holding(10, 2, 0), asset(10, 6), 1, true, 100, 6, EscrowError::InsufficientFunds),
    ];
    for (from, to, mint, authority, signed, amount, decimals, expected) in cases {
        let mut source = from;
        let mut destination = to;
        let r = transfer_checked(&mut source, &mut destination, &mint, &address(authority), signed, amount, decimals);
        assert_eq!(r, Err(expected));
        assert_eq!(source, from);
        assert_eq!(destination, to);
    }
}

#[test]
fn transfer_reports_what_does_not_fit_before_what_is_lacking() {
    let mut from = holding(11, 1, 0);
    let mut to = holding(10, 2, 0);
    let r = transfer_checked(&mut from, &mut to, &asset(10, 6), &address(1), true, 100, 6);
    assert_eq!(r, Err(EscrowError::MintMismatch));
    let mut from = holding(10, 1, 0);
    let r = transfer_checked(&mut from, &mut to, &asset(10, 6), &address(3), false, 100, 6);
    assert_eq!(r, Err(EscrowError::OwnerMismatch));
}

#[test]
fn transfer_from_a_short_source_lacks_funds_whatever_the_destination_holds() {
    let from = holding(10, 1, 3);
    let to = holding(10, 2, u64::MAX - 5);
    let mut source = from;
    let mut destination = to;
    let r = transfer_checked(&mut source, &mut destination, &asset(10, 6), &address(1), true, 10, 6);
    assert_eq!(r, Err(EscrowError::InsufficientFunds));
    assert_eq!(r.unwrap_err().category(), ErrorCategory::InsufficientFunds);
    assert_eq!((source, destination), (from, to));
    let mut source = holding(10, 1, 10);
    let r = transfer_checked(&mut source, &mut destination, &asset(10, 6), &address(1), true, 10, 6);
    assert_eq!(r, Err(EscrowError::AmountOverflow));
    let mut source = holding(10, 1, 9);
    let mut full = holding(10, 2, u64::MAX);
    let r = transfer_checked(&mut source, &mut full, &asset(10, 6), &address(1), true, 10, 6);
    assert_eq!(r, Err(EscrowError::InsufficientFunds));
}

#[test]
fn transfer_up_to_the_largest_amount() {
    let mut from = holding(10, 1, 100);
    let mut to = holding(10, 2, u64::MAX - 100);
    assert_eq!(transfer_checked(&mut from, &mut to, &asset(10, 6), &address(1), true, 100, 6), Ok(()));
    assert_eq!((from.amount, to.amount), (0, u64::MAX));
}

#[test]
fn deposit_due_is_what_is_lacking() {
    assert_eq!(compute_deposit_due(0, 2_000), 2_000);
    assert_eq!(compute_deposit_due(500, 2_000), 1_500);
    assert_eq!(compute_deposit_due(2_000, 2_000), 0);
    assert_eq!(compute_deposit_due(9_000, 2_000), 0);
    assert_eq!(compute_deposit_due(0, 0), 0);
}

#[test]
fn create_account_takes_the_deposit_from_the_payer() {
    let mut payer = Wallet { key: address(1), is_signer: true, lamports: 5_000 };
    let mut slot: Account<TokenAccount> = Account { key: address(20), lamports: 0, program: system_program_id(), data: None };
    assert_eq!(create_account(&mut payer, &mut slot, 2_000, &token_program_id(), holding(10, 1, 0)), Ok(()));
    assert_eq!(payer, Wallet { key: address(1), is_signer: true, lamports: 3_000 });
    assert_eq!(slot, Account { key: address(20), lamports: 2_000, program: token_program_id(), data: Some(holding(10, 1, 0)) });
}

#[test]
fn create_account_tops_up_what_the_place_already_holds() {
    let mut payer = Wallet { key: address(1), is_signer: true, lamports: 5_000 };
    let mut slot: Account<TokenAccount> = Account { key: address(20), lamports: 1_500, program: system_program_id(), data: None };
    assert_eq!(create_account(&mut payer, &mut slot, 2_000, &token_program_id(), holding(10, 1, 0)), Ok(()));
    assert_eq!(payer.lamports, 4_500);
    assert_eq!(slot.lamports, 2_000);
    assert_eq!(slot.data, Some(holding(10, 1, 0)));
    let mut rich: Account<TokenAccount> = Account { key: address(21), lamports: 3_000, program: system_program_id(), data: None };
    assert_eq!(create_account(&mut payer, &mut rich, 2_000, &token_program_id(), holding(10, 1, 0)), Ok(()));
    assert_eq!(payer.lamports, 4_500);
    assert_eq!(rich.lamports, 3_000);
}

#[test]
fn pay_deposit_tops_up_and_leaves_the_record_alone() {
    let mut payer = Wallet { key: address(1), is_signer: true, lamports: 5_000 };
    let mut empty: Account<Offer> = Account { key: address(20), lamports: 300, program: system_program_id(), data: None };
    assert_eq!(pay_deposit(&mut payer, &mut empty, 1_000), Ok(()));
    assert_eq!(payer.lamports, 4_300);
    assert_eq!(empty, Account { key: address(20), lamports: 1_000, program: system_program_id(), data: None });
    let mut held: Account<TokenAccount> = Account { key: address(21), lamports: 0, program: token_program_id(), data: Some(holding(10, 1, 9)) };
    assert_eq!(pay_deposit(&mut payer, &mut held, 4_300), Ok(()));
    assert_eq!(payer.lamports, 0);
    assert_eq!(held, Account { key: address(21), lamports: 4_300, program: token_program_id(), data: Some(holding(10, 1, 9)) });
    assert_eq!(pay_deposit(&mut payer, &mut held, 4_300), Ok(()));
    assert_eq!(pay_deposit(&mut payer, &mut held, 4_301), Err(EscrowError::InsufficientLamports));
    assert_eq!(held.lamports, 4_300);
    assert_eq!(payer.lamports, 0);
}

#[test]
fn create_account_rejects_a_place_in_use_and_a_poor_payer() {
    let payer = Wallet { key: address(1), is_signer: true, lamports: 1_999 };
    let taken: Account<TokenAccount> = Account { key: address(20), lamports: 2_000, program: token_program_id(), data: Some(holding(10, 1, 3)) };
    let free: Account<TokenAccount> = Account { key: address(20), lamports: 0, program: system_program_id(), data: None };
    let mut p = payer;
    let mut s = taken;
    assert_eq!(create_account(&mut p, &mut s, 2_000, &token_program_id(), holding(10, 1, 0)), Err(EscrowError::AccountInUse));
    assert_eq!((p, s), (payer, taken));
    let mut s = free;
    assert_eq!(create_account(&mut p, &mut s, 2_000, &token_program_id(), holding(10, 1, 0)), Err(EscrowError::InsufficientLamports));
    assert_eq!((p, s), (payer, free));
    p.lamports = 2_000;
    assert_eq!(create_account(&mut p, &mut s, 2_000, &token_program_id(), holding(10, 1, 0)), Ok(()));
    assert_eq!(p.lamports, 0);
}

#[test]
fn ensure_token_account_leaves_an_existing_account_alone() {
    let payer = Wallet { key: address(1), is_signer: true, lamports: 0 };
    let present: Account<TokenAccount> = Account { key: address(20), lamports: 10, program: token_program_id(), data: Some(holding(10, 1, 3)) };
    let mut p = payer;
    let mut s = present;
    assert_eq!(ensure_token_account(&mut p, &mut s, 2_000, &token_program_id(), &address(10), &address(1)), Ok(()));
    assert_eq!((p, s), (payer, present));
}

#[test]
fn ensure_token_account_creates_a_missing_account_empty() {
    let mut p = Wallet { key: address(1), is_signer: true, lamports: 2_500 };
    let mut s: Account<TokenAccount> = Account { key: address(20), lamports: 0, program: system_program_id(), data: None };
    assert_eq!(ensure_token_account(&mut p, &mut s, 2_000, &token_program_id(), &address(10), &address(2)), Ok(()));
    assert_eq!(p.lamports, 500);
    assert_eq!(s, Account { key: address(20), lamports: 2_000, program: token_program_id(), data: Some(holding(10, 2, 0)) });
    let mut t: Account<TokenAccount> = Account { key: address(21), lamports: 0, program: system_program_id(), data: None };
    assert_eq!(
        ensure_token_account(&mut p, &mut t, 2_000, &token_program_id(), &address(10), &address(2)),
        Err(EscrowError::InsufficientLamports)
    );
    assert_eq!(t.data, None);
    assert_eq!(p.lamports, 500);
}

#[test]
fn close_account_hands_the_deposit_over() {
    let mut vault: Account<TokenAccount> = Account { key: address(30), lamports: 2_000, program: token_program_id(), data: Some(holding(10, 5, 0)) };
    let mut maker = Wallet { key: address(1), is_signer: false, lamports: 7_000 };
    assert_eq!(close_account(&mut vault, &mut maker, &address(5), true), Ok(()));
    assert_eq!(vault, Account { key: address(30), lamports: 0, program: system_program_id(), data: None });
    assert_eq!(maker, Wallet { key: address(1), is_signer: false, lamports: 9_000 });
}

#[test]
fn close_account_rejects_each_fault_and_changes_nothing() {
    let maker = Wallet { key: address(1), is_signer: false, lamports: 7_000 };
    let cases: Vec<(Account<TokenAccount>, Wallet, u8, bool, EscrowError)> = vec![
        (Account { key: address(30), lamports: 0, program: system_program_id(), data: None }, maker, 5, true, EscrowError::TokenAccountNotFound),
        (Account { key: address(30), lamports: 2_000, program: token_program_id(), data: Some(holding(10, 5, 0)) }, maker, 6, true, EscrowError::OwnerMismatch),
        (Account { key: address(30), lamports: 2_000, program: token_program_id(), data: Some(holding(10, 5, 0)) }, maker, 5, false, EscrowError::MissingSignature),
        (Account { key: address(30), lamports: 2_000, program: token_program_id(), data: Some(holding(10, 5, 1)) }, maker, 5, true, EscrowError::NonEmptyAccount),
        (
            Account { key: address(30), lamports: 2_000, program: token_program_id(), data: Some(holding(10, 5, 0)) },
            Wallet { key: address(1), is_signer: false, lamports: u64::MAX - 1_999 },
            5,
            true,
            EscrowError::AmountOverflow,
        ),
    ];
    for (account, destination, authority, signed, expected) in cases {
        let mut a = account;
        let mut d = destination;
        assert_eq!(close_account(&mut a, &mut d, &address(authority), signed), Err(expected));
        assert_eq!((a, d), (account, destination));
    }
}

fn slot(key: u8, data: Option<TokenAccount>) -> Account<TokenAccount> {
    Account { key: address(key), lamports: 2_000, program: token_program_id(), data }
}

#[test]
fn token_account_is_held_to_program_mint_owner_and_address() {
    let token = token_program_id();
    let held = slot(20, Some(holding(10, 1, 5)));
    let at = Some(address(20));
    assert_eq!(check_token_account(&held, &token, &address(10), &address(1), &at), Ok(()));
    assert_eq!(
        check_token_account(&slot(20, None), &token, &address(10), &address(1), &at),
        Err(EscrowError::TokenAccountNotFound)
    );
    assert_eq!(
        check_token_account(&held, &token_2022_program_id(), &address(10), &address(1), &at),
        Err(EscrowError::ProgramMismatch)
    );
    let foreign = Account { program: address(99), ..held };
    assert_eq!(
        check_token_account(&foreign, &token, &address(10), &address(1), &at),
        Err(EscrowError::ProgramMismatch)
    );
    assert_eq!(
        check_token_account(&held, &token, &address(11), &address(1), &at),
        Err(EscrowError::MintMismatch)
    );
    assert_eq!(
        check_token_account(&held, &token, &address(10), &address(2), &at),
        Err(EscrowError::OwnerMismatch)
    );
    assert_eq!(
        check_token_account(&held, &token, &address(10), &address(1), &Some(address(21))),
        Err(EscrowError::AddressMismatch)
    );
    assert_eq!(
        check_token_account(&held, &token, &address(10), &address(1), &None),
        Err(EscrowError::AddressMismatch)
    );
    assert_eq!(
        check_token_account(&foreign, &token, &address(11), &address(2), &None),
        Err(EscrowError::ProgramMismatch)
    );
    assert_eq!(
        check_token_account(&held, &token, &address(11), &address(2), &None),
        Err(EscrowError::MintMismatch)
    );
}

#[test]
fn token_account_on_demand_is_held_to_its_address_where_it_is_missing() {
    let token = token_program_id();
    let missing = Account { program: system_program_id(), ..slot(20, None) };
    let present = slot(20, Some(holding(10, 1, 5)));
    assert_eq!(check_token_slot(&missing, &token, &address(10), &address(1), &Some(address(20))), Ok(()));
    assert_eq!(
        check_token_slot(&missing, &token, &address(10), &address(1), &Some(address(21))),
        Err(EscrowError::AddressMismatch)
    );
    assert_eq!(
        check_token_slot(&missing, &token, &address(10), &address(1), &None),
        Err(EscrowError::AddressMismatch)
    );
    assert_eq!(check_token_slot(&present, &token, &address(10), &address(1), &Some(address(20))), Ok(()));
    assert_eq!(
        check_token_slot(&Account { program: address(99), ..present }, &token, &address(10), &address(1), &Some(address(20))),
        Err(EscrowError::ProgramMismatch)
    );
    assert_eq!(
        check_token_slot(&present, &token, &address(11), &address(1), &Some(address(20))),
        Err(EscrowError::MintMismatch)
    );
    assert_eq!(
        check_token_slot(&present, &token, &address(10), &address(2), &Some(address(20))),
        Err(EscrowError::OwnerMismatch)
    );
}

#[test]
fn asset_type_is_held_to_its_program() {
    assert_eq!(check_mint(&asset(10, 6), &token_program_id()), Ok(()));
    assert_eq!(check_mint(&asset(10, 6), &token_2022_program_id()), Err(EscrowError::ProgramMismatch));
    assert_eq!(EscrowError::ProgramMismatch.category(), ErrorCategory::Validation);
}

#[test]
fn created_account_is_handed_to_the_program_and_a_closed_one_to_the_system() {
    let mut payer = Wallet { key: address(1), is_signer: true, lamports: 5_000 };
    let mut place: Account<TokenAccount> =
        Account { key: address(20), lamports: 0, program: system_program_id(), data: None };
    assert_eq!(create_account(&mut payer, &mut place, 2_000, &token_2022_program_id(), holding(10, 5, 0)), Ok(()));
    assert_eq!(place.program, token_2022_program_id());
    assert_eq!(close_account(&mut place, &mut payer, &address(5), true), Ok(()));
    assert_eq!(place, Account { key: address(20), lamports: 0, program: system_program_id(), data: None });
    assert_eq!(system_program_id().bytes, [0u8; 32]);
    assert_eq!(payer.lamports, 5_000);
}
