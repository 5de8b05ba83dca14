use vesting_contract::authority::{find_vault_address, VaultAuthority};
use vesting_contract::errors::VestingErrorCode;
use vesting_contract::pubkey::Pubkey;
use vesting_contract::reserve::{
    return_escrow, split_escrow_payout, transfer_escrow_from_vault, transfer_tokens, Authority,
    TokenInstruction,
};
use vesting_contract::vesting_accounts::{BackendAccountData, Mint, TokenAccount};

fn key(tag: u8) -> Pubkey {
    Pubkey::new_from_array([tag; 32])
}

fn balance(tag: u8, amount: u64) -> TokenAccount {
    TokenAccount { key: key(tag), amount }
}

fn escrow_mint(supply: u64) -> Mint {
    Mint { key: key(21), decimals: 6, supply }
}

fn backend_data() -> BackendAccountData {
    BackendAccountData { backend_account: key(1), change_authority: None }
}

fn vault_authority() -> VaultAuthority {
    let program = key(99);
    let (vault, _) = find_vault_address(&key(20), &key(21), &program).unwrap();
    VaultAuthority::derive(&vault, &key(20), &key(21), &program).unwrap()
}

#[test]
fn transfer_moves_the_amount_and_names_the_instruction() {
    let mut from = balance(1, 500);
    let mut to = balance(2, 70);
    let mint = Mint { key: key(3), decimals: 9, supply: 1_000 };
    let done = transfer_tokens(&mut from, &mint, &mut to, &key(50), 120, Authority::Wallet(key(4)));
    assert_eq!(
        done,
        Ok(TokenInstruction::TransferChecked {
            token_program: key(50),
            from: key(1),
            mint: key(3),
            to: key(2),
            authority: Authority::Wallet(key(4)),
            amount: 120,
            decimals: 9,
        })
    );
    assert_eq!(from, balance(1, 380));
    assert_eq!(to, balance(2, 190));
}

#[test]
fn transfer_of_more_than_is_held_is_refused() {
    let mut from = balance(1, 119);
    let mut to = balance(2, 70);
    let mint = escrow_mint(0);
    let done = transfer_tokens(&mut from, &mint, &mut to, &key(50), 120, Authority::Wallet(key(4)));
    assert_eq!(done, Err(VestingErrorCode::InsufficientFunds));
    assert_eq!(from, balance(1, 119));
    assert_eq!(to, balance(2, 70));
}

#[test]
fn transfer_beyond_64_bits_is_refused() {
    let mut from = balance(1, 10);
    let mut to = balance(2, u64::MAX - 9);
    let mint = escrow_mint(0);
    let done = transfer_tokens(&mut from, &mint, &mut to, &key(50), 10, Authority::Wallet(key(4)));
    assert_eq!(done, Err(VestingErrorCode::ArithmeticOverflow));
    assert_eq!(from, balance(1, 10));
    assert_eq!(to, balance(2, u64::MAX - 9));
    assert!(transfer_tokens(&mut from, &mint, &mut to, &key(50), 9, Authority::Wallet(key(4))).is_ok());
    assert_eq!(to.amount, u64::MAX);
}

#[test]
fn transfer_of_zero_changes_nothing() {
    let mut from = balance(1, 0);
    let mut to = balance(2, 5);
    let mint = escrow_mint(0);
    assert!(transfer_tokens(&mut from, &mint, &mut to, &key(50), 0, Authority::Wallet(key(4))).is_ok());
    assert_eq!(from.amount, 0);
    assert_eq!(to.amount, 5);
}

#[test]
fn split_drains_the_reserve_first() {
    assert_eq!(split_escrow_payout(40, 100), Ok((40, 60)));
    assert_eq!(split_escrow_payout(100, 100), Ok((100, 0)));
    assert_eq!(split_escrow_payout(250, 100), Ok((100, 0)));
    assert_eq!(split_escrow_payout(0, 100), Ok((0, 100)));
    assert_eq!(split_escrow_payout(0, 0), Ok((0, 0)));
    assert_eq!(split_escrow_payout(7, 0), Ok((0, 0)));
    assert_eq!(split_escrow_payout(u64::MAX, u64::MAX), Ok((u64::MAX, 0)));
}

#[test]
fn payout_of_100_from_a_reserve_of_40() {
    let authority = vault_authority();
    let mut vault = balance(10, 40);
    let mut user = balance(11, 5);
    let mut mint = escrow_mint(300);
    let done = transfer_escrow_from_vault(&key(51), &authority, &mut vault, &mut user, &mut mint, 100);
    assert_eq!(
        done,
        Ok(vec![
            TokenInstruction::TransferChecked {
            token_program: key(51),
                from: key(10),
                mint: key(21),
                to: key(11),
                authority: Authority::Vault(authority),
                amount: 40,
                decimals: 6,
            },
            TokenInstruction::MintTo {
                token_program: key(51),
                mint: key(21),
                to: key(11),
                authority: Authority::Vault(authority),
                amount: 60,
            },
        ])
    );
    assert_eq!(vault.amount, 0);
    assert_eq!(user.amount, 105);
    assert_eq!(mint.supply, 360);
}

#[test]
fn payout_covered_by_the_reserve_issues_nothing() {
    let authority = vault_authority();
    let mut vault = balance(10, 400);
    let mut user = balance(11, 0);
    let mut mint = escrow_mint(400);
    let done = transfer_escrow_from_vault(&key(51), &authority, &mut vault, &mut user, &mut mint, 100).unwrap();
    assert_eq!(done.len(), 1);
    assert_eq!(vault.amount, 300);
    assert_eq!(user.amount, 100);
    assert_eq!(mint.supply, 400);
}

#[test]
fn payout_from_an_empty_reserve_issues_everything() {
    let authority = vault_authority();
    let mut vault = balance(10, 0);
    let mut user = balance(11, 1);
    let mut mint = escrow_mint(1);
    let done = transfer_escrow_from_vault(&key(51), &authority, &mut vault, &mut user, &mut mint, 100).unwrap();
    assert_eq!(
        done,
        vec![TokenInstruction::MintTo {
                token_program: key(51),
            mint: key(21),
            to: key(11),
            authority: Authority::Vault(authority),
            amount: 100,
        }]
    );
    assert_eq!(vault.amount, 0);
    assert_eq!(user.amount, 101);
    assert_eq!(mint.supply, 101);
}

#[test]
fn payout_of_zero_asks_nothing() {
    let authority = vault_authority();
    let mut vault = balance(10, 9);
    let mut user = balance(11, 1);
    let mut mint = escrow_mint(10);
    let done = transfer_escrow_from_vault(&key(51), &authority, &mut vault, &mut user, &mut mint, 0).unwrap();
    assert!(done.is_empty());
    assert_eq!((vault.amount, user.amount, mint.supply), (9, 1, 10));
}

#[test]
fn payout_beyond_64_bits_is_refused_and_changes_nothing() {
    let authority = vault_authority();
    let mut vault = balance(10, 40);
    let mut user = balance(11, 5);
    let mut mint = escrow_mint(u64::MAX - 59);
    let done = transfer_escrow_from_vault(&key(51), &authority, &mut vault, &mut user, &mut mint, 100);
    assert_eq!(done, Err(VestingErrorCode::ArithmeticOverflow));
    assert_eq!((vault.amount, user.amount, mint.supply), (40, 5, u64::MAX - 59));

    let mut full_user = balance(11, u64::MAX - 99);
    let mut small_mint = escrow_mint(0);
    let done = transfer_escrow_from_vault(&key(51), &authority, &mut vault, &mut full_user, &mut small_mint, 100);
    assert_eq!(done, Err(VestingErrorCode::ArithmeticOverflow));
    assert_eq!((vault.amount, full_user.amount, small_mint.supply), (40, u64::MAX - 99, 0));
}

#[test]
fn return_escrow_moves_tokens_into_the_reserve_without_issuing() {
    let mut user = balance(11, 300);
    let mut vault = balance(10, 40);
    let mint = escrow_mint(340);
    let done = return_escrow(&backend_data(), &key(1), &key(5), &mut user, &mint, &mut vault, &key(51), 250);
    assert_eq!(
        done,
        Ok(TokenInstruction::TransferChecked {
            token_program: key(51),
            from: key(11),
            mint: key(21),
            to: key(10),
            authority: Authority::Wallet(key(5)),
            amount: 250,
            decimals: 6,
        })
    );
    assert_eq!(user.amount, 50);
    assert_eq!(vault.amount, 290);
    assert_eq!(mint.supply, 340);
}

#[test]
fn return_escrow_of_zero_is_refused() {
    let mut user = balance(11, 300);
    let mut vault = balance(10, 40);
    let mint = escrow_mint(340);
    assert_eq!(
        return_escrow(&backend_data(), &key(1), &key(5), &mut user, &mint, &mut vault, &key(51), 0),
        Err(VestingErrorCode::MinimumAmountNotMet)
    );
    assert_eq!((user.amount, vault.amount), (300, 40));
}

#[test]
fn return_escrow_needs_the_backend_operator() {
    let mut user = balance(11, 300);
    let mut vault = balance(10, 40);
    let mint = escrow_mint(340);
    assert_eq!(
        return_escrow(&backend_data(), &key(5), &key(5), &mut user, &mint, &mut vault, &key(51), 250),
        Err(VestingErrorCode::UnathorizedToExecute)
    );
    assert_eq!(
        return_escrow(&backend_data(), &key(5), &key(5), &mut user, &mint, &mut vault, &key(51), 0),
        Err(VestingErrorCode::UnathorizedToExecute)
    );
    assert_eq!((user.amount, vault.amount), (300, 40));
}

#[test]
fn return_escrow_of_more_than_is_held_is_refused() {
    let mut user = balance(11, 300);
    let mut vault = balance(10, 40);
    let mint = escrow_mint(340);
    assert_eq!(
        return_escrow(&backend_data(), &key(1), &key(5), &mut user, &mint, &mut vault, &key(51), 301),
        Err(VestingErrorCode::InsufficientFunds)
    );
    assert_eq!((user.amount, vault.amount), (300, 40));
}

#[test]
fn escrow_out_of_the_vault_stays_backed_over_exchanges_and_returns() {
    // valued reserve, escrow reserve, escrow supply, one user's escrow balance
    let authority = vault_authority();
    let mut valued = 0u64;
    let mut vault = balance(10, 0);
    let mut user = balance(11, 0);
    let mut mint = escrow_mint(0);
    let steps: [(bool, u64); 8] = [
        (true, 100),
        (false, 60),
        (true, 30),
        (true, 50),
        (false, 120),
        (false, 1),
        (true, 500),
        (false, 500),
    ];
    for (is_exchange, amount) in steps {
        if is_exchange {
            if transfer_escrow_from_vault(&key(51), &authority, &mut vault, &mut user, &mut mint, amount).is_ok() {
                valued += amount;
            }
        } else {
            let _ = return_escrow(&backend_data(), &key(1), &key(5), &mut user, &mint, &mut vault, &key(51), amount);
        }
        assert!(vault.amount <= mint.supply);
        assert!(mint.supply - vault.amount <= valued);
        assert_eq!(mint.supply - vault.amount, user.amount);
    }
    assert_eq!(valued, 680);
    assert_eq!(mint.supply, 500);
    assert_eq!(vault.amount, 500);
    assert_eq!(user.amount, 0);
}
