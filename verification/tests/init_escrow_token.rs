use anchor_lang::prelude::ProgramError;
use anchor_lang::solana_program::program_option::COption;
use anchor_spl::token_2022::spl_token_2022::extension::metadata_pointer::MetadataPointer;
use anchor_spl::token_2022::spl_token_2022::extension::non_transferable::NonTransferable;
use anchor_spl::token_2022::spl_token_2022::extension::transfer_fee::TransferFeeConfig;
use anchor_spl::token_2022::spl_token_2022::extension::transfer_hook::TransferHook;
use anchor_spl::token_2022::spl_token_2022::extension::{
    BaseStateWithExtensionsMut, ExtensionType, StateWithExtensionsMut,
};
use anchor_spl::token_2022::spl_token_2022::state::Mint as LedgerMint;
use vesting_contract::authority::{find_vault_address, VaultAuthority};
use vesting_contract::errors::VestingErrorCode;
use vesting_contract::events::EscrowCreatedEvent;
use vesting_contract::instructions::{init_escrow_token, TokenMetadataInitialize};
use vesting_contract::pubkey::Pubkey;
use vesting_contract::token_2022_validations::{ValidationError, SPL_TOKEN_PROGRAM_ID};
use vesting_contract::vesting_accounts::{
    Account, BackendAccountData, InitEscrowToken, InitEscrowTokenParams, Mint, VaultAccount,
};

const BACKEND: u8 = 1;
const PAYER: u8 = 4;
const VALUED_MINT: u8 = 20;
const ESCROW_MINT: u8 = 21;
const PROGRAM: u8 = 99;

fn key(tag: u8) -> Pubkey {
    Pubkey::new_from_array([tag; 32])
}

fn token_2022() -> Pubkey {
    Pubkey::new_from_array(anchor_spl::token_2022::ID.to_bytes())
}

fn spl_token() -> Pubkey {
    Pubkey::new_from_array(SPL_TOKEN_PROGRAM_ID)
}

fn vault_key() -> Pubkey {
    find_vault_address(&key(VALUED_MINT), &key(ESCROW_MINT), &key(PROGRAM)).unwrap().0
}

fn vault_authority() -> VaultAuthority {
    VaultAuthority::derive(&vault_key(), &key(VALUED_MINT), &key(ESCROW_MINT), &key(PROGRAM)).unwrap()
}

fn other_authority() -> VaultAuthority {
    let vault = find_vault_address(&key(VALUED_MINT), &key(77), &key(PROGRAM)).unwrap().0;
    VaultAuthority::derive(&vault, &key(VALUED_MINT), &key(77), &key(PROGRAM)).unwrap()
}

fn blank_vault() -> VaultAccount {
    VaultAccount {
        creator: Pubkey::default(),
        valued_token_mint: Pubkey::default(),
        escrow_token_mint: Pubkey::default(),
        app_id: String::new(),
    }
}

fn accounts() -> InitEscrowToken {
    InitEscrowToken {
        backend_data: BackendAccountData { backend_account: key(BACKEND), change_authority: None },
        backend: key(BACKEND),
        vault_account: Account { key: vault_key(), data: blank_vault() },
        valued_token_mint: Mint { key: key(VALUED_MINT), decimals: 6, supply: 1_000 },
        escrow_token_mint: Mint { key: key(ESCROW_MINT), decimals: 6, supply: 0 },
        payer: key(PAYER),
    }
}

fn params() -> InitEscrowTokenParams {
    InitEscrowTokenParams {
        name: String::from("Escrow"),
        symbol: String::from("ESC"),
        uri: String::from("https://example.org/esc.json"),
        app_id: String::from("app-1"),
    }
}

fn unsupported<T>() -> Result<T, ValidationError> {
    Err(ValidationError::Vesting(VestingErrorCode::UnsupportedTokenExtension))
}

fn finish(state: &mut StateWithExtensionsMut<LedgerMint>) {
    state.base = LedgerMint {
        mint_authority: COption::None,
        supply: 1_000,
        decimals: 6,
        is_initialized: true,
        freeze_authority: COption::None,
    };
    state.pack_base();
    state.init_account_type().unwrap();
}

fn plain_mint() -> Vec<u8> {
    let mut data =
        vec![0u8; ExtensionType::try_calculate_account_len::<LedgerMint>(&[ExtensionType::MetadataPointer]).unwrap()];
    let mut state = StateWithExtensionsMut::<LedgerMint>::unpack_uninitialized(&mut data).unwrap();
    state.init_extension::<MetadataPointer>(true).unwrap();
    finish(&mut state);
    data
}

fn mint_with_fee(older: u16, newer: u16) -> Vec<u8> {
    let mut data =
        vec![0u8; ExtensionType::try_calculate_account_len::<LedgerMint>(&[ExtensionType::TransferFeeConfig]).unwrap()];
    let mut state = StateWithExtensionsMut::<LedgerMint>::unpack_uninitialized(&mut data).unwrap();
    let fee = state.init_extension::<TransferFeeConfig>(true).unwrap();
    fee.older_transfer_fee.transfer_fee_basis_points = older.into();
    fee.newer_transfer_fee.transfer_fee_basis_points = newer.into();
    finish(&mut state);
    data
}

fn mint_with_hook(program: Option<anchor_lang::prelude::Pubkey>) -> Vec<u8> {
    let mut data =
        vec![0u8; ExtensionType::try_calculate_account_len::<LedgerMint>(&[ExtensionType::TransferHook]).unwrap()];
    let mut state = StateWithExtensionsMut::<LedgerMint>::unpack_uninitialized(&mut data).unwrap();
    let hook = state.init_extension::<TransferHook>(true).unwrap();
    hook.program_id = program.try_into().unwrap();
    finish(&mut state);
    data
}

fn non_transferable_mint() -> Vec<u8> {
    let mut data =
        vec![0u8; ExtensionType::try_calculate_account_len::<LedgerMint>(&[ExtensionType::NonTransferable]).unwrap()];
    let mut state = StateWithExtensionsMut::<LedgerMint>::unpack_uninitialized(&mut data).unwrap();
    state.init_extension::<NonTransferable>(true).unwrap();
    finish(&mut state);
    data
}

#[test]
fn init_escrow_token_records_the_vault_and_asks_for_the_metadata() {
    let authority = vault_authority();
    let mut ctx = accounts();
    let (instruction, event) =
        init_escrow_token(&mut ctx, &authority, params(), &token_2022(), &plain_mint()).unwrap();
    assert_eq!(
        instruction,
        TokenMetadataInitialize {
            mint: key(ESCROW_MINT),
            authority,
            name: String::from("Escrow"),
            symbol: String::from("ESC"),
            uri: String::from("https://example.org/esc.json"),
        }
    );
    assert_eq!(
        event,
        EscrowCreatedEvent {
            creator: key(PAYER),
            valued_token_mint: key(VALUED_MINT),
            escrow_token_mint: key(ESCROW_MINT),
            vault_account: vault_key(),
            app_id: String::from("app-1"),
        }
    );
    assert_eq!(
        ctx.vault_account.data,
        VaultAccount {
            creator: key(PAYER),
            valued_token_mint: key(VALUED_MINT),
            escrow_token_mint: key(ESCROW_MINT),
            app_id: String::from("app-1"),
        }
    );
}

#[test]
fn init_escrow_token_accepts_a_mint_of_the_spl_token_program_unread() {
    let mut ctx = accounts();
    assert!(init_escrow_token(&mut ctx, &vault_authority(), params(), &spl_token(), &[]).is_ok());
    assert_eq!(ctx.vault_account.data.creator, key(PAYER));
}

#[test]
fn init_escrow_token_accepts_a_zero_fee_and_an_unset_hook() {
    let mut ctx = accounts();
    assert!(
        init_escrow_token(&mut ctx, &vault_authority(), params(), &token_2022(), &mint_with_fee(0, 0)).is_ok()
    );
    let mut ctx = accounts();
    assert!(
        init_escrow_token(&mut ctx, &vault_authority(), params(), &token_2022(), &mint_with_hook(None)).is_ok()
    );
}

#[test]
fn init_escrow_token_refuses_a_mint_with_a_transfer_fee() {
    for (older, newer) in [(0u16, 25u16), (1, 0), (300, 300)] {
        let mut ctx = accounts();
        assert_eq!(
            init_escrow_token(&mut ctx, &vault_authority(), params(), &token_2022(), &mint_with_fee(older, newer)),
            unsupported()
        );
        assert_eq!(ctx, accounts());
        assert_eq!(ctx.vault_account.data, blank_vault());
    }
}

#[test]
fn init_escrow_token_refuses_a_mint_with_a_transfer_hook_program() {
    let hook = anchor_lang::prelude::Pubkey::new_from_array([9u8; 32]);
    let mut ctx = accounts();
    assert_eq!(
        init_escrow_token(&mut ctx, &vault_authority(), params(), &token_2022(), &mint_with_hook(Some(hook))),
        unsupported()
    );
    assert_eq!(ctx, accounts());
}

#[test]
fn init_escrow_token_refuses_a_mint_with_an_extension_that_is_not_allowed() {
    let mut ctx = accounts();
    assert_eq!(
        init_escrow_token(&mut ctx, &vault_authority(), params(), &token_2022(), &non_transferable_mint()),
        unsupported()
    );
    assert_eq!(ctx, accounts());
}

#[test]
fn init_escrow_token_refuses_a_mint_that_cannot_be_read() {
    let mut ctx = accounts();
    assert_eq!(
        init_escrow_token(&mut ctx, &vault_authority(), params(), &token_2022(), &[]),
        Err(ValidationError::Program(ProgramError::InvalidAccountData))
    );
    assert_eq!(
        init_escrow_token(&mut ctx, &vault_authority(), params(), &token_2022(), &[0u8; 82]),
        Err(ValidationError::Program(ProgramError::UninitializedAccount))
    );
    assert_eq!(ctx, accounts());
}

#[test]
fn init_escrow_token_examines_the_mint_before_the_authorization() {
    let mut ctx = accounts();
    ctx.backend = key(66);
    let unsigned = ctx.clone();
    assert_eq!(
        init_escrow_token(&mut ctx, &other_authority(), params(), &token_2022(), &mint_with_fee(0, 25)),
        unsupported()
    );
    assert_eq!(
        init_escrow_token(&mut ctx, &other_authority(), params(), &token_2022(), &[]),
        Err(ValidationError::Program(ProgramError::InvalidAccountData))
    );
    assert_eq!(ctx, unsigned);
}

#[test]
fn init_escrow_token_needs_backend_and_vault_authority() {
    let refused = Err(ValidationError::Vesting(VestingErrorCode::UnathorizedToExecute));
    let mut wrong_backend = accounts();
    wrong_backend.backend = key(66);
    assert_eq!(
        init_escrow_token(&mut wrong_backend, &vault_authority(), params(), &token_2022(), &plain_mint()),
        refused
    );
    let mut wrong_authority = accounts();
    assert_eq!(
        init_escrow_token(&mut wrong_authority, &other_authority(), params(), &token_2022(), &plain_mint()),
        refused
    );
    assert_eq!(wrong_authority, accounts());
}
