use anchor_lang::prelude::ProgramError;
use anchor_lang::solana_program::program_option::COption;
use anchor_spl::token_2022::spl_token_2022::extension::default_account_state::DefaultAccountState;
use anchor_spl::token_2022::spl_token_2022::extension::metadata_pointer::MetadataPointer;
use anchor_spl::token_2022::spl_token_2022::extension::mint_close_authority::MintCloseAuthority;
use anchor_spl::token_2022::spl_token_2022::extension::non_transferable::NonTransferable;
use anchor_spl::token_2022::spl_token_2022::extension::permanent_delegate::PermanentDelegate;
use anchor_spl::token_2022::spl_token_2022::extension::transfer_fee::TransferFeeConfig;
use anchor_spl::token_2022::spl_token_2022::extension::transfer_hook::TransferHook;
use anchor_spl::token_2022::spl_token_2022::extension::{
    BaseStateWithExtensionsMut, ExtensionType, StateWithExtensionsMut,
};
use anchor_spl::token_2022::spl_token_2022::state::Mint;
use vesting_contract::errors::VestingErrorCode;
use vesting_contract::pubkey::Pubkey;
use vesting_contract::token_2022_validations::{
    is_valid_liquidity_token_extension, validate_extensions, validate_token_extensions,
    ValidationError, METADATA_POINTER, MINT_CLOSE_AUTHORITY, PERMANENT_DELEGATE,
    SPL_TOKEN_PROGRAM_ID, TOKEN_METADATA, TRANSFER_FEE_CONFIG, TRANSFER_HOOK,
};

fn token_2022() -> Pubkey {
    Pubkey::new_from_array(anchor_spl::token_2022::ID.to_bytes())
}

fn unsupported() -> Result<(), ValidationError> {
    Err(ValidationError::Vesting(VestingErrorCode::UnsupportedTokenExtension))
}

fn base_mint() -> Mint {
    Mint {
        mint_authority: COption::None,
        supply: 1_000,
        decimals: 6,
        is_initialized: true,
        freeze_authority: COption::None,
    }
}

fn finish(state: &mut StateWithExtensionsMut<Mint>) {
    state.base = base_mint();
    state.pack_base();
    state.init_account_type().unwrap();
}

fn buffer(extensions: &[ExtensionType]) -> Vec<u8> {
    vec![0u8; ExtensionType::try_calculate_account_len::<Mint>(extensions).unwrap()]
}

fn mint_with_fee(older: u16, newer: u16) -> Vec<u8> {
    let mut data = buffer(&[ExtensionType::MintCloseAuthority, ExtensionType::TransferFeeConfig]);
    let mut state = StateWithExtensionsMut::<Mint>::unpack_uninitialized(&mut data).unwrap();
    state.init_extension::<MintCloseAuthority>(true).unwrap();
    let fee = state.init_extension::<TransferFeeConfig>(true).unwrap();
    fee.older_transfer_fee.transfer_fee_basis_points = older.into();
    fee.newer_transfer_fee.transfer_fee_basis_points = newer.into();
    finish(&mut state);
    data
}

fn mint_with_hook(program: Option<anchor_lang::prelude::Pubkey>) -> Vec<u8> {
    let mut data = buffer(&[ExtensionType::TransferHook, ExtensionType::PermanentDelegate]);
    let mut state = StateWithExtensionsMut::<Mint>::unpack_uninitialized(&mut data).unwrap();
    let hook = state.init_extension::<TransferHook>(true).unwrap();
    hook.program_id = program.try_into().unwrap();
    state.init_extension::<PermanentDelegate>(true).unwrap();
    finish(&mut state);
    data
}

#[test]
fn spl_token_program_id_is_the_one_of_the_token_crate() {
    assert_eq!(SPL_TOKEN_PROGRAM_ID, anchor_spl::token::ID.to_bytes());
    assert_eq!(
        anchor_lang::prelude::Pubkey::new_from_array(SPL_TOKEN_PROGRAM_ID).to_string(),
        "TokenkegQfeZyiNwAJbNbGKPFXCWuBvf9Ss623VQ5DA"
    );
}

#[test]
fn extension_numbers_are_those_of_the_token_crate() {
    assert_eq!(TRANSFER_FEE_CONFIG, u16::from(ExtensionType::TransferFeeConfig));
    assert_eq!(MINT_CLOSE_AUTHORITY, u16::from(ExtensionType::MintCloseAuthority));
    assert_eq!(PERMANENT_DELEGATE, u16::from(ExtensionType::PermanentDelegate));
    assert_eq!(TRANSFER_HOOK, u16::from(ExtensionType::TransferHook));
    assert_eq!(METADATA_POINTER, u16::from(ExtensionType::MetadataPointer));
    assert_eq!(TOKEN_METADATA, u16::from(ExtensionType::TokenMetadata));
}

#[test]
fn allowed_extensions_are_the_six() {
    let allowed: Vec<u16> = (0..=40u16).filter(|e| is_valid_liquidity_token_extension(*e)).collect();
    assert_eq!(allowed, vec![1, 3, 12, 14, 18, 19]);
    assert!(!is_valid_liquidity_token_extension(u16::MAX));
}

#[test]
fn mint_of_the_spl_token_program_is_accepted_unread() {
    let owner = Pubkey::new_from_array(SPL_TOKEN_PROGRAM_ID);
    assert_eq!(validate_token_extensions(&owner, &[]), Ok(()));
    assert_eq!(validate_token_extensions(&owner, &[1, 2, 3]), Ok(()));
}

#[test]
fn mint_without_extensions_is_accepted() {
    let mut data = vec![0u8; 82];
    let mut state = StateWithExtensionsMut::<Mint>::unpack_uninitialized(&mut data).unwrap();
    state.base = base_mint();
    state.pack_base();
    assert_eq!(validate_token_extensions(&token_2022(), &data), Ok(()));
}

#[test]
fn mint_with_allowed_extensions_is_accepted() {
    let mut data = buffer(&[
        ExtensionType::MintCloseAuthority,
        ExtensionType::MetadataPointer,
        ExtensionType::PermanentDelegate,
    ]);
    let mut state = StateWithExtensionsMut::<Mint>::unpack_uninitialized(&mut data).unwrap();
    state.init_extension::<MintCloseAuthority>(true).unwrap();
    state.init_extension::<MetadataPointer>(true).unwrap();
    state.init_extension::<PermanentDelegate>(true).unwrap();
    finish(&mut state);
    assert_eq!(validate_token_extensions(&token_2022(), &data), Ok(()));
}

#[test]
fn mint_with_an_extension_that_is_not_allowed_is_refused() {
    let mut data = buffer(&[ExtensionType::MintCloseAuthority, ExtensionType::NonTransferable]);
    let mut state = StateWithExtensionsMut::<Mint>::unpack_uninitialized(&mut data).unwrap();
    state.init_extension::<MintCloseAuthority>(true).unwrap();
    state.init_extension::<NonTransferable>(true).unwrap();
    finish(&mut state);
    assert_eq!(validate_token_extensions(&token_2022(), &data), unsupported());

    let mut data = buffer(&[ExtensionType::DefaultAccountState]);
    let mut state = StateWithExtensionsMut::<Mint>::unpack_uninitialized(&mut data).unwrap();
    state.init_extension::<DefaultAccountState>(true).unwrap();
    finish(&mut state);
    assert_eq!(validate_token_extensions(&token_2022(), &data), unsupported());
}

#[test]
fn mint_with_a_zero_transfer_fee_is_accepted() {
    assert_eq!(validate_token_extensions(&token_2022(), &mint_with_fee(0, 0)), Ok(()));
}

#[test]
fn mint_with_a_transfer_fee_is_refused() {
    assert_eq!(validate_token_extensions(&token_2022(), &mint_with_fee(0, 25)), unsupported());
    assert_eq!(validate_token_extensions(&token_2022(), &mint_with_fee(1, 0)), unsupported());
    assert_eq!(validate_token_extensions(&token_2022(), &mint_with_fee(300, 300)), unsupported());
}

#[test]
fn mint_with_an_unset_transfer_hook_is_accepted() {
    assert_eq!(validate_token_extensions(&token_2022(), &mint_with_hook(None)), Ok(()));
}

#[test]
fn mint_with_a_transfer_hook_program_is_refused() {
    let program = anchor_lang::prelude::Pubkey::new_from_array([9u8; 32]);
    assert_eq!(validate_token_extensions(&token_2022(), &mint_with_hook(Some(program))), unsupported());
}

#[test]
fn data_that_is_no_mint_is_refused_with_the_error_of_the_read() {
    assert_eq!(
        validate_token_extensions(&token_2022(), &[]),
        Err(ValidationError::Program(ProgramError::InvalidAccountData))
    );
    assert_eq!(
        validate_token_extensions(&token_2022(), &[0u8; 82]),
        Err(ValidationError::Program(ProgramError::UninitializedAccount))
    );
    let mut cut = mint_with_fee(0, 0);
    cut.truncate(100);
    assert_eq!(
        validate_token_extensions(&token_2022(), &cut),
        Err(ValidationError::Program(ProgramError::InvalidAccountData))
    );
}

#[test]
fn extensions_are_judged_in_order() {
    let no_fee: Result<(u16, u16), ProgramError> = Err(ProgramError::InvalidAccountData);
    let no_hook: Result<Option<Pubkey>, ProgramError> = Err(ProgramError::InvalidArgument);
    assert_eq!(validate_extensions(&vec![], no_fee.clone(), no_hook.clone()), Ok(()));
    assert_eq!(validate_extensions(&vec![3, 18, 12, 19], no_fee.clone(), no_hook.clone()), Ok(()));
    assert_eq!(validate_extensions(&vec![3, 9, 1], no_fee.clone(), no_hook.clone()), unsupported());
    assert_eq!(
        validate_extensions(&vec![3, 1, 9], no_fee.clone(), no_hook.clone()),
        Err(ValidationError::Program(ProgramError::InvalidAccountData))
    );
    assert_eq!(
        validate_extensions(&vec![14, 1], no_fee.clone(), no_hook.clone()),
        Err(ValidationError::Program(ProgramError::InvalidArgument))
    );
    assert_eq!(validate_extensions(&vec![1, 14], Ok((0, 0)), Ok(None)), Ok(()));
    assert_eq!(validate_extensions(&vec![1, 14], Ok((0, 1)), Ok(None)), unsupported());
    assert_eq!(validate_extensions(&vec![1, 14], Ok((1, 0)), Ok(None)), unsupported());
    assert_eq!(
        validate_extensions(&vec![1, 14], Ok((0, 0)), Ok(Some(Pubkey::new_from_array([4u8; 32])))),
        unsupported()
    );
    assert_eq!(
        validate_extensions(&vec![3], Ok((5, 5)), Ok(Some(Pubkey::new_from_array([4u8; 32])))),
        Ok(())
    );
    assert_eq!(validate_extensions(&vec![0], Ok((0, 0)), Ok(None)), unsupported());
}
