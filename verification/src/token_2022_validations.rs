use vstd::prelude::*;
use crate::errors::VestingErrorCode;
use crate::pubkey::Pubkey;

verus! {

/// The error type of the Solana SDK, carried through as it came.
#[verifier::external_type_specification]
#[verifier::external_body]
pub struct ExProgramError(anchor_lang::prelude::ProgramError);

/// The address of the SPL Token program, `TokenkegQfeZyiNwAJbNbGKPFXCWuBvf9Ss623VQ5DA`.
/// Mints of this program carry no extensions.
pub const SPL_TOKEN_PROGRAM_ID: [u8; 32] = [
    6, 221, 246, 225, 215, 101, 161, 147, 217, 203, 225, 70, 206, 235, 121, 172, 28, 180, 133,
    237, 95, 91, 55, 145, 58, 140, 245, 133, 126, 255, 0, 169,
];

/// Number of the extension that configures a fee on transfers.
pub const TRANSFER_FEE_CONFIG: u16 = 1;

/// Number of the extension that names an authority that may close the mint.
pub const MINT_CLOSE_AUTHORITY: u16 = 3;

/// Number of the extension that names a permanent delegate.
pub const PERMANENT_DELEGATE: u16 = 12;

/// Number of the extension that names a program to call on each transfer.
pub const TRANSFER_HOOK: u16 = 14;

/// Number of the extension that points to the mint's metadata.
pub const METADATA_POINTER: u16 = 18;

/// Number of the extension that holds the mint's metadata.
pub const TOKEN_METADATA: u16 = 19;

/// Why a mint is refused.
#[derive(Debug, PartialEq, Eq)]
pub enum ValidationError {
    /// The mint carries an extension that is not supported, or one with an
    /// effect on transfers.
    Vesting(VestingErrorCode),
    /// The mint's data could not be read.
    Program(anchor_lang::prelude::ProgramError),
}

/// What the examination of a mint finds.
#[derive(Clone, Copy, Debug, PartialEq, Eq, Structural)]
pub enum Finding {
    /// Every extension is allowed and none has an effect on transfers.
    Supported,
    /// An extension is not allowed, a transfer fee is not zero, or a transfer
    /// hook program is set.
    Unsupported,
    /// The list of extensions could not be read.
    ExtensionsUnreadable,
    /// The transfer fee configuration could not be read.
    TransferFeeUnreadable,
    /// The transfer hook could not be read.
    TransferHookUnreadable,
}

/// The numbers of the extensions that `StateWithExtensions::<Mint>::unpack` and
/// then `get_extension_types` find in the data of a mint account, in the order
/// in which the data holds them; nothing where either call fails.
pub uninterp spec fn mint_extension_types(mint_data: Seq<u8>) -> Option<Seq<u16>>;

/// The basis points of the older and of the newer transfer fee that
/// `StateWithExtensions::<Mint>::unpack` and then
/// `get_extension::<TransferFeeConfig>` find in the data of a mint account;
/// nothing where either call fails.
pub uninterp spec fn mint_transfer_fee_basis_points(mint_data: Seq<u8>) -> Option<(u16, u16)>;

/// The transfer hook program that `StateWithExtensions::<Mint>::unpack` and then
/// `get_extension::<TransferHook>` find in the data of a mint account, if one
/// is set; nothing where either call fails.
pub uninterp spec fn mint_transfer_hook_program(mint_data: Seq<u8>) -> Option<Option<Seq<u8>>>;

/// The value of a read where it could be read.
pub open spec fn readable<T>(read: Result<T, anchor_lang::prelude::ProgramError>) -> Option<T> {
    match read {
        Ok(value) => Some(value),
        Err(_) => None,
    }
}

/// The extension numbers of a read as plain values, where it could be read.
pub open spec fn extension_types_view(
    read: Result<Vec<u16>, anchor_lang::prelude::ProgramError>,
) -> Option<Seq<u16>> {
    match read {
        Ok(types) => Some(types@),
        Err(_) => None,
    }
}

/// The transfer hook program of a read as plain values, where it could be read.
pub open spec fn transfer_hook_view(
    read: Result<Option<Pubkey>, anchor_lang::prelude::ProgramError>,
) -> Option<Option<Seq<u8>>> {
    match read {
        Ok(Some(program)) => Some(Some(program@)),
        Ok(None) => Some(None),
        Err(_) => None,
    }
}

/// Calls `StateWithExtensions::<Mint>::unpack` and `get_extension_types` of the
/// SPL Token-2022 crate on the data of a mint account and gives each extension
/// type as its number. The result is a function of the data alone; the contract
/// gives it the name `mint_extension_types` and claims nothing else of it.
#[verifier::external_body]
fn read_extension_types(mint_data: &[u8]) -> (r: Result<
    Vec<u16>,
    anchor_lang::prelude::ProgramError,
>)
    ensures
        extension_types_view(r) == mint_extension_types(mint_data@),
{
    let mint = anchor_spl::token_2022::spl_token_2022::extension::StateWithExtensions::<
        anchor_spl::token_2022::spl_token_2022::state::Mint,
    >::unpack(mint_data)?;
    let types =
        anchor_spl::token_2022::spl_token_2022::extension::BaseStateWithExtensions::get_extension_types(
        &mint,
    )?;
    Ok(types.into_iter().map(u16::from).collect())
}

/// Calls `StateWithExtensions::<Mint>::unpack` and
/// `get_extension::<TransferFeeConfig>` of the SPL Token-2022 crate on the data
/// of a mint account and gives the basis points of the older and of the newer
/// transfer fee. The result is a function of the data alone; the contract gives
/// it the name `mint_transfer_fee_basis_points` and claims nothing else of it.
#[verifier::external_body]
fn read_transfer_fee_basis_points(mint_data: &[u8]) -> (r: Result<
    (u16, u16),
    anchor_lang::prelude::ProgramError,
>)
    ensures
        readable(r) == mint_transfer_fee_basis_points(mint_data@),
{
    let mint = anchor_spl::token_2022::spl_token_2022::extension::StateWithExtensions::<
        anchor_spl::token_2022::spl_token_2022::state::Mint,
    >::unpack(mint_data)?;
    let ext = anchor_spl::token_2022::spl_token_2022::extension::BaseStateWithExtensions::get_extension::<
        anchor_spl::token_2022::spl_token_2022::extension::transfer_fee::TransferFeeConfig,
    >(&mint)?;
    Ok(
        (
            u16::from(ext.older_transfer_fee.transfer_fee_basis_points),
            u16::from(ext.newer_transfer_fee.transfer_fee_basis_points),
        ),
    )
}

/// Calls `StateWithExtensions::<Mint>::unpack` and `get_extension::<TransferHook>`
/// of the SPL Token-2022 crate on the data of a mint account and gives the
/// transfer hook program, if one is set. The result is a function of the data
/// alone; the contract gives it the name `mint_transfer_hook_program` and claims
/// nothing else of it.
#[verifier::external_body]
fn read_transfer_hook_program(mint_data: &[u8]) -> (r: Result<
    Option<Pubkey>,
    anchor_lang::prelude::ProgramError,
>)
    ensures
        transfer_hook_view(r) == mint_transfer_hook_program(mint_data@),
{
    let mint = anchor_spl::token_2022::spl_token_2022::extension::StateWithExtensions::<
        anchor_spl::token_2022::spl_token_2022::state::Mint,
    >::unpack(mint_data)?;
    let ext = anchor_spl::token_2022::spl_token_2022::extension::BaseStateWithExtensions::get_extension::<
        anchor_spl::token_2022::spl_token_2022::extension::transfer_hook::TransferHook,
    >(&mint)?;
    let program: Option<anchor_lang::prelude::Pubkey> = ext.program_id.into();
    Ok(program.map(|key| Pubkey { bytes: key.to_bytes() }))
}

/// Whether a mint may carry the extension with this number.
pub open spec fn spec_is_valid_liquidity_token_extension(extension: u16) -> bool {
    ||| extension == MINT_CLOSE_AUTHORITY
    ||| extension == METADATA_POINTER
    ||| extension == PERMANENT_DELEGATE
    ||| extension == TRANSFER_FEE_CONFIG
    ||| extension == TOKEN_METADATA
    ||| extension == TRANSFER_HOOK
}

/// Whether a mint may carry the extension with this number.
pub fn is_valid_liquidity_token_extension(extension: u16) -> (valid: bool)
    ensures
        valid == spec_is_valid_liquidity_token_extension(extension),
{
    extension == MINT_CLOSE_AUTHORITY || extension == METADATA_POINTER || extension
        == PERMANENT_DELEGATE || extension == TRANSFER_FEE_CONFIG || extension == TOKEN_METADATA
        || extension == TRANSFER_HOOK
}

/// What one extension of a mint comes to, given the transfer fee basis points
/// that were read from the mint and whether a transfer hook program was found
/// set, each where it could be read. A transfer fee must be zero, and no
/// transfer hook program may be set.
pub open spec fn extension_finding(
    extension: u16,
    transfer_fee: Option<(u16, u16)>,
    transfer_hook: Option<bool>,
) -> Finding {
    if !spec_is_valid_liquidity_token_extension(extension) {
        Finding::Unsupported
    } else if extension == TRANSFER_FEE_CONFIG {
        match transfer_fee {
            None => Finding::TransferFeeUnreadable,
            Some((older, newer)) => if older != 0 || newer != 0 {
                Finding::Unsupported
            } else {
                Finding::Supported
            },
        }
    } else if extension == TRANSFER_HOOK {
        match transfer_hook {
            None => Finding::TransferHookUnreadable,
            Some(is_set) => if is_set {
                Finding::Unsupported
            } else {
                Finding::Supported
            },
        }
    } else {
        Finding::Supported
    }
}

/// What the extensions of a mint come to, taken in order: the finding on the
/// first that is not supported as it stands.
pub open spec fn extensions_finding(
    extensions: Seq<u16>,
    transfer_fee: Option<(u16, u16)>,
    transfer_hook: Option<bool>,
) -> Finding
    decreases extensions.len(),
{
    if extensions.len() == 0 {
        Finding::Supported
    } else {
        match extension_finding(extensions[0], transfer_fee, transfer_hook) {
            Finding::Supported => extensions_finding(
                extensions.drop_first(),
                transfer_fee,
                transfer_hook,
            ),
            finding => finding,
        }
    }
}

/// Whether the result tells the finding: success where the mint is supported,
/// the unsupported-extension error where it is not, and the error of the failed
/// read where something could not be read.
pub open spec fn tells<T>(r: Result<T, ValidationError>, finding: Finding) -> bool {
    match finding {
        Finding::Supported => r is Ok,
        Finding::Unsupported => r == Err::<T, ValidationError>(
            ValidationError::Vesting(VestingErrorCode::UnsupportedTokenExtension),
        ),
        _ => r matches Err(ValidationError::Program(_)),
    }
}

/// Judges the extensions of a mint in order, given the transfer fee basis
/// points and the transfer hook program as they were read from the mint.
pub fn validate_extensions(
    extensions: &Vec<u16>,
    transfer_fee: Result<(u16, u16), anchor_lang::prelude::ProgramError>,
    transfer_hook: Result<Option<Pubkey>, anchor_lang::prelude::ProgramError>,
) -> (r: Result<(), ValidationError>)
    ensures
        tells(
            r,
            extensions_finding(
                extensions@,
                readable(transfer_fee),
                hook_is_set(readable(transfer_hook)),
            ),
        ),
        extensions_finding(extensions@, readable(transfer_fee), hook_is_set(readable(transfer_hook)))
            == Finding::TransferFeeUnreadable ==> (transfer_fee matches Err(e) && r == Err::<
            (),
            ValidationError,
        >(ValidationError::Program(e))),
        extensions_finding(extensions@, readable(transfer_fee), hook_is_set(readable(transfer_hook)))
            == Finding::TransferHookUnreadable ==> (transfer_hook matches Err(e) && r == Err::<
            (),
            ValidationError,
        >(ValidationError::Program(e))),
{
    let ghost fee = readable(transfer_fee);
    let ghost hook = hook_is_set(readable(transfer_hook));
    let mut i: usize = 0;
    assert(extensions@.skip(0) =~= extensions@);
    while i < extensions.len()
        invariant
            i <= extensions.len(),
            fee == readable(transfer_fee),
            hook == hook_is_set(readable(transfer_hook)),
            extensions_finding(extensions@, fee, hook) == extensions_finding(
                extensions@.skip(i as int),
                fee,
                hook,
            ),
        decreases extensions.len() - i,
    {
        let extension = extensions[i];
        proof {
            assert(extensions@.skip(i as int)[0] == extension);
            assert(extensions@.skip(i as int).drop_first() =~= extensions@.skip(i + 1));
        }
        if !is_valid_liquidity_token_extension(extension) {
            return Err(ValidationError::Vesting(VestingErrorCode::UnsupportedTokenExtension));
        }
        if extension == TRANSFER_FEE_CONFIG {
            match transfer_fee {
                Err(e) => return Err(ValidationError::Program(e)),
                Ok((older, newer)) => {
                    if older != 0 || newer != 0 {
                        return Err(
                            ValidationError::Vesting(VestingErrorCode::UnsupportedTokenExtension),
                        );
                    }
                },
            }
        } else if extension == TRANSFER_HOOK {
            match transfer_hook {
                Err(e) => return Err(ValidationError::Program(e)),
                Ok(program) => {
                    if program.is_some() {
                        return Err(
                            ValidationError::Vesting(VestingErrorCode::UnsupportedTokenExtension),
                        );
                    }
                },
            }
        }
        i = i + 1;
    }
    assert(extensions@.skip(i as int).len() == 0);
    Ok(())
}

/// Whether a transfer hook program was found set, where the hook could be
/// read.
pub open spec fn hook_is_set<T>(read: Option<Option<T>>) -> Option<bool> {
    match read {
        None => None,
        Some(program) => Some(program is Some),
    }
}

/// What the examination of a mint account comes to. A mint of the SPL Token
/// program is supported as it is; any other is judged by the extensions that
/// its data holds.
pub open spec fn mint_finding(owner: Pubkey, mint_data: Seq<u8>) -> Finding {
    if owner@ == SPL_TOKEN_PROGRAM_ID@ {
        Finding::Supported
    } else {
        match mint_extension_types(mint_data) {
            None => Finding::ExtensionsUnreadable,
            Some(extensions) => extensions_finding(
                extensions,
                mint_transfer_fee_basis_points(mint_data),
                hook_is_set(mint_transfer_hook_program(mint_data)),
            ),
        }
    }
}

/// Accepts a mint account, given the program that owns it and its data, where
/// it carries only supported extensions and none that takes a fee on transfers
/// or calls a program on them.
pub fn validate_token_extensions(owner: &Pubkey, mint_data: &[u8]) -> (r: Result<
    (),
    ValidationError,
>)
    ensures
        tells(r, mint_finding(*owner, mint_data@)),
{
    let legacy = Pubkey { bytes: SPL_TOKEN_PROGRAM_ID };
    if *owner == legacy {
        return Ok(());
    }
    proof {
        if owner@ == SPL_TOKEN_PROGRAM_ID@ {
            Pubkey::view_is_injective(*owner, legacy);
        }
    }
    let extensions = match read_extension_types(mint_data) {
        Ok(extensions) => extensions,
        Err(e) => return Err(ValidationError::Program(e)),
    };
    let transfer_fee = read_transfer_fee_basis_points(mint_data);
    let transfer_hook = read_transfer_hook_program(mint_data);
    validate_extensions(&extensions, transfer_fee, transfer_hook)
}

} // verus!
