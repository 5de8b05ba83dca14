use vstd::prelude::*;
use crate::authority::{authorize_governance, may_change_backend, VaultAuthority};
use crate::errors::VestingErrorCode;
use crate::events::{
    CreatedVestingSessionEvent, EscrowCreatedEvent, EscrowMetadataChangedEvent, ExchangedEvent,
    SessionCancelEvent, SessionExitEvent, SessionWithdrawnEvent, VaultAccountInitializedEvent,
};
use crate::pubkey::Pubkey;
use crate::reserve::{
    amount_to_mint, amount_to_transfer, credited, debited, escrow_payout_error,
    escrow_payout_instructions, issued, reserves_of, return_escrow, transfer_error,
    transfer_escrow_from_vault, transfer_tokens, Authority, TokenInstruction,
};
use crate::token_2022_validations::{
    mint_finding, tells, validate_token_extensions, Finding, ValidationError,
};
use crate::session::{
    after_cancel, after_exit, after_payout, cancel_outcome, exit_outcome, withdraw_outcome,
    CancelSettlement,
};
use crate::vesting_accounts::{
    Account, BackendAccountData, ChangeEscrowMetadataAccounts, ChangeEscrowMetadataParams,
    CreateVestingSession, Exchange, InitEscrowToken, InitEscrowTokenParams, InitVaultTokenAccounts,
    Mint, SessionCancelation, SessionWithdraw, SetBackendAccountCtx, SetBackendAccountParams,
    TokenAccount, VaultAccount, VestingSession, VestingSessionsAccount,
};

verus! {

/// The smallest amount a vesting session can lock: one unit for each minute of
/// the vesting period.
pub const MIN_DIVISIBLE_BY_VESTING_PERIOD: u64 = 259_200;

/// What an operation asks of the token ledger, in order, and the event that
/// reports it.
#[derive(Clone, Debug, PartialEq, Eq)]
pub struct Outcome<E> {
    pub instructions: Vec<TokenInstruction>,
    pub event: E,
}

/// A transfer of lamports between two accounts.
#[derive(Clone, Copy, Debug, PartialEq, Eq)]
pub struct SystemTransfer {
    pub from: Pubkey,
    pub to: Pubkey,
    pub lamports: u64,
}

/// A field of a token's metadata.
#[derive(Clone, Copy, Debug, PartialEq, Eq, Structural)]
pub enum MetadataField {
    Name,
    Symbol,
    Uri,
}

/// The instruction that writes a token's first metadata, signed by the vault.
#[derive(Clone, Debug, PartialEq, Eq)]
pub struct TokenMetadataInitialize {
    pub mint: Pubkey,
    pub authority: VaultAuthority,
    pub name: String,
    pub symbol: String,
    pub uri: String,
}

/// The instruction that changes one field of a token's metadata, signed by the
/// vault.
#[derive(Clone, Debug, PartialEq, Eq)]
pub struct TokenMetadataUpdateField {
    pub mint: Pubkey,
    pub authority: VaultAuthority,
    pub field: MetadataField,
    pub value: String,
}

/// The backend record after the operator was replaced: the change authority
/// stays where the request names none.
pub open spec fn backend_replaced(
    backend_data: BackendAccountData,
    metadata: SetBackendAccountParams,
) -> BackendAccountData {
    BackendAccountData {
        backend_account: metadata.new_backend_account,
        change_authority: if metadata.new_authority is Some {
            metadata.new_authority
        } else {
            backend_data.change_authority
        },
    }
}

/// Replaces the backend operator. Only the program's upgrade authority and the
/// registered change authority may do so.
pub fn set_backend_account(ctx: &mut SetBackendAccountCtx, metadata: SetBackendAccountParams) -> (r:
    Result<(), VestingErrorCode>)
    ensures
        r is Ok <==> may_change_backend(old(ctx).program_data, old(ctx).backend_data, old(ctx).payer),
        r matches Err(e) ==> e == VestingErrorCode::UnathorizedToExecute && *final(ctx) == *old(ctx),
        r is Ok ==> *final(ctx) == (SetBackendAccountCtx {
            backend_data: backend_replaced(old(ctx).backend_data, metadata),
            ..*old(ctx)
        }),
{
    match authorize_governance(&ctx.program_data, &ctx.backend_data, &ctx.payer) {
        Ok(()) => {},
        Err(e) => return Err(e),
    }
    ctx.backend_data.backend_account = metadata.new_backend_account;
    if metadata.new_authority.is_some() {
        ctx.backend_data.change_authority = metadata.new_authority;
    }
    Ok(())
}

/// What an account needs to reach the balance that exempts it from rent: the
/// transfer from the payer that tops it up, or nothing where it holds enough.
pub fn update_account_lamports_to_minimum_balance(
    account: &Pubkey,
    payer: &Pubkey,
    account_lamports: u64,
    account_required_min_balance: u64,
) -> (top_up: Option<SystemTransfer>)
    ensures
        top_up == if account_lamports < account_required_min_balance {
            Some(
                SystemTransfer {
                    from: *payer,
                    to: *account,
                    lamports: (account_required_min_balance - account_lamports) as u64,
                },
            )
        } else {
            None
        },
{
    if account_lamports < account_required_min_balance {
        let extra_lamports = account_required_min_balance - account_lamports;
        Some(SystemTransfer { from: *payer, to: *account, lamports: extra_lamports })
    } else {
        None
    }
}

/// Creates a vault for the two mints: records who asked for it, the mints and
/// the application tag, and asks for the escrow token's metadata to be written
/// under the vault's authority.
///
/// The valued mint is examined before anything else, given the program that
/// owns its account and the account's data: a mint that carries an extension
/// which is not supported, a transfer fee or a transfer hook program is
/// refused, and so is one whose data cannot be read. Then the authorization is
/// tested. A refused creation changes nothing.
pub fn init_escrow_token(
    ctx: &mut InitEscrowToken,
    authority: &VaultAuthority,
    metadata: InitEscrowTokenParams,
    valued_mint_owner: &Pubkey,
    valued_mint_data: &[u8],
) -> (r: Result<(TokenMetadataInitialize, EscrowCreatedEvent), ValidationError>)
    ensures
        r is Ok <==> mint_finding(*valued_mint_owner, valued_mint_data@) == Finding::Supported
            && old(ctx).authorized(*authority),
        r is Err ==> *final(ctx) == *old(ctx),
        mint_finding(*valued_mint_owner, valued_mint_data@) != Finding::Supported ==> tells(
            r,
            mint_finding(*valued_mint_owner, valued_mint_data@),
        ),
        mint_finding(*valued_mint_owner, valued_mint_data@) == Finding::Supported && !old(
            ctx,
        ).authorized(*authority) ==> r == Err::<
            (TokenMetadataInitialize, EscrowCreatedEvent),
            ValidationError,
        >(ValidationError::Vesting(VestingErrorCode::UnathorizedToExecute)),
        r matches Ok((instruction, event)) ==> {
            &&& *final(ctx) == (InitEscrowToken {
                vault_account: Account {
                    key: old(ctx).vault_account.key,
                    data: VaultAccount {
                        creator: old(ctx).payer,
                        valued_token_mint: old(ctx).valued_token_mint.key,
                        escrow_token_mint: old(ctx).escrow_token_mint.key,
                        app_id: metadata.app_id,
                    },
                },
                ..*old(ctx)
            })
            &&& instruction == (TokenMetadataInitialize {
                mint: old(ctx).escrow_token_mint.key,
                authority: *authority,
                name: metadata.name,
                symbol: metadata.symbol,
                uri: metadata.uri,
            })
            &&& event.creator == old(ctx).payer
            &&& event.valued_token_mint == old(ctx).valued_token_mint.key
            &&& event.escrow_token_mint == old(ctx).escrow_token_mint.key
            &&& event.vault_account == old(ctx).vault_account.key
            &&& event.app_id@ == metadata.app_id@
        },
{
    match validate_token_extensions(valued_mint_owner, valued_mint_data) {
        Ok(()) => {},
        Err(e) => return Err(e),
    }
    match ctx.authorize(authority) {
        Ok(()) => {},
        Err(e) => return Err(ValidationError::Vesting(e)),
    }
    let instruction = TokenMetadataInitialize {
        mint: ctx.escrow_token_mint.key,
        authority: *authority,
        name: metadata.name,
        symbol: metadata.symbol,
        uri: metadata.uri,
    };
    let event = EscrowCreatedEvent {
        creator: ctx.payer,
        valued_token_mint: ctx.valued_token_mint.key,
        escrow_token_mint: ctx.escrow_token_mint.key,
        vault_account: ctx.vault_account.key,
        app_id: metadata.app_id.clone(),
    };
    ctx.vault_account.data = VaultAccount {
        creator: ctx.payer,
        valued_token_mint: ctx.valued_token_mint.key,
        escrow_token_mint: ctx.escrow_token_mint.key,
        app_id: metadata.app_id,
    };
    Ok((instruction, event))
}

/// Reports that the two reserve balances of a vault were created.
pub fn init_vault_token_accounts(ctx: &InitVaultTokenAccounts) -> (r: Result<
    VaultAccountInitializedEvent,
    VestingErrorCode,
>)
    ensures
        r is Ok <==> ctx.authorized(),
        r matches Err(e) ==> e == VestingErrorCode::UnathorizedToExecute,
        r matches Ok(event) ==> event == (VaultAccountInitializedEvent {
            vault_account: ctx.vault_account.key,
            valued_vault_token_account: ctx.valued_vault_token_account.key,
            escrow_vault_token_account: ctx.escrow_vault_token_account.key,
        }),
{
    match ctx.authorize() {
        Ok(()) => {},
        Err(e) => return Err(e),
    }
    Ok(
        VaultAccountInitializedEvent {
            vault_account: ctx.vault_account.key,
            valued_vault_token_account: ctx.valued_vault_token_account.key,
            escrow_vault_token_account: ctx.escrow_vault_token_account.key,
        },
    )
}

/// The metadata field that a key names: `name`, `symbol` or `uri`.
pub open spec fn spec_metadata_field(param_key: Seq<char>) -> Option<MetadataField> {
    if param_key == "name"@ {
        Some(MetadataField::Name)
    } else if param_key == "symbol"@ {
        Some(MetadataField::Symbol)
    } else if param_key == "uri"@ {
        Some(MetadataField::Uri)
    } else {
        None
    }
}

/// The metadata field that a key names, if it names one.
pub fn metadata_field(param_key: &String) -> (field: Option<MetadataField>)
    ensures
        field == spec_metadata_field(param_key@),
{
    let name = "name".to_owned();
    let symbol = "symbol".to_owned();
    let uri = "uri".to_owned();
    if *param_key == name {
        Some(MetadataField::Name)
    } else if *param_key == symbol {
        Some(MetadataField::Symbol)
    } else if *param_key == uri {
        Some(MetadataField::Uri)
    } else {
        None
    }
}

/// Why a change of the escrow token's metadata is refused, if it is.
pub open spec fn change_escrow_metadata_error(
    ctx: ChangeEscrowMetadataAccounts,
    authority: VaultAuthority,
    metadata: ChangeEscrowMetadataParams,
) -> Option<VestingErrorCode> {
    if !ctx.authorized(authority) {
        Some(VestingErrorCode::UnathorizedToExecute)
    } else if metadata.value@.len() == 0 || spec_metadata_field(metadata.param_key@) is None {
        Some(VestingErrorCode::InvalidMeta)
    } else {
        None
    }
}

/// Asks for one field of the escrow token's metadata to be changed under the
/// vault's authority. The value must not be empty and the key must name a
/// field.
pub fn change_escrow_metadata(
    ctx: &ChangeEscrowMetadataAccounts,
    authority: &VaultAuthority,
    metadata: ChangeEscrowMetadataParams,
) -> (r: Result<(TokenMetadataUpdateField, EscrowMetadataChangedEvent), VestingErrorCode>)
    ensures
        match r {
            Ok((instruction, event)) => {
                &&& change_escrow_metadata_error(*ctx, *authority, metadata) is None
                &&& instruction.mint == ctx.escrow_token_mint.key
                &&& instruction.authority == *authority
                &&& Some(instruction.field) == spec_metadata_field(metadata.param_key@)
                &&& instruction.value@ == metadata.value@
                &&& event.escrow_token_mint == ctx.escrow_token_mint.key
                &&& event.field_updated@ == metadata.param_key@
                &&& event.value@ == metadata.value@
            },
            Err(e) => change_escrow_metadata_error(*ctx, *authority, metadata) == Some(e),
        },
{
    match ctx.authorize(authority) {
        Ok(()) => {},
        Err(e) => return Err(e),
    }
    if metadata.value.as_str().is_empty() {
        return Err(VestingErrorCode::InvalidMeta);
    }
    let field_to_update = match metadata_field(&metadata.param_key) {
        Some(field) => field,
        None => return Err(VestingErrorCode::InvalidMeta),
    };
    let instruction = TokenMetadataUpdateField {
        mint: ctx.escrow_token_mint.key,
        authority: *authority,
        field: field_to_update,
        value: metadata.value.clone(),
    };
    let event = EscrowMetadataChangedEvent {
        escrow_token_mint: ctx.escrow_token_mint.key,
        field_updated: metadata.param_key,
        value: metadata.value,
    };
    Ok((instruction, event))
}

/// Why an exchange of `amount` is refused, if it is.
pub open spec fn exchange_error(ctx: Exchange, authority: VaultAuthority, amount: u64) -> Option<
    VestingErrorCode,
> {
    if !ctx.authorized(authority) {
        Some(VestingErrorCode::UnathorizedToExecute)
    } else if amount == 0 {
        Some(VestingErrorCode::MinimumAmountNotMet)
    } else if transfer_error(ctx.user_valued_token_account, ctx.valued_vault_token_account, amount)
        is Some {
        transfer_error(ctx.user_valued_token_account, ctx.valued_vault_token_account, amount)
    } else {
        escrow_payout_error(
            ctx.escrow_vault_token_account,
            ctx.user_escrow_token_account,
            ctx.escrow_token_mint,
            amount,
        )
    }
}

/// The accounts after an exchange of `amount`: the valued tokens have moved
/// from the user to the vault, and the user holds as many escrow tokens more,
/// taken from the vault's reserve as far as it went and issued for the rest.
pub open spec fn exchange_applied(ctx: Exchange, amount: u64) -> Exchange {
    Exchange {
        user_valued_token_account: debited(ctx.user_valued_token_account, amount as int),
        valued_vault_token_account: credited(ctx.valued_vault_token_account, amount as int),
        escrow_vault_token_account: debited(
            ctx.escrow_vault_token_account,
            amount_to_transfer(ctx.escrow_vault_token_account.amount as int, amount as int),
        ),
        user_escrow_token_account: credited(ctx.user_escrow_token_account, amount as int),
        escrow_token_mint: issued(
            ctx.escrow_token_mint,
            amount_to_mint(ctx.escrow_vault_token_account.amount as int, amount as int),
        ),
        ..ctx
    }
}

/// The instructions of an exchange of `amount`: the user's deposit, then the
/// payout of escrow tokens.
pub open spec fn exchange_instructions(ctx: Exchange, authority: VaultAuthority, amount: u64) -> Seq<
    TokenInstruction,
> {
    seq![
        TokenInstruction::TransferChecked {
            token_program: ctx.valued_token_program,
            from: ctx.user_valued_token_account.key,
            mint: ctx.valued_token_mint.key,
            to: ctx.valued_vault_token_account.key,
            authority: Authority::Wallet(ctx.user),
            amount,
            decimals: ctx.valued_token_mint.decimals,
        },
    ] + escrow_payout_instructions(
        ctx.token_program,
        authority,
        ctx.escrow_vault_token_account,
        ctx.user_escrow_token_account,
        ctx.escrow_token_mint,
        amount,
    )
}

/// Exchanges `amount` valued tokens of the user for as many escrow tokens. The
/// escrow tokens come from the vault's reserve first; only what the reserve
/// does not cover is issued. A refused exchange changes nothing.
pub fn exchange(ctx: &mut Exchange, authority: &VaultAuthority, amount: u64) -> (r: Result<
    Outcome<ExchangedEvent>,
    VestingErrorCode,
>)
    ensures
        match r {
            Ok(outcome) => {
                &&& exchange_error(*old(ctx), *authority, amount) is None
                &&& *final(ctx) == exchange_applied(*old(ctx), amount)
                &&& outcome.instructions@ == exchange_instructions(*old(ctx), *authority, amount)
                &&& outcome.event == (ExchangedEvent {
                    vault_account: old(ctx).vault_account.key,
                    amount,
                })
                &&& reserves_of(
                    final(ctx).valued_vault_token_account,
                    final(ctx).escrow_vault_token_account,
                    final(ctx).escrow_token_mint,
                ) == reserves_of(
                    old(ctx).valued_vault_token_account,
                    old(ctx).escrow_vault_token_account,
                    old(ctx).escrow_token_mint,
                ).after_exchange(amount as nat)
            },
            Err(e) => {
                &&& exchange_error(*old(ctx), *authority, amount) == Some(e)
                &&& *final(ctx) == *old(ctx)
            },
        },
        *final(ctx) == exchange_result(*old(ctx), *authority, amount),
{
    match ctx.authorize(authority) {
        Ok(()) => {},
        Err(e) => return Err(e),
    }
    if amount == 0 {
        return Err(VestingErrorCode::MinimumAmountNotMet);
    }
    if ctx.user_valued_token_account.amount < amount {
        return Err(VestingErrorCode::InsufficientFunds);
    }
    let mut user_valued = ctx.user_valued_token_account;
    let mut valued_vault = ctx.valued_vault_token_account;
    let mut escrow_vault = ctx.escrow_vault_token_account;
    let mut user_escrow = ctx.user_escrow_token_account;
    let mut escrow_mint = ctx.escrow_token_mint;
    let deposit = match transfer_tokens(
        &mut user_valued,
        &ctx.valued_token_mint,
        &mut valued_vault,
        &ctx.valued_token_program,
        amount,
        Authority::Wallet(ctx.user),
    ) {
        Ok(instruction) => instruction,
        Err(e) => return Err(e),
    };
    let mut payout = match transfer_escrow_from_vault(
        &ctx.token_program,
        authority,
        &mut escrow_vault,
        &mut user_escrow,
        &mut escrow_mint,
        amount,
    ) {
        Ok(instructions) => instructions,
        Err(e) => return Err(e),
    };
    let mut instructions: Vec<TokenInstruction> = Vec::new();
    instructions.push(deposit);
    instructions.append(&mut payout);
    assert(instructions@ =~= exchange_instructions(*old(ctx), *authority, amount));
    ctx.user_valued_token_account = user_valued;
    ctx.valued_vault_token_account = valued_vault;
    ctx.escrow_vault_token_account = escrow_vault;
    ctx.user_escrow_token_account = user_escrow;
    ctx.escrow_token_mint = escrow_mint;
    Ok(
        Outcome {
            instructions,
            event: ExchangedEvent { vault_account: ctx.vault_account.key, amount },
        },
    )
}

/// Why the creation of a session of `amount` is refused, if it is.
pub open spec fn create_vesting_session_error(ctx: CreateVestingSession, amount: u64) -> Option<
    VestingErrorCode,
> {
    if !ctx.authorized() {
        Some(VestingErrorCode::UnathorizedToExecute)
    } else if amount < MIN_DIVISIBLE_BY_VESTING_PERIOD {
        Some(VestingErrorCode::MinimumAmountNotMet)
    } else if ctx.vesting_sessions_account.data.last_session_id + 1 > u64::MAX {
        Some(VestingErrorCode::ArithmeticOverflow)
    } else {
        transfer_error(ctx.user_escrow_token_account, ctx.escrow_vault_token_account, amount)
    }
}

/// The session that the creation of a session of `amount` at `now` stores.
pub open spec fn created_session(ctx: CreateVestingSession, amount: u64, now: u64) -> VestingSession {
    VestingSession {
        id: ctx.vesting_sessions_account.data.last_session_id,
        user: ctx.user,
        vesting_sessions_account: ctx.vesting_sessions_account.key,
        amount,
        amount_withdrawn: 0,
        start_date: now,
        last_withdraw_at: 0,
        cancelled_at: 0,
    }
}

/// The accounts after the creation of a session of `amount` at `now`: the
/// session is stored under the collection's next id, the collection counts one
/// further and belongs to the user, and the escrow tokens have moved from the
/// user to the vault's reserve.
pub open spec fn create_vesting_session_applied(
    ctx: CreateVestingSession,
    amount: u64,
    now: u64,
) -> CreateVestingSession {
    CreateVestingSession {
        vesting_session_account: Account {
            key: ctx.vesting_session_account.key,
            data: created_session(ctx, amount, now),
        },
        vesting_sessions_account: Account {
            key: ctx.vesting_sessions_account.key,
            data: VestingSessionsAccount {
                last_session_id: (ctx.vesting_sessions_account.data.last_session_id + 1) as u64,
                user: ctx.user,
            },
        },
        user_escrow_token_account: debited(ctx.user_escrow_token_account, amount as int),
        escrow_vault_token_account: credited(ctx.escrow_vault_token_account, amount as int),
        ..ctx
    }
}

/// The instructions of the creation of a session of `amount`: one transfer of
/// the amount from the user to the vault's escrow reserve, signed by the user.
pub open spec fn create_vesting_session_instructions(ctx: CreateVestingSession, amount: u64) -> Seq<
    TokenInstruction,
> {
    seq![
        TokenInstruction::TransferChecked {
            token_program: ctx.token_program,
            from: ctx.user_escrow_token_account.key,
            mint: ctx.escrow_token_mint.key,
            to: ctx.escrow_vault_token_account.key,
            authority: Authority::Wallet(ctx.user),
            amount,
            decimals: ctx.escrow_token_mint.decimals,
        },
    ]
}

/// Creates a vesting session that locks `amount` escrow tokens of the user from
/// `now` on. The tokens go back to the vault's reserve. A refused creation
/// changes nothing.
pub fn create_vesting_session(ctx: &mut CreateVestingSession, amount: u64, now: u64) -> (r: Result<
    Outcome<CreatedVestingSessionEvent>,
    VestingErrorCode,
>)
    ensures
        match r {
            Ok(outcome) => {
                &&& create_vesting_session_error(*old(ctx), amount) is None
                &&& *final(ctx) == create_vesting_session_applied(*old(ctx), amount, now)
                &&& outcome.instructions@ == create_vesting_session_instructions(*old(ctx), amount)
                &&& outcome.event == (CreatedVestingSessionEvent {
                    vault_account: old(ctx).vault_account.key,
                    vesting_session: old(ctx).vesting_session_account.key,
                    user: old(ctx).user,
                    amount,
                })
            },
            Err(e) => {
                &&& create_vesting_session_error(*old(ctx), amount) == Some(e)
                &&& *final(ctx) == *old(ctx)
            },
        },
        *final(ctx) == create_vesting_session_result(*old(ctx), amount, now),
{
    match ctx.authorize() {
        Ok(()) => {},
        Err(e) => return Err(e),
    }
    if amount < MIN_DIVISIBLE_BY_VESTING_PERIOD {
        return Err(VestingErrorCode::MinimumAmountNotMet);
    }
    let vesting_session = VestingSession::new(
        ctx.vesting_sessions_account.data.last_session_id,
        ctx.user,
        ctx.vesting_sessions_account.key,
        amount,
        now,
    );
    let next_session_id = match ctx.vesting_sessions_account.data.last_session_id.checked_add(1) {
        Some(next) => next,
        None => return Err(VestingErrorCode::ArithmeticOverflow),
    };
    let mut user_escrow = ctx.user_escrow_token_account;
    let mut escrow_vault = ctx.escrow_vault_token_account;
    let deposit = match return_escrow(
        &ctx.backend_data,
        &ctx.backend,
        &ctx.user,
        &mut user_escrow,
        &ctx.escrow_token_mint,
        &mut escrow_vault,
        &ctx.token_program,
        amount,
    ) {
        Ok(instruction) => instruction,
        Err(e) => return Err(e),
    };
    let mut instructions: Vec<TokenInstruction> = Vec::new();
    instructions.push(deposit);
    ctx.vesting_session_account.data = vesting_session;
    ctx.vesting_sessions_account.data = VestingSessionsAccount {
        last_session_id: next_session_id,
        user: ctx.user,
    };
    ctx.user_escrow_token_account = user_escrow;
    ctx.escrow_vault_token_account = escrow_vault;
    Ok(
        Outcome {
            instructions,
            event: CreatedVestingSessionEvent {
                vault_account: ctx.vault_account.key,
                vesting_session: ctx.vesting_session_account.key,
                user: ctx.user,
                amount,
            },
        },
    )
}

/// What a withdrawal at `now` pays, or why it is refused.
pub open spec fn session_withdraw_outcome(
    ctx: SessionWithdraw,
    authority: VaultAuthority,
    now: u64,
) -> Result<u64, VestingErrorCode> {
    if !ctx.authorized(authority) {
        Err(VestingErrorCode::UnathorizedToExecute)
    } else {
        match withdraw_outcome(ctx.vesting_session_account.data, now) {
            Err(e) => Err(e),
            Ok(released) => match transfer_error(
                ctx.valued_vault_token_account,
                ctx.user_valued_token_account,
                released,
            ) {
                Some(e) => Err(e),
                None => Ok(released),
            },
        }
    }
}

/// The accounts after a withdrawal at `now` that paid `released`.
pub open spec fn session_withdraw_applied(ctx: SessionWithdraw, released: u64, now: u64) -> SessionWithdraw {
    SessionWithdraw {
        vesting_session_account: Account {
            key: ctx.vesting_session_account.key,
            data: after_payout(ctx.vesting_session_account.data, released, now),
        },
        valued_vault_token_account: debited(ctx.valued_vault_token_account, released as int),
        user_valued_token_account: credited(ctx.user_valued_token_account, released as int),
        ..ctx
    }
}

/// The instruction that pays `amount` valued tokens from the vault's reserve to
/// the user under the vault's authority, through the valued mint's token
/// program.
pub open spec fn valued_payout_instruction(
    valued_token_program: Pubkey,
    authority: VaultAuthority,
    valued_vault_token_account: Pubkey,
    valued_token_mint: Mint,
    user_valued_token_account: Pubkey,
    amount: u64,
) -> TokenInstruction {
    TokenInstruction::TransferChecked {
        token_program: valued_token_program,
        from: valued_vault_token_account,
        mint: valued_token_mint.key,
        to: user_valued_token_account,
        authority: Authority::Vault(authority),
        amount,
        decimals: valued_token_mint.decimals,
    }
}

/// Pays the user the valued tokens that the session has released at `now` and
/// not yet paid. The session stays active. A refused withdrawal changes
/// nothing.
pub fn session_withdraw(ctx: &mut SessionWithdraw, authority: &VaultAuthority, now: u64) -> (r: Result<
    Outcome<SessionWithdrawnEvent>,
    VestingErrorCode,
>)
    ensures
        match r {
            Ok(outcome) => {
                &&& session_withdraw_outcome(*old(ctx), *authority, now) == Ok::<
                    u64,
                    VestingErrorCode,
                >(outcome.event.amount)
                &&& *final(ctx) == session_withdraw_applied(*old(ctx), outcome.event.amount, now)
                &&& outcome.instructions@ == seq![
                    valued_payout_instruction(
                        old(ctx).valued_token_program,
                        *authority,
                        old(ctx).valued_vault_token_account.key,
                        old(ctx).valued_token_mint,
                        old(ctx).user_valued_token_account.key,
                        outcome.event.amount,
                    ),
                ]
                &&& outcome.event == (SessionWithdrawnEvent {
                    vault_account: old(ctx).vault_account.key,
                    vesting_session: old(ctx).vesting_session_account.key,
                    user: old(ctx).user,
                    amount: outcome.event.amount,
                    time: now,
                })
            },
            Err(e) => {
                &&& session_withdraw_outcome(*old(ctx), *authority, now) == Err::<
                    u64,
                    VestingErrorCode,
                >(e)
                &&& *final(ctx) == *old(ctx)
            },
        },
{
    match ctx.authorize(authority) {
        Ok(()) => {},
        Err(e) => return Err(e),
    }
    let mut vesting_session = ctx.vesting_session_account.data;
    let amount_to_release = match vesting_session.withdraw(now) {
        Ok(amount) => amount,
        Err(e) => return Err(e),
    };
    let mut valued_vault = ctx.valued_vault_token_account;
    let mut user_valued = ctx.user_valued_token_account;
    let payout = match transfer_tokens(
        &mut valued_vault,
        &ctx.valued_token_mint,
        &mut user_valued,
        &ctx.valued_token_program,
        amount_to_release,
        Authority::Vault(*authority),
    ) {
        Ok(instruction) => instruction,
        Err(e) => return Err(e),
    };
    let mut instructions: Vec<TokenInstruction> = Vec::new();
    instructions.push(payout);
    ctx.vesting_session_account.data = vesting_session;
    ctx.valued_vault_token_account = valued_vault;
    ctx.user_valued_token_account = user_valued;
    Ok(
        Outcome {
            instructions,
            event: SessionWithdrawnEvent {
                vault_account: ctx.vault_account.key,
                vesting_session: ctx.vesting_session_account.key,
                user: ctx.user,
                amount: amount_to_release,
                time: now,
            },
        },
    )
}

/// What a cancellation at `now` pays, or why it is refused.
pub open spec fn session_cancel_outcome(
    ctx: SessionCancelation,
    authority: VaultAuthority,
    now: u64,
) -> Result<CancelSettlement, VestingErrorCode> {
    if !ctx.authorized(authority) {
        Err(VestingErrorCode::UnathorizedToExecute)
    } else {
        match cancel_outcome(ctx.vesting_session_account.data, now) {
            Err(e) => Err(e),
            Ok(settlement) => match transfer_error(
                ctx.valued_vault_token_account,
                ctx.user_valued_token_account,
                settlement.valued_amount,
            ) {
                Some(e) => Err(e),
                None => match escrow_payout_error(
                    ctx.escrow_vault_token_account,
                    ctx.user_escrow_token_account,
                    ctx.escrow_token_mint,
                    settlement.escrow_amount,
                ) {
                    Some(e) => Err(e),
                    None => Ok(settlement),
                },
            },
        }
    }
}

/// The accounts after a cancellation at `now` with the given settlement: the
/// session has ended, the vested part has moved in valued tokens from the
/// vault's reserve to the user, and the user holds the rest in escrow tokens,
/// taken from the vault's reserve as far as it went and issued for the rest.
pub open spec fn session_cancel_applied(
    ctx: SessionCancelation,
    settlement: CancelSettlement,
    now: u64,
) -> SessionCancelation {
    SessionCancelation {
        vesting_session_account: Account {
            key: ctx.vesting_session_account.key,
            data: after_cancel(ctx.vesting_session_account.data, settlement.valued_amount, now),
        },
        valued_vault_token_account: debited(
            ctx.valued_vault_token_account,
            settlement.valued_amount as int,
        ),
        user_valued_token_account: credited(
            ctx.user_valued_token_account,
            settlement.valued_amount as int,
        ),
        escrow_vault_token_account: debited(
            ctx.escrow_vault_token_account,
            amount_to_transfer(
                ctx.escrow_vault_token_account.amount as int,
                settlement.escrow_amount as int,
            ),
        ),
        user_escrow_token_account: credited(
            ctx.user_escrow_token_account,
            settlement.escrow_amount as int,
        ),
        escrow_token_mint: issued(
            ctx.escrow_token_mint,
            amount_to_mint(
                ctx.escrow_vault_token_account.amount as int,
                settlement.escrow_amount as int,
            ),
        ),
        ..ctx
    }
}

/// The instructions of a cancellation: the payout of the vested part where
/// there is one, then the payout of the rest in escrow tokens.
pub open spec fn session_cancel_instructions(
    ctx: SessionCancelation,
    authority: VaultAuthority,
    settlement: CancelSettlement,
) -> Seq<TokenInstruction> {
    let valued = if settlement.valued_amount > 0 {
        seq![
            valued_payout_instruction(
                ctx.valued_token_program,
                authority,
                ctx.valued_vault_token_account.key,
                ctx.valued_token_mint,
                ctx.user_valued_token_account.key,
                settlement.valued_amount,
            ),
        ]
    } else {
        seq![]
    };
    valued + escrow_payout_instructions(
        ctx.token_program,
        authority,
        ctx.escrow_vault_token_account,
        ctx.user_escrow_token_account,
        ctx.escrow_token_mint,
        settlement.escrow_amount,
    )
}

/// Cancels the session at `now`: the user is paid in valued tokens what the
/// session has released and not yet paid, and gets the part still locked back
/// in escrow tokens. A refused cancellation changes nothing.
pub fn session_cancel(ctx: &mut SessionCancelation, authority: &VaultAuthority, now: u64) -> (r:
    Result<Outcome<SessionCancelEvent>, VestingErrorCode>)
    ensures
        match r {
            Ok(outcome) => {
                let settlement = CancelSettlement {
                    valued_amount: outcome.event.valued_amount,
                    escrow_amount: outcome.event.escrow_amount,
                };
                &&& session_cancel_outcome(*old(ctx), *authority, now) == Ok::<
                    CancelSettlement,
                    VestingErrorCode,
                >(settlement)
                &&& *final(ctx) == session_cancel_applied(*old(ctx), settlement, now)
                &&& outcome.instructions@ == session_cancel_instructions(
                    *old(ctx),
                    *authority,
                    settlement,
                )
                &&& outcome.event == (SessionCancelEvent {
                    vault_account: old(ctx).vault_account.key,
                    vesting_session: old(ctx).vesting_session_account.key,
                    user: old(ctx).user,
                    valued_amount: settlement.valued_amount,
                    escrow_amount: settlement.escrow_amount,
                    time: now,
                })
            },
            Err(e) => {
                &&& session_cancel_outcome(*old(ctx), *authority, now) == Err::<
                    CancelSettlement,
                    VestingErrorCode,
                >(e)
                &&& *final(ctx) == *old(ctx)
            },
        },
{
    match ctx.authorize(authority) {
        Ok(()) => {},
        Err(e) => return Err(e),
    }
    let mut vesting_session = ctx.vesting_session_account.data;
    let settlement = match vesting_session.cancel(now) {
        Ok(settlement) => settlement,
        Err(e) => return Err(e),
    };
    let mut valued_vault = ctx.valued_vault_token_account;
    let mut user_valued = ctx.user_valued_token_account;
    let mut escrow_vault = ctx.escrow_vault_token_account;
    let mut user_escrow = ctx.user_escrow_token_account;
    let mut escrow_mint = ctx.escrow_token_mint;
    let mut instructions: Vec<TokenInstruction> = Vec::new();
    if settlement.valued_amount > 0 {
        match transfer_tokens(
            &mut valued_vault,
            &ctx.valued_token_mint,
            &mut user_valued,
            &ctx.valued_token_program,
            settlement.valued_amount,
            Authority::Vault(*authority),
        ) {
            Ok(instruction) => instructions.push(instruction),
            Err(e) => return Err(e),
        }
    }
    if settlement.escrow_amount > 0 {
        let mut payout = match transfer_escrow_from_vault(
            &ctx.token_program,
            authority,
            &mut escrow_vault,
            &mut user_escrow,
            &mut escrow_mint,
            settlement.escrow_amount,
        ) {
            Ok(payout) => payout,
            Err(e) => return Err(e),
        };
        instructions.append(&mut payout);
    }
    assert(instructions@ =~= session_cancel_instructions(*old(ctx), *authority, settlement));
    ctx.vesting_session_account.data = vesting_session;
    ctx.valued_vault_token_account = valued_vault;
    ctx.user_valued_token_account = user_valued;
    ctx.escrow_vault_token_account = escrow_vault;
    ctx.user_escrow_token_account = user_escrow;
    ctx.escrow_token_mint = escrow_mint;
    Ok(
        Outcome {
            instructions,
            event: SessionCancelEvent {
                vault_account: ctx.vault_account.key,
                vesting_session: ctx.vesting_session_account.key,
                user: ctx.user,
                valued_amount: settlement.valued_amount,
                escrow_amount: settlement.escrow_amount,
                time: now,
            },
        },
    )
}

/// What an exit pays, or why it is refused.
pub open spec fn session_exit_outcome(ctx: SessionCancelation, authority: VaultAuthority) -> Result<
    u64,
    VestingErrorCode,
> {
    if !ctx.authorized(authority) {
        Err(VestingErrorCode::UnathorizedToExecute)
    } else {
        match exit_outcome(ctx.vesting_session_account.data) {
            Err(e) => Err(e),
            Ok(amount) => match transfer_error(
                ctx.valued_vault_token_account,
                ctx.user_valued_token_account,
                amount,
            ) {
                Some(e) => Err(e),
                None => Ok(amount),
            },
        }
    }
}

/// The accounts after an exit at `now` that paid `amount`.
pub open spec fn session_exit_applied(ctx: SessionCancelation, amount: u64, now: u64) -> SessionCancelation {
    SessionCancelation {
        vesting_session_account: Account {
            key: ctx.vesting_session_account.key,
            data: after_exit(ctx.vesting_session_account.data, now),
        },
        valued_vault_token_account: debited(ctx.valued_vault_token_account, amount as int),
        user_valued_token_account: credited(ctx.user_valued_token_account, amount as int),
        ..ctx
    }
}

/// Ends the session at `now` and pays the user in valued tokens all that was
/// locked and not yet paid, vested or not. A refused exit changes nothing.
pub fn session_exit(ctx: &mut SessionCancelation, authority: &VaultAuthority, now: u64) -> (r: Result<
    Outcome<SessionExitEvent>,
    VestingErrorCode,
>)
    ensures
        match r {
            Ok(outcome) => {
                &&& session_exit_outcome(*old(ctx), *authority) == Ok::<u64, VestingErrorCode>(
                    outcome.event.amount,
                )
                &&& *final(ctx) == session_exit_applied(*old(ctx), outcome.event.amount, now)
                &&& outcome.instructions@ == if outcome.event.amount > 0 {
                    seq![
                        valued_payout_instruction(
                            old(ctx).valued_token_program,
                            *authority,
                            old(ctx).valued_vault_token_account.key,
                            old(ctx).valued_token_mint,
                            old(ctx).user_valued_token_account.key,
                            outcome.event.amount,
                        ),
                    ]
                } else {
                    seq![]
                }
                &&& outcome.event == (SessionExitEvent {
                    vault_account: old(ctx).vault_account.key,
                    vesting_session: old(ctx).vesting_session_account.key,
                    user: old(ctx).user,
                    amount: outcome.event.amount,
                    time: now,
                })
            },
            Err(e) => {
                &&& session_exit_outcome(*old(ctx), *authority) == Err::<u64, VestingErrorCode>(e)
                &&& *final(ctx) == *old(ctx)
            },
        },
{
    match ctx.authorize(authority) {
        Ok(()) => {},
        Err(e) => return Err(e),
    }
    let mut vesting_session = ctx.vesting_session_account.data;
    let amount = match vesting_session.exit(now) {
        Ok(amount) => amount,
        Err(e) => return Err(e),
    };
    let mut valued_vault = ctx.valued_vault_token_account;
    let mut user_valued = ctx.user_valued_token_account;
    let mut instructions: Vec<TokenInstruction> = Vec::new();
    if amount > 0 {
        match transfer_tokens(
            &mut valued_vault,
            &ctx.valued_token_mint,
            &mut user_valued,
            &ctx.valued_token_program,
            amount,
            Authority::Vault(*authority),
        ) {
            Ok(instruction) => instructions.push(instruction),
            Err(e) => return Err(e),
        }
    }
    ctx.vesting_session_account.data = vesting_session;
    ctx.valued_vault_token_account = valued_vault;
    ctx.user_valued_token_account = user_valued;
    Ok(
        Outcome {
            instructions,
            event: SessionExitEvent {
                vault_account: ctx.vault_account.key,
                vesting_session: ctx.vesting_session_account.key,
                user: ctx.user,
                amount,
                time: now,
            },
        },
    )
}

/// What a session still locks: what remains of it while it is active, nothing
/// once it has ended.
pub open spec fn locked(session: VestingSession) -> int {
    if session.cancelled_at == 0 {
        session.remaining()
    } else {
        0
    }
}

/// Escrow tokens that are out of the vault's hands.
pub open spec fn outstanding(escrow_vault_token_account: TokenAccount, escrow_token_mint: Mint) -> int {
    escrow_token_mint.supply - escrow_vault_token_account.amount
}

/// An exchange puts as many escrow tokens out of the vault's hands as valued
/// tokens come into its reserve.
pub proof fn exchange_backs_what_it_puts_out(ctx: Exchange, authority: VaultAuthority, amount: u64)
    requires
        exchange_error(ctx, authority, amount) is None,
    ensures
        ({
            let after = exchange_applied(ctx, amount);
            after.valued_vault_token_account.amount - outstanding(
                after.escrow_vault_token_account,
                after.escrow_token_mint,
            ) == ctx.valued_vault_token_account.amount - outstanding(
                ctx.escrow_vault_token_account,
                ctx.escrow_token_mint,
            )
        }),
{
}

/// The accounts as the creation of a session leaves them, whether it succeeds
/// or is refused.
pub open spec fn create_vesting_session_result(
    ctx: CreateVestingSession,
    amount: u64,
    now: u64,
) -> CreateVestingSession {
    if create_vesting_session_error(ctx, amount) is None {
        create_vesting_session_applied(ctx, amount, now)
    } else {
        ctx
    }
}

/// The accounts as an exchange leaves them, whether it succeeds or is refused.
pub open spec fn exchange_result(ctx: Exchange, authority: VaultAuthority, amount: u64) -> Exchange {
    if exchange_error(ctx, authority, amount) is None {
        exchange_applied(ctx, amount)
    } else {
        ctx
    }
}

/// An exchange, made or refused, keeps the escrow tokens in existence within
/// the valued tokens in the vault's reserve, and keeps every escrow token out
/// of the vault's hands backed.
pub proof fn exchange_conserves(ctx: Exchange, authority: VaultAuthority, amount: u64)
    ensures
        ({
            let after = exchange_result(ctx, authority, amount);
            &&& ctx.escrow_token_mint.supply <= ctx.valued_vault_token_account.amount
                ==> after.escrow_token_mint.supply <= after.valued_vault_token_account.amount
            &&& reserves_of(
                ctx.valued_vault_token_account,
                ctx.escrow_vault_token_account,
                ctx.escrow_token_mint,
            ).is_backed() ==> reserves_of(
                after.valued_vault_token_account,
                after.escrow_vault_token_account,
                after.escrow_token_mint,
            ).is_backed()
        }),
{
}

/// The creation of a session, made or refused, issues nothing and leaves the
/// valued reserve alone: where it is made, the amount moves from the user to
/// the vault's escrow reserve and nothing else changes hands. So the escrow
/// tokens in existence stay within the valued tokens in the vault's reserve,
/// whatever that reserve holds, and every escrow token out of the vault's
/// hands stays backed.
pub proof fn create_vesting_session_conserves(
    ctx: CreateVestingSession,
    valued_vault_token_account: TokenAccount,
    amount: u64,
    now: u64,
)
    ensures
        ({
            let after = create_vesting_session_result(ctx, amount, now);
            &&& after.escrow_token_mint == ctx.escrow_token_mint
            &&& after.valued_token_mint == ctx.valued_token_mint
            &&& create_vesting_session_instructions(ctx, amount).len() == 1
            &&& create_vesting_session_instructions(ctx, amount)[0] is TransferChecked
            &&& create_vesting_session_error(ctx, amount) is None ==> {
                &&& after.escrow_vault_token_account.amount
                    == ctx.escrow_vault_token_account.amount + amount
                &&& after.user_escrow_token_account.amount + amount
                    == ctx.user_escrow_token_account.amount
            }
            &&& ctx.escrow_token_mint.supply <= valued_vault_token_account.amount
                ==> after.escrow_token_mint.supply <= valued_vault_token_account.amount
            &&& ctx.user_escrow_token_account.amount + ctx.escrow_vault_token_account.amount
                <= ctx.escrow_token_mint.supply && reserves_of(
                valued_vault_token_account,
                ctx.escrow_vault_token_account,
                ctx.escrow_token_mint,
            ).is_backed() ==> reserves_of(
                valued_vault_token_account,
                after.escrow_vault_token_account,
                after.escrow_token_mint,
            ).is_backed()
        }),
{
}

/// The creation of a session takes as many escrow tokens out of the users'
/// hands as the new session locks.
pub proof fn create_vesting_session_locks_what_it_takes(
    ctx: CreateVestingSession,
    amount: u64,
    now: u64,
)
    requires
        create_vesting_session_error(ctx, amount) is None,
    ensures
        ({
            let after = create_vesting_session_applied(ctx, amount, now);
            &&& after.vesting_session_account.data.wf()
            &&& locked(after.vesting_session_account.data) == amount
            &&& outstanding(after.escrow_vault_token_account, after.escrow_token_mint) + amount
                == outstanding(ctx.escrow_vault_token_account, ctx.escrow_token_mint)
        }),
{
}

/// A withdrawal takes from the valued reserve what the session locks less
/// afterwards.
pub proof fn session_withdraw_pays_from_what_is_locked(
    ctx: SessionWithdraw,
    authority: VaultAuthority,
    now: u64,
)
    requires
        session_withdraw_outcome(ctx, authority, now) is Ok,
    ensures
        ({
            let released = session_withdraw_outcome(ctx, authority, now)->Ok_0;
            let after = session_withdraw_applied(ctx, released, now);
            after.valued_vault_token_account.amount - locked(after.vesting_session_account.data)
                == ctx.valued_vault_token_account.amount - locked(
                ctx.vesting_session_account.data,
            )
        }),
{
}

/// A cancellation after second 0 leaves nothing locked: what the session
/// locked has left the valued reserve or is out of the vault's hands as escrow
/// tokens.
pub proof fn session_cancel_settles_what_is_locked(
    ctx: SessionCancelation,
    authority: VaultAuthority,
    now: u64,
)
    requires
        session_cancel_outcome(ctx, authority, now) is Ok,
        now > 0,
    ensures
        ({
            let settlement = session_cancel_outcome(ctx, authority, now)->Ok_0;
            let after = session_cancel_applied(ctx, settlement, now);
            &&& locked(after.vesting_session_account.data) == 0
            &&& settlement.valued_amount + settlement.escrow_amount == locked(
                ctx.vesting_session_account.data,
            )
            &&& after.valued_vault_token_account.amount - outstanding(
                after.escrow_vault_token_account,
                after.escrow_token_mint,
            ) == ctx.valued_vault_token_account.amount - outstanding(
                ctx.escrow_vault_token_account,
                ctx.escrow_token_mint,
            ) - locked(ctx.vesting_session_account.data)
        }),
{
}

/// An exit leaves nothing locked: all that the session locked has left the
/// valued reserve.
pub proof fn session_exit_pays_what_is_locked(
    ctx: SessionCancelation,
    authority: VaultAuthority,
    now: u64,
)
    requires
        session_exit_outcome(ctx, authority) is Ok,
    ensures
        ({
            let amount = session_exit_outcome(ctx, authority)->Ok_0;
            let after = session_exit_applied(ctx, amount, now);
            &&& locked(after.vesting_session_account.data) == 0
            &&& amount == locked(ctx.vesting_session_account.data)
            &&& after.valued_vault_token_account.amount
                == ctx.valued_vault_token_account.amount - locked(
                ctx.vesting_session_account.data,
            )
        }),
{
}

/// On a session that has ended, an authorized withdrawal, cancellation or exit
/// is refused as made on a cancelled session.
pub proof fn ended_session_is_refused(
    withdraw: SessionWithdraw,
    cancel: SessionCancelation,
    authority: VaultAuthority,
    now: u64,
)
    requires
        withdraw.authorized(authority),
        cancel.authorized(authority),
        withdraw.vesting_session_account.data.cancelled_at != 0,
        cancel.vesting_session_account.data.cancelled_at != 0,
    ensures
        session_withdraw_outcome(withdraw, authority, now) == Err::<u64, VestingErrorCode>(
            VestingErrorCode::InteractingWithCanceledSession,
        ),
        session_cancel_outcome(cancel, authority, now) == Err::<
            CancelSettlement,
            VestingErrorCode,
        >(VestingErrorCode::InteractingWithCanceledSession),
        session_exit_outcome(cancel, authority) == Err::<u64, VestingErrorCode>(
            VestingErrorCode::InteractingWithCanceledSession,
        ),
{
}

} // verus!
