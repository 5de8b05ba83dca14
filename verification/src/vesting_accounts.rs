use vstd::prelude::*;
use crate::pubkey::{zero_bytes, Pubkey};

verus! {

/// An account of the ledger: the address it lives at and what it stores.
#[derive(Clone, Debug, PartialEq, Eq)]
pub struct Account<T> {
    pub key: Pubkey,
    pub data: T,
}

/// A token balance record: its address and the amount it holds.
#[derive(Clone, Copy, Debug, PartialEq, Eq)]
pub struct TokenAccount {
    pub key: Pubkey,
    pub amount: u64,
}

/// A token mint: its address, the decimals of its amounts and the amount in
/// existence.
#[derive(Clone, Copy, Debug, PartialEq, Eq)]
pub struct Mint {
    pub key: Pubkey,
    pub decimals: u8,
    pub supply: u64,
}

/// What is stored about the deployed program: who may upgrade it.
#[derive(Clone, Copy, Debug, PartialEq, Eq)]
pub struct ProgramData {
    pub upgrade_authority_address: Option<Pubkey>,
}

/// The request to change the backend operator.
#[derive(Clone, Copy, Debug, PartialEq, Eq)]
pub struct SetBackendAccountParams {
    pub new_backend_account: Pubkey,
    pub new_authority: Option<Pubkey>,
}

/// The one backend record: the operator that may run privileged operations, and
/// who besides the upgrade authority may replace it.
#[derive(Clone, Copy, Debug, PartialEq, Eq)]
pub struct BackendAccountData {
    pub backend_account: Pubkey,
    pub change_authority: Option<Pubkey>,
}

/// The accounts of a change of the backend operator.
#[derive(Clone, Copy, Debug, PartialEq, Eq)]
pub struct SetBackendAccountCtx {
    pub program_data: ProgramData,
    pub backend_data: BackendAccountData,
    /// The wallet that signed the request.
    pub payer: Pubkey,
}

/// The request to create a vault and its escrow token.
#[derive(Clone, Debug, PartialEq, Eq)]
pub struct InitEscrowTokenParams {
    pub name: String,
    pub symbol: String,
    pub uri: String,
    pub app_id: String,
}

/// A vault: the pairing of one valued mint with one escrow mint.
#[derive(Clone, Debug, PartialEq, Eq)]
pub struct VaultAccount {
    /// The wallet that asked for the vault.
    pub creator: Pubkey,
    pub valued_token_mint: Pubkey,
    pub escrow_token_mint: Pubkey,
    /// Tag of the application the vault was made for.
    pub app_id: String,
}

/// The request to change one metadata field of the escrow token.
#[derive(Clone, Debug, PartialEq, Eq)]
pub struct ChangeEscrowMetadataParams {
    pub value: String,
    pub param_key: String,
}

/// A user's collection of vesting sessions in one vault.
#[derive(Clone, Copy, Debug, PartialEq, Eq)]
pub struct VestingSessionsAccount {
    /// The id that the next session will get.
    pub last_session_id: u64,
    pub user: Pubkey,
}

/// One vesting grant.
#[derive(Clone, Copy, Debug, PartialEq, Eq)]
pub struct VestingSession {
    pub id: u64,
    pub user: Pubkey,
    /// The collection the session belongs to.
    pub vesting_sessions_account: Pubkey,
    /// Total amount locked.
    pub amount: u64,
    /// Amount paid out so far.
    pub amount_withdrawn: u64,
    /// Second at which the grant started.
    pub start_date: u64,
    /// Second of the last payout, 0 when nothing was paid out yet.
    pub last_withdraw_at: u64,
    /// Second at which the session ended, 0 while it is active.
    pub cancelled_at: u64,
}

impl VestingSessionsAccount {
    /// A collection that holds no session yet: its counter starts at 0, and it
    /// belongs to nobody until its first session is created.
    pub fn new() -> (collection: VestingSessionsAccount)
        ensures
            collection.last_session_id == 0,
            collection.user@ == zero_bytes(),
    {
        VestingSessionsAccount { last_session_id: 0, user: Pubkey::default() }
    }
}

impl VestingSession {
    /// No more was paid out than was locked.
    pub open spec fn wf(self) -> bool {
        self.amount_withdrawn <= self.amount
    }

    /// The session has not been cancelled or exited.
    pub open spec fn is_active(self) -> bool {
        self.cancelled_at == 0
    }

    /// What is locked and not yet paid out.
    pub open spec fn remaining(self) -> int {
        if self.amount >= self.amount_withdrawn {
            self.amount - self.amount_withdrawn
        } else {
            0
        }
    }

    /// The second from which the next release is counted: the last payout, or
    /// the start while nothing was paid out.
    pub open spec fn release_base(self) -> u64 {
        if self.last_withdraw_at > 0 {
            self.last_withdraw_at
        } else {
            self.start_date
        }
    }
}

/// The accounts of the creation of a vault and its escrow token.
#[derive(Clone, Debug, PartialEq, Eq)]
pub struct InitEscrowToken {
    pub backend_data: BackendAccountData,
    /// The wallet that signed as backend operator.
    pub backend: Pubkey,
    pub vault_account: Account<VaultAccount>,
    pub valued_token_mint: Mint,
    pub escrow_token_mint: Mint,
    /// The wallet that signed and pays for the new accounts.
    pub payer: Pubkey,
}

/// The accounts of the creation of a vault's two reserve balances.
#[derive(Clone, Debug, PartialEq, Eq)]
pub struct InitVaultTokenAccounts {
    pub valued_token_mint: Mint,
    pub escrow_token_mint: Mint,
    pub backend_data: BackendAccountData,
    /// The wallet that signed as backend operator.
    pub backend: Pubkey,
    pub vault_account: Account<VaultAccount>,
    pub valued_vault_token_account: TokenAccount,
    pub escrow_vault_token_account: TokenAccount,
    pub payer: Pubkey,
}

/// The accounts of a change of the escrow token's metadata.
#[derive(Clone, Debug, PartialEq, Eq)]
pub struct ChangeEscrowMetadataAccounts {
    pub valued_token_mint: Mint,
    pub escrow_token_mint: Mint,
    pub backend_data: BackendAccountData,
    /// The wallet that signed as backend operator.
    pub backend: Pubkey,
    pub vault_account: Account<VaultAccount>,
    pub payer: Pubkey,
}

/// The accounts of an exchange of valued tokens for escrow tokens.
#[derive(Clone, Debug, PartialEq, Eq)]
pub struct Exchange {
    /// The token program of the escrow mint.
    pub token_program: Pubkey,
    /// The token program of the valued mint.
    pub valued_token_program: Pubkey,
    pub valued_token_mint: Mint,
    pub escrow_token_mint: Mint,
    pub backend_data: BackendAccountData,
    /// The wallet that signed as backend operator.
    pub backend: Pubkey,
    pub vault_account: Account<VaultAccount>,
    pub valued_vault_token_account: TokenAccount,
    pub escrow_vault_token_account: TokenAccount,
    /// The wallet that signed as the user.
    pub user: Pubkey,
    pub user_valued_token_account: TokenAccount,
    pub user_escrow_token_account: TokenAccount,
}

/// The accounts of the creation of a vesting session.
#[derive(Clone, Debug, PartialEq, Eq)]
pub struct CreateVestingSession {
    /// The token program of the escrow mint.
    pub token_program: Pubkey,
    pub valued_token_mint: Mint,
    pub escrow_token_mint: Mint,
    pub backend_data: BackendAccountData,
    /// The wallet that signed as backend operator.
    pub backend: Pubkey,
    pub vesting_sessions_account: Account<VestingSessionsAccount>,
    pub vesting_session_account: Account<VestingSession>,
    pub vault_account: Account<VaultAccount>,
    pub escrow_vault_token_account: TokenAccount,
    /// The wallet that signed as the user.
    pub user: Pubkey,
    pub user_escrow_token_account: TokenAccount,
}

/// The accounts of a withdrawal from a vesting session.
#[derive(Clone, Debug, PartialEq, Eq)]
pub struct SessionWithdraw {
    /// The token program of the escrow mint.
    pub token_program: Pubkey,
    /// The token program of the valued mint.
    pub valued_token_program: Pubkey,
    pub valued_token_mint: Mint,
    pub escrow_token_mint: Mint,
    pub backend_data: BackendAccountData,
    /// The wallet that signed as backend operator.
    pub backend: Pubkey,
    pub vesting_sessions_account: Account<VestingSessionsAccount>,
    pub vesting_session_account: Account<VestingSession>,
    pub vault_account: Account<VaultAccount>,
    pub valued_vault_token_account: TokenAccount,
    /// The wallet that signed as the user.
    pub user: Pubkey,
    pub user_valued_token_account: TokenAccount,
}

/// The accounts of the cancellation of a vesting session, and of an exit from
/// one.
#[derive(Clone, Debug, PartialEq, Eq)]
pub struct SessionCancelation {
    /// The token program of the escrow mint.
    pub token_program: Pubkey,
    /// The token program of the valued mint.
    pub valued_token_program: Pubkey,
    pub valued_token_mint: Mint,
    pub escrow_token_mint: Mint,
    pub backend_data: BackendAccountData,
    /// The wallet that signed as backend operator.
    pub backend: Pubkey,
    pub vesting_sessions_account: Account<VestingSessionsAccount>,
    pub vesting_session_account: Account<VestingSession>,
    pub vault_account: Account<VaultAccount>,
    pub valued_vault_token_account: TokenAccount,
    pub escrow_vault_token_account: TokenAccount,
    /// The wallet that signed as the user.
    pub user: Pubkey,
    pub user_valued_token_account: TokenAccount,
    pub user_escrow_token_account: TokenAccount,
}

} // verus!
