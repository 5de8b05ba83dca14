use vstd::prelude::*;
use crate::pubkey::Pubkey;

verus! {

/// A vault and its escrow token were created.
#[derive(Clone, Debug, PartialEq, Eq)]
pub struct EscrowCreatedEvent {
    pub creator: Pubkey,
    pub valued_token_mint: Pubkey,
    pub escrow_token_mint: Pubkey,
    pub vault_account: Pubkey,
    pub app_id: String,
}

/// The two reserve balances of a vault were created.
#[derive(Clone, Copy, Debug, PartialEq, Eq)]
pub struct VaultAccountInitializedEvent {
    pub vault_account: Pubkey,
    pub valued_vault_token_account: Pubkey,
    pub escrow_vault_token_account: Pubkey,
}

/// One metadata field of an escrow token was changed.
#[derive(Clone, Debug, PartialEq, Eq)]
pub struct EscrowMetadataChangedEvent {
    pub escrow_token_mint: Pubkey,
    pub field_updated: String,
    pub value: String,
}

/// Valued tokens were exchanged for escrow tokens.
#[derive(Clone, Copy, Debug, PartialEq, Eq)]
pub struct ExchangedEvent {
    pub vault_account: Pubkey,
    pub amount: u64,
}

/// A vesting session was created.
#[derive(Clone, Copy, Debug, PartialEq, Eq)]
pub struct CreatedVestingSessionEvent {
    pub vault_account: Pubkey,
    pub vesting_session: Pubkey,
    pub user: Pubkey,
    pub amount: u64,
}

/// A vesting session paid out what had vested.
#[derive(Clone, Copy, Debug, PartialEq, Eq)]
pub struct SessionWithdrawnEvent {
    pub vault_account: Pubkey,
    pub vesting_session: Pubkey,
    pub user: Pubkey,
    pub amount: u64,
    pub time: u64,
}

/// A vesting session was cancelled.
#[derive(Clone, Copy, Debug, PartialEq, Eq)]
pub struct SessionCancelEvent {
    pub vault_account: Pubkey,
    pub vesting_session: Pubkey,
    pub user: Pubkey,
    pub valued_amount: u64,
    pub escrow_amount: u64,
    pub time: u64,
}

/// A vesting session was exited.
#[derive(Clone, Copy, Debug, PartialEq, Eq)]
pub struct SessionExitEvent {
    pub vault_account: Pubkey,
    pub vesting_session: Pubkey,
    pub user: Pubkey,
    pub amount: u64,
    pub time: u64,
}

} // verus!
