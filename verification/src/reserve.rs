use vstd::prelude::*;
use crate::authority::{authorize_backend, is_backend, VaultAuthority};
use crate::errors::VestingErrorCode;
use crate::pubkey::Pubkey;
use crate::vesting_accounts::{BackendAccountData, Mint, TokenAccount};

verus! {

/// Who signs a token instruction: a wallet with its own key, or a vault with
/// the seeds of its address.
#[derive(Clone, Copy, Debug, PartialEq, Eq)]
pub enum Authority {
    Wallet(Pubkey),
    Vault(VaultAuthority),
}

/// An instruction for the token ledger, with the token program that is to
/// carry it out.
#[derive(Clone, Copy, Debug, PartialEq, Eq)]
pub enum TokenInstruction {
    /// Move `amount` of `mint` from one balance to another.
    TransferChecked {
        token_program: Pubkey,
        from: Pubkey,
        mint: Pubkey,
        to: Pubkey,
        authority: Authority,
        amount: u64,
        decimals: u8,
    },
    /// Issue `amount` of `mint` to a balance.
    MintTo { token_program: Pubkey, mint: Pubkey, to: Pubkey, authority: Authority, amount: u64 },
}

/// Why a transfer of `amount` between the two balances fails, if it does.
pub open spec fn transfer_error(from: TokenAccount, to: TokenAccount, amount: u64) -> Option<
    VestingErrorCode,
> {
    if from.amount < amount {
        Some(VestingErrorCode::InsufficientFunds)
    } else if to.amount + amount > u64::MAX {
        Some(VestingErrorCode::ArithmeticOverflow)
    } else {
        None
    }
}

/// The balance with `amount` taken from it.
pub open spec fn debited(account: TokenAccount, amount: int) -> TokenAccount {
    TokenAccount { amount: (account.amount - amount) as u64, ..account }
}

/// The balance with `amount` added to it.
pub open spec fn credited(account: TokenAccount, amount: int) -> TokenAccount {
    TokenAccount { amount: (account.amount + amount) as u64, ..account }
}

/// The mint with `amount` more in existence.
pub open spec fn issued(mint: Mint, amount: int) -> Mint {
    Mint { supply: (mint.supply + amount) as u64, ..mint }
}

/// Moves `amount` from one balance to the other and gives the instruction that
/// does the same on the ledger through `token_program`. Fails, changing
/// nothing, where the source holds less than `amount` or the destination cannot
/// hold the sum.
pub fn transfer_tokens(
    from: &mut TokenAccount,
    mint: &Mint,
    to: &mut TokenAccount,
    token_program: &Pubkey,
    amount: u64,
    authority: Authority,
) -> (r: Result<TokenInstruction, VestingErrorCode>)
    ensures
        match r {
            Ok(instruction) => {
                &&& transfer_error(*old(from), *old(to), amount) is None
                &&& *final(from) == debited(*old(from), amount as int)
                &&& *final(to) == credited(*old(to), amount as int)
                &&& instruction == (TokenInstruction::TransferChecked {
                    token_program: *token_program,
                    from: old(from).key,
                    mint: mint.key,
                    to: old(to).key,
                    authority,
                    amount,
                    decimals: mint.decimals,
                })
            },
            Err(e) => {
                &&& transfer_error(*old(from), *old(to), amount) == Some(e)
                &&& *final(from) == *old(from)
                &&& *final(to) == *old(to)
            },
        },
{
    if from.amount < amount {
        return Err(VestingErrorCode::InsufficientFunds);
    }
    let credited = match to.amount.checked_add(amount) {
        Some(sum) => sum,
        None => return Err(VestingErrorCode::ArithmeticOverflow),
    };
    from.amount = from.amount - amount;
    to.amount = credited;
    Ok(
        TokenInstruction::TransferChecked {
            token_program: *token_program,
            from: from.key,
            mint: mint.key,
            to: to.key,
            authority,
            amount,
            decimals: mint.decimals,
        },
    )
}

/// The part of `amount` that the vault's escrow reserve covers.
pub open spec fn amount_to_transfer(vault_escrow_balance: int, amount: int) -> int {
    if vault_escrow_balance >= amount {
        amount
    } else {
        vault_escrow_balance
    }
}

/// The part of `amount` that the reserve does not cover and is issued anew.
pub open spec fn amount_to_mint(vault_escrow_balance: int, amount: int) -> int {
    amount - amount_to_transfer(vault_escrow_balance, amount)
}

/// Splits `amount` into what the reserve covers and what is issued anew.
pub fn split_escrow_payout(vault_escrow_balance: u64, amount: u64) -> (r: Result<
    (u64, u64),
    VestingErrorCode,
>)
    ensures
        r == Ok::<(u64, u64), VestingErrorCode>(
            (
                amount_to_transfer(vault_escrow_balance as int, amount as int) as u64,
                amount_to_mint(vault_escrow_balance as int, amount as int) as u64,
            ),
        ),
{
    let amount_to_transfer = if vault_escrow_balance >= amount {
        amount
    } else if vault_escrow_balance > 0 {
        vault_escrow_balance
    } else {
        0
    };
    match amount.checked_sub(amount_to_transfer) {
        Some(amount_to_mint) => Ok((amount_to_transfer, amount_to_mint)),
        None => Err(VestingErrorCode::ArithmeticOverflow),
    }
}

/// Why a payout of `amount` escrow tokens to the user fails, if it does: the
/// user's balance or the mint's supply cannot hold the sum.
pub open spec fn escrow_payout_error(
    vault: TokenAccount,
    user: TokenAccount,
    mint: Mint,
    amount: u64,
) -> Option<VestingErrorCode> {
    if user.amount + amount > u64::MAX || mint.supply + amount_to_mint(
        vault.amount as int,
        amount as int,
    ) > u64::MAX {
        Some(VestingErrorCode::ArithmeticOverflow)
    } else {
        None
    }
}

/// The instructions of a payout of `amount` escrow tokens: a transfer from the
/// reserve where it covers anything, then an issuance where anything is left.
pub open spec fn escrow_payout_instructions(
    token_program: Pubkey,
    authority: VaultAuthority,
    vault: TokenAccount,
    user: TokenAccount,
    mint: Mint,
    amount: u64,
) -> Seq<TokenInstruction> {
    let transfer = if amount_to_transfer(vault.amount as int, amount as int) > 0 {
        seq![
            TokenInstruction::TransferChecked {
                token_program,
                from: vault.key,
                mint: mint.key,
                to: user.key,
                authority: Authority::Vault(authority),
                amount: amount_to_transfer(vault.amount as int, amount as int) as u64,
                decimals: mint.decimals,
            },
        ]
    } else {
        seq![]
    };
    let mint_to = if amount_to_mint(vault.amount as int, amount as int) > 0 {
        seq![
            TokenInstruction::MintTo {
                token_program,
                mint: mint.key,
                to: user.key,
                authority: Authority::Vault(authority),
                amount: amount_to_mint(vault.amount as int, amount as int) as u64,
            },
        ]
    } else {
        seq![]
    };
    transfer + mint_to
}

/// Pays `amount` escrow tokens to the user under the vault's authority,
/// through `token_program`: from the vault's reserve as far as it goes, the
/// rest issued anew. Fails, changing
/// nothing, where the user's balance or the supply cannot hold the sum.
pub fn transfer_escrow_from_vault(
    token_program: &Pubkey,
    authority: &VaultAuthority,
    escrow_vault_token_account: &mut TokenAccount,
    user_escrow_token_account: &mut TokenAccount,
    escrow_token_mint: &mut Mint,
    amount: u64,
) -> (r: Result<Vec<TokenInstruction>, VestingErrorCode>)
    ensures
        match r {
            Ok(instructions) => {
                &&& escrow_payout_error(
                    *old(escrow_vault_token_account),
                    *old(user_escrow_token_account),
                    *old(escrow_token_mint),
                    amount,
                ) is None
                &&& *final(escrow_vault_token_account) == debited(
                    *old(escrow_vault_token_account),
                    amount_to_transfer(old(escrow_vault_token_account).amount as int, amount as int),
                )
                &&& *final(user_escrow_token_account) == credited(
                    *old(user_escrow_token_account),
                    amount as int,
                )
                &&& *final(escrow_token_mint) == issued(
                    *old(escrow_token_mint),
                    amount_to_mint(old(escrow_vault_token_account).amount as int, amount as int),
                )
                &&& instructions@ == escrow_payout_instructions(
                    *token_program,
                    *authority,
                    *old(escrow_vault_token_account),
                    *old(user_escrow_token_account),
                    *old(escrow_token_mint),
                    amount,
                )
            },
            Err(e) => {
                &&& escrow_payout_error(
                    *old(escrow_vault_token_account),
                    *old(user_escrow_token_account),
                    *old(escrow_token_mint),
                    amount,
                ) == Some(e)
                &&& *final(escrow_vault_token_account) == *old(escrow_vault_token_account)
                &&& *final(user_escrow_token_account) == *old(user_escrow_token_account)
                &&& *final(escrow_token_mint) == *old(escrow_token_mint)
            },
        },
{
    let (amount_to_transfer, amount_to_mint) = match split_escrow_payout(
        escrow_vault_token_account.amount,
        amount,
    ) {
        Ok(parts) => parts,
        Err(e) => return Err(e),
    };
    let mut vault = *escrow_vault_token_account;
    let mut user = *user_escrow_token_account;
    let mut instructions: Vec<TokenInstruction> = Vec::new();
    if amount_to_transfer > 0 {
        match transfer_tokens(
            &mut vault,
            escrow_token_mint,
            &mut user,
            token_program,
            amount_to_transfer,
            Authority::Vault(*authority),
        ) {
            Ok(instruction) => instructions.push(instruction),
            Err(e) => return Err(e),
        }
    }
    let mut supply = escrow_token_mint.supply;
    if amount_to_mint > 0 {
        supply = match supply.checked_add(amount_to_mint) {
            Some(sum) => sum,
            None => return Err(VestingErrorCode::ArithmeticOverflow),
        };
        user.amount = match user.amount.checked_add(amount_to_mint) {
            Some(sum) => sum,
            None => return Err(VestingErrorCode::ArithmeticOverflow),
        };
        instructions.push(
            TokenInstruction::MintTo {
                token_program: *token_program,
                mint: escrow_token_mint.key,
                to: user.key,
                authority: Authority::Vault(*authority),
                amount: amount_to_mint,
            },
        );
    }
    assert(instructions@ =~= escrow_payout_instructions(
        *token_program,
        *authority,
        *old(escrow_vault_token_account),
        *old(user_escrow_token_account),
        *old(escrow_token_mint),
        amount,
    ));
    *escrow_vault_token_account = vault;
    *user_escrow_token_account = user;
    escrow_token_mint.supply = supply;
    Ok(instructions)
}

/// Why handing `amount` escrow tokens back to the vault fails, if it does.
pub open spec fn return_escrow_error(
    backend_data: BackendAccountData,
    backend: Pubkey,
    user: TokenAccount,
    vault: TokenAccount,
    amount: u64,
) -> Option<VestingErrorCode> {
    if !is_backend(backend_data, backend) {
        Some(VestingErrorCode::UnathorizedToExecute)
    } else if amount == 0 {
        Some(VestingErrorCode::MinimumAmountNotMet)
    } else {
        transfer_error(user, vault, amount)
    }
}

/// Hands `amount` of the user's escrow tokens back to the vault's reserve,
/// signed by the user and by the backend operator. Nothing is issued. Fails,
/// changing nothing, where `backend` is not the backend operator, `amount` is
/// zero, the user holds less, or the reserve cannot hold the sum.
pub fn return_escrow(
    backend_data: &BackendAccountData,
    backend: &Pubkey,
    user: &Pubkey,
    user_escrow_token_account: &mut TokenAccount,
    escrow_token_mint: &Mint,
    escrow_vault_token_account: &mut TokenAccount,
    token_program: &Pubkey,
    amount: u64,
) -> (r: Result<TokenInstruction, VestingErrorCode>)
    ensures
        match r {
            Ok(instruction) => {
                &&& return_escrow_error(
                    *backend_data,
                    *backend,
                    *old(user_escrow_token_account),
                    *old(escrow_vault_token_account),
                    amount,
                ) is None
                &&& *final(user_escrow_token_account) == debited(
                    *old(user_escrow_token_account),
                    amount as int,
                )
                &&& *final(escrow_vault_token_account) == credited(
                    *old(escrow_vault_token_account),
                    amount as int,
                )
                &&& instruction == (TokenInstruction::TransferChecked {
                    token_program: *token_program,
                    from: old(user_escrow_token_account).key,
                    mint: escrow_token_mint.key,
                    to: old(escrow_vault_token_account).key,
                    authority: Authority::Wallet(*user),
                    amount,
                    decimals: escrow_token_mint.decimals,
                })
            },
            Err(e) => {
                &&& return_escrow_error(
                    *backend_data,
                    *backend,
                    *old(user_escrow_token_account),
                    *old(escrow_vault_token_account),
                    amount,
                ) == Some(e)
                &&& *final(user_escrow_token_account) == *old(user_escrow_token_account)
                &&& *final(escrow_vault_token_account) == *old(escrow_vault_token_account)
            },
        },
{
    match authorize_backend(backend_data, backend) {
        Ok(()) => {},
        Err(e) => return Err(e),
    }
    if amount == 0 {
        return Err(VestingErrorCode::MinimumAmountNotMet);
    }
    transfer_tokens(
        user_escrow_token_account,
        escrow_token_mint,
        escrow_vault_token_account,
        token_program,
        amount,
        Authority::Wallet(*user),
    )
}

/// The balances of a vault as the conservation rule sees them.
pub struct Reserves {
    /// Valued tokens held in the vault's reserve.
    pub valued: nat,
    /// Escrow tokens held in the vault's reserve.
    pub escrow: nat,
    /// Escrow tokens in existence.
    pub supply: nat,
}

/// A call on the vault's reserve.
pub enum ReserveCall {
    Exchange { amount: nat },
    ReturnEscrow { amount: nat },
}

/// The reserves that the vault's two balances and the escrow mint show.
pub open spec fn reserves_of(
    valued_vault_token_account: TokenAccount,
    escrow_vault_token_account: TokenAccount,
    escrow_token_mint: Mint,
) -> Reserves {
    Reserves {
        valued: valued_vault_token_account.amount as nat,
        escrow: escrow_vault_token_account.amount as nat,
        supply: escrow_token_mint.supply as nat,
    }
}

impl Reserves {
    /// Escrow tokens that are out of the vault's hands.
    pub open spec fn outstanding(self) -> int {
        self.supply - self.escrow
    }

    /// Every escrow token out of the vault's hands is backed by a valued token
    /// in the reserve.
    pub open spec fn is_backed(self) -> bool {
        self.escrow <= self.supply && self.outstanding() <= self.valued
    }

    /// The reserves after `amount` valued tokens were exchanged for escrow
    /// tokens.
    pub open spec fn after_exchange(self, amount: nat) -> Reserves {
        Reserves {
            valued: self.valued + amount,
            escrow: (self.escrow - amount_to_transfer(self.escrow as int, amount as int)) as nat,
            supply: (self.supply + amount_to_mint(self.escrow as int, amount as int)) as nat,
        }
    }

    /// The reserves after `amount` escrow tokens were handed back.
    pub open spec fn after_return_escrow(self, amount: nat) -> Reserves {
        Reserves { escrow: self.escrow + amount, ..self }
    }

    /// Whether the call can succeed at all: its amount is positive, and no more
    /// escrow tokens are handed back than are out.
    pub open spec fn admits(self, call: ReserveCall) -> bool {
        match call {
            ReserveCall::Exchange { amount } => amount > 0,
            ReserveCall::ReturnEscrow { amount } => amount > 0 && amount <= self.outstanding(),
        }
    }

    /// The reserves as a call leaves them; a call that cannot succeed leaves
    /// them as they were.
    pub open spec fn after(self, call: ReserveCall) -> Reserves {
        if !self.admits(call) {
            self
        } else {
            match call {
                ReserveCall::Exchange { amount } => self.after_exchange(amount),
                ReserveCall::ReturnEscrow { amount } => self.after_return_escrow(amount),
            }
        }
    }

    /// The reserves as a sequence of calls leaves them.
    pub open spec fn after_all(self, calls: Seq<ReserveCall>) -> Reserves
        decreases calls.len(),
    {
        if calls.len() == 0 {
            self
        } else {
            self.after_all(calls.drop_last()).after(calls.last())
        }
    }
}

/// An exchange puts as many escrow tokens out as valued tokens come in, and
/// issues no more than the reserve falls short.
pub proof fn exchange_is_one_to_one(reserves: Reserves, amount: nat)
    requires
        reserves.escrow <= reserves.supply,
    ensures
        reserves.after_exchange(amount).outstanding() == reserves.outstanding() + amount,
        reserves.after_exchange(amount).valued == reserves.valued + amount,
        reserves.after_exchange(amount).supply - reserves.supply <= amount,
        reserves.escrow >= amount ==> reserves.after_exchange(amount).supply == reserves.supply,
{
}

/// A return of escrow tokens that succeeds on the balances is the return of
/// the reserves, and the reserves admit it where the two balances together
/// hold no more than is in existence.
pub proof fn return_escrow_acts_on_reserves(
    backend_data: BackendAccountData,
    backend: Pubkey,
    user_escrow_token_account: TokenAccount,
    valued_vault_token_account: TokenAccount,
    escrow_vault_token_account: TokenAccount,
    escrow_token_mint: Mint,
    amount: u64,
)
    requires
        return_escrow_error(
            backend_data,
            backend,
            user_escrow_token_account,
            escrow_vault_token_account,
            amount,
        ) is None,
    ensures
        reserves_of(
            valued_vault_token_account,
            credited(escrow_vault_token_account, amount as int),
            escrow_token_mint,
        ) == reserves_of(
            valued_vault_token_account,
            escrow_vault_token_account,
            escrow_token_mint,
        ).after_return_escrow(amount as nat),
        user_escrow_token_account.amount + escrow_vault_token_account.amount
            <= escrow_token_mint.supply ==> reserves_of(
            valued_vault_token_account,
            escrow_vault_token_account,
            escrow_token_mint,
        ).admits(ReserveCall::ReturnEscrow { amount: amount as nat }),
{
}

/// Over any sequence of exchanges and returns of escrow tokens, the escrow
/// tokens out of the vault's hands never exceed the valued tokens in its
/// reserve.
pub proof fn conservation(reserves: Reserves, calls: Seq<ReserveCall>)
    requires
        reserves.is_backed(),
    ensures
        reserves.after_all(calls).is_backed(),
    decreases calls.len(),
{
    if calls.len() > 0 {
        conservation(reserves, calls.drop_last());
    }
}

/// Over any sequence of exchanges and returns of escrow tokens, the escrow
/// tokens in existence never exceed the valued tokens in the vault's reserve:
/// an exchange issues no more than it takes in, and a return issues nothing.
pub proof fn supply_stays_within_reserve(reserves: Reserves, calls: Seq<ReserveCall>)
    requires
        reserves.supply <= reserves.valued,
    ensures
        reserves.after_all(calls).supply <= reserves.after_all(calls).valued,
    decreases calls.len(),
{
    if calls.len() > 0 {
        supply_stays_within_reserve(reserves, calls.drop_last());
    }
}

} // verus!
