use vstd::prelude::*;
use crate::instructions::{locked, MIN_DIVISIBLE_BY_VESTING_PERIOD};
use crate::reserve::{amount_to_mint, amount_to_transfer, Reserves};
use crate::session::{
    after_cancel, after_exit, after_payout, cancel_outcome, exit_outcome, withdraw_outcome,
};
use crate::vesting_accounts::VestingSession;

verus! {

/// A vault as a whole: its reserves and every vesting session that locks
/// escrow tokens in it.
pub struct VaultState {
    pub reserves: Reserves,
    pub sessions: Seq<VestingSession>,
}

/// A call on a vault.
pub enum VaultCall {
    /// Valued tokens are exchanged for escrow tokens.
    Exchange { amount: u64 },
    /// This session is created, and the escrow tokens it locks go back to the
    /// vault's reserve.
    CreateSession { session: VestingSession },
    /// The session at this position pays out what has vested.
    Withdraw { position: int, now: u64 },
    /// The session at this position is cancelled.
    Cancel { position: int, now: u64 },
    /// The session at this position is exited.
    Exit { position: int, now: u64 },
}

/// What the sessions lock together.
pub open spec fn total_locked(sessions: Seq<VestingSession>) -> int
    decreases sessions.len(),
{
    if sessions.len() == 0 {
        0
    } else {
        total_locked(sessions.drop_last()) + locked(sessions.last())
    }
}

/// The reserves after `amount` valued tokens were paid out of them.
pub open spec fn after_valued_payout(reserves: Reserves, amount: int) -> Reserves {
    Reserves { valued: (reserves.valued - amount) as nat, ..reserves }
}

/// The reserves after `amount` escrow tokens were paid out to a user: from the
/// reserve as far as it goes, the rest issued anew.
pub open spec fn after_escrow_payout(reserves: Reserves, amount: int) -> Reserves {
    Reserves {
        escrow: (reserves.escrow - amount_to_transfer(reserves.escrow as int, amount)) as nat,
        supply: (reserves.supply + amount_to_mint(reserves.escrow as int, amount)) as nat,
        ..reserves
    }
}

impl VaultState {
    /// Every session has paid out no more than it locked, and every escrow
    /// token out of the vault's hands and every token that a session still
    /// locks is backed by a valued token in the reserve.
    pub open spec fn is_backed(self) -> bool {
        &&& self.reserves.escrow <= self.reserves.supply
        &&& forall|i: int| 0 <= i < self.sessions.len() ==> (#[trigger] self.sessions[i]).wf()
        &&& self.reserves.outstanding() + total_locked(self.sessions) <= self.reserves.valued
    }

    /// Whether the call can succeed at all. An exchange needs a positive
    /// amount. A new session must be fresh, lock the minimum at least and no
    /// more escrow tokens than are out of the vault's hands. A call on a
    /// session needs the session to exist, to allow the call, and the valued
    /// reserve to hold what is paid.
    pub open spec fn admits(self, call: VaultCall) -> bool {
        match call {
            VaultCall::Exchange { amount } => amount > 0,
            VaultCall::CreateSession { session } => {
                &&& session.amount >= MIN_DIVISIBLE_BY_VESTING_PERIOD
                &&& session.amount_withdrawn == 0
                &&& session.last_withdraw_at == 0
                &&& session.cancelled_at == 0
                &&& session.amount <= self.reserves.outstanding()
            },
            VaultCall::Withdraw { position, now } => {
                &&& 0 <= position < self.sessions.len()
                &&& withdraw_outcome(self.sessions[position], now) matches Ok(released)
                &&& released <= self.reserves.valued
            },
            VaultCall::Cancel { position, now } => {
                &&& 0 <= position < self.sessions.len()
                &&& cancel_outcome(self.sessions[position], now) matches Ok(settlement)
                &&& settlement.valued_amount <= self.reserves.valued
            },
            VaultCall::Exit { position, now } => {
                &&& 0 <= position < self.sessions.len()
                &&& exit_outcome(self.sessions[position]) matches Ok(amount)
                &&& amount <= self.reserves.valued
            },
        }
    }

    /// The vault as a call leaves it; a call that cannot succeed leaves it as
    /// it was.
    pub open spec fn after(self, call: VaultCall) -> VaultState {
        if !self.admits(call) {
            self
        } else {
            match call {
                VaultCall::Exchange { amount } => VaultState {
                    reserves: self.reserves.after_exchange(amount as nat),
                    ..self
                },
                VaultCall::CreateSession { session } => VaultState {
                    reserves: self.reserves.after_return_escrow(session.amount as nat),
                    sessions: self.sessions.push(session),
                },
                VaultCall::Withdraw { position, now } => {
                    let released = withdraw_outcome(self.sessions[position], now)->Ok_0;
                    VaultState {
                        reserves: after_valued_payout(self.reserves, released as int),
                        sessions: self.sessions.update(
                            position,
                            after_payout(self.sessions[position], released, now),
                        ),
                    }
                },
                VaultCall::Cancel { position, now } => {
                    let settlement = cancel_outcome(self.sessions[position], now)->Ok_0;
                    VaultState {
                        reserves: after_escrow_payout(
                            after_valued_payout(self.reserves, settlement.valued_amount as int),
                            settlement.escrow_amount as int,
                        ),
                        sessions: self.sessions.update(
                            position,
                            after_cancel(self.sessions[position], settlement.valued_amount, now),
                        ),
                    }
                },
                VaultCall::Exit { position, now } => {
                    let amount = exit_outcome(self.sessions[position])->Ok_0;
                    VaultState {
                        reserves: after_valued_payout(self.reserves, amount as int),
                        sessions: self.sessions.update(
                            position,
                            after_exit(self.sessions[position], now),
                        ),
                    }
                },
            }
        }
    }

    /// The vault as a sequence of calls leaves it.
    pub open spec fn after_all(self, calls: Seq<VaultCall>) -> VaultState
        decreases calls.len(),
    {
        if calls.len() == 0 {
            self
        } else {
            self.after_all(calls.drop_last()).after(calls.last())
        }
    }
}

/// Whether the call cancels a session at second 0, which would leave the
/// session marked as active after its locked part was handed back.
pub open spec fn cancels_at_second_zero(call: VaultCall) -> bool {
    match call {
        VaultCall::Cancel { now, .. } => now == 0,
        _ => false,
    }
}

/// Sessions lock nothing negative.
pub proof fn total_locked_is_not_negative(sessions: Seq<VestingSession>)
    ensures
        total_locked(sessions) >= 0,
    decreases sessions.len(),
{
    if sessions.len() > 0 {
        total_locked_is_not_negative(sessions.drop_last());
    }
}

/// One more session locks what the others lock and what it locks itself.
pub proof fn total_locked_with_one_more(sessions: Seq<VestingSession>, session: VestingSession)
    ensures
        total_locked(sessions.push(session)) == total_locked(sessions) + locked(session),
{
    assert(sessions.push(session).drop_last() =~= sessions);
}

/// Replacing one session changes what the sessions lock together by the
/// difference between what the two lock.
pub proof fn total_locked_with_one_replaced(
    sessions: Seq<VestingSession>,
    position: int,
    session: VestingSession,
)
    requires
        0 <= position < sessions.len(),
    ensures
        total_locked(sessions.update(position, session)) == total_locked(sessions) - locked(
            sessions[position],
        ) + locked(session),
    decreases sessions.len(),
{
    let replaced = sessions.update(position, session);
    if position == sessions.len() - 1 {
        assert(replaced.drop_last() =~= sessions.drop_last());
    } else {
        total_locked_with_one_replaced(sessions.drop_last(), position, session);
        assert(replaced.drop_last() =~= sessions.drop_last().update(position, session));
    }
}

/// One call that does not cancel a session at second 0 keeps a backed vault
/// backed.
pub proof fn call_keeps_vault_backed(vault: VaultState, call: VaultCall)
    requires
        vault.is_backed(),
        !cancels_at_second_zero(call),
    ensures
        vault.after(call).is_backed(),
{
    total_locked_is_not_negative(vault.sessions);
    if vault.admits(call) {
        match call {
            VaultCall::Exchange { amount } => {},
            VaultCall::CreateSession { session } => {
                total_locked_with_one_more(vault.sessions, session);
            },
            VaultCall::Withdraw { position, now } => {
                let released = withdraw_outcome(vault.sessions[position], now)->Ok_0;
                total_locked_with_one_replaced(
                    vault.sessions,
                    position,
                    after_payout(vault.sessions[position], released, now),
                );
            },
            VaultCall::Cancel { position, now } => {
                let settlement = cancel_outcome(vault.sessions[position], now)->Ok_0;
                total_locked_with_one_replaced(
                    vault.sessions,
                    position,
                    after_cancel(vault.sessions[position], settlement.valued_amount, now),
                );
            },
            VaultCall::Exit { position, now } => {
                total_locked_with_one_replaced(
                    vault.sessions,
                    position,
                    after_exit(vault.sessions[position], now),
                );
            },
        }
    }
}

/// Over any sequence of exchanges, session creations, withdrawals,
/// cancellations and exits, none of which cancels a session at second 0, a
/// backed vault stays backed: the escrow tokens out of its hands never exceed
/// the valued tokens in its reserve.
pub proof fn vault_stays_backed(vault: VaultState, calls: Seq<VaultCall>)
    requires
        vault.is_backed(),
        forall|i: int| 0 <= i < calls.len() ==> !cancels_at_second_zero(#[trigger] calls[i]),
    ensures
        vault.after_all(calls).is_backed(),
        vault.after_all(calls).reserves.outstanding() <= vault.after_all(calls).reserves.valued,
    decreases calls.len(),
{
    if calls.len() > 0 {
        vault_stays_backed(vault, calls.drop_last());
        call_keeps_vault_backed(vault.after_all(calls.drop_last()), calls.last());
    }
    total_locked_is_not_negative(vault.after_all(calls).sessions);
}

/// In a backed vault no payout of a session fails for want of valued tokens:
/// the reserve holds what a withdrawal, a cancellation or an exit pays.
pub proof fn backed_vault_can_pay(vault: VaultState, position: int, now: u64)
    requires
        vault.is_backed(),
        0 <= position < vault.sessions.len(),
    ensures
        withdraw_outcome(vault.sessions[position], now) matches Ok(released) ==> released
            <= vault.reserves.valued,
        cancel_outcome(vault.sessions[position], now) matches Ok(settlement)
            ==> settlement.valued_amount <= vault.reserves.valued,
        exit_outcome(vault.sessions[position]) matches Ok(amount) ==> amount
            <= vault.reserves.valued,
{
    locked_is_part_of_total(vault.sessions, position);
}

/// What one session locks is part of what all lock together.
pub proof fn locked_is_part_of_total(sessions: Seq<VestingSession>, position: int)
    requires
        0 <= position < sessions.len(),
    ensures
        locked(sessions[position]) <= total_locked(sessions),
    decreases sessions.len(),
{
    total_locked_is_not_negative(sessions.drop_last());
    if position < sessions.len() - 1 {
        locked_is_part_of_total(sessions.drop_last(), position);
    }
}

} // verus!
