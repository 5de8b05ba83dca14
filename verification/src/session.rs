use vstd::prelude::*;
use crate::errors::VestingErrorCode;
use crate::release::{
    calculate_amount_to_release, elapsed_minutes, spec_amount_to_release, VESTING_PERIOD_MINUTES,
    VESTING_PERIOD_SECONDS,
};
use crate::pubkey::Pubkey;
use crate::vesting_accounts::VestingSession;

verus! {

/// What a cancellation pays: the vested part in valued tokens, and the part
/// still locked, handed back as escrow tokens.
#[derive(Clone, Copy, Debug, PartialEq, Eq, Structural)]
pub struct CancelSettlement {
    pub valued_amount: u64,
    pub escrow_amount: u64,
}

/// A call on a session, with the second at which it is made.
pub enum SessionCall {
    Withdraw { now: u64 },
    Cancel { now: u64 },
    Exit { now: u64 },
}

/// The session after `paid` more was paid out at `now`.
pub open spec fn after_payout(session: VestingSession, paid: u64, now: u64) -> VestingSession {
    VestingSession {
        amount_withdrawn: (session.amount_withdrawn + paid) as u64,
        last_withdraw_at: now,
        ..session
    }
}

/// The session after a cancellation at `now` that paid out `released`.
pub open spec fn after_cancel(session: VestingSession, released: u64, now: u64) -> VestingSession {
    VestingSession {
        amount_withdrawn: (session.amount_withdrawn + released) as u64,
        last_withdraw_at: if released > 0 {
            now
        } else {
            session.last_withdraw_at
        },
        cancelled_at: now,
        ..session
    }
}

/// The session after an exit at `now`: everything is paid out.
pub open spec fn after_exit(session: VestingSession, now: u64) -> VestingSession {
    VestingSession {
        amount_withdrawn: session.amount,
        last_withdraw_at: now,
        cancelled_at: now,
        ..session
    }
}

/// What a withdrawal at `now` pays, or why it is refused.
pub open spec fn withdraw_outcome(session: VestingSession, now: u64) -> Result<
    u64,
    VestingErrorCode,
> {
    if session.cancelled_at != 0 {
        Err(VestingErrorCode::InteractingWithCanceledSession)
    } else {
        match spec_amount_to_release(session, now) {
            Err(e) => Err(e),
            Ok(released) => if released == 0 {
                Err(VestingErrorCode::InsufficientWithdrawalAmount)
            } else {
                Ok(released)
            },
        }
    }
}

/// What a cancellation pays when `released` has vested and is unpaid, or why it
/// is refused.
pub open spec fn settle_cancel_outcome(session: VestingSession, released: u64) -> Result<
    CancelSettlement,
    VestingErrorCode,
> {
    if session.cancelled_at != 0 {
        Err(VestingErrorCode::InteractingWithCanceledSession)
    } else if session.amount - session.amount_withdrawn - released < 0 {
        Err(VestingErrorCode::ArithmeticOverflow)
    } else {
        Ok(
            CancelSettlement {
                valued_amount: released,
                escrow_amount: (session.amount - session.amount_withdrawn - released) as u64,
            },
        )
    }
}

/// What a cancellation at `now` pays, or why it is refused.
pub open spec fn cancel_outcome(session: VestingSession, now: u64) -> Result<
    CancelSettlement,
    VestingErrorCode,
> {
    if session.cancelled_at != 0 {
        Err(VestingErrorCode::InteractingWithCanceledSession)
    } else {
        match spec_amount_to_release(session, now) {
            Err(e) => Err(e),
            Ok(released) => settle_cancel_outcome(session, released),
        }
    }
}

/// What an exit pays, or why it is refused.
pub open spec fn exit_outcome(session: VestingSession) -> Result<u64, VestingErrorCode> {
    if session.cancelled_at != 0 {
        Err(VestingErrorCode::InteractingWithCanceledSession)
    } else if session.amount < session.amount_withdrawn {
        Err(VestingErrorCode::ArithmeticOverflow)
    } else {
        Ok((session.amount - session.amount_withdrawn) as u64)
    }
}

/// The session as a call leaves it: changed where the call succeeds, as it was
/// where the call is refused.
pub open spec fn session_after(session: VestingSession, call: SessionCall) -> VestingSession {
    match call {
        SessionCall::Withdraw { now } => match withdraw_outcome(session, now) {
            Ok(paid) => after_payout(session, paid, now),
            Err(_) => session,
        },
        SessionCall::Cancel { now } => match cancel_outcome(session, now) {
            Ok(settlement) => after_cancel(session, settlement.valued_amount, now),
            Err(_) => session,
        },
        SessionCall::Exit { now } => match exit_outcome(session) {
            Ok(_) => after_exit(session, now),
            Err(_) => session,
        },
    }
}

/// The session as a sequence of calls leaves it.
pub open spec fn session_after_all(session: VestingSession, calls: Seq<SessionCall>) -> VestingSession
    decreases calls.len(),
{
    if calls.len() == 0 {
        session
    } else {
        session_after(session_after_all(session, calls.drop_last()), calls.last())
    }
}

impl VestingSession {
    /// A fresh session of `amount` for `user`, started at `now`, with nothing
    /// paid out.
    pub fn new(id: u64, user: Pubkey, vesting_sessions_account: Pubkey, amount: u64, now: u64) -> (session:
        VestingSession)
        ensures
            session == (VestingSession {
                id,
                user,
                vesting_sessions_account,
                amount,
                amount_withdrawn: 0,
                start_date: now,
                last_withdraw_at: 0,
                cancelled_at: 0,
            }),
            session.wf(),
            session.is_active(),
    {
        VestingSession {
            id,
            user,
            vesting_sessions_account,
            amount,
            amount_withdrawn: 0,
            start_date: now,
            last_withdraw_at: 0,
            cancelled_at: 0,
        }
    }

    /// Pays out what has vested at `now` and is unpaid. Refused on a session that
    /// has ended and where nothing is due.
    pub fn withdraw(&mut self, now: u64) -> (paid: Result<u64, VestingErrorCode>)
        ensures
            paid == withdraw_outcome(*old(self), now),
            *final(self) == session_after(*old(self), SessionCall::Withdraw { now }),
            final(self).amount_withdrawn >= old(self).amount_withdrawn,
            old(self).wf() ==> final(self).wf(),
            final(self).cancelled_at == old(self).cancelled_at,
    {
        if self.cancelled_at != 0 {
            return Err(VestingErrorCode::InteractingWithCanceledSession);
        }
        let amount_to_release = match calculate_amount_to_release(self, now) {
            Ok(amount) => amount,
            Err(e) => return Err(e),
        };
        if amount_to_release == 0 {
            return Err(VestingErrorCode::InsufficientWithdrawalAmount);
        }
        let withdrawn = match self.amount_withdrawn.checked_add(amount_to_release) {
            Some(total) => total,
            None => return Err(VestingErrorCode::ArithmeticOverflow),
        };
        self.amount_withdrawn = withdrawn;
        self.last_withdraw_at = now;
        Ok(amount_to_release)
    }

    /// Ends the session at `now`, given that `released` has vested and is unpaid:
    /// `released` is paid out and the rest of what was locked is handed back.
    pub fn settle_cancel(&mut self, released: u64, now: u64) -> (settlement: Result<
        CancelSettlement,
        VestingErrorCode,
    >)
        ensures
            settlement == settle_cancel_outcome(*old(self), released),
            *final(self) == match settlement {
                Ok(_) => after_cancel(*old(self), released, now),
                Err(_) => *old(self),
            },
            final(self).amount_withdrawn >= old(self).amount_withdrawn,
            old(self).wf() ==> final(self).wf(),
    {
        if self.cancelled_at != 0 {
            return Err(VestingErrorCode::InteractingWithCanceledSession);
        }
        let unpaid = match self.amount.checked_sub(self.amount_withdrawn) {
            Some(unpaid) => unpaid,
            None => return Err(VestingErrorCode::ArithmeticOverflow),
        };
        let escrow_amount_to_get_back = match unpaid.checked_sub(released) {
            Some(rest) => rest,
            None => return Err(VestingErrorCode::ArithmeticOverflow),
        };
        if released > 0 {
            let withdrawn = match self.amount_withdrawn.checked_add(released) {
                Some(total) => total,
                None => return Err(VestingErrorCode::ArithmeticOverflow),
            };
            self.amount_withdrawn = withdrawn;
            self.last_withdraw_at = now;
        }
        self.cancelled_at = now;
        Ok(CancelSettlement { valued_amount: released, escrow_amount: escrow_amount_to_get_back })
    }

    /// Ends the session at `now`: what has vested and is unpaid is paid out, the
    /// rest of what was locked is handed back.
    pub fn cancel(&mut self, now: u64) -> (settlement: Result<CancelSettlement, VestingErrorCode>)
        ensures
            settlement == cancel_outcome(*old(self), now),
            *final(self) == session_after(*old(self), SessionCall::Cancel { now }),
            final(self).amount_withdrawn >= old(self).amount_withdrawn,
            old(self).wf() ==> final(self).wf(),
    {
        if self.cancelled_at != 0 {
            return Err(VestingErrorCode::InteractingWithCanceledSession);
        }
        let released = match calculate_amount_to_release(self, now) {
            Ok(amount) => amount,
            Err(e) => return Err(e),
        };
        self.settle_cancel(released, now)
    }

    /// Ends the session at `now` and pays out all that is unpaid, vested or not.
    pub fn exit(&mut self, now: u64) -> (paid: Result<u64, VestingErrorCode>)
        ensures
            paid == exit_outcome(*old(self)),
            *final(self) == session_after(*old(self), SessionCall::Exit { now }),
            final(self).amount_withdrawn >= old(self).amount_withdrawn,
            old(self).wf() ==> final(self).wf(),
    {
        if self.cancelled_at != 0 {
            return Err(VestingErrorCode::InteractingWithCanceledSession);
        }
        let amount = match self.amount.checked_sub(self.amount_withdrawn) {
            Some(unpaid) => unpaid,
            None => return Err(VestingErrorCode::ArithmeticOverflow),
        };
        let withdrawn = match self.amount_withdrawn.checked_add(amount) {
            Some(total) => total,
            None => return Err(VestingErrorCode::ArithmeticOverflow),
        };
        self.amount_withdrawn = withdrawn;
        self.last_withdraw_at = now;
        self.cancelled_at = now;
        Ok(amount)
    }
}

/// One call never lowers the amount paid out, never pays out more than was
/// locked, and leaves the grant itself as it was.
pub proof fn call_keeps_session_sound(session: VestingSession, call: SessionCall)
    ensures
        session_after(session, call).amount_withdrawn >= session.amount_withdrawn,
        session.wf() ==> session_after(session, call).wf(),
        session_after(session, call).id == session.id,
        session_after(session, call).user == session.user,
        session_after(session, call).vesting_sessions_account == session.vesting_sessions_account,
        session_after(session, call).amount == session.amount,
        session_after(session, call).start_date == session.start_date,
{
}

/// Over any sequence of withdrawals, cancellations and exits the amount paid
/// out never decreases, and on a session that paid out no more than was locked
/// it never exceeds the locked amount.
pub proof fn amount_withdrawn_is_monotonic(session: VestingSession, calls: Seq<SessionCall>)
    ensures
        session_after_all(session, calls).amount_withdrawn >= session.amount_withdrawn,
        session.wf() ==> session_after_all(session, calls).wf(),
        session_after_all(session, calls).amount == session.amount,
    decreases calls.len(),
{
    if calls.len() > 0 {
        amount_withdrawn_is_monotonic(session, calls.drop_last());
        call_keeps_session_sound(session_after_all(session, calls.drop_last()), calls.last());
    }
}

/// On a session that has ended every call is refused as made on a cancelled
/// session, and no sequence of calls changes the session.
pub proof fn terminal_session_is_immutable(session: VestingSession, calls: Seq<SessionCall>)
    requires
        session.cancelled_at != 0,
    ensures
        forall|now: u64| #[trigger]
            withdraw_outcome(session, now) == Err::<u64, VestingErrorCode>(
                VestingErrorCode::InteractingWithCanceledSession,
            ),
        forall|now: u64| #[trigger]
            cancel_outcome(session, now) == Err::<CancelSettlement, VestingErrorCode>(
                VestingErrorCode::InteractingWithCanceledSession,
            ),
        exit_outcome(session) == Err::<u64, VestingErrorCode>(
            VestingErrorCode::InteractingWithCanceledSession,
        ),
        session_after_all(session, calls) == session,
    decreases calls.len(),
{
    if calls.len() > 0 {
        terminal_session_is_immutable(session, calls.drop_last());
    }
}

/// After a withdrawal, a second one at the same second is refused because
/// nothing more is due.
pub proof fn second_withdrawal_at_once_is_refused(session: VestingSession, now: u64)
    requires
        withdraw_outcome(session, now) is Ok,
    ensures
        withdraw_outcome(session_after(session, SessionCall::Withdraw { now }), now) == Err::<
            u64,
            VestingErrorCode,
        >(VestingErrorCode::InsufficientWithdrawalAmount),
{
}

/// A cancellation of an active session of which `released` has vested and is
/// unpaid, and no more than remains: the user is paid `released` in valued
/// tokens, the rest of what was locked is handed back in escrow tokens, the
/// amount paid out grows by `released`, and after second 0 the session has
/// ended.
pub proof fn cancellation_settles_what_remains(session: VestingSession, released: u64, now: u64)
    requires
        session.is_active(),
        session.amount_withdrawn + released <= session.amount,
    ensures
        settle_cancel_outcome(session, released) == Ok::<CancelSettlement, VestingErrorCode>(
            CancelSettlement {
                valued_amount: released,
                escrow_amount: (session.amount - session.amount_withdrawn - released) as u64,
            },
        ),
        after_cancel(session, released, now).amount_withdrawn == session.amount_withdrawn
            + released,
        after_cancel(session, released, now).wf(),
        now > 0 ==> !after_cancel(session, released, now).is_active(),
{
}

/// After a withdrawal at `now`, the session releases at any later second no
/// more than it would have released then without the withdrawal, and does so
/// without error where it would have.
pub proof fn later_withdrawal_releases_no_more(session: VestingSession, now: u64, later: u64)
    requires
        withdraw_outcome(session, now) is Ok,
        now <= later,
        spec_amount_to_release(session, later) is Ok,
    ensures
        ({
            let paid = session_after(session, SessionCall::Withdraw { now });
            &&& spec_amount_to_release(paid, later) is Ok
            &&& spec_amount_to_release(paid, later)->Ok_0 <= spec_amount_to_release(
                session,
                later,
            )->Ok_0
        }),
{
    if later < session.start_date + VESTING_PERIOD_SECONDS {
        let paid = session_after(session, SessionCall::Withdraw { now });
        let rate: int = (session.amount / VESTING_PERIOD_MINUTES) as int;
        let before = elapsed_minutes(session, later);
        let after = elapsed_minutes(paid, later);
        assert(elapsed_minutes(session, now) > 0) by {
            assert(elapsed_minutes(session, now) * rate > 0);
            assert(0 * rate == 0);
        }
        assert(0 <= after <= before);
        assert(after * rate <= before * rate) by (nonlinear_arith)
            requires
                0 <= after <= before,
                0 <= rate,
        ;
        assert(0 <= after * rate) by (nonlinear_arith)
            requires
                0 <= after,
                0 <= rate,
        ;
    }
}

} // verus!
