use vstd::prelude::*;
use crate::errors::VestingErrorCode;
use crate::vesting_accounts::VestingSession;

verus! {

/// Length of the vesting period in seconds: 180 days of 24 hours.
pub const VESTING_PERIOD_SECONDS: u64 = 15_552_000;

/// Length of the vesting period in minutes.
pub const VESTING_PERIOD_MINUTES: u64 = 259_200;

/// Whole minutes between the release base of the session and `now`, none when
/// `now` lies before it.
pub open spec fn elapsed_minutes(session: VestingSession, now: u64) -> int {
    if now >= session.release_base() {
        (now - session.release_base()) / 60
    } else {
        0
    }
}

/// What the elapsed minutes have unlocked at the session's rate per minute.
///
/// This is a product of two quotients, which the solver does not work out by
/// itself: a proof about given values asserts the value of
/// `elapsed_minutes(session, now)` and of `session.amount / VESTING_PERIOD_MINUTES`
/// first.
pub open spec fn accrued(session: VestingSession, now: u64) -> int {
    elapsed_minutes(session, now) * (session.amount / VESTING_PERIOD_MINUTES)
}

/// The amount that a session releases at `now`. Once the period has ended it is
/// all that remains; before, what the minutes since the release base have
/// unlocked, capped at what remains. Arithmetic beyond 64 bits is an error.
pub open spec fn spec_amount_to_release(session: VestingSession, now: u64) -> Result<
    u64,
    VestingErrorCode,
> {
    if session.start_date + VESTING_PERIOD_SECONDS > u64::MAX {
        Err(VestingErrorCode::ArithmeticOverflow)
    } else if now >= session.start_date + VESTING_PERIOD_SECONDS {
        Ok(session.remaining() as u64)
    } else if accrued(session, now) > u64::MAX {
        Err(VestingErrorCode::ArithmeticOverflow)
    } else if accrued(session, now) <= session.remaining() {
        Ok(accrued(session, now) as u64)
    } else {
        Ok(session.remaining() as u64)
    }
}

/// The second that a clock reading stands for: the reading itself, taken as an
/// unsigned number of 64 bits.
pub open spec fn spec_clock_seconds(unix_timestamp: i64) -> u64 {
    if unix_timestamp >= 0 {
        unix_timestamp as u64
    } else {
        (unix_timestamp + 0x1_0000_0000_0000_0000) as u64
    }
}

/// The second that a clock reading stands for.
pub fn clock_seconds(unix_timestamp: i64) -> (now: u64)
    ensures
        now == spec_clock_seconds(unix_timestamp),
{
    if unix_timestamp >= 0 {
        unix_timestamp as u64
    } else {
        u64::MAX - ((-(unix_timestamp + 1)) as u64)
    }
}

/// Calculates the amount of tokens that a vesting session releases at `now`.
pub fn calculate_amount_to_release(vesting_session: &VestingSession, now: u64) -> (released: Result<
    u64,
    VestingErrorCode,
>)
    ensures
        released == spec_amount_to_release(*vesting_session, now),
        released matches Err(e) ==> e == VestingErrorCode::ArithmeticOverflow,
{
    let vesting_start = vesting_session.start_date;
    let vesting_end_time = match vesting_start.checked_add(VESTING_PERIOD_SECONDS) {
        Some(end) => end,
        None => return Err(VestingErrorCode::ArithmeticOverflow),
    };
    let available_to_withdraw = vesting_session.amount.saturating_sub(
        vesting_session.amount_withdrawn,
    );
    if now >= vesting_end_time {
        return Ok(available_to_withdraw);
    }
    let last_withdraw_seconds = vesting_session.last_withdraw_at;
    let elapsed_seconds = if last_withdraw_seconds > 0 {
        now.saturating_sub(last_withdraw_seconds)
    } else {
        now.saturating_sub(vesting_start)
    };
    let amount_per_minute = match vesting_session.amount.checked_div(VESTING_PERIOD_MINUTES) {
        Some(rate) => rate,
        None => return Err(VestingErrorCode::DivisionByZero),
    };
    let elapsed = match elapsed_seconds.checked_div(60) {
        Some(minutes) => minutes,
        None => return Err(VestingErrorCode::DivisionByZero),
    };
    let amount_released = match elapsed.checked_mul(amount_per_minute) {
        Some(amount) => amount,
        None => return Err(VestingErrorCode::ArithmeticOverflow),
    };
    if amount_released <= available_to_withdraw {
        Ok(amount_released)
    } else {
        Ok(available_to_withdraw)
    }
}

/// A session never releases less as time goes on: where it releases an amount
/// at `t1` and at a later `t2`, the later amount is at least the earlier one.
pub proof fn release_is_monotonic(session: VestingSession, t1: u64, t2: u64)
    requires
        session.is_active(),
        t1 <= t2,
    ensures
        match (spec_amount_to_release(session, t1), spec_amount_to_release(session, t2)) {
            (Ok(r1), Ok(r2)) => r1 <= r2,
            _ => true,
        },
{
    let rate: int = (session.amount / VESTING_PERIOD_MINUTES) as int;
    let m1 = elapsed_minutes(session, t1);
    let m2 = elapsed_minutes(session, t2);
    assert(0 <= m1 <= m2);
    assert(m1 * rate <= m2 * rate) by (nonlinear_arith)
        requires
            0 <= m1 <= m2,
            0 <= rate,
    ;
    assert(0 <= m1 * rate) by (nonlinear_arith)
        requires
            0 <= m1,
            0 <= rate,
    ;
}

/// A session that nothing was paid out of before it started releases without
/// error at every second, if its period ends within 64 bits.
pub proof fn release_succeeds(session: VestingSession, now: u64)
    requires
        session.start_date + VESTING_PERIOD_SECONDS <= u64::MAX,
        session.last_withdraw_at == 0 || session.last_withdraw_at >= session.start_date,
    ensures
        spec_amount_to_release(session, now) is Ok,
{
    if now < session.start_date + VESTING_PERIOD_SECONDS {
        let rate: int = (session.amount / VESTING_PERIOD_MINUTES) as int;
        let minutes = elapsed_minutes(session, now);
        assert(0 <= minutes <= VESTING_PERIOD_MINUTES);
        assert(minutes * rate <= VESTING_PERIOD_MINUTES * rate) by (nonlinear_arith)
            requires
                0 <= minutes <= VESTING_PERIOD_MINUTES,
                0 <= rate,
        ;
        assert(VESTING_PERIOD_MINUTES * rate <= session.amount);
    }
}

/// A release never exceeds what remains of the session.
pub proof fn release_is_capped(session: VestingSession, now: u64)
    ensures
        spec_amount_to_release(session, now) matches Ok(r) ==> r <= session.remaining(),
{
}

} // verus!
