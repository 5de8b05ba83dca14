use vesting_contract::errors::VestingErrorCode;
use vesting_contract::pubkey::Pubkey;
use vesting_contract::release::VESTING_PERIOD_SECONDS;
use vesting_contract::session::CancelSettlement;
use vesting_contract::vesting_accounts::VestingSession;

fn key(tag: u8) -> Pubkey {
    Pubkey::new_from_array([tag; 32])
}

fn fresh(amount: u64, now: u64) -> VestingSession {
    VestingSession::new(4, key(1), key(2), amount, now)
}

#[test]
fn new_session_has_nothing_paid_out() {
    let s = fresh(1_000_000, 77);
    assert_eq!(
        s,
        VestingSession {
            id: 4,
            user: key(1),
            vesting_sessions_account: key(2),
            amount: 1_000_000,
            amount_withdrawn: 0,
            start_date: 77,
            last_withdraw_at: 0,
            cancelled_at: 0,
        }
    );
}

#[test]
fn withdraw_pays_what_has_vested_and_notes_the_time() {
    let mut s = fresh(15_552_000_000, 0);
    assert_eq!(s.withdraw(7_776_000), Ok(7_776_000_000));
    assert_eq!(s.amount_withdrawn, 7_776_000_000);
    assert_eq!(s.last_withdraw_at, 7_776_000);
    assert_eq!(s.cancelled_at, 0);
    assert_eq!(s.amount, 15_552_000_000);
    assert_eq!(s.start_date, 0);
}

#[test]
fn withdraw_of_nothing_is_refused_and_changes_nothing() {
    let mut s = fresh(15_552_000_000, 100);
    let before = s;
    assert_eq!(s.withdraw(159), Err(VestingErrorCode::InsufficientWithdrawalAmount));
    assert_eq!(s, before);
}

#[test]
fn two_withdrawals_at_the_same_second() {
    let mut s = fresh(15_552_000_000, 1_000);
    assert_eq!(s.withdraw(1_000 + 600), Ok(600_000));
    let after_first = s;
    assert_eq!(s.withdraw(1_000 + 600), Err(VestingErrorCode::InsufficientWithdrawalAmount));
    assert_eq!(s, after_first);
    // a later one sees only the window since the first
    assert_eq!(s.withdraw(1_000 + 600 + 120), Ok(120_000));
    assert_eq!(s.amount_withdrawn, 720_000);
}

#[test]
fn two_withdrawals_after_the_period_pay_once() {
    let mut s = fresh(1_000_000, 0);
    assert_eq!(s.withdraw(VESTING_PERIOD_SECONDS), Ok(1_000_000));
    assert_eq!(s.withdraw(VESTING_PERIOD_SECONDS), Err(VestingErrorCode::InsufficientWithdrawalAmount));
    assert_eq!(s.amount_withdrawn, 1_000_000);
}

#[test]
fn cancel_pays_vested_part_and_returns_the_rest() {
    let mut s = VestingSession {
        id: 0,
        user: key(1),
        vesting_sessions_account: key(2),
        amount: 1000,
        amount_withdrawn: 200,
        start_date: 5,
        last_withdraw_at: 0,
        cancelled_at: 0,
    };
    let settlement = s.settle_cancel(300, 9_000);
    assert_eq!(settlement, Ok(CancelSettlement { valued_amount: 300, escrow_amount: 500 }));
    assert_eq!(s.amount_withdrawn, 500);
    assert_eq!(s.last_withdraw_at, 9_000);
    assert_eq!(s.cancelled_at, 9_000);
    assert_eq!(s.withdraw(10_000), Err(VestingErrorCode::InteractingWithCanceledSession));
}

#[test]
fn cancel_with_nothing_vested_keeps_the_last_withdrawal_time() {
    let mut s = fresh(1_000_000, 50);
    assert_eq!(s.cancel(60), Ok(CancelSettlement { valued_amount: 0, escrow_amount: 1_000_000 }));
    assert_eq!(s.amount_withdrawn, 0);
    assert_eq!(s.last_withdraw_at, 0);
    assert_eq!(s.cancelled_at, 60);
}

#[test]
fn cancel_uses_the_release_at_that_time() {
    let mut s = fresh(15_552_000_000, 0);
    assert_eq!(
        s.cancel(7_776_000),
        Ok(CancelSettlement { valued_amount: 7_776_000_000, escrow_amount: 7_776_000_000 })
    );
    assert_eq!(s.amount_withdrawn, 7_776_000_000);
    assert_eq!(s.last_withdraw_at, 7_776_000);
    assert_eq!(s.cancelled_at, 7_776_000);
}

#[test]
fn cancel_after_the_period_pays_everything_in_valued_tokens() {
    let mut s = fresh(1_000_000, 0);
    assert_eq!(
        s.cancel(VESTING_PERIOD_SECONDS + 5),
        Ok(CancelSettlement { valued_amount: 1_000_000, escrow_amount: 0 })
    );
    assert_eq!(s.amount_withdrawn, 1_000_000);
}

#[test]
fn settle_cancel_of_more_than_remains_overflows() {
    let mut s = fresh(1_000, 0);
    s.amount_withdrawn = 200;
    let before = s;
    assert_eq!(s.settle_cancel(801, 9), Err(VestingErrorCode::ArithmeticOverflow));
    assert_eq!(s, before);
    assert_eq!(s.settle_cancel(800, 9), Ok(CancelSettlement { valued_amount: 800, escrow_amount: 0 }));
}

#[test]
fn cancel_and_exit_of_an_overdrawn_session_overflow() {
    let mut s = fresh(1_000, 0);
    s.amount_withdrawn = 1_001;
    let before = s;
    assert_eq!(s.cancel(100), Err(VestingErrorCode::ArithmeticOverflow));
    assert_eq!(s.exit(100), Err(VestingErrorCode::ArithmeticOverflow));
    assert_eq!(s.withdraw(100), Err(VestingErrorCode::InsufficientWithdrawalAmount));
    assert_eq!(s, before);
}

#[test]
fn exit_pays_all_that_is_unpaid_whatever_has_vested() {
    let mut s = fresh(1_000_000, 500);
    s.amount_withdrawn = 250_000;
    assert_eq!(s.exit(501), Ok(750_000));
    assert_eq!(s.amount_withdrawn, 1_000_000);
    assert_eq!(s.last_withdraw_at, 501);
    assert_eq!(s.cancelled_at, 501);
}

#[test]
fn exit_of_a_fully_paid_session_pays_nothing_and_ends_it() {
    let mut s = fresh(1_000_000, 0);
    assert_eq!(s.withdraw(VESTING_PERIOD_SECONDS), Ok(1_000_000));
    assert_eq!(s.exit(VESTING_PERIOD_SECONDS + 1), Ok(0));
    assert_eq!(s.cancelled_at, VESTING_PERIOD_SECONDS + 1);
    assert_eq!(s.last_withdraw_at, VESTING_PERIOD_SECONDS + 1);
}

#[test]
fn ended_session_refuses_every_call_and_stays_as_it_is() {
    let mut s = fresh(15_552_000_000, 0);
    assert!(s.exit(1_000).is_ok());
    let ended = s;
    for now in [0u64, 1_000, 7_776_000, VESTING_PERIOD_SECONDS, u64::MAX] {
        assert_eq!(s.withdraw(now), Err(VestingErrorCode::InteractingWithCanceledSession));
        assert_eq!(s.cancel(now), Err(VestingErrorCode::InteractingWithCanceledSession));
        assert_eq!(s.settle_cancel(1, now), Err(VestingErrorCode::InteractingWithCanceledSession));
        assert_eq!(s.exit(now), Err(VestingErrorCode::InteractingWithCanceledSession));
        assert_eq!(s, ended);
    }
}

#[test]
fn amount_withdrawn_never_decreases_nor_exceeds_the_amount() {
    let mut s = fresh(15_552_000_000, 0);
    let mut last = 0;
    let mut now = 0;
    while now < VESTING_PERIOD_SECONDS + 3_000_000 {
        let _ = s.withdraw(now);
        assert!(s.amount_withdrawn >= last);
        assert!(s.amount_withdrawn <= s.amount);
        last = s.amount_withdrawn;
        now += 1_234_567;
    }
    assert_eq!(s.amount_withdrawn, s.amount);
    let _ = s.cancel(now);
    assert_eq!(s.amount_withdrawn, s.amount);
}
