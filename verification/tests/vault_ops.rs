use burnflip_vault::crank::{crank_begin, crank_settle, split_amounts};
use burnflip_vault::deposit::deposit;
use burnflip_vault::errors::VaultError;
use burnflip_vault::state::{initialize, VaultState};
use burnflip_vault::unlock::unlock;
use burnflip_vault::{CRANK_INTERVAL_SECS, TIMELOCK_SECS};

fn fresh_vault(baseline: u64) -> VaultState {
    initialize([7u8; 32], [1u8; 32], [2u8; 32], baseline, 253, 254, 255)
}

#[test]
fn initialize_records_configuration_and_zeroed_clocks() {
    let s = fresh_vault(1000);
    assert_eq!(s.authority, [7u8; 32]);
    assert_eq!(s.mint, [1u8; 32]);
    assert_eq!(s.burn_address, [2u8; 32]);
    assert_eq!(s.starting_balance_lamports, 1000);
    assert_eq!(s.last_crank_ts, 0);
    assert_eq!(s.timelock_unlock_ts, 0);
    assert_eq!(s.bump, 253);
    assert_eq!(s.vault_bump, 254);
    assert_eq!(s.timelock_bump, 255);
}

#[test]
fn deposit_adds_to_the_vault_balance() {
    assert_eq!(deposit(1000, 500), Some(1500));
    assert_eq!(deposit(0, 0), Some(0));
}

#[test]
fn deposit_refuses_a_sum_beyond_the_balance_type() {
    assert_eq!(deposit(u64::MAX, 1), None);
    assert_eq!(deposit(u64::MAX, 0), Some(u64::MAX));
}

#[test]
fn crank_before_interval_fails_too_soon_and_changes_nothing() {
    let s = fresh_vault(1000);
    // Deposits first: they never touch the state record.
    let balance = deposit(1000, 500).unwrap();
    let r = crank_begin(&s, CRANK_INTERVAL_SECS - 1, balance);
    assert_eq!(r, Err(VaultError::CrankTooSoon));
    assert_eq!(s, fresh_vault(1000));
}

#[test]
fn crank_without_profit_fails_no_profit() {
    let s = fresh_vault(1000);
    // Balance exactly at the baseline: not strict profit.
    assert_eq!(crank_begin(&s, 200, 1000), Err(VaultError::NoProfit));
    // Balance below the baseline.
    assert_eq!(crank_begin(&s, 200, 999), Err(VaultError::NoProfit));
    // One unit above the baseline is profit.
    assert_eq!(crank_begin(&s, 200, 1001), Ok(1));
}

#[test]
fn crank_settle_with_zero_tokens_fails_and_changes_nothing() {
    let mut s = fresh_vault(1000);
    let before = s;
    let r = crank_settle(&mut s, 200, 500, 0, [3u8; 32], [4u8; 32]);
    assert_eq!(r, Err(VaultError::NoTokens));
    assert_eq!(s, before);
}

#[test]
fn split_is_eighty_twenty_rounded_down() {
    assert_eq!(split_amounts(1000), (800, 200));
    assert_eq!(split_amounts(10_000), (8000, 2000));
    // Truncation leaves non-negative dust behind.
    assert_eq!(split_amounts(999), (799, 199));
    assert_eq!(split_amounts(1), (0, 0));
    assert_eq!(split_amounts(9), (7, 1));
    assert_eq!(split_amounts(0), (0, 0));
}

#[test]
fn split_of_the_largest_amount_does_not_overflow() {
    let (burn, lock) = split_amounts(u64::MAX);
    assert_eq!(burn, 14_757_395_258_967_641_292);
    assert_eq!(lock, 3_689_348_814_741_910_323);
    assert!(burn as u128 + lock as u128 <= u64::MAX as u128);
}

#[test]
fn profitable_crank_splits_and_resets_both_clocks() {
    // Baseline 1000, deposit 500, crank after the interval: profit 500,
    // the swap yields 1000 tokens, burn 800, lock 200, unlock in 7 days.
    let mut s = fresh_vault(1000);
    let balance = deposit(1000, 500).unwrap();
    let now = 200i64;
    let profit = crank_begin(&s, now, balance).unwrap();
    assert_eq!(profit, 500);
    let ev = crank_settle(&mut s, now, profit, 1000, [3u8; 32], [4u8; 32]).unwrap();
    assert_eq!(ev.profit_lamports, 500);
    assert_eq!(ev.burn_amount, 800);
    assert_eq!(ev.lock_amount, 200);
    assert_eq!(ev.burn_address, [3u8; 32]);
    assert_eq!(ev.timelock_account, [4u8; 32]);
    assert_eq!(s.last_crank_ts, now);
    assert_eq!(s.timelock_unlock_ts, now + TIMELOCK_SECS);
    assert_eq!(s.timelock_unlock_ts, now + 7 * 24 * 60 * 60);
    // The immutable configuration is untouched.
    assert_eq!(s.starting_balance_lamports, 1000);
    assert_eq!(s.mint, [1u8; 32]);
}

#[test]
fn second_crank_within_interval_fails_and_state_matches_the_first() {
    let mut s = fresh_vault(1000);
    let now = 200i64;
    let profit = crank_begin(&s, now, 1500).unwrap();
    crank_settle(&mut s, now, profit, 1000, [3u8; 32], [4u8; 32]).unwrap();
    let after_first = s;
    let again = crank_begin(&s, now + CRANK_INTERVAL_SECS - 1, 2000);
    assert_eq!(again, Err(VaultError::CrankTooSoon));
    assert_eq!(s, after_first);
    // After a full interval the rate limit admits a crank again.
    assert_eq!(crank_begin(&s, now + CRANK_INTERVAL_SECS, 2000), Ok(1000));
}

#[test]
fn each_crank_pushes_the_unlock_clock_forward() {
    let mut s = fresh_vault(1000);
    let profit = crank_begin(&s, 200, 1500).unwrap();
    crank_settle(&mut s, 200, profit, 1000, [3u8; 32], [4u8; 32]).unwrap();
    let first_unlock = s.timelock_unlock_ts;
    let t2 = 200 + CRANK_INTERVAL_SECS;
    let profit = crank_begin(&s, t2, 1600).unwrap();
    assert_eq!(profit, 600);
    crank_settle(&mut s, t2, profit, 50, [3u8; 32], [4u8; 32]).unwrap();
    assert_eq!(s.timelock_unlock_ts, t2 + TIMELOCK_SECS);
    assert!(s.timelock_unlock_ts > first_unlock);
}

#[test]
fn unlock_at_exactly_the_unlock_time_succeeds_one_second_earlier_fails() {
    let mut s = fresh_vault(1000);
    let profit = crank_begin(&s, 200, 1500).unwrap();
    crank_settle(&mut s, 200, profit, 1000, [3u8; 32], [4u8; 32]).unwrap();
    let ts = s.timelock_unlock_ts;
    assert_eq!(unlock(&s, ts - 1, 200), Err(VaultError::TimelockActive));
    assert_eq!(unlock(&s, ts, 200), Ok(200));
    assert_eq!(unlock(&s, ts + 1, 200), Ok(200));
}

#[test]
fn unlock_drains_whatever_has_accumulated_each_time() {
    let mut s = fresh_vault(1000);
    let profit = crank_begin(&s, 200, 1500).unwrap();
    crank_settle(&mut s, 200, profit, 1000, [3u8; 32], [4u8; 32]).unwrap();
    let ts = s.timelock_unlock_ts;
    // Repeated releases after maturity: each returns the full current balance.
    assert_eq!(unlock(&s, ts, 200), Ok(200));
    assert_eq!(unlock(&s, ts + 5, 75), Ok(75));
    assert_eq!(unlock(&s, ts + 9, 0), Ok(0));
}

#[test]
fn fresh_vault_unlocks_immediately_since_no_crank_locked_anything() {
    let s = fresh_vault(1000);
    assert_eq!(s.timelock_unlock_ts, 0);
    assert_eq!(unlock(&s, 0, 0), Ok(0));
}
