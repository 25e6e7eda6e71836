use vstd::prelude::*;
use crate::errors::VaultError;
use crate::events::BuybackEvent;
use crate::state::VaultState;
use crate::{BPS_DENOMINATOR, BURN_BPS, CRANK_INTERVAL_SECS, LOCK_BPS, TIMELOCK_SECS};

verus! {

/// The crank's rate limit: true when the minimum interval since the last
/// successful crank has not yet elapsed at time `now`.
pub open spec fn crank_too_soon(s: VaultState, now: i64) -> bool {
    now - s.last_crank_ts < CRANK_INTERVAL_SECS
}

/// What the crank's entry gates decide from the state record, the clock and
/// the vault's current native balance: the rate limit is checked first, then
/// the balance must strictly exceed the immutable baseline; on success the
/// profit is exactly the excess over the baseline.
pub open spec fn crank_gate_spec(s: VaultState, now: i64, vault_balance: u64) -> Result<
    u64,
    VaultError,
> {
    if crank_too_soon(s, now) {
        Err(VaultError::CrankTooSoon)
    } else if vault_balance <= s.starting_balance_lamports {
        Err(VaultError::NoProfit)
    } else {
        Ok((vault_balance - s.starting_balance_lamports) as u64)
    }
}

/// Tokens burned out of a crank that acquired `token_amount` tokens:
/// the basis-point share, rounded down.
pub open spec fn burn_amount_of(token_amount: u64) -> int {
    token_amount * BURN_BPS / (BPS_DENOMINATOR as int)
}

/// Tokens escrowed out of a crank that acquired `token_amount` tokens:
/// the basis-point share, rounded down.
pub open spec fn lock_amount_of(token_amount: u64) -> int {
    token_amount * LOCK_BPS / (BPS_DENOMINATOR as int)
}

/// The state record after a successful crank executed at time `now`: both
/// clocks are reset from `now` — the unlock clock unconditionally, so each
/// crank extends the lock on everything escrowed so far — and every other
/// field is untouched.
pub open spec fn cranked(s: VaultState, now: i64) -> VaultState {
    VaultState {
        last_crank_ts: now,
        timelock_unlock_ts: (now + TIMELOCK_SECS) as i64,
        ..s
    }
}

/// Decides whether a crank may proceed and, if so, how much native balance to
/// commit to the swap. This runs before any fund movement: on an error the
/// caller must move nothing, so a refused crank leaves the state record and
/// every balance unchanged (the record is not even writable from here).
pub fn crank_begin(state: &VaultState, now: i64, vault_balance: u64) -> (r: Result<
    u64,
    VaultError,
>)
    requires
        state.wf(),
        0 <= now,
    ensures
        r == crank_gate_spec(*state, now, vault_balance),
{
    if now - state.last_crank_ts < CRANK_INTERVAL_SECS {
        return Err(VaultError::CrankTooSoon);
    }
    if vault_balance <= state.starting_balance_lamports {
        return Err(VaultError::NoProfit);
    }
    Ok(vault_balance - state.starting_balance_lamports)
}

/// Splits a crank's token proceeds deterministically: the burn share and the
/// lock share, each a basis-point fraction rounded down. The rounding dust is
/// non-negative and stays behind in the vault's token account, to be swept up
/// by a later crank.
pub fn split_amounts(token_amount: u64) -> (r: (u64, u64))
    ensures
        r.0 == burn_amount_of(token_amount),
        r.1 == lock_amount_of(token_amount),
        r.0 + r.1 <= token_amount,
{
    let wide: u128 = token_amount as u128;
    proof {
        assert(wide * (BURN_BPS as u128) <= u64::MAX * 10000 && wide * (LOCK_BPS as u128)
            <= u64::MAX * 10000) by (nonlinear_arith)
            requires
                wide <= u64::MAX,
        ;
    }
    let burn: u128 = wide * (BURN_BPS as u128) / (BPS_DENOMINATOR as u128);
    let lock: u128 = wide * (LOCK_BPS as u128) / (BPS_DENOMINATOR as u128);
    proof {
        lemma_split_within_total(token_amount);
    }
    (burn as u64, lock as u64)
}

/// The split never mints: each share is at most the whole, and the two shares
/// together never exceed the amount being split, whatever that amount is.
pub proof fn lemma_split_within_total(token_amount: u64)
    ensures
        0 <= burn_amount_of(token_amount) <= token_amount,
        0 <= lock_amount_of(token_amount) <= token_amount,
        burn_amount_of(token_amount) + lock_amount_of(token_amount) <= token_amount,
{
    let t = token_amount as int;
    assert(t * 8000 / 10000 + t * 2000 / 10000 <= t && 0 <= t * 8000 / 10000 <= t && 0 <= t * 2000
        / 10000 <= t) by (nonlinear_arith)
        requires
            0 <= t,
    ;
}

/// Settles a crank after the swap has run: given the profit committed by
/// `crank_begin` and the token amount the swap produced, it refuses a zero
/// result, otherwise splits the tokens, advances both clocks from `now`, and
/// reports the audit event. On the error path the state record is untouched,
/// matching the host's all-or-nothing transaction semantics.
pub fn crank_settle(
    state: &mut VaultState,
    now: i64,
    profit_lamports: u64,
    token_amount: u64,
    burn_token_account: [u8; 32],
    timelock_token_account: [u8; 32],
) -> (r: Result<BuybackEvent, VaultError>)
    requires
        old(state).wf(),
        0 <= now,
        now + TIMELOCK_SECS <= i64::MAX,
    ensures
        final(state).wf(),
        // The baseline is write-once: no crank, successful or not, rewrites it.
        final(state).starting_balance_lamports == old(state).starting_balance_lamports,
        r is Ok <==> token_amount > 0,
        token_amount == 0 ==> r == Err::<BuybackEvent, VaultError>(VaultError::NoTokens)
            && *final(state) == *old(state),
        token_amount > 0 ==> {
            &&& *final(state) == cranked(*old(state), now)
            &&& final(state).last_crank_ts == now
            &&& final(state).timelock_unlock_ts == now + TIMELOCK_SECS
            &&& final(state).clocks_linked()
            &&& r->Ok_0.profit_lamports == profit_lamports
            &&& r->Ok_0.burn_amount == burn_amount_of(token_amount)
            &&& r->Ok_0.lock_amount == lock_amount_of(token_amount)
            &&& r->Ok_0.burn_amount + r->Ok_0.lock_amount <= token_amount
            &&& r->Ok_0.burn_address == burn_token_account
            &&& r->Ok_0.timelock_account == timelock_token_account
        },
{
    if token_amount == 0 {
        return Err(VaultError::NoTokens);
    }
    let (burn_amount, lock_amount) = split_amounts(token_amount);
    state.last_crank_ts = now;
    state.timelock_unlock_ts = now + TIMELOCK_SECS;
    Ok(
        BuybackEvent {
            profit_lamports,
            burn_amount,
            lock_amount,
            burn_address: burn_token_account,
            timelock_account: timelock_token_account,
        },
    )
}

/// A crank attempted when the balance does not exceed the baseline is refused
/// for lack of profit (the rate limit, checked first, must already have
/// passed), and the refusal happens before any fund movement.
pub proof fn lemma_no_profit_refused(s: VaultState, now: i64, vault_balance: u64)
    requires
        !crank_too_soon(s, now),
        vault_balance <= s.starting_balance_lamports,
    ensures
        crank_gate_spec(s, now, vault_balance) == Err::<u64, VaultError>(VaultError::NoProfit),
{
}

/// A successful crank strictly advances both clocks: the crank timestamp,
/// because the rate limit only admits a crank a full interval after the last
/// one, and the unlock timestamp, because in every reachable state it sits at
/// most one maturity duration after the last crank. Neither clock ever moves
/// backwards.
pub proof fn lemma_crank_advances_clocks(s: VaultState, now: i64, vault_balance: u64)
    requires
        s.wf(),
        s.clocks_linked(),
        now + TIMELOCK_SECS <= i64::MAX,
        crank_gate_spec(s, now, vault_balance) is Ok,
    ensures
        cranked(s, now).last_crank_ts > s.last_crank_ts,
        cranked(s, now).last_crank_ts - s.last_crank_ts >= CRANK_INTERVAL_SECS,
        cranked(s, now).timelock_unlock_ts > s.timelock_unlock_ts,
{
}

/// Two cranks cannot land closer together than the minimum interval: after a
/// crank settled at time `t1`, any crank attempted at a time `t2` less than a
/// full interval later is refused as too soon, whatever the balance — so the
/// state after the refused attempt is exactly the state the first crank left.
pub proof fn lemma_crank_rate_limited(s: VaultState, t1: i64, t2: i64, vault_balance: u64)
    requires
        t2 - t1 < CRANK_INTERVAL_SECS,
    ensures
        crank_gate_spec(cranked(s, t1), t2, vault_balance) == Err::<u64, VaultError>(
            VaultError::CrankTooSoon,
        ),
{
}

} // verus!
