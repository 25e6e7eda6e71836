use vstd::prelude::*;
use crate::crank::{burn_amount_of, crank_gate_spec, crank_too_soon, cranked, lock_amount_of};
use crate::errors::VaultError;
use crate::state::VaultState;
use crate::transaction::Balances;
use crate::TIMELOCK_SECS;

verus! {

/// One operation submitted against the vault, with everything the outside
/// world contributes to it: the clock reading and, for a crank, whatever the
/// swap venue deposited. Deposits and releases carry no state beyond their
/// amounts and times.
pub enum VaultOp {
    /// A top-up of the vault's native balance.
    Deposit { lamports: u64 },
    /// A crank attempt at time `now`; `tokens_received` is the swap's outcome.
    Crank { now: i64, tokens_received: u64 },
    /// A timelock release attempt at time `now`.
    Unlock { now: i64 },
}

/// When a crank commits rather than aborting: its two gates pass, the swap
/// left a nonzero token balance to split, and no balance update would overflow
/// its type — on any of those failures the host aborts the whole transaction
/// and nothing moves.
pub open spec fn crank_commits(s: VaultState, b: Balances, now: i64, tokens_received: u64) -> bool {
    &&& 0 <= now
    &&& now + TIMELOCK_SECS <= i64::MAX
    &&& crank_gate_spec(s, now, b.vault_lamports) is Ok
    &&& b.vault_tokens + tokens_received > 0
    &&& b.vault_tokens + tokens_received <= u64::MAX
    &&& b.burned_tokens + b.vault_tokens + tokens_received <= u64::MAX
    &&& b.locked_tokens + b.vault_tokens + tokens_received <= u64::MAX
}

/// What a committing crank leaves behind: the clocks advanced, the native
/// balance back at the baseline, and the token split applied to the received
/// tokens plus the dust of earlier cranks.
pub open spec fn crank_committed(s: VaultState, b: Balances, now: i64, tokens_received: u64) -> (
    VaultState,
    Balances,
) {
    let total = (b.vault_tokens + tokens_received) as u64;
    (
        cranked(s, now),
        Balances {
            vault_lamports: s.starting_balance_lamports,
            vault_tokens: (total - burn_amount_of(total) - lock_amount_of(total)) as u64,
            burned_tokens: (b.burned_tokens + burn_amount_of(total)) as u64,
            locked_tokens: (b.locked_tokens + lock_amount_of(total)) as u64,
        },
    )
}

/// The vault as a transition system: what one submitted operation does to the
/// state record and the balances. Every operation is all-or-nothing — where
/// its gates or the balance types refuse it, the pair is exactly unchanged.
pub open spec fn step(s: VaultState, b: Balances, op: VaultOp) -> (VaultState, Balances) {
    match op {
        VaultOp::Deposit { lamports } => {
            if b.vault_lamports + lamports <= u64::MAX {
                (
                    s,
                    Balances { vault_lamports: (b.vault_lamports + lamports) as u64, ..b },
                )
            } else {
                (s, b)
            }
        },
        VaultOp::Crank { now, tokens_received } => {
            if crank_commits(s, b, now, tokens_received) {
                crank_committed(s, b, now, tokens_received)
            } else {
                (s, b)
            }
        },
        VaultOp::Unlock { now } => {
            if now >= s.timelock_unlock_ts {
                (s, Balances { locked_tokens: 0, ..b })
            } else {
                (s, b)
            }
        },
    }
}

/// The vault after a whole sequence of submitted operations, oldest first.
pub open spec fn run(s: VaultState, b: Balances, ops: Seq<VaultOp>) -> (VaultState, Balances)
    decreases ops.len(),
{
    if ops.len() == 0 {
        (s, b)
    } else {
        let next = step(s, b, ops[0]);
        run(next.0, next.1, ops.drop_first())
    }
}

/// A sequence of deposits, as submitted operations, oldest first.
pub open spec fn deposit_ops(amounts: Seq<u64>) -> Seq<VaultOp> {
    amounts.map_values(|lamports: u64| VaultOp::Deposit { lamports })
}

/// Deposits only move the native balance: however many of them run, the state
/// record afterwards is exactly the one before.
pub proof fn lemma_deposits_leave_state_unchanged(s: VaultState, b: Balances, amounts: Seq<u64>)
    ensures
        run(s, b, deposit_ops(amounts)).0 == s,
    decreases amounts.len(),
{
    if amounts.len() > 0 {
        let next = step(s, b, deposit_ops(amounts)[0]);
        assert(deposit_ops(amounts).drop_first() =~= deposit_ops(amounts.drop_first()));
        lemma_deposits_leave_state_unchanged(s, next.1, amounts.drop_first());
    }
}

/// No sequence of deposits can unlock an early crank: after any deposits at
/// all, a crank attempted before the minimum interval has elapsed since the
/// last successful one is refused as too soon, and the refused step leaves the
/// state record and every balance exactly as the deposits left them.
pub proof fn lemma_deposits_then_early_crank_change_nothing(
    s: VaultState,
    b: Balances,
    amounts: Seq<u64>,
    now: i64,
    tokens_received: u64,
)
    requires
        crank_too_soon(s, now),
    ensures
        ({
            let after_deposits = run(s, b, deposit_ops(amounts));
            &&& after_deposits.0 == s
            &&& crank_gate_spec(s, now, after_deposits.1.vault_lamports) == Err::<u64, VaultError>(
                VaultError::CrankTooSoon,
            )
            &&& step(after_deposits.0, after_deposits.1, VaultOp::Crank { now, tokens_received })
                == after_deposits
        }),
{
    lemma_deposits_leave_state_unchanged(s, b, amounts);
}

/// No single operation breaks the vault's standing invariants: the state stays
/// well formed with its clocks linked, the whole immutable configuration —
/// the baseline above all — survives untouched, and neither clock ever moves
/// backwards.
pub proof fn lemma_step_preserves_invariants(s: VaultState, b: Balances, op: VaultOp)
    requires
        s.wf(),
        s.clocks_linked(),
    ensures
        step(s, b, op).0.wf(),
        step(s, b, op).0.clocks_linked(),
        step(s, b, op).0.last_crank_ts >= s.last_crank_ts,
        step(s, b, op).0.timelock_unlock_ts >= s.timelock_unlock_ts,
        step(s, b, op).0.starting_balance_lamports == s.starting_balance_lamports,
        step(s, b, op).0.authority == s.authority,
        step(s, b, op).0.mint == s.mint,
        step(s, b, op).0.burn_address == s.burn_address,
{
}

/// The invariants of a single step hold along every trace: however long the
/// vault lives and whatever is thrown at it, the state stays well formed, the
/// baseline it was created with is still the baseline, and both clocks are at
/// least where they started.
pub proof fn lemma_run_preserves_invariants(s: VaultState, b: Balances, ops: Seq<VaultOp>)
    requires
        s.wf(),
        s.clocks_linked(),
    ensures
        run(s, b, ops).0.wf(),
        run(s, b, ops).0.clocks_linked(),
        run(s, b, ops).0.last_crank_ts >= s.last_crank_ts,
        run(s, b, ops).0.timelock_unlock_ts >= s.timelock_unlock_ts,
        run(s, b, ops).0.starting_balance_lamports == s.starting_balance_lamports,
        run(s, b, ops).0.authority == s.authority,
        run(s, b, ops).0.mint == s.mint,
        run(s, b, ops).0.burn_address == s.burn_address,
    decreases ops.len(),
{
    if ops.len() > 0 {
        lemma_step_preserves_invariants(s, b, ops[0]);
        let next = step(s, b, ops[0]);
        lemma_run_preserves_invariants(next.0, next.1, ops.drop_first());
    }
}

} // verus!
