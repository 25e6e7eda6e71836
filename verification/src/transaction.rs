use vstd::prelude::*;
use crate::crank::{
    burn_amount_of, crank_begin, crank_gate_spec, crank_settle, cranked, lock_amount_of,
};
use crate::deposit::deposit;
use crate::errors::VaultError;
use crate::events::BuybackEvent;
use crate::lifecycle::{step, VaultOp};
use crate::state::VaultState;
use crate::unlock::{unlock, unlock_spec};
use crate::TIMELOCK_SECS;

verus! {

/// Snapshot of every balance the vault's operations move: the vault's native
/// balance, the vault's own token account (where rounding dust accumulates),
/// the burn destination, and the time-locked holding account. Each operation
/// below executes against it as one atomic unit: it either commits entirely or
/// fails with the snapshot untouched, mirroring the host's all-or-nothing
/// transaction semantics.
#[derive(Clone, Copy, PartialEq, Eq, Debug)]
pub struct Balances {
    /// Native units held at the vault address.
    pub vault_lamports: u64,
    /// Tokens sitting in the vault's own token account.
    pub vault_tokens: u64,
    /// Tokens accumulated at the burn destination.
    pub burned_tokens: u64,
    /// Tokens escrowed in the time-locked holding account.
    pub locked_tokens: u64,
}

/// A deposit as one atomic unit: it adds to the vault's native balance and
/// touches nothing else — deposits are ungated and never mutate the state
/// record. It reports failure only where the sum no longer fits the balance
/// type; a caller without the funds is refused by the ledger itself, before
/// this accounting happens.
pub fn deposit_transaction(balances: &mut Balances, lamports: u64) -> (ok: bool)
    ensures
        ok <==> old(balances).vault_lamports + lamports <= u64::MAX,
        ok ==> *final(balances) == (Balances {
            vault_lamports: (old(balances).vault_lamports + lamports) as u64,
            ..*old(balances)
        }),
        !ok ==> *final(balances) == *old(balances),
        // A deposit is one step of the vault's transition system, whatever
        // state record it runs beside.
        forall|s: VaultState|
            step(s, *old(balances), VaultOp::Deposit { lamports }) == (s, *final(balances)),
{
    match deposit(balances.vault_lamports, lamports) {
        Some(grown) => {
            balances.vault_lamports = grown;
            true
        },
        None => false,
    }
}

/// A whole crank as one atomic unit, with the swap venue's outcome handed in:
/// `tokens_received` is whatever the venue deposited into the vault's token
/// account, about which nothing is assumed. On any refusal — too soon, no
/// profit, or a zero token balance after the swap — the state record and every
/// balance are exactly as before. On success the profit (and only the profit)
/// has left the native balance, bringing it back to the baseline; the split is
/// taken from the received tokens plus the dust earlier cranks left behind;
/// the dust of this split stays in the vault's token account; and no token is
/// created or lost in the move. The model takes the design's own assumption
/// that the swap consumes the whole wrapped profit; residue the close step
/// returns is counted as principal by the next crank.
pub fn crank_transaction(
    state: &mut VaultState,
    balances: &mut Balances,
    now: i64,
    tokens_received: u64,
    burn_token_account: [u8; 32],
    timelock_token_account: [u8; 32],
) -> (r: Result<BuybackEvent, VaultError>)
    requires
        old(state).wf(),
        0 <= now,
        now + TIMELOCK_SECS <= i64::MAX,
        // The token ledger could not hold the swap's result otherwise.
        old(balances).vault_tokens + tokens_received <= u64::MAX,
        old(balances).burned_tokens + old(balances).vault_tokens + tokens_received <= u64::MAX,
        old(balances).locked_tokens + old(balances).vault_tokens + tokens_received <= u64::MAX,
    ensures
        final(state).wf(),
        // One step of the vault's transition system, swap outcome included.
        step(*old(state), *old(balances), VaultOp::Crank { now, tokens_received }) == (
            *final(state),
            *final(balances),
        ),
        r is Err ==> *final(state) == *old(state) && *final(balances) == *old(balances),
        crank_gate_spec(*old(state), now, old(balances).vault_lamports) matches Err(e)
            ==> r == Err::<BuybackEvent, VaultError>(e),
        crank_gate_spec(*old(state), now, old(balances).vault_lamports) is Ok
            && old(balances).vault_tokens + tokens_received == 0
            ==> r == Err::<BuybackEvent, VaultError>(VaultError::NoTokens),
        r is Ok <==> crank_gate_spec(*old(state), now, old(balances).vault_lamports) is Ok
            && old(balances).vault_tokens + tokens_received > 0,
        r is Ok ==> {
            let profit = crank_gate_spec(*old(state), now, old(balances).vault_lamports)->Ok_0;
            let total = (old(balances).vault_tokens + tokens_received) as u64;
            &&& *final(state) == cranked(*old(state), now)
            &&& r->Ok_0.profit_lamports == profit
            &&& r->Ok_0.burn_amount == burn_amount_of(total)
            &&& r->Ok_0.lock_amount == lock_amount_of(total)
            &&& r->Ok_0.burn_address == burn_token_account
            &&& r->Ok_0.timelock_account == timelock_token_account
            // The native balance returns exactly to the baseline.
            &&& final(balances).vault_lamports == old(state).starting_balance_lamports
            &&& final(balances).burned_tokens == old(balances).burned_tokens + burn_amount_of(total)
            &&& final(balances).locked_tokens == old(balances).locked_tokens + lock_amount_of(total)
            // Only the dust of the truncating split stays behind.
            &&& final(balances).vault_tokens
                == total - burn_amount_of(total) - lock_amount_of(total)
            // Conservation: the move neither creates nor destroys tokens.
            &&& final(balances).vault_tokens + final(balances).burned_tokens
                + final(balances).locked_tokens
                == old(balances).vault_tokens + old(balances).burned_tokens
                + old(balances).locked_tokens + tokens_received
        },
{
    let profit_lamports = match crank_begin(state, now, balances.vault_lamports) {
        Ok(p) => p,
        Err(e) => { return Err(e) },
    };
    let total_tokens = balances.vault_tokens + tokens_received;
    let event = match crank_settle(
        state,
        now,
        profit_lamports,
        total_tokens,
        burn_token_account,
        timelock_token_account,
    ) {
        Ok(ev) => ev,
        Err(e) => { return Err(e) },
    };
    balances.vault_lamports = balances.vault_lamports - profit_lamports;
    balances.vault_tokens = total_tokens - event.burn_amount - event.lock_amount;
    balances.burned_tokens = balances.burned_tokens + event.burn_amount;
    balances.locked_tokens = balances.locked_tokens + event.lock_amount;
    Ok(event)
}

/// A timelock release as one atomic unit: refused in full while the lock is
/// active, and otherwise it drains the entire locked balance — never a part of
/// it — to the caller's destination, which is outside this snapshot. The state
/// record is untouched either way, so the release can be repeated for whatever
/// accumulates later.
pub fn unlock_transaction(state: &VaultState, balances: &mut Balances, now: i64) -> (r: Result<
    u64,
    VaultError,
>)
    ensures
        r == unlock_spec(*state, now, old(balances).locked_tokens),
        // One step of the vault's transition system.
        step(*state, *old(balances), VaultOp::Unlock { now }) == (*state, *final(balances)),
        r is Err ==> *final(balances) == *old(balances),
        r is Ok ==> r->Ok_0 == old(balances).locked_tokens && *final(balances) == (Balances {
            locked_tokens: 0,
            ..*old(balances)
        }),
{
    match unlock(state, now, balances.locked_tokens) {
        Ok(amount) => {
            balances.locked_tokens = 0;
            Ok(amount)
        },
        Err(e) => Err(e),
    }
}

} // verus!
