use vstd::prelude::*;
use crate::errors::VaultError;
use crate::state::VaultState;

verus! {

/// What the timelock release decides: before the unlock timestamp it fails,
/// at or after it the entire currently locked balance is released in one
/// piece — no partial release exists.
pub open spec fn unlock_spec(s: VaultState, now: i64, locked_amount: u64) -> Result<
    u64,
    VaultError,
> {
    if now < s.timelock_unlock_ts {
        Err(VaultError::TimelockActive)
    } else {
        Ok(locked_amount)
    }
}

/// Decides a timelock release at time `now`, where `locked_amount` is the
/// entire current balance of the time-locked holding account: refused while
/// the lock is still active, and otherwise the full amount — never a part of
/// it — is to be transferred out. The state record is not touched, so the
/// release may be called again for whatever accumulates later.
pub fn unlock(state: &VaultState, now: i64, locked_amount: u64) -> (r: Result<u64, VaultError>)
    ensures
        r == unlock_spec(*state, now, locked_amount),
        now < state.timelock_unlock_ts <==> r == Err::<u64, VaultError>(VaultError::TimelockActive),
        now >= state.timelock_unlock_ts <==> r == Ok::<u64, VaultError>(locked_amount),
{
    if now < state.timelock_unlock_ts {
        Err(VaultError::TimelockActive)
    } else {
        Ok(locked_amount)
    }
}

} // verus!
