use vstd::prelude::*;
use crate::TIMELOCK_SECS;

verus! {

/// The single persistent record of one vault: immutable configuration chosen
/// at creation, plus the two timestamps that the crank engine advances.
/// Identities are 32-byte addresses held as plain bytes.
#[derive(Clone, Copy, PartialEq, Eq, Debug)]
pub struct VaultState {
    /// Identity that created the vault; informational only.
    pub authority: [u8; 32],
    /// Identity of the token this vault burns and locks.
    pub mint: [u8; 32],
    /// Destination treated as a verified burn sink.
    pub burn_address: [u8; 32],
    /// Immutable baseline: profit is always measured against this value and it
    /// is never rewritten after creation.
    pub starting_balance_lamports: u64,
    /// Timestamp of the most recent successful crank; 0 before the first.
    pub last_crank_ts: i64,
    /// Timestamp at or after which the locked tokens may be released; 0 until
    /// the first crank.
    pub timelock_unlock_ts: i64,
    /// Derivation bump of the state record's own address.
    pub bump: u8,
    /// Derivation bump of the vault address.
    pub vault_bump: u8,
    /// Derivation bump of the timelock authority address.
    pub timelock_bump: u8,
}

impl VaultState {
    /// Well-formedness: both clocks are genuine (non-negative) timestamps.
    /// `initialize` establishes this and `crank_settle` preserves it.
    pub open spec fn wf(self) -> bool {
        &&& 0 <= self.last_crank_ts
        &&& 0 <= self.timelock_unlock_ts
    }

    /// The relation every reachable state satisfies between its two clocks:
    /// either no crank has happened yet and both are zero, or the unlock clock
    /// sits exactly one maturity duration after the last crank.
    pub open spec fn clocks_linked(self) -> bool {
        ||| (self.last_crank_ts == 0 && self.timelock_unlock_ts == 0)
        ||| self.timelock_unlock_ts == self.last_crank_ts + TIMELOCK_SECS
    }
}

/// Creates the state record: the given configuration, both clocks zeroed, and
/// the three derivation bumps stored so signing seeds can be rebuilt later.
/// The baseline recorded here is write-once; no other operation touches it.
pub fn initialize(
    authority: [u8; 32],
    mint: [u8; 32],
    burn_address: [u8; 32],
    starting_balance_lamports: u64,
    bump: u8,
    vault_bump: u8,
    timelock_bump: u8,
) -> (s: VaultState)
    ensures
        s == (VaultState {
            authority,
            mint,
            burn_address,
            starting_balance_lamports,
            last_crank_ts: 0,
            timelock_unlock_ts: 0,
            bump,
            vault_bump,
            timelock_bump,
        }),
        s.wf(),
        s.clocks_linked(),
{
    VaultState {
        authority,
        mint,
        burn_address,
        starting_balance_lamports,
        last_crank_ts: 0,
        timelock_unlock_ts: 0,
        bump,
        vault_bump,
        timelock_bump,
    }
}

} // verus!
