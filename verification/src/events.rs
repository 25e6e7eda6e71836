use vstd::prelude::*;

verus! {

/// The audit record emitted once per successful crank: how much native profit
/// was converted, how the acquired tokens were split, and where each share
/// went. Together with reads of the state record it is the only externally
/// observable trail.
#[derive(Clone, Copy, PartialEq, Eq, Debug)]
pub struct BuybackEvent {
    /// Native units above the baseline that this crank committed to the swap.
    pub profit_lamports: u64,
    /// Tokens sent to the burn destination.
    pub burn_amount: u64,
    /// Tokens escrowed under the time lock.
    pub lock_amount: u64,
    /// Identity of the token account that received the burn share.
    pub burn_address: [u8; 32],
    /// Identity of the token account that received the locked share.
    pub timelock_account: [u8; 32],
}

} // verus!
