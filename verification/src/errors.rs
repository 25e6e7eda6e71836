use vstd::prelude::*;

verus! {

/// Every way an operation of the vault can be refused. Each variant is tied to
/// exactly one gate: the caller may resubmit once the condition has changed,
/// the vault itself never retries.
#[derive(Clone, Copy, PartialEq, Eq, Debug)]
pub enum VaultError {
    /// The minimum interval since the last successful crank has not elapsed.
    CrankTooSoon,
    /// The vault balance does not exceed the immutable starting baseline.
    NoProfit,
    /// The swap produced a zero token balance, so there is nothing to split.
    NoTokens,
    /// Release was attempted before the unlock timestamp.
    TimelockActive,
}

} // verus!
