use vstd::prelude::*;

verus! {

/// The balance-accounting half of a deposit: the vault's native balance after
/// `lamports` more have landed, or `None` where the sum no longer fits — the
/// ledger's transfer primitive moves the funds and is the one that refuses a
/// caller with insufficient funds. Deposits are ungated by design and never
/// touch the state record: they only ever increase treasury value, and it is
/// this increase that a later crank detects as profit.
pub fn deposit(vault_balance: u64, lamports: u64) -> (r: Option<u64>)
    ensures
        r is Some <==> vault_balance + lamports <= u64::MAX,
        r is Some ==> r->0 == vault_balance + lamports,
{
    vault_balance.checked_add(lamports)
}

} // verus!
