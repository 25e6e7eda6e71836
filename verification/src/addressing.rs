use vstd::prelude::*;

verus! {

/// The derived address and bump seed that the host ledger's program-address
/// derivation assigns to the seed pair `(tag, parent)` under `program`. The
/// derivation is a pure function of those inputs (a hash search over bump
/// candidates); its value is left unspecified here and pinned only by the
/// trusted call below.
pub uninterp spec fn pda_of(tag: Seq<u8>, parent: Seq<u8>, program: Seq<u8>) -> Option<
    ([u8; 32], u8),
>;

/// Relies on Pubkey::try_find_program_address: a deterministic derivation,
/// from the seeds and the program id alone, of an off-curve address and the
/// bump seed that produced it; `None` in the statistically improbable event
/// that no bump works (and never a panic).
#[verifier::external_body]
fn find_pda(tag: &[u8], parent: &[u8; 32], program_id: &[u8; 32]) -> (r: Option<([u8; 32], u8)>)
    ensures
        r == pda_of(tag@, parent@, program_id@),
{
    let program = anchor_lang::prelude::Pubkey::new_from_array(*program_id);
    anchor_lang::prelude::Pubkey::try_find_program_address(&[tag, parent], &program).map(
        |found: (anchor_lang::prelude::Pubkey, u8)| (found.0.to_bytes(), found.1),
    )
}

/// The seed tag of the state record's address: the bytes of "state".
pub open spec fn state_seed() -> Seq<u8> {
    seq![115u8, 116u8, 97u8, 116u8, 101u8]
}

/// The seed tag of the vault address: the bytes of "vault".
pub open spec fn vault_seed() -> Seq<u8> {
    seq![118u8, 97u8, 117u8, 108u8, 116u8]
}

/// The seed tag of the timelock authority's address: the bytes of "timelock".
pub open spec fn timelock_seed() -> Seq<u8> {
    seq![116u8, 105u8, 109u8, 101u8, 108u8, 111u8, 99u8, 107u8]
}

/// Derives the address of the state record itself: a pure function of the
/// mint's identity under the given program, with the bump stored once at
/// initialization so signing seeds can be rebuilt without re-deriving.
pub fn derive_state_address(program_id: &[u8; 32], mint: &[u8; 32]) -> (r: Option<([u8; 32], u8)>)
    ensures
        r == pda_of(state_seed(), mint@, program_id@),
{
    let tag: [u8; 5] = [115, 116, 97, 116, 101];
    proof {
        assert(tag@ =~= state_seed());
    }
    find_pda(tag.as_slice(), mint, program_id)
}

/// Derives the vault address: a pure function of the state record's identity
/// under the given program. The address holds native balance only; no private
/// key exists for it, so funds move only under this program's logic.
pub fn derive_vault_address(program_id: &[u8; 32], state_key: &[u8; 32]) -> (r: Option<
    ([u8; 32], u8),
>)
    ensures
        r == pda_of(vault_seed(), state_key@, program_id@),
{
    let tag: [u8; 5] = [118, 97, 117, 108, 116];
    proof {
        assert(tag@ =~= vault_seed());
    }
    find_pda(tag.as_slice(), state_key, program_id)
}

/// Derives the timelock authority's address: a pure function of the state
/// record's identity under the given program. It signs the release of locked
/// tokens and nothing else.
pub fn derive_timelock_address(program_id: &[u8; 32], state_key: &[u8; 32]) -> (r: Option<
    ([u8; 32], u8),
>)
    ensures
        r == pda_of(timelock_seed(), state_key@, program_id@),
{
    let tag: [u8; 8] = [116, 105, 109, 101, 108, 111, 99, 107];
    proof {
        assert(tag@ =~= timelock_seed());
    }
    find_pda(tag.as_slice(), state_key, program_id)
}

/// The three subordinate addresses are derived under pairwise distinct seed
/// tags: no two of the derivations are ever the same application of the
/// derivation function.
pub proof fn lemma_seed_tags_distinct()
    ensures
        state_seed() != vault_seed(),
        state_seed() != timelock_seed(),
        vault_seed() != timelock_seed(),
{
    assert(state_seed()[0] != vault_seed()[0]);
    assert(state_seed().len() != timelock_seed().len());
    assert(vault_seed().len() != timelock_seed().len());
}

} // verus!
