//! Ledger addresses and the deterministic derivation of the vault's address.
//!
//! The vault lives at a program-derived address computed from the seeds
//! `["vault", mint]` and the program's own identity. The derivation is done
//! by the ledger runtime's library; everything around it (seed choice,
//! validation, bump use) is verified here.

use vstd::prelude::*;

verus! {

broadcast use vstd::array::group_array_axioms;

/// A 32-byte ledger address: a public key or a program-derived address.
#[derive(Clone, Copy, Debug, PartialEq, Eq)]
pub struct Address {
    pub bytes: [u8; 32],
}

impl View for Address {
    type V = Seq<u8>;

    open spec fn view(&self) -> Seq<u8> {
        self.bytes@
    }
}

impl Address {
    /// Builds an address from its raw bytes.
    pub fn new(bytes: [u8; 32]) -> (a: Address)
        ensures
            a@ == bytes@,
    {
        Address { bytes }
    }
}

/// Whether two addresses hold the same 32 bytes.
pub fn same_address(a: &Address, b: &Address) -> (r: bool)
    ensures
        r == (a@ == b@),
{
    let mut i: usize = 0;
    while i < 32
        invariant
            0 <= i <= 32,
            forall|j: int| 0 <= j < i ==> a.bytes@[j] == b.bytes@[j],
        decreases 32 - i,
    {
        if a.bytes[i] != b.bytes[i] {
            return false;
        }
        i += 1;
    }
    proof {
        assert(a@ =~= b@);
    }
    true
}

/// What the runtime's program-address search returns for a two-seed
/// derivation: a function of the two seeds and the program identity alone,
/// the same in every process. `None` means no bump yields an off-curve
/// address.
pub uninterp spec fn pda_of(seed0: Seq<u8>, seed1: Seq<u8>, program: Seq<u8>) -> Option<
    (Seq<u8>, u8),
>;

/// The derived pair seen as plain values.
pub open spec fn view_pda(r: Option<(Address, u8)>) -> Option<(Seq<u8>, u8)> {
    match r {
        Some((a, b)) => Some((a@, b)),
        None => None,
    }
}

/// Relies on solana_program's `Pubkey::try_find_program_address`: off the
/// ledger it computes the derivation inline from the seeds and the program
/// identity alone (a bump search over sha-256 plus an off-curve check), with
/// no other input; it returns `None` when no bump yields an off-curve
/// address.
#[verifier::external_body]
fn find_pda(seed0: &[u8], seed1: &[u8], program_id: &Address) -> (r: Option<(Address, u8)>)
    ensures
        view_pda(r) == pda_of(seed0@, seed1@, program_id@),
{
    let pk = solana_program::pubkey::Pubkey::new_from_array(program_id.bytes);
    match solana_program::pubkey::Pubkey::try_find_program_address(&[seed0, seed1], &pk) {
        Some((pda, bump)) => Some((Address { bytes: pda.to_bytes() }, bump)),
        None => None,
    }
}

/// The fixed first seed of every vault derivation: the bytes of `"vault"`.
pub open spec fn spec_vault_seed() -> Seq<u8> {
    seq![118u8, 97u8, 117u8, 108u8, 116u8]
}

/// The fixed first seed of every vault derivation, as runnable bytes.
pub fn vault_seed() -> (s: Vec<u8>)
    ensures
        s@ == spec_vault_seed(),
{
    let s: Vec<u8> = vec![118u8, 97u8, 117u8, 108u8, 116u8];
    proof {
        assert(s@ =~= spec_vault_seed());
    }
    s
}

/// The vault derivation for a (program, mint) pair: the derived pair for the
/// seeds `["vault", mint]`.
pub open spec fn spec_derive_vault(program: Seq<u8>, mint: Seq<u8>) -> Option<(Seq<u8>, u8)> {
    pda_of(spec_vault_seed(), mint, program)
}

/// Derives the vault address and its bump for a mint under this program.
///
/// Deterministic: the result is a function of the program identity and the
/// mint identity alone, so two calls with equal inputs return equal pairs.
pub fn derive_vault(program_id: &Address, mint: &Address) -> (r: Option<(Address, u8)>)
    ensures
        view_pda(r) == spec_derive_vault(program_id@, mint@),
{
    let seed0 = vault_seed();
    find_pda(seed0.as_slice(), mint.bytes.as_slice(), program_id)
}

/// The bump of the vault derivation when the supplied address is exactly the
/// derived one, and nothing otherwise.
pub open spec fn spec_match_vault(program: Seq<u8>, mint: Seq<u8>, supplied: Seq<u8>) -> Option<
    u8,
> {
    match spec_derive_vault(program, mint) {
        Some((a, b)) => if a == supplied {
            Some(b)
        } else {
            None
        },
        None => None,
    }
}

/// Checks a supplied vault address against the derivation and hands back the
/// bump that proves signing authority when they agree.
pub fn match_vault(program_id: &Address, mint: &Address, supplied: &Address) -> (r: Option<u8>)
    ensures
        r == spec_match_vault(program_id@, mint@, supplied@),
{
    match derive_vault(program_id, mint) {
        Some((derived, bump)) => {
            if same_address(&derived, supplied) {
                Some(bump)
            } else {
                None
            }
        },
        None => None,
    }
}

/// Derivation is pure: any two results of the vault derivation for the same
/// program and mint coincide.
pub proof fn lemma_derive_pure(
    program: Seq<u8>,
    mint: Seq<u8>,
    r1: Option<(Seq<u8>, u8)>,
    r2: Option<(Seq<u8>, u8)>,
)
    requires
        r1 == spec_derive_vault(program, mint),
        r2 == spec_derive_vault(program, mint),
    ensures
        r1 == r2,
{
}

} // verus!
