use vstd::prelude::*;

use crate::error::ProgramError;

verus! {

/// A 32-byte identity: an account's address, or a program's identity.
#[derive(Clone, Copy, Debug, PartialEq, Eq)]
pub struct Address {
    pub bytes: [u8; 32],
}

impl View for Address {
    type V = Seq<u8>;

    open spec fn view(&self) -> Seq<u8> {
        self.bytes@
    }
}

impl Address {
    pub fn new(bytes: [u8; 32]) -> (r: Address)
        ensures
            r.bytes == bytes,
    {
        Address { bytes }
    }

    /// Byte-wise comparison of two identities.
    pub fn equals(&self, other: &Address) -> (r: bool)
        ensures
            r == (self@ == other@),
    {
        let mut i: usize = 0;
        while i < 32
            invariant
                i <= 32,
                forall|j: int| 0 <= j < i ==> self@[j] == other@[j],
            decreases 32 - i,
        {
            if self.bytes[i] != other.bytes[i] {
                return false;
            }
            i = i + 1;
        }
        assert(self@ =~= other@);
        true
    }

    /// Reads an identity from exactly 32 bytes.
    pub fn from_slice(b: &[u8]) -> (r: Address)
        requires
            b@.len() == 32,
        ensures
            r@ == b@,
    {
        let mut bytes = [0u8; 32];
        let mut i: usize = 0;
        while i < 32
            invariant
                i <= 32,
                b@.len() == 32,
                forall|j: int| 0 <= j < i ==> bytes@[j] == b@[j],
            decreases 32 - i,
        {
            bytes[i] = b[i];
            i = i + 1;
        }
        let r = Address { bytes };
        assert(r@ =~= b@);
        r
    }

    /// The identity as a seed for address derivation.
    pub fn to_seed(&self) -> (r: Vec<u8>)
        ensures
            r@ == self@,
    {
        let mut r: Vec<u8> = Vec::new();
        let mut i: usize = 0;
        while i < 32
            invariant
                i <= 32,
                r@ == self@.take(i as int),
            decreases 32 - i,
        {
            r.push(self.bytes[i]);
            i = i + 1;
            assert(r@ =~= self@.take(i as int));
        }
        assert(self@.take(32) =~= self@);
        r
    }
}

/// Two identities with the same bytes are the same value.
pub proof fn lemma_address_ext(a: Address, b: Address)
    requires
        a@ == b@,
    ensures
        a == b,
{
    assert(a.bytes =~= b.bytes);
}

/// The identity whose bytes are `b` (meaningful when `b` has 32 bytes).
pub open spec fn address_of(b: Seq<u8>) -> Address {
    choose|a: Address| a@ == b
}

/// Reading an identity back from its own bytes gives that identity.
pub proof fn lemma_address_of(a: Address)
    ensures
        address_of(a@) == a,
{
    let c = address_of(a@);
    assert(c@ == a@);
    lemma_address_ext(c, a);
}

/// A derived address together with the bump seed that moved it off the
/// signer-controlled address space.
#[derive(Clone, Copy, Debug, PartialEq, Eq)]
pub struct Derived {
    pub address: Address,
    pub bump: u8,
}

/// The address and bump that the ledger's program-address search yields for
/// `seeds` under the program identity `program`, if the search succeeds.
pub uninterp spec fn program_address(seeds: Seq<Seq<u8>>, program: Seq<u8>) -> Option<(Seq<u8>, u8)>;

/// A list of seed buffers as byte sequences.
pub open spec fn seeds_view(seeds: Seq<Vec<u8>>) -> Seq<Seq<u8>> {
    seeds.map_values(|s: Vec<u8>| s@)
}

/// What `derive_address` returns for `seeds` under `program`.
pub open spec fn derivation(program: Seq<u8>, seeds: Seq<Seq<u8>>) -> Result<(Seq<u8>, u8), ProgramError> {
    match program_address(seeds, program) {
        Some(found) => Ok(found),
        None => Err(ProgramError::NoDerivedAddress),
    }
}

/// A derivation result with the address as its bytes.
pub open spec fn derived_view(r: Result<Derived, ProgramError>) -> Result<(Seq<u8>, u8), ProgramError> {
    match r {
        Ok(d) => Ok((d.address@, d.bump)),
        Err(e) => Err(e),
    }
}

/// Relies on `Pubkey::try_find_program_address` of solana_program: the search over
/// bump seeds hashes the seeds and the program identity only, so its outcome is a
/// function of those two inputs.
#[verifier::external_body]
fn try_find_program_address(seeds: &Vec<Vec<u8>>, program: &Address) -> (r: Option<Derived>)
    ensures
        program_address(seeds_view(seeds@), program@) == match r {
            Some(d) => Some((d.address@, d.bump)),
            None => None,
        },
{
    let slices: Vec<&[u8]> = seeds.iter().map(|s| s.as_slice()).collect();
    let program_key = solana_program::pubkey::Pubkey::new_from_array(program.bytes);
    solana_program::pubkey::Pubkey::try_find_program_address(&slices, &program_key).map(
        |(key, bump)| Derived { address: Address { bytes: key.to_bytes() }, bump },
    )
}

/// Derives the canonical address for `seeds` under the program identity `program`.
pub fn derive_address(program: &Address, seeds: &Vec<Vec<u8>>) -> (r: Result<Derived, ProgramError>)
    ensures
        derived_view(r) == derivation(program@, seeds_view(seeds@)),
{
    match try_find_program_address(seeds, program) {
        Some(d) => Ok(d),
        None => Err(ProgramError::NoDerivedAddress),
    }
}

/// The seed tuples from which this family of programs derives its accounts.
#[derive(Clone, Copy, Debug, PartialEq, Eq)]
pub enum SeedScheme {
    /// The program's configuration record: `["config"]`.
    Config,
    /// The program's freeze-state record: `["state"]`.
    State,
    /// The program-wide vault: `["vault"]`.
    Vault,
    /// A user's own vault: `[user identity, "vault"]`.
    UserVault(Address),
}

/// The seed `"config"`.
pub open spec fn config_seed() -> Seq<u8> {
    seq![99u8, 111u8, 110u8, 102u8, 105u8, 103u8]
}

/// The seed `"state"`.
pub open spec fn state_seed() -> Seq<u8> {
    seq![115u8, 116u8, 97u8, 116u8, 101u8]
}

/// The seed `"vault"`.
pub open spec fn vault_seed() -> Seq<u8> {
    seq![118u8, 97u8, 117u8, 108u8, 116u8]
}

impl SeedScheme {
    pub open spec fn spec_seeds(self) -> Seq<Seq<u8>> {
        match self {
            SeedScheme::Config => seq![config_seed()],
            SeedScheme::State => seq![state_seed()],
            SeedScheme::Vault => seq![vault_seed()],
            SeedScheme::UserVault(user) => seq![user@, vault_seed()],
        }
    }

    pub fn seeds(&self) -> (r: Vec<Vec<u8>>)
        ensures
            seeds_view(r@) == self.spec_seeds(),
    {
        let mut r: Vec<Vec<u8>> = Vec::new();
        match self {
            SeedScheme::Config => {
                let s = vec![99u8, 111u8, 110u8, 102u8, 105u8, 103u8];
                assert(s@ =~= config_seed());
                r.push(s);
            },
            SeedScheme::State => {
                let s = vec![115u8, 116u8, 97u8, 116u8, 101u8];
                assert(s@ =~= state_seed());
                r.push(s);
            },
            SeedScheme::Vault => {
                let s = vec![118u8, 97u8, 117u8, 108u8, 116u8];
                assert(s@ =~= vault_seed());
                r.push(s);
            },
            SeedScheme::UserVault(user) => {
                r.push(user.to_seed());
                let s = vec![118u8, 97u8, 117u8, 108u8, 116u8];
                assert(s@ =~= vault_seed());
                r.push(s);
            },
        }
        assert(seeds_view(r@) =~= self.spec_seeds());
        r
    }

    /// Derives the canonical address of this scheme under `program`.
    pub fn derive(&self, program: &Address) -> (r: Result<Derived, ProgramError>)
        ensures
            derived_view(r) == derivation(program@, self.spec_seeds()),
    {
        derive_address(program, &self.seeds())
    }
}

/// The seeds with which a program signs for an account it derived: the scheme's
/// seeds followed by the one-byte bump.
#[derive(Clone, Copy, Debug, PartialEq, Eq)]
pub struct SignerSeeds {
    pub scheme: SeedScheme,
    pub bump: u8,
}

impl SignerSeeds {
    pub open spec fn spec_seeds(self) -> Seq<Seq<u8>> {
        self.scheme.spec_seeds().push(seq![self.bump])
    }

    pub fn seeds(&self) -> (r: Vec<Vec<u8>>)
        ensures
            seeds_view(r@) == self.spec_seeds(),
    {
        let mut r = self.scheme.seeds();
        let b = vec![self.bump];
        assert(b@ =~= seq![self.bump]);
        r.push(b);
        assert(seeds_view(r@) =~= self.spec_seeds());
        r
    }
}

/// Derivation is a pure function: any two results that `derive_address` may return for the
/// same program identity and seeds are the same address with the same bump.
pub proof fn lemma_derive_deterministic(
    program: Address,
    seeds: Seq<Seq<u8>>,
    r1: Result<Derived, ProgramError>,
    r2: Result<Derived, ProgramError>,
)
    requires
        derived_view(r1) == derivation(program@, seeds),
        derived_view(r2) == derivation(program@, seeds),
    ensures
        r1 == r2,
{
    if let Ok(d1) = r1 {
        let d2 = r2->Ok_0;
        lemma_address_ext(d1.address, d2.address);
    }
}

} // verus!
