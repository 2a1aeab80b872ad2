//! Addresses, and the derivation of an account's address from seeds.
//!
//! An account of this program has no key pair. Its address is what the
//! ledger's derivation scheme makes of a list of seeds, the last of which is
//! a one-byte bump, and of the program's own address. The scheme itself is
//! the ledger's; this module builds the seed lists and compares what the
//! scheme returns with the address that a caller handed in.

use vstd::prelude::*;
use vstd::bytes::{spec_u64_to_le_bytes, u64_to_le_bytes};
use anchor_lang::prelude::Pubkey;

verus! {

/// The address of an account: thirty-two bytes.
#[derive(Clone, Copy, Debug, PartialEq, Eq)]
pub struct Address {
    /// The bytes of the address.
    pub bytes: [u8; 32],
}

impl View for Address {
    type V = Seq<u8>;

    open spec fn view(&self) -> Seq<u8> {
        self.bytes@
    }
}

impl Address {
    /// The address with the given bytes.
    pub fn new(bytes: [u8; 32]) -> (a: Address)
        ensures
            a.bytes == bytes,
    {
        Address { bytes }
    }

    /// The bytes of the address.
    pub fn to_bytes(&self) -> (b: [u8; 32])
        ensures
            b == self.bytes,
    {
        self.bytes
    }

    /// The bytes of the address, as a vector.
    pub fn to_vec(&self) -> (v: Vec<u8>)
        ensures
            v@ == self@,
    {
        let mut v: Vec<u8> = Vec::new();
        let mut i: usize = 0;
        while i < 32
            invariant
                0 <= i <= 32,
                v@ == self@.subrange(0, i as int),
            decreases 32 - i,
        {
            v.push(self.bytes[i]);
            i += 1;
            proof {
                assert(v@ =~= self@.subrange(0, i as int));
            }
        }
        proof {
            assert(self@.subrange(0, 32) =~= self@);
        }
        v
    }

    /// Whether two addresses hold the same bytes.
    pub fn same_as(&self, other: &Address) -> (r: bool)
        ensures
            r == (self@ == other@),
    {
        let mut i: usize = 0;
        while i < 32
            invariant
                0 <= i <= 32,
                forall|j: int| 0 <= j < i ==> self@[j] == other@[j],
            decreases 32 - i,
        {
            if self.bytes[i] != other.bytes[i] {
                return false;
            }
            i += 1;
        }
        proof {
            assert(self@ =~= other@);
        }
        true
    }
}

/// The bytes of this program's own address.
pub open spec fn program_id_bytes() -> Seq<u8> {
    seq![
        244u8, 232, 66, 32, 19, 153, 32, 152, 208, 15, 171, 147, 176, 35, 6, 38,
        231, 52, 111, 89, 89, 58, 113, 208, 48, 110, 102, 191, 66, 107, 124, 255,
    ]
}

/// This program's own address, under which its accounts are derived.
pub fn program_id() -> (id: Address)
    ensures
        id@ == program_id_bytes(),
{
    let id = Address {
        bytes: [
            244u8, 232, 66, 32, 19, 153, 32, 152, 208, 15, 171, 147, 176, 35, 6, 38,
            231, 52, 111, 89, 89, 58, 113, 208, 48, 110, 102, 191, 66, 107, 124, 255,
        ],
    };
    proof {
        assert(id@ =~= program_id_bytes());
    }
    id
}

/// The bytes of the system program's address: all zero.
pub open spec fn system_program_bytes() -> Seq<u8> {
    Seq::new(32, |i: int| 0u8)
}

/// The address of the ledger's system program, which moves balances.
pub fn system_program_id() -> (id: Address)
    ensures
        id@ == system_program_bytes(),
{
    let id = Address { bytes: [0u8; 32] };
    proof {
        assert(id@ =~= system_program_bytes());
    }
    id
}

/// The first seed of every account of this program: the text `prefix`.
pub open spec fn prefix_tag() -> Seq<u8> {
    seq![112u8, 114, 101, 102, 105, 120]
}

/// The seed that sets an escrow account apart: the text `escrow`.
pub open spec fn escrow_tag() -> Seq<u8> {
    seq![101u8, 115, 99, 114, 111, 119]
}

/// The seeds of the prefix account of `owner` for a deposit of `amount`:
/// the prefix tag, the owner's address, the amount as eight bytes with the
/// least significant first, and the bump.
pub open spec fn prefix_seeds(owner: Seq<u8>, amount: u64, bump: u8) -> Seq<Seq<u8>> {
    seq![prefix_tag(), owner, spec_u64_to_le_bytes(amount), seq![bump]]
}

/// The seeds of the escrow account of `owner`: the prefix tag, the owner's
/// address, the escrow tag, and the bump.
pub open spec fn escrow_seeds(owner: Seq<u8>, bump: u8) -> Seq<Seq<u8>> {
    seq![prefix_tag(), owner, escrow_tag(), seq![bump]]
}

/// A list of seeds as the sequence of their byte sequences.
pub open spec fn seeds_view(seeds: Vec<Vec<u8>>) -> Seq<Seq<u8>> {
    Seq::new(seeds@.len(), |i: int| seeds@[i]@)
}

/// The bytes of the prefix tag.
pub fn prefix_tag_bytes() -> (v: Vec<u8>)
    ensures
        v@ == prefix_tag(),
{
    let v: Vec<u8> = vec![112u8, 114, 101, 102, 105, 120];
    proof {
        assert(v@ =~= prefix_tag());
    }
    v
}

/// The bytes of the escrow tag.
pub fn escrow_tag_bytes() -> (v: Vec<u8>)
    ensures
        v@ == escrow_tag(),
{
    let v: Vec<u8> = vec![101u8, 115, 99, 114, 111, 119];
    proof {
        assert(v@ =~= escrow_tag());
    }
    v
}

/// Builds the seed list of the prefix account of `owner` for `amount`.
pub fn prefix_seed_list(owner: &Address, amount: u64, bump: u8) -> (seeds: Vec<Vec<u8>>)
    ensures
        seeds_view(seeds) == prefix_seeds(owner@, amount, bump),
{
    let mut seeds: Vec<Vec<u8>> = Vec::new();
    seeds.push(prefix_tag_bytes());
    seeds.push(owner.to_vec());
    seeds.push(u64_to_le_bytes(amount));
    let last: Vec<u8> = vec![bump];
    proof {
        assert(last@ =~= seq![bump]);
    }
    seeds.push(last);
    proof {
        assert(seeds_view(seeds) =~= prefix_seeds(owner@, amount, bump));
    }
    seeds
}

/// Builds the seed list of the escrow account of `owner`.
pub fn escrow_seed_list(owner: &Address, bump: u8) -> (seeds: Vec<Vec<u8>>)
    ensures
        seeds_view(seeds) == escrow_seeds(owner@, bump),
{
    let mut seeds: Vec<Vec<u8>> = Vec::new();
    seeds.push(prefix_tag_bytes());
    seeds.push(owner.to_vec());
    seeds.push(escrow_tag_bytes());
    let last: Vec<u8> = vec![bump];
    proof {
        assert(last@ =~= seq![bump]);
    }
    seeds.push(last);
    proof {
        assert(seeds_view(seeds) =~= escrow_seeds(owner@, bump));
    }
    seeds
}

/// What the ledger's derivation scheme makes of a list of seeds and a
/// program's address: the derived address, or nothing where the seeds are
/// refused or lead to no valid address. It depends on these bytes alone.
pub uninterp spec fn program_address(seeds: Seq<Seq<u8>>, program_id: Seq<u8>) -> Option<Seq<u8>>;

/// The most seeds that the derivation scheme takes.
pub const MAX_SEEDS: usize = 16;

/// The most bytes that one seed may hold.
pub const MAX_SEED_LEN: usize = 32;

/// Whether a list of seeds is within the limits of the derivation scheme.
pub open spec fn seeds_within_limits(seeds: Seq<Seq<u8>>) -> bool {
    &&& seeds.len() <= MAX_SEEDS
    &&& forall|i: int| 0 <= i < seeds.len() ==> (#[trigger] seeds[i]).len() <= MAX_SEED_LEN
}

/// Calls `Pubkey::create_program_address` on the seeds, in their order, and
/// the program's address. Trusted: the call hashes exactly these bytes, so
/// its outcome is `program_address` of them; it refuses a list of more than
/// sixteen seeds and a seed of more than thirty-two bytes; an `Err` of any
/// kind is handed on as `None`.
#[verifier::external_body]
fn create_program_address(seeds: &Vec<Vec<u8>>, program_id: &[u8; 32]) -> (r: Option<[u8; 32]>)
    ensures
        match r {
            Some(a) => program_address(seeds_view(*seeds), program_id@) == Some(a@),
            None => program_address(seeds_view(*seeds), program_id@) is None,
        },
        !seeds_within_limits(seeds_view(*seeds)) ==> r is None,
{
    let slices: Vec<&[u8]> = seeds.iter().map(|s| s.as_slice()).collect();
    match Pubkey::create_program_address(&slices, &Pubkey::new_from_array(*program_id)) {
        Ok(key) => Some(key.to_bytes()),
        Err(_) => None,
    }
}

/// Whether `derived`, an outcome of the derivation scheme, is `expected`.
pub open spec fn derives(derived: Option<Seq<u8>>, expected: Seq<u8>) -> bool {
    derived == Some(expected)
}

/// Derives the address that `seeds` give under `program`, if they give one.
pub fn derive_address(seeds: &Vec<Vec<u8>>, program: &Address) -> (r: Option<Address>)
    ensures
        match r {
            Some(a) => program_address(seeds_view(*seeds), program@) == Some(a@),
            None => program_address(seeds_view(*seeds), program@) is None,
        },
        !seeds_within_limits(seeds_view(*seeds)) ==> r is None,
{
    match create_program_address(seeds, &program.bytes) {
        Some(bytes) => Some(Address { bytes }),
        None => None,
    }
}

/// Compares the outcome of a derivation with the address that was expected:
/// true exactly when an address was derived and it is that one.
pub fn matches_derivation(derived: &Option<Address>, expected: &Address) -> (r: bool)
    ensures
        r == (derived matches Some(a) && a@ == expected@),
{
    match derived {
        Some(a) => a.same_as(expected),
        None => false,
    }
}

/// Whether `address` is what `seeds` derive under this program: the check
/// that every derived account passes before an instruction touches it.
pub fn is_derived_from(address: &Address, seeds: &Vec<Vec<u8>>) -> (r: bool)
    ensures
        r == derives(program_address(seeds_view(*seeds), program_id_bytes()), address@),
{
    let program = program_id();
    let derived = derive_address(seeds, &program);
    matches_derivation(&derived, address)
}

} // verus!
