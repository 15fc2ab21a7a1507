//! Deterministic addressing for escrow records.
//!
//! A record's storage address is a pure function of a fixed namespace tag,
//! the depositor's identity, and the unlock time.  The host ledger excludes
//! a subset of addresses from derived use, so a small nonce (the bump) is
//! searched for alongside the address; the bump is stored in the record and
//! lets the withdrawal call re-derive the very same address.

use vstd::prelude::*;
use crate::bytes_le::spec_i64_to_le_bytes;
use crate::bytes_le::i64_to_le_bytes;

verus! {

/// The address and bump that the host ledger's derivation rule assigns to a
/// list of seed byte-strings under a program identity, or `None` when no
/// valid bump exists for them.  The rule is a pure function of its inputs:
/// identical seeds and program identity always give the identical result.
pub uninterp spec fn derived_address(seeds: Seq<Seq<u8>>, program_id: Seq<u8>) -> Option<(
    Seq<u8>,
    u8,
)>;

/// Relies on `Pubkey::try_find_program_address` (anchor_lang's re-export of
/// the host SDK): the result is a deterministic function of the seed slices
/// and the program identity alone, and is `None` exactly when the rule
/// admits no bump for them.
#[verifier::external_body]
fn try_derive(seeds: &Vec<Vec<u8>>, program_id: &[u8; 32]) -> (r: Option<([u8; 32], u8)>)
    ensures
        ({
            let d = derived_address(seeds@.map_values(|s: Vec<u8>| s@), program_id@);
            match r {
                Some(p) => d == Some((p.0@, p.1)),
                None => d is None,
            }
        }),
{
    let seed_slices: Vec<&[u8]> = seeds.iter().map(|s| s.as_slice()).collect();
    let pid = anchor_lang::prelude::Pubkey::new_from_array(*program_id);
    anchor_lang::prelude::Pubkey::try_find_program_address(&seed_slices, &pid)
        .map(|(address, bump)| (address.to_bytes(), bump))
}

/// The namespace tag under which this library derives record addresses:
/// the ASCII bytes of "vault".
pub open spec fn spec_vault_seed() -> Seq<u8> {
    seq![118u8, 97u8, 117u8, 108u8, 116u8]
}

/// Executable copy of the namespace tag.
pub fn vault_seed() -> (r: Vec<u8>)
    ensures
        r@ == spec_vault_seed(),
{
    let mut v: Vec<u8> = Vec::new();
    v.push(118);
    v.push(97);
    v.push(117);
    v.push(108);
    v.push(116);
    proof {
        assert(v@ =~= spec_vault_seed());
    }
    v
}

/// The seed list from which a record's address is derived: the namespace
/// tag, the owner's identity, and the unlock time in little-endian bytes.
pub open spec fn lock_seeds(owner: Seq<u8>, unlock_timestamp: i64) -> Seq<Seq<u8>> {
    seq![spec_vault_seed(), owner, spec_i64_to_le_bytes(unlock_timestamp)]
}

/// Derives the storage address and bump of the escrow record that `owner`
/// may hold for `unlock_timestamp` under `program_id`.  Deterministic, so
/// creation and withdrawal, or any third party, recompute the same address
/// from the same public inputs.
pub fn derive_lock_address(program_id: &[u8; 32], owner: &[u8; 32], unlock_timestamp: i64) -> (r:
    Option<([u8; 32], u8)>)
    ensures
        ({
            let d = derived_address(lock_seeds(owner@, unlock_timestamp), program_id@);
            match r {
                Some(p) => d == Some((p.0@, p.1)),
                None => d is None,
            }
        }),
{
    let mut owner_bytes: Vec<u8> = Vec::new();
    for i in 0..32
        invariant
            owner_bytes@ == owner@.subrange(0, i as int),
    {
        owner_bytes.push(owner[i]);
        proof {
            assert(owner_bytes@ =~= owner@.subrange(0, i + 1));
        }
    }
    let mut seeds: Vec<Vec<u8>> = Vec::new();
    seeds.push(vault_seed());
    seeds.push(owner_bytes);
    seeds.push(i64_to_le_bytes(unlock_timestamp));
    proof {
        assert(owner@.subrange(0, 32) =~= owner@);
        assert(seeds@.map_values(|s: Vec<u8>| s@) =~~= lock_seeds(owner@, unlock_timestamp));
    }
    try_derive(&seeds, program_id)
}

} // verus!
