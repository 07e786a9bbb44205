//! The delegated authority: the identity that holds custody of every deposit.
//!
//! It is derived from a fixed seed and the program's own identity, so anyone
//! can recompute it and nobody holds a key for it. It is never stored.

use vstd::prelude::*;
use crate::account::AccountId;
use crate::ledger::{find_program_address, program_address};

verus! {

/// The seed that separates this program's authority from any other: the
/// ASCII bytes of "escrow".
pub open spec fn authority_seed() -> Seq<u8> {
    seq![101u8, 115u8, 99u8, 114u8, 111u8, 119u8]
}

/// The delegated authority of a program and its discriminator byte, where
/// one exists.
pub open spec fn delegated_authority(program: Seq<u8>) -> Option<(Seq<u8>, u8)> {
    program_address(authority_seed(), program)
}

/// The seed as bytes.
pub fn seed_bytes() -> (seed: [u8; 6])
    ensures
        seed@ == authority_seed(),
{
    let seed: [u8; 6] = [101, 115, 99, 114, 111, 119];
    assert(seed@ =~= authority_seed());
    seed
}

/// Derives the delegated authority of `program_id`. Both handlers derive it
/// with the same seed, so the authority that is given custody when an escrow
/// is opened is the one that releases it when the escrow is fulfilled.
pub fn derive_authority(program_id: &AccountId) -> (r: Option<(AccountId, u8)>)
    ensures
        match r {
            Some((id, bump)) => delegated_authority(program_id@) == Some((id@, bump)),
            None => delegated_authority(program_id@) is None,
        },
{
    let seed = seed_bytes();
    find_program_address(seed.as_slice(), program_id)
}

/// Whether `authority` and `bump_seed` are the delegated authority of
/// `program_id` and its discriminator byte. The authority is recomputed for
/// the answer; nothing stored is consulted.
pub fn is_valid_proof(program_id: &AccountId, authority: &AccountId, bump_seed: u8) -> (valid: bool)
    ensures
        valid == (delegated_authority(program_id@) == Some((authority@, bump_seed))),
{
    match derive_authority(program_id) {
        Some((id, bump)) => id.same_as(authority) && bump == bump_seed,
        None => false,
    }
}

} // verus!
