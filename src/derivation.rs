//! Derivation of the per-offer escrow address.
use anchor_lang::solana_program::pubkey::Pubkey;
use vstd::prelude::*;
use vstd::utf8::encode_utf8;

use crate::address::Address;

verus! {

/// The program-derived address, with its bump, of the seeds `[prefix, seed]`
/// under a program id; `None` where no such address exists.
pub uninterp spec fn program_address_of(prefix: Seq<u8>, seed: Seq<u8>, program_id: Seq<u8>) -> Option<
    (Seq<u8>, u8),
>;

/// The longest seed, in bytes, that an address derivation takes.
pub const MAX_SEED_LEN: usize = 32;

/// The bytes of the word "escrow", the first seed of every escrow address.
pub open spec fn escrow_seed() -> Seq<u8> {
    seq![101u8, 115u8, 99u8, 114u8, 111u8, 119u8]
}

/// Relies on `Pubkey::try_find_program_address` of solana_program, which
/// anchor_lang re-exports: the address and bump found for the seeds depend
/// on the bytes of the seeds and of the program id alone, and a seed longer
/// than `MAX_SEED_LEN` bytes has no address.
#[verifier::external_body]
fn try_find_program_address(prefix: &[u8], seed: &[u8], program_id: &Address) -> (r: Option<
    (Address, u8),
>)
    ensures
        r matches Some(found) ==> program_address_of(prefix@, seed@, program_id@) == Some(
            (found.0@, found.1),
        ),
        r is None ==> program_address_of(prefix@, seed@, program_id@) is None,
        prefix@.len() > MAX_SEED_LEN || seed@.len() > MAX_SEED_LEN ==> r is None,
{
    let program = Pubkey::new_from_array(program_id.bytes);
    match Pubkey::try_find_program_address(&[prefix, seed], &program) {
        Some((key, bump)) => Some((Address { bytes: key.to_bytes() }, bump)),
        None => None,
    }
}

/// The address, and its bump, at which the escrow of `offer_id` stands under
/// the program `program_id`: derived from the seeds `["escrow", offer_id]`,
/// so that the same identifier always leads to the same record. `None` where
/// no address exists, which is so for an identifier longer than
/// `MAX_SEED_LEN` bytes.
pub fn escrow_address(offer_id: &str, program_id: &Address) -> (r: Option<(Address, u8)>)
    ensures
        r matches Some(found) ==> program_address_of(
            escrow_seed(),
            encode_utf8(offer_id@),
            program_id@,
        ) == Some((found.0@, found.1)),
        r is None ==> program_address_of(escrow_seed(), encode_utf8(offer_id@), program_id@) is None,
        encode_utf8(offer_id@).len() > MAX_SEED_LEN ==> r is None,
{
    let prefix: [u8; 6] = [101u8, 115u8, 99u8, 114u8, 111u8, 119u8];
    assert(prefix@ =~= escrow_seed());
    try_find_program_address(prefix.as_slice(), offer_id.as_bytes(), program_id)
}

} // verus!
