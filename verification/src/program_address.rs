//! Derived program addresses.

use crate::pubkey::Pubkey;
use vstd::prelude::*;

verus! {

/// The address and bump seed that the host's deriver gives for one seed
/// under a program, or `None` where it finds none.
pub uninterp spec fn program_address(seed: Seq<u8>, program_id: Seq<u8>) -> Option<(Seq<u8>, u8)>;

/// The longest seed the deriver accepts.
pub const MAX_SEED_LEN: usize = 32;

/// Calls `Pubkey::try_find_program_address` of `solana_program` with the
/// one seed `seed`. Nothing is proved of it: the contract gives the result
/// the name [`program_address`], and claims that a seed of more than
/// [`MAX_SEED_LEN`] bytes has no address, which is the deriver's check of
/// the seed's length.
#[verifier::external_body]
pub(crate) fn find_program_address(seed: &[u8], program_id: &Pubkey) -> (found: Option<
    (Pubkey, u8),
>)
    ensures
        match found {
            Some((address, bump)) => program_address(seed@, program_id.bytes@) == Some(
                (address.bytes@, bump),
            ),
            None => program_address(seed@, program_id.bytes@) is None,
        },
        seed@.len() > MAX_SEED_LEN ==> found is None,
{
    let program = anchor_lang::solana_program::pubkey::Pubkey::new_from_array(program_id.bytes);
    anchor_lang::solana_program::pubkey::Pubkey::try_find_program_address(&[seed], &program).map(
        |(address, bump)| (Pubkey { bytes: address.to_bytes() }, bump),
    )
}

} // verus!
