//! Requests to the host's native transfer service.

use crate::pubkey::Pubkey;
use vstd::prelude::*;

verus! {

/// An instruction to move `lamports` of the native currency from one
/// account to another, which `from` authorizes as a signer.
#[derive(Clone, Copy, Debug, PartialEq, Eq)]
pub struct Transfer {
    pub from: Pubkey,
    pub to: Pubkey,
    pub lamports: u64,
}

} // verus!
