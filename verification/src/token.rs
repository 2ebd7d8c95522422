//! Requests to the token transfer service.

use crate::pubkey::Pubkey;
use vstd::prelude::*;

verus! {

/// An instruction to move `amount` of a token from one token account to
/// another. The host carries it out within the same transaction as the
/// instruction that produced it; if the transfer fails, the host discards
/// every change the instruction made.
#[derive(Clone, Debug, PartialEq, Eq)]
pub struct Transfer {
    /// The token account that is debited.
    pub from: Pubkey,
    /// The token account that is credited.
    pub to: Pubkey,
    /// The controller of `from` that authorizes the transfer.
    pub authority: Pubkey,
    /// How much is moved.
    pub amount: u64,
    /// The seeds from which `authority` is derived, where it is a derived
    /// custodian and not a signer of the transaction; empty otherwise.
    pub signer_seeds: Vec<Vec<u8>>,
}

/// An instruction to mint `amount` new units of `mint` into the token
/// account `to`, which the mint's authority authorizes as a signer.
#[derive(Clone, Copy, Debug, PartialEq, Eq)]
pub struct MintTo {
    pub mint: Pubkey,
    pub to: Pubkey,
    pub authority: Pubkey,
    pub amount: u64,
}

/// What a [`Transfer`] says, with its seeds as sequences of bytes.
pub struct TransferView {
    pub from: Pubkey,
    pub to: Pubkey,
    pub authority: Pubkey,
    pub amount: u64,
    pub signer_seeds: Seq<Seq<u8>>,
}

impl View for Transfer {
    type V = TransferView;

    open spec fn view(&self) -> TransferView {
        TransferView {
            from: self.from,
            to: self.to,
            authority: self.authority,
            amount: self.amount,
            signer_seeds: Seq::new(self.signer_seeds@.len(), |i: int| self.signer_seeds@[i]@),
        }
    }
}

/// The bytes of the seed text `token_vault`.
pub open spec fn token_vault_seed() -> Seq<u8> {
    seq![116u8, 111u8, 107u8, 101u8, 110u8, 95u8, 118u8, 97u8, 117u8, 108u8, 116u8]
}

/// The bytes of the seed text `vault_authority`.
pub open spec fn vault_authority_seed() -> Seq<u8> {
    seq![
        118u8,
        97u8,
        117u8,
        108u8,
        116u8,
        95u8,
        97u8,
        117u8,
        116u8,
        104u8,
        111u8,
        114u8,
        105u8,
        116u8,
        121u8,
    ]
}

/// The seed text `token_vault` as bytes.
pub fn token_vault_seed_bytes() -> (seed: Vec<u8>)
    ensures
        seed@ == token_vault_seed(),
{
    let seed: Vec<u8> = vec![116u8, 111u8, 107u8, 101u8, 110u8, 95u8, 118u8, 97u8, 117u8, 108u8, 116u8];
    assert(seed@ =~= token_vault_seed());
    seed
}

/// The seed text `vault_authority` as bytes.
pub fn vault_authority_seed_bytes() -> (seed: Vec<u8>)
    ensures
        seed@ == vault_authority_seed(),
{
    let seed: Vec<u8> = vec![
        118u8,
        97u8,
        117u8,
        108u8,
        116u8,
        95u8,
        97u8,
        117u8,
        116u8,
        104u8,
        111u8,
        114u8,
        105u8,
        116u8,
        121u8,
    ];
    assert(seed@ =~= vault_authority_seed());
    seed
}

/// A transfer that a signer of the transaction authorizes.
pub fn signed_transfer(from: Pubkey, to: Pubkey, authority: Pubkey, amount: u64) -> (transfer:
    Transfer)
    ensures
        transfer@ == (TransferView {
            from,
            to,
            authority,
            amount,
            signer_seeds: Seq::<Seq<u8>>::empty(),
        }),
{
    let transfer = Transfer { from, to, authority, amount, signer_seeds: Vec::new() };
    assert(transfer@.signer_seeds =~= Seq::<Seq<u8>>::empty());
    transfer
}

} // verus!
