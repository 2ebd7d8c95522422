//! Records, notifications and errors of the token factory.

use crate::pubkey::Pubkey;
use vstd::prelude::*;

verus! {

/// The factory's settings: one per deployment.
#[derive(Clone, Copy, Debug, PartialEq, Eq)]
pub struct FactoryState {
    pub authority: Pubkey,
    /// The id given to the token created last; 0 before the first.
    pub token_counter: u64,
    pub mint_fee: u64,
    pub fee_receiver: Pubkey,
}

/// What is recorded of a content token.
#[derive(Clone, Debug, PartialEq, Eq)]
pub struct TokenMetadata {
    pub name: String,
    pub symbol: String,
    pub content_type: String,
    pub content_hash: String,
    pub creator: Pubkey,
    pub creation_time: i64,
}

/// A [`TokenMetadata`] as a mathematical value.
pub struct TokenMetadataView {
    pub name: Seq<char>,
    pub symbol: Seq<char>,
    pub content_type: Seq<char>,
    pub content_hash: Seq<char>,
    pub creator: Pubkey,
    pub creation_time: i64,
}

impl View for TokenMetadata {
    type V = TokenMetadataView;

    open spec fn view(&self) -> TokenMetadataView {
        TokenMetadataView {
            name: self.name@,
            symbol: self.symbol@,
            content_type: self.content_type@,
            content_hash: self.content_hash@,
            creator: self.creator,
            creation_time: self.creation_time,
        }
    }
}

/// The record at the address derived from a content hash: it marks the
/// content as tokenized and points to the token's metadata.
#[derive(Clone, Copy, Debug, PartialEq, Eq)]
pub struct ContentHashAccount {
    pub token_id: u64,
    pub token_metadata: Pubkey,
}

/// The account that holds the payment for a token: its address and its
/// balance.
#[derive(Clone, Copy, Debug, PartialEq, Eq)]
pub struct PaymentAccount {
    pub key: Pubkey,
    pub lamports: u64,
}

/// Told when a token is created.
#[derive(Clone, Debug, PartialEq, Eq)]
pub struct TokenCreatedEvent {
    pub token_id: u64,
    pub token_address: Pubkey,
    pub content_type: String,
    pub content_hash: String,
    pub creator: Pubkey,
}

/// Why an instruction of the token factory failed.
#[derive(Clone, Copy, Debug, PartialEq, Eq, Structural)]
pub enum TokenFactoryError {
    InsufficientFee,
    ContentAlreadyTokenized,
    InvalidContentHashAccount,
    Unauthorized,
    /// A stored amount or counter would have left the range of 64 bits.
    Arithmetic,
}

impl TokenFactoryError {
    /// The message shown for the error.
    pub fn message(&self) -> (text: &'static str)
        ensures
            text@ == match *self {
                TokenFactoryError::InsufficientFee => "Insufficient fee for token creation"@,
                TokenFactoryError::ContentAlreadyTokenized => "Content has already been tokenized"@,
                TokenFactoryError::InvalidContentHashAccount => "Invalid content hash account"@,
                TokenFactoryError::Unauthorized => "Unauthorized access"@,
                TokenFactoryError::Arithmetic => "Arithmetic overflow"@,
            },
    {
        match self {
            TokenFactoryError::InsufficientFee => "Insufficient fee for token creation",
            TokenFactoryError::ContentAlreadyTokenized => "Content has already been tokenized",
            TokenFactoryError::InvalidContentHashAccount => "Invalid content hash account",
            TokenFactoryError::Unauthorized => "Unauthorized access",
            TokenFactoryError::Arithmetic => "Arithmetic overflow",
        }
    }
}

/// The records that [`initialize`](super::instructions::initialize) touches.
#[derive(Clone, Debug, PartialEq, Eq)]
pub struct Initialize {
    pub factory_state: FactoryState,
    pub authority: Pubkey,
}

/// The records that [`create_token`](super::instructions::create_token)
/// touches. The metadata, the content hash record, the mint and the token
/// account are newly provisioned.
#[derive(Clone, Debug, PartialEq, Eq)]
pub struct CreateToken {
    pub factory_state: FactoryState,
    pub token_metadata: TokenMetadata,
    /// The address of the metadata record.
    pub token_metadata_key: Pubkey,
    pub content_hash_account: ContentHashAccount,
    /// The address of the content hash record.
    pub content_hash_account_key: Pubkey,
    pub mint: Pubkey,
    pub token_account: Pubkey,
    pub payer: Pubkey,
    pub fee_receiver: Pubkey,
    pub payment: PaymentAccount,
    /// The address of the factory program, under which the address of the
    /// content hash record is derived.
    pub program_id: Pubkey,
}

/// The records that [`set_mint_fee`](super::instructions::set_mint_fee) and
/// [`set_fee_receiver`](super::instructions::set_fee_receiver) touch.
#[derive(Clone, Debug, PartialEq, Eq)]
pub struct UpdateFactory {
    pub factory_state: FactoryState,
    pub authority: Pubkey,
}

} // verus!
