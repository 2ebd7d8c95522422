//! What the instructions of the token factory compute, as mathematics.

use super::state::{
    ContentHashAccount, CreateToken, FactoryState, TokenCreatedEvent, TokenFactoryError,
    TokenMetadataView,
};
use crate::system_program::Transfer;
use crate::token::MintTo;
use vstd::arithmetic::power::pow;
use vstd::prelude::*;
use vstd::utf8::encode_utf8;

verus! {

/// The bytes of the seed text `content_hash`.
pub open spec fn content_hash_tag() -> Seq<u8> {
    seq![99u8, 111u8, 110u8, 116u8, 101u8, 110u8, 116u8, 95u8, 104u8, 97u8, 115u8, 104u8]
}

/// The seed from which the address of the record of a content hash is
/// derived: the tag, then the hash as text.
pub open spec fn content_hash_seed(content_hash: Seq<char>) -> Seq<u8> {
    content_hash_tag() + encode_utf8(content_hash)
}

/// The smallest units of `initial_supply` whole tokens with `decimals`
/// decimal places.
pub open spec fn minted_amount(initial_supply: u64, decimals: u8) -> int {
    initial_supply * pow(10, decimals as nat)
}

/// Why the creation of a token fails, if it does. `at_derived_address`
/// says whether the content hash record lies at the address derived from
/// the content hash.
pub open spec fn creation_error(
    lamports: u64,
    mint_fee: u64,
    at_derived_address: bool,
    counter: u64,
    initial_supply: u64,
    decimals: u8,
) -> Option<TokenFactoryError> {
    if lamports < mint_fee {
        Some(TokenFactoryError::InsufficientFee)
    } else if !at_derived_address {
        Some(TokenFactoryError::InvalidContentHashAccount)
    } else if counter == u64::MAX || pow(10, decimals as nat) > u64::MAX || minted_amount(
        initial_supply,
        decimals,
    ) > u64::MAX {
        Some(TokenFactoryError::Arithmetic)
    } else {
        None
    }
}

/// What a successful creation leaves: the records `after` it, given those
/// `before`, and what it hands to the host.
pub open spec fn token_created(
    before: CreateToken,
    after: CreateToken,
    outcome: (Transfer, MintTo, TokenCreatedEvent),
    name: Seq<char>,
    symbol: Seq<char>,
    initial_supply: u64,
    content_type: Seq<char>,
    content_hash: Seq<char>,
    decimals: u8,
    now: i64,
) -> bool {
    let id = (before.factory_state.token_counter + 1) as u64;
    &&& outcome.0 == (Transfer {
        from: before.payer,
        to: before.fee_receiver,
        lamports: before.payment.lamports,
    })
    &&& outcome.1 == (MintTo {
        mint: before.mint,
        to: before.token_account,
        authority: before.payer,
        amount: minted_amount(initial_supply, decimals) as u64,
    })
    &&& outcome.2.token_id == id
    &&& outcome.2.token_address == before.mint
    &&& outcome.2.content_type@ == content_type
    &&& outcome.2.content_hash@ == content_hash
    &&& outcome.2.creator == before.payer
    &&& after.factory_state == (FactoryState { token_counter: id, ..before.factory_state })
    &&& after.token_metadata@ == (TokenMetadataView {
        name,
        symbol,
        content_type,
        content_hash,
        creator: before.payer,
        creation_time: now,
    })
    &&& after.content_hash_account == (ContentHashAccount {
        token_id: id,
        token_metadata: before.token_metadata_key,
    })
    &&& after.token_metadata_key == before.token_metadata_key
    &&& after.content_hash_account_key == before.content_hash_account_key
    &&& after.mint == before.mint
    &&& after.token_account == before.token_account
    &&& after.payer == before.payer
    &&& after.fee_receiver == before.fee_receiver
    &&& after.payment == before.payment
    &&& after.program_id == before.program_id
}

/// What the creation of a token does: it fails and changes nothing where
/// [`creation_error`] names an error, and otherwise succeeds as
/// [`token_created`] says.
pub open spec fn creation_outcome(
    before: CreateToken,
    after: CreateToken,
    result: Result<(Transfer, MintTo, TokenCreatedEvent), TokenFactoryError>,
    at_derived_address: bool,
    name: Seq<char>,
    symbol: Seq<char>,
    initial_supply: u64,
    content_type: Seq<char>,
    content_hash: Seq<char>,
    decimals: u8,
    now: i64,
) -> bool {
    match creation_error(
        before.payment.lamports,
        before.factory_state.mint_fee,
        at_derived_address,
        before.factory_state.token_counter,
        initial_supply,
        decimals,
    ) {
        Some(error) => result == Err::<(Transfer, MintTo, TokenCreatedEvent), TokenFactoryError>(
            error,
        ) && after == before,
        None => result is Ok && token_created(
            before,
            after,
            result->Ok_0,
            name,
            symbol,
            initial_supply,
            content_type,
            content_hash,
            decimals,
            now,
        ),
    }
}

} // verus!
