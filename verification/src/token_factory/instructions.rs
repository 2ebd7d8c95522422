//! The instructions of the token factory.

use super::rules::{content_hash_seed, content_hash_tag, creation_outcome};
use super::state::{
    CreateToken, FactoryState, Initialize, TokenCreatedEvent, TokenFactoryError, UpdateFactory,
};
use crate::program_address::{find_program_address, program_address, MAX_SEED_LEN};
use crate::pubkey::Pubkey;
use crate::system_program::Transfer;
use crate::token::MintTo;
use vstd::arithmetic::power::{lemma_pow_increases, pow};
use vstd::prelude::*;
use vstd::utf8::encode_utf8;

verus! {

/// Sets up the factory for `ctx.authority`, with no token created yet.
pub fn initialize(ctx: &mut Initialize, mint_fee: u64, fee_receiver: Pubkey)
    ensures
        final(ctx).factory_state == (FactoryState {
            authority: old(ctx).authority,
            token_counter: 0,
            mint_fee,
            fee_receiver,
        }),
        final(ctx).authority == old(ctx).authority,
{
    ctx.factory_state.authority = ctx.authority;
    ctx.factory_state.token_counter = 0;
    ctx.factory_state.mint_fee = mint_fee;
    ctx.factory_state.fee_receiver = fee_receiver;
}

/// Ten to the power `decimals`, where that fits 64 bits.
fn power_of_ten(decimals: u8) -> (power: Option<u64>)
    ensures
        match power {
            Some(power) => power == pow(10, decimals as nat),
            None => pow(10, decimals as nat) > u64::MAX,
        },
{
    let mut power: u64 = 1;
    let mut i: u8 = 0;
    assert(pow(10, 0) == 1) by {
        reveal(pow);
    }
    while i < decimals
        invariant
            i <= decimals,
            power == pow(10, i as nat),
        decreases decimals - i,
    {
        assert(pow(10, (i + 1) as nat) == 10 * pow(10, i as nat)) by {
            reveal(pow);
        }
        power = match power.checked_mul(10) {
            Some(next) => next,
            None => {
                proof {
                    lemma_pow_increases(10, (i + 1) as nat, decimals as nat);
                }
                return None;
            },
        };
        i += 1;
    }
    Some(power)
}

/// Creates a token for a piece of content whose record lies at `derived`,
/// the address derived from the content hash. `now` is the host's time.
///
/// On success the metadata and the content hash record are filled in and
/// the factory's counter is advanced; its new value is the token's id. The
/// result holds the transfer of the whole balance of the payment account
/// from the payer to the fee receiver, the minting of the initial supply,
/// scaled by the decimal places, into the payer's token account, and the
/// notification.
///
/// It fails, changing nothing, where the payment is less than the fee,
/// where the content hash record is not at the derived address, or where
/// the counter or the minted amount leaves the range of 64 bits.
pub fn create_token_at(
    ctx: &mut CreateToken,
    derived: Pubkey,
    name: String,
    symbol: String,
    initial_supply: u64,
    content_type: String,
    content_hash: String,
    decimals: u8,
    now: i64,
) -> (result: Result<(Transfer, MintTo, TokenCreatedEvent), TokenFactoryError>)
    ensures
        creation_outcome(
            *old(ctx),
            *final(ctx),
            result,
            old(ctx).content_hash_account_key == derived,
            name@,
            symbol@,
            initial_supply,
            content_type@,
            content_hash@,
            decimals,
            now,
        ),
{
    if ctx.payment.lamports < ctx.factory_state.mint_fee {
        return Err(TokenFactoryError::InsufficientFee);
    }
    if ctx.content_hash_account_key != derived {
        return Err(TokenFactoryError::InvalidContentHashAccount);
    }
    if ctx.factory_state.token_counter == u64::MAX {
        return Err(TokenFactoryError::Arithmetic);
    }
    let scale = match power_of_ten(decimals) {
        Some(scale) => scale,
        None => {
            return Err(TokenFactoryError::Arithmetic);
        },
    };
    let amount = match initial_supply.checked_mul(scale) {
        Some(amount) => amount,
        None => {
            return Err(TokenFactoryError::Arithmetic);
        },
    };
    let token_id = ctx.factory_state.token_counter + 1;
    let transfer = Transfer {
        from: ctx.payer,
        to: ctx.fee_receiver,
        lamports: ctx.payment.lamports,
    };
    let mint_to = MintTo {
        mint: ctx.mint,
        to: ctx.token_account,
        authority: ctx.payer,
        amount,
    };
    let event = TokenCreatedEvent {
        token_id,
        token_address: ctx.mint,
        content_type: content_type.clone(),
        content_hash: content_hash.clone(),
        creator: ctx.payer,
    };

    ctx.token_metadata.name = name;
    ctx.token_metadata.symbol = symbol;
    ctx.token_metadata.content_type = content_type;
    ctx.token_metadata.content_hash = content_hash;
    ctx.token_metadata.creator = ctx.payer;
    ctx.token_metadata.creation_time = now;

    ctx.content_hash_account.token_id = token_id;
    ctx.content_hash_account.token_metadata = ctx.token_metadata_key;

    ctx.factory_state.token_counter = token_id;

    Ok((transfer, mint_to, event))
}

/// The seed for the record of `content_hash`.
fn content_hash_seed_bytes(content_hash: &String) -> (seed: Vec<u8>)
    ensures
        seed@ == content_hash_seed(content_hash@),
{
    let mut seed: Vec<u8> = vec![
        99u8,
        111u8,
        110u8,
        116u8,
        101u8,
        110u8,
        116u8,
        95u8,
        104u8,
        97u8,
        115u8,
        104u8,
    ];
    assert(seed@ =~= content_hash_tag());
    let text = content_hash.as_str().as_bytes();
    let mut i: usize = 0;
    while i < text.len()
        invariant
            i <= text@.len(),
            text@ == encode_utf8(content_hash@),
            seed@ == content_hash_tag() + text@.take(i as int),
        decreases text@.len() - i,
    {
        seed.push(text[i]);
        i += 1;
        assert(seed@ =~= content_hash_tag() + text@.take(i as int));
    }
    assert(text@.take(i as int) =~= text@);
    seed
}

/// Creates a token for a piece of content, as [`create_token_at`] does at
/// the address that the host's deriver gives for the content hash under
/// the factory program.
///
/// A payment of less than the fee fails before any address is derived.
/// Where the deriver gives no address, which is so for every content hash
/// of more than twenty bytes, nothing is created and the result is `None`.
pub fn create_token(
    ctx: &mut CreateToken,
    name: String,
    symbol: String,
    initial_supply: u64,
    content_type: String,
    content_hash: String,
    decimals: u8,
    now: i64,
) -> (result: Option<Result<(Transfer, MintTo, TokenCreatedEvent), TokenFactoryError>>)
    ensures
        old(ctx).payment.lamports < old(ctx).factory_state.mint_fee ==> result == Some(
            Err::<(Transfer, MintTo, TokenCreatedEvent), TokenFactoryError>(
                TokenFactoryError::InsufficientFee,
            ),
        ) && *final(ctx) == *old(ctx),
        old(ctx).payment.lamports >= old(ctx).factory_state.mint_fee ==> match program_address(
            content_hash_seed(content_hash@),
            old(ctx).program_id.bytes@,
        ) {
            None => result is None && *final(ctx) == *old(ctx),
            Some((address, _)) => result is Some && creation_outcome(
                *old(ctx),
                *final(ctx),
                result->Some_0,
                old(ctx).content_hash_account_key.bytes@ == address,
                name@,
                symbol@,
                initial_supply,
                content_type@,
                content_hash@,
                decimals,
                now,
            ),
        },
        old(ctx).payment.lamports >= old(ctx).factory_state.mint_fee && content_hash_seed(
            content_hash@,
        ).len() > MAX_SEED_LEN ==> result is None,
{
    if ctx.payment.lamports < ctx.factory_state.mint_fee {
        return Some(Err(TokenFactoryError::InsufficientFee));
    }
    let seed = content_hash_seed_bytes(&content_hash);
    match find_program_address(seed.as_slice(), &ctx.program_id) {
        None => None,
        Some((address, _)) => {
            assert(ctx.content_hash_account_key == address <==> ctx.content_hash_account_key.bytes@
                == address.bytes@) by {
                if ctx.content_hash_account_key.bytes@ == address.bytes@ {
                    assert(ctx.content_hash_account_key.bytes =~= address.bytes);
                }
            }
            Some(
            create_token_at(
                ctx,
                address,
                name,
                symbol,
                initial_supply,
                content_type,
                content_hash,
                decimals,
                now,
            ),
        )
        },
    }
}

/// Sets the fee for creating a token. Only the factory's authority may call
/// it; for anyone else it fails and changes nothing.
pub fn set_mint_fee(ctx: &mut UpdateFactory, new_fee: u64) -> (result: Result<
    (),
    TokenFactoryError,
>)
    ensures
        final(ctx).authority == old(ctx).authority,
        old(ctx).authority == old(ctx).factory_state.authority ==> result is Ok && final(ctx).factory_state == (FactoryState { mint_fee: new_fee, ..old(ctx).factory_state }),
        old(ctx).authority != old(ctx).factory_state.authority ==> result == Err::<
            (),
            TokenFactoryError,
        >(TokenFactoryError::Unauthorized) && *final(ctx) == *old(ctx),
{
    if ctx.authority != ctx.factory_state.authority {
        return Err(TokenFactoryError::Unauthorized);
    }
    ctx.factory_state.mint_fee = new_fee;
    Ok(())
}

/// Sets the account that receives the fees. Only the factory's authority
/// may call it; for anyone else it fails and changes nothing.
pub fn set_fee_receiver(ctx: &mut UpdateFactory, new_receiver: Pubkey) -> (result: Result<
    (),
    TokenFactoryError,
>)
    ensures
        final(ctx).authority == old(ctx).authority,
        old(ctx).authority == old(ctx).factory_state.authority ==> result is Ok && final(ctx).factory_state == (FactoryState { fee_receiver: new_receiver, ..old(ctx).factory_state }),
        old(ctx).authority != old(ctx).factory_state.authority ==> result == Err::<
            (),
            TokenFactoryError,
        >(TokenFactoryError::Unauthorized) && *final(ctx) == *old(ctx),
{
    if ctx.authority != ctx.factory_state.authority {
        return Err(TokenFactoryError::Unauthorized);
    }
    ctx.factory_state.fee_receiver = new_receiver;
    Ok(())
}

} // verus!
