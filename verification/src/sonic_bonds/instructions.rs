//! The instructions of the bonding market.

use super::laws::{move_down_within_price, move_up_is_natural};
use super::rules::{
    change_bps, creation_error, metric_updated, payment_of, price_move, repriced, traded,
    valid_category,
};
use super::state::{
    BondCreatedEvent, BondError, BondTradedEvent, BondView, BondsState, CreateBond, Initialize,
    Market, MetricUpdatedEvent, TradeBond, UpdateMetric,
};
use crate::token::{
    signed_transfer, vault_authority_seed, vault_authority_seed_bytes, Transfer, TransferView,
};
use vstd::prelude::*;

verus! {

/// Sets up the registry root for `ctx.authority`, with no bond created yet.
pub fn initialize(ctx: &mut Initialize)
    ensures
        final(ctx).bonds_state == (BondsState { authority: old(ctx).authority, bond_counter: 0 }),
        final(ctx).authority == old(ctx).authority,
{
    ctx.bonds_state.authority = ctx.authority;
    ctx.bonds_state.bond_counter = 0;
}

/// Whether `category` names one of the categories a bond can have.
fn is_valid_category(category: &String) -> (valid: bool)
    ensures
        valid == valid_category(category@),
{
    let game = "game".to_owned();
    let social = "social".to_owned();
    let content = "content".to_owned();
    *category == game || *category == social || *category == content
}

/// Creates a bond of `total_supply` units, all of them for sale at
/// `initial_price`. `now` is the host's time.
///
/// On success the registry's counter is advanced and its new value is the
/// bond's id, the bond and its market statistics are filled in, and the id
/// is appended to the creator's index.
///
/// It fails, changing nothing, where the category is not one of `game`,
/// `social` and `content`, where the supply or the price is zero, or where
/// the counter or the market capitalization leaves the range of 64 bits.
pub fn create_bond(
    ctx: &mut CreateBond,
    name: String,
    description: String,
    category: String,
    metric: String,
    total_supply: u64,
    initial_price: u64,
    now: i64,
) -> (result: Result<BondCreatedEvent, BondError>)
    ensures
        match creation_error(
            old(ctx).bonds_state.bond_counter,
            category@,
            total_supply,
            initial_price,
        ) {
            Some(error) => result == Err::<BondCreatedEvent, BondError>(error) && *final(ctx)
                == *old(ctx),
            None => {
                let id = (old(ctx).bonds_state.bond_counter + 1) as u64;
                &&& result is Ok
                &&& result->Ok_0.bond_id == id
                &&& result->Ok_0.creator == old(ctx).creator
                &&& result->Ok_0.name@ == name@
                &&& result->Ok_0.total_supply == total_supply
                &&& result->Ok_0.initial_price == initial_price
                &&& final(ctx).bonds_state == (BondsState {
                    authority: old(ctx).bonds_state.authority,
                    bond_counter: id,
                })
                &&& final(ctx).bond@ == (BondView {
                    id,
                    creator: old(ctx).creator,
                    name: name@,
                    description: description@,
                    category: category@,
                    metric: metric@,
                    total_supply,
                    current_supply: total_supply,
                    price: initial_price,
                    oracle: old(ctx).oracle,
                    current_value: 0,
                    last_update: now,
                    active: true,
                })
                &&& final(ctx).market == (Market {
                    bond: old(ctx).bond_key,
                    total_volume: 0,
                    last_price: initial_price,
                    price_change_24h: 0,
                    market_cap: (initial_price * total_supply) as u64,
                })
                &&& final(ctx).creator_bonds.creator == old(ctx).creator
                &&& final(ctx).creator_bonds.bond_ids@ == old(ctx).creator_bonds.bond_ids@.push(id)
                &&& final(ctx).bond_key == old(ctx).bond_key
                &&& final(ctx).oracle == old(ctx).oracle
                &&& final(ctx).creator == old(ctx).creator
            },
        },
{
    if !is_valid_category(&category) {
        return Err(BondError::InvalidCategory);
    }
    if total_supply == 0 {
        return Err(BondError::InvalidSupply);
    }
    if initial_price == 0 {
        return Err(BondError::InvalidPrice);
    }
    if ctx.bonds_state.bond_counter == u64::MAX {
        return Err(BondError::Arithmetic);
    }
    let market_cap = match initial_price.checked_mul(total_supply) {
        Some(market_cap) => market_cap,
        None => {
            return Err(BondError::Arithmetic);
        },
    };
    let bond_id = ctx.bonds_state.bond_counter + 1;
    ctx.bonds_state.bond_counter = bond_id;

    let event = BondCreatedEvent {
        bond_id,
        creator: ctx.creator,
        name: name.clone(),
        total_supply,
        initial_price,
    };

    ctx.bond.id = bond_id;
    ctx.bond.creator = ctx.creator;
    ctx.bond.name = name;
    ctx.bond.description = description;
    ctx.bond.category = category;
    ctx.bond.metric = metric;
    ctx.bond.total_supply = total_supply;
    ctx.bond.current_supply = total_supply;
    ctx.bond.price = initial_price;
    ctx.bond.oracle = ctx.oracle;
    ctx.bond.current_value = 0;
    ctx.bond.last_update = now;
    ctx.bond.active = true;

    ctx.market.bond = ctx.bond_key;
    ctx.market.total_volume = 0;
    ctx.market.last_price = initial_price;
    ctx.market.price_change_24h = 0;
    ctx.market.market_cap = market_cap;

    ctx.creator_bonds.creator = ctx.creator;
    ctx.creator_bonds.bond_ids.push(bond_id);

    Ok(event)
}

/// What a repricing changes, computed without changing anything.
struct Repricing {
    price: u64,
    market_cap: u64,
    price_change: i64,
}

/// Works out the repricing of a bond whose metric goes from `old_value`,
/// which is not zero, to `new_value`.
fn reprice(price: u64, current_supply: u64, old_value: u64, new_value: u64) -> (result: Option<
    Repricing,
>)
    requires
        old_value > 0,
    ensures
        match result {
            Some(repricing) => {
                &&& repricing.price == repriced(price, old_value, new_value)
                &&& repricing.market_cap == repricing.price * current_supply
                &&& repricing.price_change == change_bps(repricing.price as int, price as int)
                &&& price > 0
                &&& repricing.price > 0
                &&& price <= i64::MAX
                &&& repricing.price <= i64::MAX
                &&& price_move(price, old_value, new_value) * 10000 <= i64::MAX
                &&& (if new_value > old_value {
                    new_value - old_value
                } else {
                    old_value - new_value
                }) * price <= u64::MAX
            },
            None => {
                let delta = if new_value > old_value {
                    new_value - old_value
                } else {
                    old_value - new_value
                };
                ||| delta * price > u64::MAX
                ||| repriced(price, old_value, new_value) > u64::MAX
                ||| repriced(price, old_value, new_value) * current_supply > u64::MAX
                ||| price == 0
                ||| repriced(price, old_value, new_value) == 0
                ||| price > i64::MAX
                ||| repriced(price, old_value, new_value) > i64::MAX
                ||| price_move(price, old_value, new_value) * 10000 > i64::MAX
            },
        },
{
    let rises = new_value > old_value;
    let delta = if rises {
        new_value - old_value
    } else {
        old_value - new_value
    };
    let scaled = match delta.checked_mul(price) {
        Some(scaled) => scaled,
        None => {
            return None;
        },
    };
    let price_change = scaled / old_value;
    assert(price_change == price_move(price, old_value, new_value));
    let new_price = if rises {
        match price.checked_add(price_change) {
            Some(new_price) => new_price,
            None => {
                return None;
            },
        }
    } else {
        proof {
            move_down_within_price(price, old_value, new_value);
        }
        price - price_change
    };
    assert(new_price == repriced(price, old_value, new_value));
    let market_cap = match new_price.checked_mul(current_supply) {
        Some(market_cap) => market_cap,
        None => {
            return None;
        },
    };
    if price == 0 || new_price == 0 || price > i64::MAX as u64 || new_price > i64::MAX as u64 {
        return None;
    }
    let bps = match price_change.checked_mul(10000) {
        Some(bps) => bps,
        None => {
            return None;
        },
    };
    if bps > i64::MAX as u64 {
        return None;
    }
    let quotient = bps / price;
    assert(quotient <= bps) by (nonlinear_arith)
        requires
            quotient == bps / price,
            price > 0,
    ;
    let signed: i64 = if rises {
        quotient as i64
    } else {
        -(quotient as i64)
    };
    proof {
        if rises {
            move_up_is_natural(price, old_value, new_value);
        }
        if !rises && price_change == 0 {
            assert(quotient == 0);
        }
    }
    Some(Repricing { price: new_price, market_cap, price_change: signed })
}

/// Takes the oracle's report of the metric and reprices the bond by the
/// relative change of the metric. `now` is the host's time.
///
/// Only the bond's oracle may call it. The reported value and the time are
/// stored. Where the value stored before is zero, nothing else changes.
/// Otherwise the price rises or falls by the price times the relative
/// change, rounded down; the market statistics keep the price before as the
/// last price, the new market capitalization, and the change in basis
/// points of the price before, rounded towards zero.
///
/// It fails, changing nothing, where the caller is not the bond's oracle,
/// where the repricing cannot be carried out within 64 bits, or where it
/// would leave the bond without a price: a price stays above zero, so a
/// report of zero on a bond whose stored metric value is not zero fails.
pub fn update_metric(ctx: &mut UpdateMetric, new_value: u64, now: i64) -> (result: Result<
    MetricUpdatedEvent,
    BondError,
>)
    ensures
        match metric_updated(old(ctx).bond@, old(ctx).market, old(ctx).oracle, new_value, now) {
            Ok((bond, market)) => {
                &&& result == Ok::<MetricUpdatedEvent, BondError>(
                    MetricUpdatedEvent {
                        bond_id: bond.id,
                        old_value: old(ctx).bond.current_value,
                        new_value,
                        new_price: bond.price,
                    },
                )
                &&& final(ctx).bond@ == bond
                &&& final(ctx).market == market
                &&& final(ctx).oracle == old(ctx).oracle
            },
            Err(error) => result == Err::<MetricUpdatedEvent, BondError>(error) && *final(ctx)
                == *old(ctx),
        },
{
    if ctx.oracle != ctx.bond.oracle {
        return Err(BondError::InvalidOracle);
    }
    let old_value = ctx.bond.current_value;
    if old_value > 0 {
        let repricing = match reprice(ctx.bond.price, ctx.bond.current_supply, old_value, new_value) {
            Some(repricing) => repricing,
            None => {
                return Err(BondError::Arithmetic);
            },
        };
        ctx.market.last_price = ctx.bond.price;
        ctx.bond.price = repricing.price;
        ctx.market.market_cap = repricing.market_cap;
        ctx.market.price_change_24h = repricing.price_change;
    }
    ctx.bond.current_value = new_value;
    ctx.bond.last_update = now;

    Ok(
        MetricUpdatedEvent {
            bond_id: ctx.bond.id,
            old_value,
            new_value,
            new_price: ctx.bond.price,
        },
    )
}

/// The seeds of the custodian of the market's vault.
fn vault_authority_signer_seeds(bump: u8) -> (seeds: Vec<Vec<u8>>)
    ensures
        seeds@.len() == 2,
        seeds@[0]@ == vault_authority_seed(),
        seeds@[1]@ == seq![bump],
{
    let mut seeds: Vec<Vec<u8>> = Vec::new();
    seeds.push(vault_authority_seed_bytes());
    let mut last: Vec<u8> = Vec::new();
    last.push(bump);
    assert(last@ =~= seq![bump]);
    seeds.push(last);
    seeds
}

/// Buys `amount` units from the market, or sells them back to it, at the
/// bond's current price.
///
/// A purchase takes the units from those left to sell and adds them to the
/// trader's position; the result holds the transfer of the payment from the
/// buyer's token account into the vault, which the buyer authorizes. A sale
/// takes the units from the trader's position and returns them to those
/// left to sell; the result holds the transfer of the payment from the
/// vault to the seller's token account, authorized by the vault's derived
/// custodian. Either way the payment is added to the traded volume and the
/// market capitalization follows the units left to sell. The notification
/// names the signer of the trade as the trader.
///
/// It fails, changing nothing, where the bond is not active, where more is
/// bought than is left to sell, where more is sold than the trader holds,
/// or where an amount leaves the range of 64 bits.
pub fn trade_bond(ctx: &mut TradeBond, amount: u64, is_buy: bool) -> (result: Result<
    (Transfer, BondTradedEvent),
    BondError,
>)
    ensures
        match traded(old(ctx).bond@, old(ctx).market, old(ctx).holder_bonds, amount, is_buy) {
            Ok((bond, market, holder_bonds)) => {
                &&& result is Ok
                &&& result->Ok_0.0@ == if is_buy {
                    TransferView {
                        from: old(ctx).buyer_token_account,
                        to: old(ctx).vault,
                        authority: old(ctx).buyer,
                        amount: payment_of(amount, old(ctx).bond.price) as u64,
                        signer_seeds: Seq::<Seq<u8>>::empty(),
                    }
                } else {
                    TransferView {
                        from: old(ctx).vault,
                        to: old(ctx).seller_token_account,
                        authority: old(ctx).vault_authority,
                        amount: payment_of(amount, old(ctx).bond.price) as u64,
                        signer_seeds: seq![
                            vault_authority_seed(),
                            seq![old(ctx).bumps.vault_authority],
                        ],
                    }
                }
                &&& result->Ok_0.1 == (BondTradedEvent {
                    bond_id: old(ctx).bond.id,
                    trader: old(ctx).buyer,
                    amount,
                    price: old(ctx).bond.price,
                    is_buy,
                })
                &&& final(ctx).bond@ == bond
                &&& final(ctx).market == market
                &&& final(ctx).holder_bonds == holder_bonds
                &&& final(ctx).vault == old(ctx).vault
                &&& final(ctx).vault_authority == old(ctx).vault_authority
                &&& final(ctx).buyer_token_account == old(ctx).buyer_token_account
                &&& final(ctx).seller_token_account == old(ctx).seller_token_account
                &&& final(ctx).buyer == old(ctx).buyer
                &&& final(ctx).bumps == old(ctx).bumps
            },
            Err(error) => result == Err::<(Transfer, BondTradedEvent), BondError>(error)
                && *final(ctx) == *old(ctx),
        },
{
    if !ctx.bond.active {
        return Err(BondError::BondInactive);
    }
    let price = ctx.bond.price;
    let transfer = if is_buy {
        if amount > ctx.bond.current_supply {
            return Err(BondError::InsufficientSupply);
        }
        let payment_amount = match amount.checked_mul(price) {
            Some(payment_amount) => payment_amount,
            None => {
                return Err(BondError::Arithmetic);
            },
        };
        let held = match ctx.holder_bonds.amount.checked_add(amount) {
            Some(held) => held,
            None => {
                return Err(BondError::Arithmetic);
            },
        };
        let total_volume = match ctx.market.total_volume.checked_add(payment_amount) {
            Some(total_volume) => total_volume,
            None => {
                return Err(BondError::Arithmetic);
            },
        };
        let current_supply = ctx.bond.current_supply - amount;
        let market_cap = match price.checked_mul(current_supply) {
            Some(market_cap) => market_cap,
            None => {
                return Err(BondError::Arithmetic);
            },
        };
        ctx.bond.current_supply = current_supply;
        ctx.holder_bonds.amount = held;
        ctx.market.total_volume = total_volume;
        ctx.market.market_cap = market_cap;
        signed_transfer(ctx.buyer_token_account, ctx.vault, ctx.buyer, payment_amount)
    } else {
        if amount > ctx.holder_bonds.amount {
            return Err(BondError::InsufficientBonds);
        }
        let payment_amount = match amount.checked_mul(price) {
            Some(payment_amount) => payment_amount,
            None => {
                return Err(BondError::Arithmetic);
            },
        };
        let current_supply = match ctx.bond.current_supply.checked_add(amount) {
            Some(current_supply) => current_supply,
            None => {
                return Err(BondError::Arithmetic);
            },
        };
        let total_volume = match ctx.market.total_volume.checked_add(payment_amount) {
            Some(total_volume) => total_volume,
            None => {
                return Err(BondError::Arithmetic);
            },
        };
        let market_cap = match price.checked_mul(current_supply) {
            Some(market_cap) => market_cap,
            None => {
                return Err(BondError::Arithmetic);
            },
        };
        ctx.bond.current_supply = current_supply;
        ctx.holder_bonds.amount = ctx.holder_bonds.amount - amount;
        ctx.market.total_volume = total_volume;
        ctx.market.market_cap = market_cap;
        let transfer = Transfer {
            from: ctx.vault,
            to: ctx.seller_token_account,
            authority: ctx.vault_authority,
            amount: payment_amount,
            signer_seeds: vault_authority_signer_seeds(ctx.bumps.vault_authority),
        };
        assert(transfer@.signer_seeds =~= seq![
            vault_authority_seed(),
            seq![old(ctx).bumps.vault_authority],
        ]);
        transfer
    };
    let event = BondTradedEvent {
        bond_id: ctx.bond.id,
        trader: ctx.buyer,
        amount,
        price,
        is_buy,
    };
    Ok((transfer, event))
}

} // verus!
