//! What the instructions of the bonding market compute, as mathematics.

use super::state::{BondError, BondView, HolderBonds, Market};
use crate::pubkey::Pubkey;
use vstd::prelude::*;

verus! {

/// Whether `category` is one of the categories a bond can have.
pub open spec fn valid_category(category: Seq<char>) -> bool {
    category == "game"@ || category == "social"@ || category == "content"@
}

/// Why the creation of a bond fails, if it does. `counter` is the
/// registry's counter before the creation.
pub open spec fn creation_error(
    counter: u64,
    category: Seq<char>,
    total_supply: u64,
    initial_price: u64,
) -> Option<BondError> {
    if !valid_category(category) {
        Some(BondError::InvalidCategory)
    } else if total_supply == 0 {
        Some(BondError::InvalidSupply)
    } else if initial_price == 0 {
        Some(BondError::InvalidPrice)
    } else if counter == u64::MAX || initial_price * total_supply > u64::MAX {
        Some(BondError::Arithmetic)
    } else {
        None
    }
}

/// Whether the market statistics show the bond's price times its units
/// left to sell.
pub open spec fn market_consistent(bond: BondView, market: Market) -> bool {
    market.market_cap == bond.price * bond.current_supply
}

/// By how much a price moves when the metric goes from `old_value`, which
/// is not zero, to `new_value`: the price times the relative change of the
/// metric, rounded down.
pub open spec fn price_move(price: u64, old_value: u64, new_value: u64) -> int {
    if new_value > old_value {
        (new_value - old_value) * price / (old_value as int)
    } else {
        (old_value - new_value) * price / (old_value as int)
    }
}

/// The price after the metric goes from `old_value`, which is not zero, to
/// `new_value`: up where the metric rose, down otherwise.
pub open spec fn repriced(price: u64, old_value: u64, new_value: u64) -> int {
    if new_value > old_value {
        price + price_move(price, old_value, new_value)
    } else {
        price - price_move(price, old_value, new_value)
    }
}

/// The change from `last_price`, which is not zero, to `new_price` in basis
/// points of `last_price`, rounded towards zero.
pub open spec fn change_bps(new_price: int, last_price: int) -> int {
    if new_price >= last_price {
        (new_price - last_price) * 10000 / last_price
    } else {
        -((last_price - new_price) * 10000 / last_price)
    }
}

/// Whether a repricing of `bond` for `new_value` cannot be carried out:
/// the scaled change of the metric, the new price or the new market
/// capitalization leaves the unsigned range of 64 bits, the price before or
/// after, or their difference in basis points, leaves the signed range, or
/// the price before or after is zero. A bond's price stays above zero, so a
/// repricing that would take the whole price fails.
pub open spec fn repricing_fails(bond: BondView, new_value: u64) -> bool {
    let old_value = bond.current_value;
    let delta = if new_value > old_value {
        new_value - old_value
    } else {
        old_value - new_value
    };
    let new_price = repriced(bond.price, old_value, new_value);
    ||| delta * bond.price > u64::MAX
    ||| new_price > u64::MAX
    ||| new_price * bond.current_supply > u64::MAX
    ||| bond.price == 0
    ||| new_price == 0
    ||| bond.price > i64::MAX
    ||| new_price > i64::MAX
    ||| price_move(bond.price, old_value, new_value) * 10000 > i64::MAX
}

/// A metric report of `new_value` by `caller` at time `now`: the bond and
/// its market statistics after it, or why it fails.
pub open spec fn metric_updated(
    bond: BondView,
    market: Market,
    caller: Pubkey,
    new_value: u64,
    now: i64,
) -> Result<(BondView, Market), BondError> {
    if caller != bond.oracle {
        Err(BondError::InvalidOracle)
    } else if bond.current_value == 0 {
        Ok((BondView { current_value: new_value, last_update: now, ..bond }, market))
    } else if repricing_fails(bond, new_value) {
        Err(BondError::Arithmetic)
    } else {
        let new_price = repriced(bond.price, bond.current_value, new_value);
        Ok(
            (
                BondView {
                    current_value: new_value,
                    last_update: now,
                    price: new_price as u64,
                    ..bond
                },
                Market {
                    last_price: bond.price,
                    market_cap: (new_price * bond.current_supply) as u64,
                    price_change_24h: change_bps(new_price, bond.price as int) as i64,
                    ..market
                },
            ),
        )
    }
}

/// What `amount` units cost at `price`.
pub open spec fn payment_of(amount: u64, price: u64) -> int {
    amount * price
}

/// A purchase of `amount` units: the bond, its market statistics and the
/// buyer's position after it, or why it fails.
pub open spec fn bought(bond: BondView, market: Market, holder: HolderBonds, amount: u64) -> Result<
    (BondView, Market, HolderBonds),
    BondError,
> {
    if !bond.active {
        Err(BondError::BondInactive)
    } else if amount > bond.current_supply {
        Err(BondError::InsufficientSupply)
    } else if payment_of(amount, bond.price) > u64::MAX || holder.amount + amount > u64::MAX
        || market.total_volume + payment_of(amount, bond.price) > u64::MAX || bond.price * (
    bond.current_supply - amount) > u64::MAX {
        Err(BondError::Arithmetic)
    } else {
        Ok(
            (
                BondView { current_supply: (bond.current_supply - amount) as u64, ..bond },
                Market {
                    total_volume: (market.total_volume + payment_of(amount, bond.price)) as u64,
                    market_cap: (bond.price * (bond.current_supply - amount)) as u64,
                    ..market
                },
                HolderBonds { amount: (holder.amount + amount) as u64, ..holder },
            ),
        )
    }
}

/// A sale of `amount` units back to the market: the bond, its market
/// statistics and the seller's position after it, or why it fails.
pub open spec fn sold(bond: BondView, market: Market, holder: HolderBonds, amount: u64) -> Result<
    (BondView, Market, HolderBonds),
    BondError,
> {
    if !bond.active {
        Err(BondError::BondInactive)
    } else if amount > holder.amount {
        Err(BondError::InsufficientBonds)
    } else if payment_of(amount, bond.price) > u64::MAX || bond.current_supply + amount > u64::MAX
        || market.total_volume + payment_of(amount, bond.price) > u64::MAX || bond.price * (
    bond.current_supply + amount) > u64::MAX {
        Err(BondError::Arithmetic)
    } else {
        Ok(
            (
                BondView { current_supply: (bond.current_supply + amount) as u64, ..bond },
                Market {
                    total_volume: (market.total_volume + payment_of(amount, bond.price)) as u64,
                    market_cap: (bond.price * (bond.current_supply + amount)) as u64,
                    ..market
                },
                HolderBonds { amount: (holder.amount - amount) as u64, ..holder },
            ),
        )
    }
}

/// A trade of `amount` units, a purchase where `is_buy` and a sale
/// otherwise.
pub open spec fn traded(
    bond: BondView,
    market: Market,
    holder: HolderBonds,
    amount: u64,
    is_buy: bool,
) -> Result<(BondView, Market, HolderBonds), BondError> {
    if is_buy {
        bought(bond, market, holder, amount)
    } else {
        sold(bond, market, holder, amount)
    }
}

} // verus!
