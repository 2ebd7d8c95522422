//! What holds of every bond.

use super::rules::{
    bought, market_consistent, metric_updated, payment_of, price_move, repriced, sold, traded,
};
use super::state::{BondError, BondView, HolderBonds, Market};
use crate::pubkey::Pubkey;
use vstd::prelude::*;

verus! {

/// A price never moves down by more than itself.
pub proof fn move_down_within_price(price: u64, old_value: u64, new_value: u64)
    requires
        0 < old_value,
        new_value <= old_value,
    ensures
        0 <= price_move(price, old_value, new_value) <= price,
{
    let delta = (old_value - new_value) as int;
    let p = price as int;
    let o = old_value as int;
    assert(0 <= delta * p / o <= p) by (nonlinear_arith)
        requires
            0 <= delta <= o,
            0 < o,
            0 <= p,
    ;
}

/// A price never moves up by a negative amount.
pub proof fn move_up_is_natural(price: u64, old_value: u64, new_value: u64)
    requires
        0 < old_value < new_value,
    ensures
        0 <= price_move(price, old_value, new_value),
{
    let delta = (new_value - old_value) as int;
    let p = price as int;
    let o = old_value as int;
    assert(0 <= delta * p / o) by (nonlinear_arith)
        requires
            0 <= delta,
            0 < o,
            0 <= p,
    ;
}

/// After every trade the market capitalization is the price times the
/// units left to sell.
pub proof fn trade_keeps_market_cap(
    bond: BondView,
    market: Market,
    holder: HolderBonds,
    amount: u64,
    is_buy: bool,
)
    requires
        traded(bond, market, holder, amount, is_buy) is Ok,
    ensures
        ({
            let (bond_after, market_after, _) = traded(bond, market, holder, amount, is_buy)->Ok_0;
            market_consistent(bond_after, market_after)
        }),
{
}

/// After a metric report that reprices the bond, the market capitalization
/// is the new price times the units left to sell; a report that does not
/// reprice keeps the price, the units and the market capitalization.
pub proof fn update_keeps_market_cap(
    bond: BondView,
    market: Market,
    caller: Pubkey,
    new_value: u64,
    now: i64,
)
    requires
        metric_updated(bond, market, caller, new_value, now) is Ok,
    ensures
        ({
            let (bond_after, market_after) = metric_updated(
                bond,
                market,
                caller,
                new_value,
                now,
            )->Ok_0;
            &&& bond.current_value != 0 ==> market_consistent(bond_after, market_after)
            &&& market_consistent(bond, market) ==> market_consistent(bond_after, market_after)
            &&& bond_after.current_supply == bond.current_supply
        }),
{
    if bond.current_value != 0 {
        if new_value > bond.current_value {
            move_up_is_natural(bond.price, bond.current_value, new_value);
        } else {
            move_down_within_price(bond.price, bond.current_value, new_value);
        }
        let new_price = repriced(bond.price, bond.current_value, new_value);
        assert(0 <= new_price * bond.current_supply) by (nonlinear_arith)
            requires
                0 <= new_price,
                0 <= bond.current_supply,
        ;
    }
}

/// A metric report on a bond whose stored metric value is zero succeeds for
/// the bond's oracle, whatever the reported value, and leaves the price and
/// the market statistics as they were.
pub proof fn first_update_keeps_price(
    bond: BondView,
    market: Market,
    caller: Pubkey,
    new_value: u64,
    now: i64,
)
    requires
        bond.current_value == 0,
        caller == bond.oracle,
    ensures
        metric_updated(bond, market, caller, new_value, now) is Ok,
        ({
            let (bond_after, market_after) = metric_updated(
                bond,
                market,
                caller,
                new_value,
                now,
            )->Ok_0;
            &&& bond_after.price == bond.price
            &&& market_after == market
            &&& bond_after.current_value == new_value
        }),
{
}

/// A bond with a price above zero has a price above zero after every
/// metric report that succeeds, whatever the reported value. A trade leaves
/// the price as it is.
pub proof fn price_stays_positive(
    bond: BondView,
    market: Market,
    holder: HolderBonds,
    caller: Pubkey,
    new_value: u64,
    now: i64,
    amount: u64,
    is_buy: bool,
)
    requires
        bond.price > 0,
    ensures
        metric_updated(bond, market, caller, new_value, now) matches Ok((bond_after, _))
            ==> bond_after.price > 0,
        traded(bond, market, holder, amount, is_buy) matches Ok((bond_after, _, _))
            ==> bond_after.price == bond.price,
{
    let old_value = bond.current_value;
    if old_value != 0 {
        if new_value > old_value {
            move_up_is_natural(bond.price, old_value, new_value);
        } else {
            move_down_within_price(bond.price, old_value, new_value);
        }
    }
}

/// A repricing takes the whole price exactly where the reported value is
/// zero. So on a bond whose stored metric value is not zero, a report of
/// zero by the oracle fails, and a report above zero never fails for want
/// of a price.
pub proof fn report_of_zero_fails(
    bond: BondView,
    market: Market,
    caller: Pubkey,
    new_value: u64,
    now: i64,
)
    requires
        bond.current_value != 0,
        bond.price > 0,
    ensures
        repriced(bond.price, bond.current_value, new_value) == 0 <==> new_value == 0,
        caller == bond.oracle && new_value == 0 ==> metric_updated(
            bond,
            market,
            caller,
            new_value,
            now,
        ) == Err::<(BondView, Market), BondError>(BondError::Arithmetic),
{
    let old_value = bond.current_value;
    let p = bond.price as int;
    let o = old_value as int;
    if new_value > old_value {
        move_up_is_natural(bond.price, old_value, new_value);
    } else {
        let delta = (old_value - new_value) as int;
        if new_value > 0 {
            assert(delta * p / o < p) by (nonlinear_arith)
                requires
                    0 <= delta < o,
                    0 < p,
            ;
        } else {
            assert(delta * p / o == p) by (nonlinear_arith)
                requires
                    delta == o,
                    0 < o,
                    0 < p,
            ;
        }
    }
}

/// The traded volume never falls: a trade adds its payment to it, and a
/// metric report leaves it as it is.
pub proof fn volume_never_falls(
    bond: BondView,
    market: Market,
    holder: HolderBonds,
    caller: Pubkey,
    amount: u64,
    is_buy: bool,
    new_value: u64,
    now: i64,
)
    ensures
        traded(bond, market, holder, amount, is_buy) matches Ok((_, market_after, _))
            ==> market_after.total_volume == market.total_volume + payment_of(amount, bond.price)
            && market_after.total_volume >= market.total_volume,
        metric_updated(bond, market, caller, new_value, now) matches Ok((_, market_after))
            ==> market_after.total_volume == market.total_volume,
{
    assert(0 <= payment_of(amount, bond.price)) by (nonlinear_arith)
        requires
            payment_of(amount, bond.price) == amount * bond.price,
            0 <= amount,
            0 <= bond.price,
    ;
}

/// A trade moves units between the market's pool and the trader's position
/// and neither makes nor loses any: together they hold what they held. So
/// where they held no more than the bond's total supply, the pool stays
/// within the total supply.
pub proof fn trade_conserves_units(
    bond: BondView,
    market: Market,
    holder: HolderBonds,
    amount: u64,
    is_buy: bool,
)
    requires
        traded(bond, market, holder, amount, is_buy) is Ok,
    ensures
        ({
            let (bond_after, _, holder_after) = traded(bond, market, holder, amount, is_buy)->Ok_0;
            &&& bond_after.current_supply + holder_after.amount == bond.current_supply
                + holder.amount
            &&& bond_after.price == bond.price
            &&& bond_after.total_supply == bond.total_supply
            &&& bond.current_supply + holder.amount <= bond.total_supply
                ==> bond_after.current_supply <= bond_after.total_supply
        }),
{
}

/// A purchase followed at once by a sale of the same amount gives the bond
/// and the trader's position back as they were before the purchase: the
/// units left to sell return to their number, and a position that was empty
/// is empty again. The sale cannot fail for want of units; it fails only
/// where the traded volume, or a market capitalization that was already
/// out of range before the purchase, leaves the range of 64 bits.
pub proof fn buy_then_sell_restores(
    bond: BondView,
    market: Market,
    holder: HolderBonds,
    amount: u64,
)
    requires
        bought(bond, market, holder, amount) is Ok,
    ensures
        ({
            let (bond_held, market_held, holder_held) = bought(bond, market, holder, amount)->Ok_0;
            match sold(bond_held, market_held, holder_held, amount) {
                Ok((bond_after, market_after, holder_after)) => {
                    &&& bond_after == bond
                    &&& holder_after == holder
                    &&& market_consistent(bond_after, market_after)
                    &&& market_after.total_volume == market.total_volume + 2 * payment_of(
                        amount,
                        bond.price,
                    )
                },
                Err(error) => {
                    &&& error == BondError::Arithmetic
                    &&& (market.total_volume + 2 * payment_of(amount, bond.price) > u64::MAX
                        || bond.price * bond.current_supply > u64::MAX)
                },
            }
        }),
{
}

} // verus!
