//! Bonding curve market: a supply-limited bond whose price follows an
//! external metric, bought from and sold back to the market's own pool.

pub mod instructions;
pub mod laws;
pub mod rules;
pub mod state;

pub use instructions::{create_bond, initialize, trade_bond, update_metric};
pub use state::{
    Bond, BondCreatedEvent, BondError, BondTradedEvent, BondsState, CreateBond, CreatorBonds,
    HolderBonds, Initialize, Market, MetricUpdatedEvent, TradeBond, TradeBondBumps, UpdateMetric,
};
