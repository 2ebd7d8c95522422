//! Records, notifications and errors of the bonding market.

use crate::pubkey::Pubkey;
use vstd::prelude::*;

verus! {

/// The registry root: one per deployment.
#[derive(Clone, Copy, Debug, PartialEq, Eq)]
pub struct BondsState {
    pub authority: Pubkey,
    /// The id given to the bond created last; 0 before the first.
    pub bond_counter: u64,
}

/// A bond.
#[derive(Clone, Debug, PartialEq, Eq)]
pub struct Bond {
    pub id: u64,
    pub creator: Pubkey,
    pub name: String,
    pub description: String,
    /// One of `game`, `social`, `content`.
    pub category: String,
    pub metric: String,
    pub total_supply: u64,
    /// The units that the market has left to sell.
    pub current_supply: u64,
    pub price: u64,
    pub oracle: Pubkey,
    /// The metric value of the last update; 0 before the first.
    pub current_value: u64,
    pub last_update: i64,
    pub active: bool,
}

/// A [`Bond`] as a mathematical value.
pub struct BondView {
    pub id: u64,
    pub creator: Pubkey,
    pub name: Seq<char>,
    pub description: Seq<char>,
    pub category: Seq<char>,
    pub metric: Seq<char>,
    pub total_supply: u64,
    pub current_supply: u64,
    pub price: u64,
    pub oracle: Pubkey,
    pub current_value: u64,
    pub last_update: i64,
    pub active: bool,
}

impl View for Bond {
    type V = BondView;

    open spec fn view(&self) -> BondView {
        BondView {
            id: self.id,
            creator: self.creator,
            name: self.name@,
            description: self.description@,
            category: self.category@,
            metric: self.metric@,
            total_supply: self.total_supply,
            current_supply: self.current_supply,
            price: self.price,
            oracle: self.oracle,
            current_value: self.current_value,
            last_update: self.last_update,
            active: self.active,
        }
    }
}

/// The market statistics of one bond.
#[derive(Clone, Copy, Debug, PartialEq, Eq)]
pub struct Market {
    /// The address of the bond's record.
    pub bond: Pubkey,
    /// All payments of all trades, added up.
    pub total_volume: u64,
    /// The price before the last repricing.
    pub last_price: u64,
    /// The last repricing's change of the price, in basis points of the
    /// price before it.
    pub price_change_24h: i64,
    /// The price times the units left to sell.
    pub market_cap: u64,
}

/// The ids of the bonds that one creator made, oldest first.
#[derive(Clone, Debug, PartialEq, Eq)]
pub struct CreatorBonds {
    pub creator: Pubkey,
    pub bond_ids: Vec<u64>,
}

/// How many units of one bond one holder has.
#[derive(Clone, Copy, Debug, PartialEq, Eq)]
pub struct HolderBonds {
    pub holder: Pubkey,
    pub bond: Pubkey,
    pub amount: u64,
}

/// Told when a bond is created.
#[derive(Clone, Debug, PartialEq, Eq)]
pub struct BondCreatedEvent {
    pub bond_id: u64,
    pub creator: Pubkey,
    pub name: String,
    pub total_supply: u64,
    pub initial_price: u64,
}

/// Told when the oracle reports a metric value.
#[derive(Clone, Copy, Debug, PartialEq, Eq, Structural)]
pub struct MetricUpdatedEvent {
    pub bond_id: u64,
    pub old_value: u64,
    pub new_value: u64,
    pub new_price: u64,
}

/// Told when units are bought or sold.
#[derive(Clone, Copy, Debug, PartialEq, Eq)]
pub struct BondTradedEvent {
    pub bond_id: u64,
    pub trader: Pubkey,
    pub amount: u64,
    pub price: u64,
    pub is_buy: bool,
}

/// Why an instruction of the bonding market failed.
#[derive(Clone, Copy, Debug, PartialEq, Eq, Structural)]
pub enum BondError {
    InvalidCategory,
    InvalidSupply,
    InvalidPrice,
    BondInactive,
    InsufficientSupply,
    InsufficientBonds,
    InvalidOracle,
    /// A stored amount would have left the range of 64 bits, or a price
    /// would have been zero.
    Arithmetic,
}

impl BondError {
    /// The message shown for the error.
    pub fn message(&self) -> (text: &'static str)
        ensures
            text@ == match *self {
                BondError::InvalidCategory => "Invalid bond category"@,
                BondError::InvalidSupply => "Invalid bond supply"@,
                BondError::InvalidPrice => "Invalid bond price"@,
                BondError::BondInactive => "Bond is inactive"@,
                BondError::InsufficientSupply => "Insufficient bond supply"@,
                BondError::InsufficientBonds => "Insufficient bonds held"@,
                BondError::InvalidOracle => "Invalid oracle"@,
                BondError::Arithmetic => "Arithmetic overflow"@,
            },
    {
        match self {
            BondError::InvalidCategory => "Invalid bond category",
            BondError::InvalidSupply => "Invalid bond supply",
            BondError::InvalidPrice => "Invalid bond price",
            BondError::BondInactive => "Bond is inactive",
            BondError::InsufficientSupply => "Insufficient bond supply",
            BondError::InsufficientBonds => "Insufficient bonds held",
            BondError::InvalidOracle => "Invalid oracle",
            BondError::Arithmetic => "Arithmetic overflow",
        }
    }
}

/// The records that [`initialize`](super::instructions::initialize) touches.
#[derive(Clone, Debug, PartialEq, Eq)]
pub struct Initialize {
    pub bonds_state: BondsState,
    pub authority: Pubkey,
}

/// The records that [`create_bond`](super::instructions::create_bond)
/// touches. The bond, its market statistics and the creator's index are
/// newly provisioned.
#[derive(Clone, Debug, PartialEq, Eq)]
pub struct CreateBond {
    pub bonds_state: BondsState,
    pub bond: Bond,
    /// The address of the bond's record.
    pub bond_key: Pubkey,
    pub market: Market,
    pub creator_bonds: CreatorBonds,
    pub oracle: Pubkey,
    pub creator: Pubkey,
}

/// The records that [`update_metric`](super::instructions::update_metric)
/// touches.
#[derive(Clone, Debug, PartialEq, Eq)]
pub struct UpdateMetric {
    pub bond: Bond,
    pub market: Market,
    /// The signer that reports the metric.
    pub oracle: Pubkey,
}

/// The bump seeds of the derived accounts of [`TradeBond`].
#[derive(Clone, Copy, Debug, PartialEq, Eq, Structural)]
pub struct TradeBondBumps {
    pub holder_bonds: u8,
    pub vault_authority: u8,
}

/// The records that [`trade_bond`](super::instructions::trade_bond) touches.
#[derive(Clone, Debug, PartialEq, Eq)]
pub struct TradeBond {
    pub bond: Bond,
    pub market: Market,
    /// The position of `buyer` in `bond`.
    pub holder_bonds: HolderBonds,
    pub vault: Pubkey,
    pub vault_authority: Pubkey,
    pub buyer_token_account: Pubkey,
    pub seller_token_account: Pubkey,
    /// The signer that trades, on either side.
    pub buyer: Pubkey,
    pub bumps: TradeBondBumps,
}

} // verus!
