//! Token factory: mints a new token for a piece of content against a fee,
//! and keeps the factory's settings.

pub mod instructions;
pub mod rules;
pub mod state;

pub use instructions::{
    create_token, create_token_at, initialize, set_fee_receiver, set_mint_fee,
};
pub use state::{
    ContentHashAccount, CreateToken, FactoryState, Initialize, PaymentAccount, TokenCreatedEvent,
    TokenFactoryError, TokenMetadata, UpdateFactory,
};
