//! Milestone-gated vesting and a metric-driven bonding market, with a token
//! factory and a greeting counter beside them, written as verified state
//! transitions over plain records.
//!
//! Every instruction takes the records it touches, checks its inputs, and
//! either updates the records and hands back what the host has to carry out
//! (token transfers, notifications), or fails and leaves every record as it
//! was.

pub mod bytes;
pub mod greeting;
pub mod program_address;
pub mod pubkey;
pub mod skill_vesting;
pub mod sonic_bonds;
pub mod system_program;
pub mod token;
pub mod token_factory;
