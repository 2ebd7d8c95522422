//! Milestone vesting ledger: value is escrowed at creation and released in
//! parts as an external metric crosses the thresholds of the schedule.

pub mod instructions;
pub mod laws;
pub mod rules;
pub mod state;

pub use instructions::{check_milestones, create_vesting, initialize, withdraw_unlocked};
pub use state::{
    CheckMilestones, CreateVesting, CreatorVestings, Initialize, Milestone, MilestoneReachedEvent,
    OracleAccount, TokensWithdrawnEvent, VestingCreatedEvent, VestingError, VestingSchedule,
    VestingState, WithdrawUnlocked, WithdrawUnlockedBumps,
};
