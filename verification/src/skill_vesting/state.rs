//! Records, notifications and errors of the vesting ledger.

use crate::pubkey::Pubkey;
use vstd::prelude::*;

verus! {

/// The registry root: one per deployment.
#[derive(Clone, Copy, Debug, PartialEq, Eq)]
pub struct VestingState {
    pub authority: Pubkey,
    /// The id given to the schedule created last; 0 before the first.
    pub vesting_id_counter: u64,
}

/// One step of a schedule: once the metric reaches `threshold`, the share
/// `unlock_percentage` of the escrowed total is released.
#[derive(Clone, Copy, Debug, PartialEq, Eq, Structural)]
pub struct Milestone {
    pub threshold: u64,
    /// In basis points: 10000 is the whole escrowed amount.
    pub unlock_percentage: u64,
    pub reached: bool,
}

/// A vesting schedule.
#[derive(Clone, Debug, PartialEq, Eq)]
pub struct VestingSchedule {
    pub creator: Pubkey,
    pub token_mint: Pubkey,
    pub total_amount: u64,
    /// Released by milestones and not yet withdrawn.
    pub unlocked_amount: u64,
    pub oracle_address: Pubkey,
    pub metric_type: String,
    pub active: bool,
    pub vesting_id: u64,
    pub milestones: Vec<Milestone>,
}

/// A [`VestingSchedule`] as a mathematical value.
pub struct VestingScheduleView {
    pub creator: Pubkey,
    pub token_mint: Pubkey,
    pub total_amount: u64,
    pub unlocked_amount: u64,
    pub oracle_address: Pubkey,
    pub metric_type: Seq<char>,
    pub active: bool,
    pub vesting_id: u64,
    pub milestones: Seq<Milestone>,
}

impl View for VestingSchedule {
    type V = VestingScheduleView;

    open spec fn view(&self) -> VestingScheduleView {
        VestingScheduleView {
            creator: self.creator,
            token_mint: self.token_mint,
            total_amount: self.total_amount,
            unlocked_amount: self.unlocked_amount,
            oracle_address: self.oracle_address,
            metric_type: self.metric_type@,
            active: self.active,
            vesting_id: self.vesting_id,
            milestones: self.milestones@,
        }
    }
}

/// The ids of the schedules that one creator made, oldest first.
#[derive(Clone, Debug, PartialEq, Eq)]
pub struct CreatorVestings {
    pub creator: Pubkey,
    pub vesting_ids: Vec<u64>,
}

/// The oracle's account: its address and its raw state, whose first eight
/// bytes hold the current metric value, least significant byte first.
#[derive(Clone, Debug, PartialEq, Eq)]
pub struct OracleAccount {
    pub key: Pubkey,
    pub data: Vec<u8>,
}

/// Told when a schedule is created.
#[derive(Clone, Copy, Debug, PartialEq, Eq)]
pub struct VestingCreatedEvent {
    pub vesting_id: u64,
    pub creator: Pubkey,
    pub token_address: Pubkey,
    pub total_amount: u64,
}

/// Told once for each milestone that a check newly finds reached.
#[derive(Clone, Copy, Debug, PartialEq, Eq, Structural)]
pub struct MilestoneReachedEvent {
    pub vesting_id: u64,
    /// The position of the milestone in its schedule.
    pub milestone_index: u64,
    /// What this milestone released.
    pub unlocked_amount: u64,
}

/// Told when released tokens leave the vault.
#[derive(Clone, Copy, Debug, PartialEq, Eq)]
pub struct TokensWithdrawnEvent {
    pub vesting_id: u64,
    pub creator: Pubkey,
    pub amount: u64,
}

/// Why an instruction of the vesting ledger failed.
#[derive(Clone, Copy, Debug, PartialEq, Eq, Structural)]
pub enum VestingError {
    ArrayLengthMismatch,
    NoMilestones,
    TotalPercentageExceeded,
    VestingNotActive,
    NoNewMilestonesReached,
    OnlyCreatorCanWithdraw,
    NoTokensToWithdraw,
    /// A stored amount or counter would have left the range of 64 bits.
    Arithmetic,
}

impl VestingError {
    /// The message shown for the error.
    pub fn message(&self) -> (text: &'static str)
        ensures
            text@ == match *self {
                VestingError::ArrayLengthMismatch => "Arrays must be the same length"@,
                VestingError::NoMilestones => "Must have at least one milestone"@,
                VestingError::TotalPercentageExceeded => "Total percentage cannot exceed 100%"@,
                VestingError::VestingNotActive => "Vesting schedule not active"@,
                VestingError::NoNewMilestonesReached => "No new milestones reached"@,
                VestingError::OnlyCreatorCanWithdraw => "Only creator can withdraw"@,
                VestingError::NoTokensToWithdraw => "No tokens to withdraw"@,
                VestingError::Arithmetic => "Arithmetic overflow"@,
            },
    {
        match self {
            VestingError::ArrayLengthMismatch => "Arrays must be the same length",
            VestingError::NoMilestones => "Must have at least one milestone",
            VestingError::TotalPercentageExceeded => "Total percentage cannot exceed 100%",
            VestingError::VestingNotActive => "Vesting schedule not active",
            VestingError::NoNewMilestonesReached => "No new milestones reached",
            VestingError::OnlyCreatorCanWithdraw => "Only creator can withdraw",
            VestingError::NoTokensToWithdraw => "No tokens to withdraw",
            VestingError::Arithmetic => "Arithmetic overflow",
        }
    }
}

/// The records that [`initialize`](super::instructions::initialize) touches.
#[derive(Clone, Debug, PartialEq, Eq)]
pub struct Initialize {
    pub vesting_state: VestingState,
    pub authority: Pubkey,
}

/// The records that [`create_vesting`](super::instructions::create_vesting)
/// touches. The schedule, the vault and its authority are newly provisioned
/// for the id that follows the registry's counter.
#[derive(Clone, Debug, PartialEq, Eq)]
pub struct CreateVesting {
    pub vesting_state: VestingState,
    pub vesting_schedule: VestingSchedule,
    pub creator_vestings: CreatorVestings,
    pub token_mint: Pubkey,
    pub token_from: Pubkey,
    pub token_vault: Pubkey,
    pub token_vault_authority: Pubkey,
    pub oracle: Pubkey,
    pub creator: Pubkey,
}

/// The records that
/// [`check_milestones`](super::instructions::check_milestones) touches.
#[derive(Clone, Debug, PartialEq, Eq)]
pub struct CheckMilestones {
    pub vesting_schedule: VestingSchedule,
    pub oracle: OracleAccount,
    pub signer: Pubkey,
}

/// The bump seeds of the derived accounts of [`WithdrawUnlocked`].
#[derive(Clone, Copy, Debug, PartialEq, Eq, Structural)]
pub struct WithdrawUnlockedBumps {
    pub token_vault: u8,
    pub token_vault_authority: u8,
}

/// The records that
/// [`withdraw_unlocked`](super::instructions::withdraw_unlocked) touches.
#[derive(Clone, Debug, PartialEq, Eq)]
pub struct WithdrawUnlocked {
    pub vesting_schedule: VestingSchedule,
    pub token_vault: Pubkey,
    pub token_vault_authority: Pubkey,
    pub token_to: Pubkey,
    pub oracle: OracleAccount,
    pub creator: Pubkey,
    pub bumps: WithdrawUnlockedBumps,
}

} // verus!
