//! What the instructions of the vesting ledger compute, as mathematics.

use super::state::{Milestone, MilestoneReachedEvent, VestingError, VestingScheduleView};
use vstd::prelude::*;

verus! {

/// The sum of the given numbers.
pub open spec fn sum_of(values: Seq<u64>) -> int
    decreases values.len(),
{
    if values.len() == 0 {
        0
    } else {
        sum_of(values.drop_last()) + values.last()
    }
}

/// The unlock shares of the milestones, in order.
pub open spec fn percentages(milestones: Seq<Milestone>) -> Seq<u64> {
    Seq::new(milestones.len(), |i: int| milestones[i].unlock_percentage)
}

/// The milestones that a new schedule gets: one for each threshold with the
/// share at the same position, none of them reached.
pub open spec fn paired(thresholds: Seq<u64>, shares: Seq<u64>) -> Seq<Milestone> {
    Seq::new(
        thresholds.len(),
        |i: int| Milestone { threshold: thresholds[i], unlock_percentage: shares[i], reached: false },
    )
}

/// The share `bps` of `total`, rounded down.
pub open spec fn unlock_of(total: u64, bps: u64) -> int {
    total * bps / 10000
}

/// Whether a check at metric value `value` finds the milestone reached for
/// the first time.
pub open spec fn newly_reached(milestone: Milestone, value: u64) -> bool {
    !milestone.reached && milestone.threshold <= value
}

/// The milestones after a check at metric value `value`.
pub open spec fn marked(milestones: Seq<Milestone>, value: u64) -> Seq<Milestone> {
    Seq::new(
        milestones.len(),
        |i: int|
            Milestone {
                threshold: milestones[i].threshold,
                unlock_percentage: milestones[i].unlock_percentage,
                reached: milestones[i].reached || milestones[i].threshold <= value,
            },
    )
}

/// Whether a check at `value` finds any milestone newly reached.
pub open spec fn any_newly_reached(milestones: Seq<Milestone>, value: u64) -> bool {
    exists|i: int| 0 <= i < milestones.len() && newly_reached(#[trigger] milestones[i], value)
}

/// What the milestones newly reached at `value` release together.
pub open spec fn newly_unlocked(total: u64, milestones: Seq<Milestone>, value: u64) -> int
    decreases milestones.len(),
{
    if milestones.len() == 0 {
        0
    } else {
        newly_unlocked(total, milestones.drop_last(), value) + if newly_reached(
            milestones.last(),
            value,
        ) {
            unlock_of(total, milestones.last().unlock_percentage)
        } else {
            0
        }
    }
}

/// What all reached milestones have released together.
pub open spec fn reached_unlocked(total: u64, milestones: Seq<Milestone>) -> int
    decreases milestones.len(),
{
    if milestones.len() == 0 {
        0
    } else {
        reached_unlocked(total, milestones.drop_last()) + if milestones.last().reached {
            unlock_of(total, milestones.last().unlock_percentage)
        } else {
            0
        }
    }
}

/// The notifications of a check at `value`: one for each newly reached
/// milestone, in the order of the schedule.
pub open spec fn reached_events(
    vesting_id: u64,
    total: u64,
    milestones: Seq<Milestone>,
    value: u64,
) -> Seq<MilestoneReachedEvent>
    decreases milestones.len(),
{
    if milestones.len() == 0 {
        Seq::empty()
    } else {
        let before = reached_events(vesting_id, total, milestones.drop_last(), value);
        if newly_reached(milestones.last(), value) {
            before.push(
                MilestoneReachedEvent {
                    vesting_id,
                    milestone_index: (milestones.len() - 1) as u64,
                    unlocked_amount: unlock_of(total, milestones.last().unlock_percentage) as u64,
                },
            )
        } else {
            before
        }
    }
}

/// Whether some amount of a check at `value` leaves the range of 64 bits:
/// the product of the total and the share of a newly reached milestone, or
/// the unlocked amount after the check.
pub open spec fn unlock_overflows(schedule: VestingScheduleView, value: u64) -> bool {
    ||| exists|i: int|
        0 <= i < schedule.milestones.len() && newly_reached(
            #[trigger] schedule.milestones[i],
            value,
        ) && schedule.total_amount * schedule.milestones[i].unlock_percentage > u64::MAX
    ||| schedule.unlocked_amount + newly_unlocked(
        schedule.total_amount,
        schedule.milestones,
        value,
    ) > u64::MAX
}

/// The schedule after the milestones reached at `value` are marked and
/// their shares released.
pub open spec fn released(schedule: VestingScheduleView, value: u64) -> VestingScheduleView {
    VestingScheduleView {
        unlocked_amount: (schedule.unlocked_amount + newly_unlocked(
            schedule.total_amount,
            schedule.milestones,
            value,
        )) as u64,
        milestones: marked(schedule.milestones, value),
        ..schedule
    }
}

/// A milestone check at metric value `value`: the schedule after it, or
/// why it fails.
pub open spec fn checked(schedule: VestingScheduleView, value: u64) -> Result<
    VestingScheduleView,
    VestingError,
> {
    if !schedule.active {
        Err(VestingError::VestingNotActive)
    } else if unlock_overflows(schedule, value) {
        Err(VestingError::Arithmetic)
    } else if !any_newly_reached(schedule.milestones, value) {
        Err(VestingError::NoNewMilestonesReached)
    } else {
        Ok(released(schedule, value))
    }
}

/// The schedule from which a withdrawal at metric value `value` pays: the
/// schedule after a milestone check where that check succeeds, the schedule
/// as it is where the check finds nothing new.
pub open spec fn refreshed(schedule: VestingScheduleView, value: u64) -> VestingScheduleView {
    match checked(schedule, value) {
        Ok(after) => after,
        Err(_) => schedule,
    }
}

/// A withdrawal by `caller` at metric value `value`: the schedule after it,
/// or why it fails.
pub open spec fn withdrawn(
    schedule: VestingScheduleView,
    caller: crate::pubkey::Pubkey,
    value: u64,
) -> Result<VestingScheduleView, VestingError> {
    if caller != schedule.creator {
        Err(VestingError::OnlyCreatorCanWithdraw)
    } else if !schedule.active {
        Err(VestingError::VestingNotActive)
    } else if unlock_overflows(schedule, value) {
        Err(VestingError::Arithmetic)
    } else if refreshed(schedule, value).unlocked_amount == 0 {
        Err(VestingError::NoTokensToWithdraw)
    } else {
        Ok(VestingScheduleView { unlocked_amount: 0, ..refreshed(schedule, value) })
    }
}

/// Why the creation of a schedule fails, if it does. `counter` is the
/// registry's counter before the creation.
pub open spec fn creation_error(counter: u64, thresholds: Seq<u64>, shares: Seq<u64>) -> Option<
    VestingError,
> {
    if thresholds.len() != shares.len() {
        Some(VestingError::ArrayLengthMismatch)
    } else if thresholds.len() == 0 {
        Some(VestingError::NoMilestones)
    } else if sum_of(shares) > 10000 {
        Some(VestingError::TotalPercentageExceeded)
    } else if counter == u64::MAX {
        Some(VestingError::Arithmetic)
    } else {
        None
    }
}

/// The validity of a schedule: its shares add up to no more than the
/// whole, and it holds no more unlocked than its reached milestones
/// released.
pub open spec fn well_formed(schedule: VestingScheduleView) -> bool {
    &&& sum_of(percentages(schedule.milestones)) <= 10000
    &&& schedule.unlocked_amount <= reached_unlocked(schedule.total_amount, schedule.milestones)
}

} // verus!
