//! What holds of every schedule.

use super::rules::{
    any_newly_reached, checked, creation_error, marked, newly_reached, newly_unlocked, paired,
    percentages, reached_unlocked, sum_of, unlock_of, well_formed, withdrawn,
};
use super::state::{Milestone, VestingError, VestingScheduleView};
use crate::pubkey::Pubkey;
use vstd::prelude::*;

verus! {

/// The shares of the reached milestones, added up.
spec fn reached_share(milestones: Seq<Milestone>) -> int
    decreases milestones.len(),
{
    if milestones.len() == 0 {
        0
    } else {
        reached_share(milestones.drop_last()) + if milestones.last().reached {
            milestones.last().unlock_percentage as int
        } else {
            0
        }
    }
}

proof fn reached_share_within_sum(milestones: Seq<Milestone>)
    ensures
        0 <= reached_share(milestones) <= sum_of(percentages(milestones)),
    decreases milestones.len(),
{
    if milestones.len() > 0 {
        reached_share_within_sum(milestones.drop_last());
        assert(percentages(milestones).drop_last() =~= percentages(milestones.drop_last()));
    }
}

proof fn share_rounds_down(total: u64, bps: u64)
    ensures
        0 <= unlock_of(total, bps),
        unlock_of(total, bps) * 10000 <= total * bps,
{
    assert(0 <= total * bps) by (nonlinear_arith);
    let product = total * bps;
    assert(product / 10000 * 10000 <= product && 0 <= product / 10000) by {
        assert(product == 10000 * (product / 10000) + product % 10000);
    }
}

proof fn reached_unlocked_within_share(total: u64, milestones: Seq<Milestone>)
    ensures
        0 <= reached_unlocked(total, milestones),
        reached_unlocked(total, milestones) * 10000 <= total * reached_share(milestones),
    decreases milestones.len(),
{
    if milestones.len() > 0 {
        let rest = milestones.drop_last();
        let last = milestones.last();
        reached_unlocked_within_share(total, rest);
        share_rounds_down(total, last.unlock_percentage);
        if last.reached {
            assert(total * (reached_share(rest) + last.unlock_percentage) == total * reached_share(
                rest,
            ) + total * last.unlock_percentage) by (nonlinear_arith);
        }
    } else {
        assert(total * 0 == 0);
    }
}

/// What a check newly releases is never negative.
pub proof fn newly_unlocked_is_natural(total: u64, milestones: Seq<Milestone>, value: u64)
    ensures
        0 <= newly_unlocked(total, milestones, value),
    decreases milestones.len(),
{
    if milestones.len() > 0 {
        newly_unlocked_is_natural(total, milestones.drop_last(), value);
        share_rounds_down(total, milestones.last().unlock_percentage);
    }
}

/// The milestones up to any position release no more than all of them.
pub proof fn newly_unlocked_grows(total: u64, milestones: Seq<Milestone>, value: u64, n: int)
    requires
        0 <= n <= milestones.len(),
    ensures
        0 <= newly_unlocked(total, milestones.take(n), value) <= newly_unlocked(
            total,
            milestones,
            value,
        ),
    decreases milestones.len() - n,
{
    newly_unlocked_is_natural(total, milestones.take(n), value);
    if n == milestones.len() {
        assert(milestones.take(n) =~= milestones);
    } else {
        newly_unlocked_grows(total, milestones, value, n + 1);
        assert(milestones.take(n + 1).drop_last() =~= milestones.take(n));
        share_rounds_down(total, milestones[n].unlock_percentage);
    }
}

proof fn marking_adds_the_new(total: u64, milestones: Seq<Milestone>, value: u64)
    ensures
        reached_unlocked(total, marked(milestones, value)) == reached_unlocked(total, milestones)
            + newly_unlocked(total, milestones, value),
        !any_newly_reached(milestones, value) ==> newly_unlocked(total, milestones, value) == 0
            && marked(milestones, value) == milestones,
    decreases milestones.len(),
{
    if milestones.len() > 0 {
        let rest = milestones.drop_last();
        marking_adds_the_new(total, rest, value);
        assert(marked(milestones, value).drop_last() =~= marked(rest, value));
        if !any_newly_reached(milestones, value) {
            assert(!newly_reached(milestones[milestones.len() - 1], value));
            assert forall|i: int| 0 <= i < rest.len() implies !newly_reached(
                #[trigger] rest[i],
                value,
            ) by {
                assert(rest[i] == milestones[i]);
            }
            assert(marked(milestones, value) =~= milestones);
        }
    } else {
        assert(marked(milestones, value) =~= milestones);
    }
}

proof fn marked_has_nothing_new(milestones: Seq<Milestone>, value: u64, later: u64)
    requires
        later <= value,
    ensures
        !any_newly_reached(marked(milestones, value), later),
        any_newly_reached(milestones, later) ==> any_newly_reached(milestones, value),
{
    if any_newly_reached(milestones, later) {
        let i = choose|i: int|
            0 <= i < milestones.len() && newly_reached(#[trigger] milestones[i], later);
        assert(newly_reached(milestones[i], value));
    }
}

/// A schedule that creation accepts is valid, and its shares add up to no
/// more than the whole.
pub proof fn created_schedule_is_well_formed(
    counter: u64,
    thresholds: Seq<u64>,
    shares: Seq<u64>,
    schedule: VestingScheduleView,
)
    requires
        creation_error(counter, thresholds, shares) is None,
        schedule.milestones == paired(thresholds, shares),
        schedule.unlocked_amount == 0,
    ensures
        sum_of(percentages(schedule.milestones)) <= 10000,
        well_formed(schedule),
{
    assert(percentages(paired(thresholds, shares)) =~= shares);
    reached_unlocked_within_share(schedule.total_amount, schedule.milestones);
}

/// A valid schedule never holds more unlocked than was escrowed.
pub proof fn unlocked_within_total(schedule: VestingScheduleView)
    requires
        well_formed(schedule),
    ensures
        schedule.unlocked_amount <= schedule.total_amount,
{
    let total = schedule.total_amount;
    let milestones = schedule.milestones;
    reached_unlocked_within_share(total, milestones);
    reached_share_within_sum(milestones);
    assert(total * reached_share(milestones) <= total * 10000) by (nonlinear_arith)
        requires
            0 <= reached_share(milestones) <= 10000,
            0 <= total,
    ;
}

/// A milestone check keeps a valid schedule valid.
pub proof fn check_keeps_well_formed(schedule: VestingScheduleView, value: u64)
    requires
        well_formed(schedule),
        checked(schedule, value) is Ok,
    ensures
        well_formed(checked(schedule, value)->Ok_0),
{
    marking_adds_the_new(schedule.total_amount, schedule.milestones, value);
    newly_unlocked_is_natural(schedule.total_amount, schedule.milestones, value);
    assert(percentages(marked(schedule.milestones, value)) =~= percentages(schedule.milestones));
}

/// A withdrawal keeps a valid schedule valid.
pub proof fn withdrawal_keeps_well_formed(schedule: VestingScheduleView, caller: Pubkey, value: u64)
    requires
        well_formed(schedule),
        withdrawn(schedule, caller, value) is Ok,
    ensures
        well_formed(withdrawn(schedule, caller, value)->Ok_0),
{
    let after = withdrawn(schedule, caller, value)->Ok_0;
    if checked(schedule, value) is Ok {
        check_keeps_well_formed(schedule, value);
    }
    reached_unlocked_within_share(after.total_amount, after.milestones);
}

/// A milestone check and a withdrawal keep every milestone where it is,
/// with its threshold and its share, and a milestone that is reached stays
/// reached.
pub proof fn reached_milestones_stay_reached(
    schedule: VestingScheduleView,
    caller: Pubkey,
    value: u64,
    index: int,
)
    requires
        0 <= index < schedule.milestones.len(),
    ensures
        checked(schedule, value) matches Ok(after) ==> {
            &&& after.milestones.len() == schedule.milestones.len()
            &&& after.milestones[index].threshold == schedule.milestones[index].threshold
            &&& after.milestones[index].unlock_percentage
                == schedule.milestones[index].unlock_percentage
            &&& schedule.milestones[index].reached ==> after.milestones[index].reached
            &&& after.milestones[index].reached <==> schedule.milestones[index].reached
                || schedule.milestones[index].threshold <= value
        },
        withdrawn(schedule, caller, value) matches Ok(after) ==> {
            &&& after.milestones.len() == schedule.milestones.len()
            &&& after.milestones[index].threshold == schedule.milestones[index].threshold
            &&& after.milestones[index].unlock_percentage
                == schedule.milestones[index].unlock_percentage
            &&& schedule.milestones[index].reached ==> after.milestones[index].reached
        },
{
}

/// After a milestone check the reached milestones have released what they
/// had released before and what the check newly released. So where the
/// schedule held all that its reached milestones had released, it does so
/// after the check too.
pub proof fn check_accounts_for_reached(schedule: VestingScheduleView, value: u64)
    requires
        checked(schedule, value) is Ok,
    ensures
        ({
            let after = checked(schedule, value)->Ok_0;
            &&& after.unlocked_amount == schedule.unlocked_amount + newly_unlocked(
                schedule.total_amount,
                schedule.milestones,
                value,
            )
            &&& reached_unlocked(after.total_amount, after.milestones) == reached_unlocked(
                schedule.total_amount,
                schedule.milestones,
            ) + newly_unlocked(schedule.total_amount, schedule.milestones, value)
            &&& schedule.unlocked_amount == reached_unlocked(
                schedule.total_amount,
                schedule.milestones,
            ) ==> after.unlocked_amount == reached_unlocked(after.total_amount, after.milestones)
        }),
{
    newly_unlocked_is_natural(schedule.total_amount, schedule.milestones, value);
    marking_adds_the_new(schedule.total_amount, schedule.milestones, value);
}

/// Where the metric has crossed no further threshold, a milestone check on
/// an active schedule fails for want of progress.
pub proof fn check_without_crossing_makes_no_progress(schedule: VestingScheduleView, value: u64)
    requires
        schedule.active,
        !any_newly_reached(schedule.milestones, value),
    ensures
        checked(schedule, value) == Err::<VestingScheduleView, VestingError>(
            VestingError::NoNewMilestonesReached,
        ),
{
    marking_adds_the_new(schedule.total_amount, schedule.milestones, value);
}

/// After a milestone check, a second one at a metric value that is no
/// higher fails for want of progress.
pub proof fn second_check_makes_no_progress(schedule: VestingScheduleView, value: u64, later: u64)
    requires
        checked(schedule, value) is Ok,
        later <= value,
    ensures
        checked(checked(schedule, value)->Ok_0, later) == Err::<VestingScheduleView, VestingError>(
            VestingError::NoNewMilestonesReached,
        ),
{
    let after = checked(schedule, value)->Ok_0;
    marked_has_nothing_new(schedule.milestones, value, later);
    check_without_crossing_makes_no_progress(after, later);
}

/// After a withdrawal nothing is unlocked, and a second withdrawal at a
/// metric value that is no higher fails because there is nothing to
/// withdraw.
pub proof fn second_withdrawal_fails(
    schedule: VestingScheduleView,
    caller: Pubkey,
    value: u64,
    later: u64,
)
    requires
        withdrawn(schedule, caller, value) is Ok,
        later <= value,
    ensures
        withdrawn(schedule, caller, value)->Ok_0.unlocked_amount == 0,
        withdrawn(withdrawn(schedule, caller, value)->Ok_0, caller, later) == Err::<
            VestingScheduleView,
            VestingError,
        >(VestingError::NoTokensToWithdraw),
{
    let after = withdrawn(schedule, caller, value)->Ok_0;
    marked_has_nothing_new(schedule.milestones, value, later);
    if checked(schedule, value) is Ok {
        assert(after.milestones == marked(schedule.milestones, value));
    } else {
        assert(after.milestones == schedule.milestones);
        assert(!any_newly_reached(schedule.milestones, value));
    }
    assert(!any_newly_reached(after.milestones, later));
    check_without_crossing_makes_no_progress(after, later);
    marking_adds_the_new(after.total_amount, after.milestones, later);
}

} // verus!
