//! The instructions of the vesting ledger.

use super::laws::newly_unlocked_grows;
use super::rules::{
    any_newly_reached, checked, creation_error, marked, newly_reached, newly_unlocked, paired,
    reached_events, refreshed, sum_of, unlock_overflows, withdrawn,
};
use super::state::{
    CheckMilestones, CreateVesting, Initialize, Milestone, MilestoneReachedEvent,
    TokensWithdrawnEvent, VestingCreatedEvent, VestingError, VestingSchedule, VestingState,
    WithdrawUnlocked,
};
use crate::bytes::{le_bytes, le_u64, read_u64_le, write_u64_le};
use crate::token::{
    signed_transfer, token_vault_seed, token_vault_seed_bytes, Transfer, TransferView,
};
use vstd::prelude::*;

verus! {

/// Sets up the registry root for `ctx.authority`, with no schedule created
/// yet.
pub fn initialize(ctx: &mut Initialize)
    ensures
        final(ctx).vesting_state == (VestingState {
            authority: old(ctx).authority,
            vesting_id_counter: 0,
        }),
        final(ctx).authority == old(ctx).authority,
{
    ctx.vesting_state.authority = ctx.authority;
    ctx.vesting_state.vesting_id_counter = 0;
}

/// The sum of the shares, which cannot leave the range of 128 bits.
fn sum_shares(shares: &Vec<u64>) -> (total: u128)
    ensures
        total == sum_of(shares@),
{
    let mut total: u128 = 0;
    let mut i: usize = 0;
    while i < shares.len()
        invariant
            i <= shares@.len(),
            total == sum_of(shares@.take(i as int)),
            total <= i * u64::MAX,
        decreases shares@.len() - i,
    {
        assert(shares@.take(i + 1).drop_last() =~= shares@.take(i as int));
        total = total + shares[i] as u128;
        i += 1;
    }
    assert(shares@.take(i as int) =~= shares@);
    total
}

/// The milestones of a new schedule.
fn pair_milestones(thresholds: &Vec<u64>, shares: &Vec<u64>) -> (milestones: Vec<Milestone>)
    requires
        thresholds@.len() == shares@.len(),
    ensures
        milestones@ == paired(thresholds@, shares@),
{
    let mut milestones: Vec<Milestone> = Vec::new();
    let mut i: usize = 0;
    while i < thresholds.len()
        invariant
            i <= thresholds@.len(),
            thresholds@.len() == shares@.len(),
            milestones@ == paired(thresholds@, shares@).take(i as int),
        decreases thresholds@.len() - i,
    {
        milestones.push(
            Milestone { threshold: thresholds[i], unlock_percentage: shares[i], reached: false },
        );
        i += 1;
        assert(milestones@ =~= paired(thresholds@, shares@).take(i as int));
    }
    assert(paired(thresholds@, shares@).take(i as int) =~= paired(thresholds@, shares@));
    milestones
}

/// Creates a schedule that escrows `amount` and releases it by the given
/// milestones: the share `unlock_percentages[i]`, in basis points, once the
/// metric reaches `thresholds[i]`.
///
/// On success the registry's counter is advanced and its new value is the
/// schedule's id, the schedule record is filled in with nothing unlocked and
/// no milestone reached, and the id is appended to the creator's index. The
/// result holds the transfer of `amount` from the creator's token account
/// into the vault, which the creator authorizes, and the notification.
///
/// It fails, changing nothing, where the two lists differ in length, where
/// they are empty, where the shares add up to more than the whole, or where
/// the counter cannot be advanced.
pub fn create_vesting(
    ctx: &mut CreateVesting,
    amount: u64,
    metric_type: String,
    thresholds: Vec<u64>,
    unlock_percentages: Vec<u64>,
) -> (result: Result<(Transfer, VestingCreatedEvent), VestingError>)
    ensures
        match creation_error(
            old(ctx).vesting_state.vesting_id_counter,
            thresholds@,
            unlock_percentages@,
        ) {
            Some(error) => result == Err::<(Transfer, VestingCreatedEvent), VestingError>(error)
                && *final(ctx) == *old(ctx),
            None => {
                let id = (old(ctx).vesting_state.vesting_id_counter + 1) as u64;
                &&& result is Ok
                &&& result->Ok_0.0@ == (TransferView {
                    from: old(ctx).token_from,
                    to: old(ctx).token_vault,
                    authority: old(ctx).creator,
                    amount,
                    signer_seeds: Seq::<Seq<u8>>::empty(),
                })
                &&& result->Ok_0.1 == (VestingCreatedEvent {
                    vesting_id: id,
                    creator: old(ctx).creator,
                    token_address: old(ctx).token_mint,
                    total_amount: amount,
                })
                &&& final(ctx).vesting_state == (VestingState {
                    authority: old(ctx).vesting_state.authority,
                    vesting_id_counter: id,
                })
                &&& final(ctx).vesting_schedule@ == (super::state::VestingScheduleView {
                    creator: old(ctx).creator,
                    token_mint: old(ctx).token_mint,
                    total_amount: amount,
                    unlocked_amount: 0,
                    oracle_address: old(ctx).oracle,
                    metric_type: metric_type@,
                    active: true,
                    vesting_id: id,
                    milestones: paired(thresholds@, unlock_percentages@),
                })
                &&& final(ctx).creator_vestings.creator == old(ctx).creator
                &&& final(ctx).creator_vestings.vesting_ids@ == old(
                    ctx,
                ).creator_vestings.vesting_ids@.push(id)
                &&& final(ctx).token_mint == old(ctx).token_mint
                &&& final(ctx).token_from == old(ctx).token_from
                &&& final(ctx).token_vault == old(ctx).token_vault
                &&& final(ctx).token_vault_authority == old(ctx).token_vault_authority
                &&& final(ctx).oracle == old(ctx).oracle
                &&& final(ctx).creator == old(ctx).creator
            },
        },
{
    if thresholds.len() != unlock_percentages.len() {
        return Err(VestingError::ArrayLengthMismatch);
    }
    if thresholds.len() == 0 {
        return Err(VestingError::NoMilestones);
    }
    let total_percentage = sum_shares(&unlock_percentages);
    if total_percentage > 10000 {
        return Err(VestingError::TotalPercentageExceeded);
    }
    if ctx.vesting_state.vesting_id_counter == u64::MAX {
        return Err(VestingError::Arithmetic);
    }
    let transfer = signed_transfer(ctx.token_from, ctx.token_vault, ctx.creator, amount);

    let vesting_id = ctx.vesting_state.vesting_id_counter + 1;
    ctx.vesting_state.vesting_id_counter = vesting_id;

    ctx.vesting_schedule.creator = ctx.creator;
    ctx.vesting_schedule.token_mint = ctx.token_mint;
    ctx.vesting_schedule.total_amount = amount;
    ctx.vesting_schedule.unlocked_amount = 0;
    ctx.vesting_schedule.oracle_address = ctx.oracle;
    ctx.vesting_schedule.metric_type = metric_type;
    ctx.vesting_schedule.active = true;
    ctx.vesting_schedule.vesting_id = vesting_id;
    ctx.vesting_schedule.milestones = pair_milestones(&thresholds, &unlock_percentages);

    ctx.creator_vestings.creator = ctx.creator;
    ctx.creator_vestings.vesting_ids.push(vesting_id);

    let event = VestingCreatedEvent {
        vesting_id,
        creator: ctx.creator,
        token_address: ctx.token_mint,
        total_amount: amount,
    };
    Ok((transfer, event))
}

/// What a milestone check would change, computed without changing anything.
struct Release {
    milestones: Vec<Milestone>,
    unlocked_amount: u64,
    events: Vec<MilestoneReachedEvent>,
}

/// Works out a milestone check at metric value `value` on a copy.
fn evaluate(schedule: &VestingSchedule, value: u64) -> (result: Option<Release>)
    ensures
        result is None <==> unlock_overflows(schedule@, value),
        result matches Some(release) ==> {
            &&& release.milestones@ == marked(schedule@.milestones, value)
            &&& release.unlocked_amount == schedule.unlocked_amount + newly_unlocked(
                schedule.total_amount,
                schedule@.milestones,
                value,
            )
            &&& release.events@ == reached_events(
                schedule.vesting_id,
                schedule.total_amount,
                schedule@.milestones,
                value,
            )
            &&& release.events@.len() > 0 <==> any_newly_reached(schedule@.milestones, value)
        },
{
    let ghost all = schedule@.milestones;
    let total = schedule.total_amount;
    let mut milestones: Vec<Milestone> = Vec::new();
    let mut events: Vec<MilestoneReachedEvent> = Vec::new();
    let mut unlocked: u64 = schedule.unlocked_amount;
    let mut i: usize = 0;
    while i < schedule.milestones.len()
        invariant
            i <= all.len(),
            all == schedule@.milestones,
            total == schedule.total_amount,
            milestones@ == marked(all, value).take(i as int),
            unlocked == schedule.unlocked_amount + newly_unlocked(total, all.take(i as int), value),
            events@ == reached_events(schedule.vesting_id, total, all.take(i as int), value),
            events@.len() > 0 <==> any_newly_reached(all.take(i as int), value),
            forall|j: int|
                0 <= j < i && newly_reached(#[trigger] all[j], value) ==> total
                    * all[j].unlock_percentage <= u64::MAX,
        decreases all.len() - i,
    {
        let milestone = schedule.milestones[i];
        let ghost before = all.take(i as int);
        let ghost now = all.take(i + 1);
        assert(now.drop_last() =~= before);
        assert(now.last() == milestone);
        if !milestone.reached && value >= milestone.threshold {
            let product = match total.checked_mul(milestone.unlock_percentage) {
                Some(product) => product,
                None => {
                    assert(newly_reached(all[i as int], value));
                    return None;
                },
            };
            let amount = product / 10000;
            unlocked = match unlocked.checked_add(amount) {
                Some(sum) => sum,
                None => {
                    proof {
                        newly_unlocked_grows(total, all, value, i + 1);
                    }
                    return None;
                },
            };
            events.push(
                MilestoneReachedEvent {
                    vesting_id: schedule.vesting_id,
                    milestone_index: i as u64,
                    unlocked_amount: amount,
                },
            );
            milestones.push(
                Milestone {
                    threshold: milestone.threshold,
                    unlock_percentage: milestone.unlock_percentage,
                    reached: true,
                },
            );
            assert(newly_reached(now[i as int], value));
        } else {
            milestones.push(milestone);
            assert forall|j: int| 0 <= j < now.len() && newly_reached(
                #[trigger] now[j],
                value,
            ) implies 0 <= j < before.len() && newly_reached(before[j], value) by {
                assert(now[j] == before[j]);
            }
        }
        assert forall|j: int| 0 <= j < before.len() && newly_reached(
            #[trigger] before[j],
            value,
        ) implies newly_reached(now[j], value) by {
            assert(now[j] == before[j]);
        }
        i += 1;
        assert(milestones@ =~= marked(all, value).take(i as int));
    }
    assert(all.take(i as int) =~= all);
    assert(marked(all, value).take(i as int) =~= marked(all, value));
    Some(Release { milestones, unlocked_amount: unlocked, events })
}

/// Reads the metric from the oracle's account and marks every milestone
/// whose threshold the metric has reached. Each newly reached milestone
/// releases its share of the escrowed total, rounded down, and is told in
/// the result, in the order of the schedule.
///
/// It fails, changing nothing, where the schedule is not active, where an
/// amount leaves the range of 64 bits, or where no milestone is newly
/// reached. The oracle is read only for an active schedule, and its state
/// then has to hold the eight bytes of the metric.
pub fn check_milestones(ctx: &mut CheckMilestones) -> (result: Result<
    Vec<MilestoneReachedEvent>,
    VestingError,
>)
    requires
        old(ctx).vesting_schedule.active ==> old(ctx).oracle.data@.len() >= 8,
    ensures
        match checked(old(ctx).vesting_schedule@, le_u64(old(ctx).oracle.data@) as u64) {
            Ok(after) => {
                &&& result is Ok
                &&& result->Ok_0@ == reached_events(
                    old(ctx).vesting_schedule.vesting_id,
                    old(ctx).vesting_schedule.total_amount,
                    old(ctx).vesting_schedule@.milestones,
                    le_u64(old(ctx).oracle.data@) as u64,
                )
                &&& final(ctx).vesting_schedule@ == after
                &&& final(ctx).oracle == old(ctx).oracle
                &&& final(ctx).signer == old(ctx).signer
            },
            Err(error) => result == Err::<Vec<MilestoneReachedEvent>, VestingError>(error)
                && *final(ctx) == *old(ctx),
        },
{
    if !ctx.vesting_schedule.active {
        return Err(VestingError::VestingNotActive);
    }
    let current_value = read_u64_le(ctx.oracle.data.as_slice());
    let release = match evaluate(&ctx.vesting_schedule, current_value) {
        Some(release) => release,
        None => {
            return Err(VestingError::Arithmetic);
        },
    };
    if release.events.len() == 0 {
        return Err(VestingError::NoNewMilestonesReached);
    }
    ctx.vesting_schedule.milestones = release.milestones;
    ctx.vesting_schedule.unlocked_amount = release.unlocked_amount;
    Ok(release.events)
}

/// The seeds of the vault of the schedule with the given id.
fn vault_signer_seeds(vesting_id: u64, bump: u8) -> (seeds: Vec<Vec<u8>>)
    ensures
        seeds@.len() == 3,
        seeds@[0]@ == token_vault_seed(),
        seeds@[1]@ == le_bytes(vesting_id),
        seeds@[2]@ == seq![bump],
{
    let mut seeds: Vec<Vec<u8>> = Vec::new();
    seeds.push(token_vault_seed_bytes());
    seeds.push(write_u64_le(vesting_id));
    let mut last: Vec<u8> = Vec::new();
    last.push(bump);
    assert(last@ =~= seq![bump]);
    seeds.push(last);
    seeds
}

/// Pays out to the creator everything that the schedule has unlocked.
///
/// Only the schedule's creator may call it. Milestones that the metric has
/// reached by now are marked first, as by a milestone check; that none is
/// newly reached does not stop the withdrawal. The unlocked amount is then
/// set to zero. The result holds the notifications of the newly reached
/// milestones, the transfer of the amount from the vault to the creator's
/// token account, authorized by the vault's derived custodian, and the
/// notification of the withdrawal.
///
/// It fails, changing nothing, where the caller is not the creator, where
/// the schedule is not active, where an amount leaves the range of 64 bits,
/// or where nothing is unlocked. The oracle is read only for the creator of
/// an active schedule, and its state then has to hold the eight bytes of
/// the metric.
pub fn withdraw_unlocked(ctx: &mut WithdrawUnlocked) -> (result: Result<
    (Vec<MilestoneReachedEvent>, Transfer, TokensWithdrawnEvent),
    VestingError,
>)
    requires
        old(ctx).creator == old(ctx).vesting_schedule.creator && old(ctx).vesting_schedule.active
            ==> old(ctx).oracle.data@.len() >= 8,
    ensures
        match withdrawn(
            old(ctx).vesting_schedule@,
            old(ctx).creator,
            le_u64(old(ctx).oracle.data@) as u64,
        ) {
            Ok(after) => {
                let amount = refreshed(
                    old(ctx).vesting_schedule@,
                    le_u64(old(ctx).oracle.data@) as u64,
                ).unlocked_amount;
                &&& result is Ok
                &&& result->Ok_0.0@ == reached_events(
                    old(ctx).vesting_schedule.vesting_id,
                    old(ctx).vesting_schedule.total_amount,
                    old(ctx).vesting_schedule@.milestones,
                    le_u64(old(ctx).oracle.data@) as u64,
                )
                &&& result->Ok_0.1@ == (TransferView {
                    from: old(ctx).token_vault,
                    to: old(ctx).token_to,
                    authority: old(ctx).token_vault_authority,
                    amount,
                    signer_seeds: seq![
                        token_vault_seed(),
                        le_bytes(old(ctx).vesting_schedule.vesting_id),
                        seq![old(ctx).bumps.token_vault],
                    ],
                })
                &&& result->Ok_0.2 == (TokensWithdrawnEvent {
                    vesting_id: old(ctx).vesting_schedule.vesting_id,
                    creator: old(ctx).vesting_schedule.creator,
                    amount,
                })
                &&& final(ctx).vesting_schedule@ == after
                &&& final(ctx).token_vault == old(ctx).token_vault
                &&& final(ctx).token_vault_authority == old(ctx).token_vault_authority
                &&& final(ctx).token_to == old(ctx).token_to
                &&& final(ctx).oracle == old(ctx).oracle
                &&& final(ctx).creator == old(ctx).creator
                &&& final(ctx).bumps == old(ctx).bumps
            },
            Err(error) => result == Err::<
                (Vec<MilestoneReachedEvent>, Transfer, TokensWithdrawnEvent),
                VestingError,
            >(error) && *final(ctx) == *old(ctx),
        },
{
    if ctx.creator != ctx.vesting_schedule.creator {
        return Err(VestingError::OnlyCreatorCanWithdraw);
    }
    if !ctx.vesting_schedule.active {
        return Err(VestingError::VestingNotActive);
    }
    let current_value = read_u64_le(ctx.oracle.data.as_slice());
    let release = match evaluate(&ctx.vesting_schedule, current_value) {
        Some(release) => release,
        None => {
            return Err(VestingError::Arithmetic);
        },
    };
    let progressed = release.events.len() > 0;
    let unlock_amount = if progressed {
        release.unlocked_amount
    } else {
        ctx.vesting_schedule.unlocked_amount
    };
    if unlock_amount == 0 {
        return Err(VestingError::NoTokensToWithdraw);
    }
    if progressed {
        ctx.vesting_schedule.milestones = release.milestones;
    }
    ctx.vesting_schedule.unlocked_amount = 0;

    let transfer = Transfer {
        from: ctx.token_vault,
        to: ctx.token_to,
        authority: ctx.token_vault_authority,
        amount: unlock_amount,
        signer_seeds: vault_signer_seeds(ctx.vesting_schedule.vesting_id, ctx.bumps.token_vault),
    };
    assert(transfer@.signer_seeds =~= seq![
        token_vault_seed(),
        le_bytes(old(ctx).vesting_schedule.vesting_id),
        seq![old(ctx).bumps.token_vault],
    ]);
    let event = TokensWithdrawnEvent {
        vesting_id: ctx.vesting_schedule.vesting_id,
        creator: ctx.vesting_schedule.creator,
        amount: unlock_amount,
    };
    Ok((release.events, transfer, event))
}

} // verus!
