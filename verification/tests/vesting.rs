use sonic_contracts::pubkey::Pubkey;
use sonic_contracts::skill_vesting::{
    check_milestones, create_vesting, initialize, withdraw_unlocked, CheckMilestones,
    CreateVesting, CreatorVestings, Initialize, Milestone, MilestoneReachedEvent, OracleAccount,
    TokensWithdrawnEvent, VestingCreatedEvent, VestingError, VestingSchedule, VestingState,
    WithdrawUnlocked, WithdrawUnlockedBumps,
};

fn key(n: u8) -> Pubkey {
    Pubkey::new_from_array([n; 32])
}

fn blank_schedule() -> VestingSchedule {
    VestingSchedule {
        creator: key(0),
        token_mint: key(0),
        total_amount: 0,
        unlocked_amount: 0,
        oracle_address: key(0),
        metric_type: String::new(),
        active: false,
        vesting_id: 0,
        milestones: Vec::new(),
    }
}

fn creation(counter: u64) -> CreateVesting {
    CreateVesting {
        vesting_state: VestingState { authority: key(9), vesting_id_counter: counter },
        vesting_schedule: blank_schedule(),
        creator_vestings: CreatorVestings { creator: key(0), vesting_ids: Vec::new() },
        token_mint: key(2),
        token_from: key(3),
        token_vault: key(4),
        token_vault_authority: key(5),
        oracle: key(6),
        creator: key(1),
    }
}

fn schedule(total: u64, unlocked: u64, milestones: Vec<Milestone>) -> VestingSchedule {
    VestingSchedule {
        creator: key(1),
        token_mint: key(2),
        total_amount: total,
        unlocked_amount: unlocked,
        oracle_address: key(6),
        metric_type: String::from("followers"),
        active: true,
        vesting_id: 7,
        milestones,
    }
}

fn step(threshold: u64, unlock_percentage: u64, reached: bool) -> Milestone {
    Milestone { threshold, unlock_percentage, reached }
}

fn oracle(value: u64) -> OracleAccount {
    OracleAccount { key: key(6), data: value.to_le_bytes().to_vec() }
}

fn checking(schedule: VestingSchedule, value: u64) -> CheckMilestones {
    CheckMilestones { vesting_schedule: schedule, oracle: oracle(value), signer: key(8) }
}

fn withdrawing(schedule: VestingSchedule, value: u64, caller: Pubkey) -> WithdrawUnlocked {
    WithdrawUnlocked {
        vesting_schedule: schedule,
        token_vault: key(4),
        token_vault_authority: key(5),
        token_to: key(10),
        oracle: oracle(value),
        creator: caller,
        bumps: WithdrawUnlockedBumps { token_vault: 254, token_vault_authority: 253 },
    }
}

#[test]
fn initialize_sets_authority_and_zero_counter() {
    let mut ctx = Initialize {
        vesting_state: VestingState { authority: key(0), vesting_id_counter: 55 },
        authority: key(9),
    };
    initialize(&mut ctx);
    assert_eq!(ctx.vesting_state, VestingState { authority: key(9), vesting_id_counter: 0 });
    assert_eq!(ctx.authority, key(9));
}

#[test]
fn create_vesting_fills_in_the_schedule() {
    let mut ctx = creation(41);
    let (transfer, event) = create_vesting(
        &mut ctx,
        1000,
        String::from("followers"),
        vec![100, 200],
        vec![4000, 6000],
    )
    .unwrap();
    assert_eq!(transfer.from, key(3));
    assert_eq!(transfer.to, key(4));
    assert_eq!(transfer.authority, key(1));
    assert_eq!(transfer.amount, 1000);
    assert!(transfer.signer_seeds.is_empty());
    assert_eq!(
        event,
        VestingCreatedEvent {
            vesting_id: 42,
            creator: key(1),
            token_address: key(2),
            total_amount: 1000,
        }
    );
    assert_eq!(ctx.vesting_state, VestingState { authority: key(9), vesting_id_counter: 42 });
    assert_eq!(
        ctx.vesting_schedule,
        VestingSchedule {
            creator: key(1),
            token_mint: key(2),
            total_amount: 1000,
            unlocked_amount: 0,
            oracle_address: key(6),
            metric_type: String::from("followers"),
            active: true,
            vesting_id: 42,
            milestones: vec![step(100, 4000, false), step(200, 6000, false)],
        }
    );
    assert_eq!(ctx.creator_vestings.creator, key(1));
    assert_eq!(ctx.creator_vestings.vesting_ids, vec![42]);
}

#[test]
fn create_vesting_appends_to_the_creators_index() {
    let mut ctx = creation(2);
    ctx.creator_vestings = CreatorVestings { creator: key(1), vesting_ids: vec![1, 2] };
    create_vesting(&mut ctx, 5, String::from("m"), vec![1], vec![1]).unwrap();
    assert_eq!(ctx.creator_vestings.vesting_ids, vec![1, 2, 3]);
}

#[test]
fn create_vesting_replaces_what_the_schedule_record_held() {
    let mut ctx = creation(0);
    ctx.vesting_schedule = schedule(9, 9, vec![step(1, 9999, true)]);
    create_vesting(&mut ctx, 5, String::from("m"), vec![3], vec![10]).unwrap();
    assert_eq!(ctx.vesting_schedule.milestones, vec![step(3, 10, false)]);
    assert_eq!(ctx.vesting_schedule.unlocked_amount, 0);
}

#[test]
fn create_vesting_rejects_lists_of_different_length() {
    let mut ctx = creation(0);
    let before = ctx.clone();
    let result = create_vesting(&mut ctx, 1000, String::from("m"), vec![100, 200], vec![4000]);
    assert_eq!(result, Err(VestingError::ArrayLengthMismatch));
    assert_eq!(ctx, before);
}

#[test]
fn create_vesting_rejects_a_mismatch_before_it_looks_at_the_shares() {
    let mut ctx = creation(0);
    let result = create_vesting(&mut ctx, 1000, String::from("m"), vec![], vec![20000]);
    assert_eq!(result, Err(VestingError::ArrayLengthMismatch));
}

#[test]
fn create_vesting_rejects_no_milestones() {
    let mut ctx = creation(0);
    let before = ctx.clone();
    let result = create_vesting(&mut ctx, 1000, String::from("m"), vec![], vec![]);
    assert_eq!(result, Err(VestingError::NoMilestones));
    assert_eq!(ctx, before);
}

#[test]
fn create_vesting_rejects_shares_above_the_whole() {
    let mut ctx = creation(0);
    let before = ctx.clone();
    let result =
        create_vesting(&mut ctx, 1000, String::from("m"), vec![100, 200], vec![4000, 6001]);
    assert_eq!(result, Err(VestingError::TotalPercentageExceeded));
    assert_eq!(ctx, before);
}

#[test]
fn create_vesting_accepts_shares_of_exactly_the_whole() {
    let mut ctx = creation(0);
    let result =
        create_vesting(&mut ctx, 1000, String::from("m"), vec![1, 2, 3], vec![1, 9998, 1]);
    assert!(result.is_ok());
    let shares: u64 = ctx.vesting_schedule.milestones.iter().map(|m| m.unlock_percentage).sum();
    assert_eq!(shares, 10000);
}

#[test]
fn create_vesting_accepts_shares_below_the_whole() {
    let mut ctx = creation(0);
    assert!(create_vesting(&mut ctx, 1000, String::from("m"), vec![5], vec![2500]).is_ok());
}

#[test]
fn create_vesting_rejects_shares_whose_sum_passes_64_bits() {
    let mut ctx = creation(0);
    let before = ctx.clone();
    let result =
        create_vesting(&mut ctx, 1000, String::from("m"), vec![1, 2], vec![u64::MAX, 2]);
    assert_eq!(result, Err(VestingError::TotalPercentageExceeded));
    assert_eq!(ctx, before);
}

#[test]
fn create_vesting_fails_when_the_counter_is_exhausted() {
    let mut ctx = creation(u64::MAX);
    let before = ctx.clone();
    let result = create_vesting(&mut ctx, 1000, String::from("m"), vec![1], vec![1]);
    assert_eq!(result, Err(VestingError::Arithmetic));
    assert_eq!(ctx, before);
}

#[test]
fn create_vesting_keeps_thresholds_in_the_given_order() {
    let mut ctx = creation(0);
    create_vesting(&mut ctx, 10, String::from("m"), vec![300, 100, 200], vec![1, 2, 3]).unwrap();
    assert_eq!(
        ctx.vesting_schedule.milestones,
        vec![step(300, 1, false), step(100, 2, false), step(200, 3, false)]
    );
}

#[test]
fn scenario_two_milestones_then_withdrawal() {
    let mut created = creation(0);
    create_vesting(&mut created, 1000, String::from("m"), vec![100, 200], vec![4000, 6000])
        .unwrap();

    let mut first = checking(created.vesting_schedule, 150);
    let events = check_milestones(&mut first).unwrap();
    assert_eq!(
        events,
        vec![MilestoneReachedEvent { vesting_id: 1, milestone_index: 0, unlocked_amount: 400 }]
    );
    assert_eq!(first.vesting_schedule.unlocked_amount, 400);
    assert_eq!(
        first.vesting_schedule.milestones,
        vec![step(100, 4000, true), step(200, 6000, false)]
    );

    let mut second = checking(first.vesting_schedule, 250);
    let events = check_milestones(&mut second).unwrap();
    assert_eq!(
        events,
        vec![MilestoneReachedEvent { vesting_id: 1, milestone_index: 1, unlocked_amount: 600 }]
    );
    assert_eq!(second.vesting_schedule.unlocked_amount, 1000);

    let mut last = withdrawing(second.vesting_schedule, 250, key(1));
    let (events, transfer, event) = withdraw_unlocked(&mut last).unwrap();
    assert!(events.is_empty());
    assert_eq!(transfer.amount, 1000);
    assert_eq!(event, TokensWithdrawnEvent { vesting_id: 1, creator: key(1), amount: 1000 });
    assert_eq!(last.vesting_schedule.unlocked_amount, 0);
}

#[test]
fn scenario_check_below_every_threshold_fails_and_changes_nothing() {
    let mut ctx = checking(schedule(1000, 0, vec![step(100, 4000, false), step(200, 6000, false)]), 99);
    let before = ctx.clone();
    assert_eq!(check_milestones(&mut ctx), Err(VestingError::NoNewMilestonesReached));
    assert_eq!(ctx, before);
}

#[test]
fn check_reaches_a_threshold_that_equals_the_metric() {
    let mut ctx = checking(schedule(1000, 0, vec![step(100, 4000, false)]), 100);
    assert!(check_milestones(&mut ctx).is_ok());
    assert_eq!(ctx.vesting_schedule.unlocked_amount, 400);
}

#[test]
fn check_marks_all_reached_milestones_in_one_call() {
    let mut ctx = checking(
        schedule(1000, 0, vec![step(100, 4000, false), step(300, 1000, false), step(200, 5000, false)]),
        250,
    );
    let events = check_milestones(&mut ctx).unwrap();
    assert_eq!(
        events,
        vec![
            MilestoneReachedEvent { vesting_id: 7, milestone_index: 0, unlocked_amount: 400 },
            MilestoneReachedEvent { vesting_id: 7, milestone_index: 2, unlocked_amount: 500 },
        ]
    );
    assert_eq!(ctx.vesting_schedule.unlocked_amount, 900);
    assert_eq!(
        ctx.vesting_schedule.milestones,
        vec![step(100, 4000, true), step(300, 1000, false), step(200, 5000, true)]
    );
}

#[test]
fn check_rounds_each_share_down() {
    let mut ctx = checking(schedule(999, 0, vec![step(1, 3333, false), step(1, 3333, false)]), 1);
    let events = check_milestones(&mut ctx).unwrap();
    assert_eq!(events[0].unlocked_amount, 332);
    assert_eq!(events[1].unlocked_amount, 332);
    assert_eq!(ctx.vesting_schedule.unlocked_amount, 664);
}

#[test]
fn check_adds_to_what_is_already_unlocked() {
    let mut ctx = checking(schedule(1000, 400, vec![step(100, 4000, true), step(200, 6000, false)]), 200);
    check_milestones(&mut ctx).unwrap();
    assert_eq!(ctx.vesting_schedule.unlocked_amount, 1000);
}

#[test]
fn check_never_unmarks_a_reached_milestone() {
    let mut ctx = checking(schedule(1000, 0, vec![step(100, 4000, true), step(10, 100, false)]), 50);
    check_milestones(&mut ctx).unwrap();
    assert_eq!(ctx.vesting_schedule.milestones[0], step(100, 4000, true));
    assert_eq!(ctx.vesting_schedule.unlocked_amount, 10);
}

#[test]
fn check_reads_only_the_first_eight_bytes_of_the_oracle() {
    let mut ctx = checking(schedule(1000, 0, vec![step(258, 5000, false)]), 0);
    ctx.oracle.data = vec![2, 1, 0, 0, 0, 0, 0, 0, 255, 255];
    assert!(check_milestones(&mut ctx).is_ok());
    assert_eq!(ctx.oracle.data, vec![2, 1, 0, 0, 0, 0, 0, 0, 255, 255]);

    let mut below = checking(schedule(1000, 0, vec![step(259, 5000, false)]), 0);
    below.oracle.data = vec![2, 1, 0, 0, 0, 0, 0, 0, 255, 255];
    assert_eq!(check_milestones(&mut below), Err(VestingError::NoNewMilestonesReached));
}

#[test]
fn check_fails_on_an_inactive_schedule() {
    let mut inactive = schedule(1000, 0, vec![step(100, 4000, false)]);
    inactive.active = false;
    let mut ctx = checking(inactive, 500);
    let before = ctx.clone();
    assert_eq!(check_milestones(&mut ctx), Err(VestingError::VestingNotActive));
    assert_eq!(ctx, before);
}

#[test]
fn check_on_an_inactive_schedule_does_not_read_the_oracle() {
    let mut inactive = schedule(1000, 0, vec![step(100, 4000, false)]);
    inactive.active = false;
    let mut ctx = checking(inactive, 500);
    ctx.oracle.data = vec![1, 2, 3];
    let before = ctx.clone();
    assert_eq!(check_milestones(&mut ctx), Err(VestingError::VestingNotActive));
    assert_eq!(ctx, before);
}

#[test]
fn withdraw_by_another_caller_does_not_read_the_oracle() {
    let mut ctx = withdrawing(schedule(1000, 400, vec![step(100, 4000, true)]), 0, key(77));
    ctx.oracle.data = Vec::new();
    let before = ctx.clone();
    assert_eq!(withdraw_unlocked(&mut ctx), Err(VestingError::OnlyCreatorCanWithdraw));
    assert_eq!(ctx, before);
}

#[test]
fn withdraw_from_an_inactive_schedule_does_not_read_the_oracle() {
    let mut inactive = schedule(1000, 400, vec![step(100, 4000, true)]);
    inactive.active = false;
    let mut ctx = withdrawing(inactive, 0, key(1));
    ctx.oracle.data = vec![9; 7];
    let before = ctx.clone();
    assert_eq!(withdraw_unlocked(&mut ctx), Err(VestingError::VestingNotActive));
    assert_eq!(ctx, before);
}

#[test]
fn check_fails_when_a_share_product_passes_64_bits() {
    let mut ctx = checking(
        schedule(u64::MAX / 2, 0, vec![step(1, 1, false), step(2, 10000, false)]),
        5,
    );
    let before = ctx.clone();
    assert_eq!(check_milestones(&mut ctx), Err(VestingError::Arithmetic));
    assert_eq!(ctx, before);
}

#[test]
fn check_fails_when_the_unlocked_amount_passes_64_bits() {
    let mut ctx = checking(schedule(10000, u64::MAX - 5, vec![step(1, 10, false)]), 5);
    let before = ctx.clone();
    assert_eq!(check_milestones(&mut ctx), Err(VestingError::Arithmetic));
    assert_eq!(ctx, before);
}

#[test]
fn check_ignores_products_of_milestones_it_does_not_reach() {
    let mut ctx = checking(
        schedule(u64::MAX, 0, vec![step(1, 1, false), step(100, 10000, false)]),
        5,
    );
    assert!(check_milestones(&mut ctx).is_ok());
    assert_eq!(ctx.vesting_schedule.unlocked_amount, u64::MAX / 10000);
}

#[test]
fn second_check_at_the_same_metric_makes_no_progress() {
    let mut first = checking(schedule(1000, 0, vec![step(100, 4000, false), step(200, 6000, false)]), 150);
    check_milestones(&mut first).unwrap();
    let mut second = checking(first.vesting_schedule, 150);
    let before = second.clone();
    assert_eq!(check_milestones(&mut second), Err(VestingError::NoNewMilestonesReached));
    assert_eq!(second, before);
    assert_eq!(second.vesting_schedule.unlocked_amount, 400);
}

#[test]
fn unlocked_is_the_sum_over_reached_milestones() {
    let mut ctx = checking(
        schedule(12345, 0, vec![step(1, 1500, false), step(2, 2500, false), step(9, 6000, false)]),
        2,
    );
    check_milestones(&mut ctx).unwrap();
    let expected: u64 = ctx
        .vesting_schedule
        .milestones
        .iter()
        .filter(|m| m.reached)
        .map(|m| 12345 * m.unlock_percentage / 10000)
        .sum();
    assert_eq!(expected, 1851 + 3086);
    assert_eq!(ctx.vesting_schedule.unlocked_amount, expected);
}

#[test]
fn unlocked_never_passes_the_total() {
    let mut created = creation(0);
    create_vesting(
        &mut created,
        1_000_003,
        String::from("m"),
        vec![1, 2, 3, 4],
        vec![3333, 3333, 3333, 1],
    )
    .unwrap();
    let mut current = created.vesting_schedule;
    for value in 1..=4 {
        let mut ctx = checking(current, value);
        check_milestones(&mut ctx).unwrap();
        assert!(ctx.vesting_schedule.unlocked_amount <= ctx.vesting_schedule.total_amount);
        current = ctx.vesting_schedule;
    }
    assert_eq!(current.unlocked_amount, 333_300 * 3 + 100);
}

#[test]
fn withdraw_is_for_the_creator_only() {
    let mut ctx = withdrawing(schedule(1000, 400, vec![step(100, 4000, true)]), 0, key(77));
    let before = ctx.clone();
    assert_eq!(withdraw_unlocked(&mut ctx), Err(VestingError::OnlyCreatorCanWithdraw));
    assert_eq!(ctx, before);
}

#[test]
fn withdraw_tells_the_wrong_caller_before_the_inactive_schedule() {
    let mut inactive = schedule(1000, 400, vec![step(100, 4000, true)]);
    inactive.active = false;
    let mut ctx = withdrawing(inactive, 0, key(77));
    assert_eq!(withdraw_unlocked(&mut ctx), Err(VestingError::OnlyCreatorCanWithdraw));
}

#[test]
fn withdraw_fails_on_an_inactive_schedule() {
    let mut inactive = schedule(1000, 400, vec![step(100, 4000, true)]);
    inactive.active = false;
    let mut ctx = withdrawing(inactive, 0, key(1));
    let before = ctx.clone();
    assert_eq!(withdraw_unlocked(&mut ctx), Err(VestingError::VestingNotActive));
    assert_eq!(ctx, before);
}

#[test]
fn withdraw_fails_when_nothing_is_unlocked() {
    let mut ctx = withdrawing(schedule(1000, 0, vec![step(100, 4000, false)]), 50, key(1));
    let before = ctx.clone();
    assert_eq!(withdraw_unlocked(&mut ctx), Err(VestingError::NoTokensToWithdraw));
    assert_eq!(ctx, before);
}

#[test]
fn withdraw_that_fails_leaves_newly_reached_milestones_unmarked() {
    let mut ctx = withdrawing(schedule(1000, 0, vec![step(100, 0, false)]), 500, key(1));
    let before = ctx.clone();
    assert_eq!(withdraw_unlocked(&mut ctx), Err(VestingError::NoTokensToWithdraw));
    assert_eq!(ctx, before);
    assert!(!ctx.vesting_schedule.milestones[0].reached);
}

#[test]
fn withdraw_goes_on_where_no_milestone_is_newly_reached() {
    let mut ctx = withdrawing(
        schedule(1000, 400, vec![step(100, 4000, true), step(200, 6000, false)]),
        150,
        key(1),
    );
    let (events, transfer, event) = withdraw_unlocked(&mut ctx).unwrap();
    assert!(events.is_empty());
    assert_eq!(transfer.amount, 400);
    assert_eq!(event.amount, 400);
    assert_eq!(ctx.vesting_schedule.unlocked_amount, 0);
    assert_eq!(
        ctx.vesting_schedule.milestones,
        vec![step(100, 4000, true), step(200, 6000, false)]
    );
}

#[test]
fn withdraw_checks_milestones_first() {
    let mut ctx = withdrawing(
        schedule(1000, 0, vec![step(100, 4000, false), step(200, 6000, false)]),
        150,
        key(1),
    );
    let (events, transfer, event) = withdraw_unlocked(&mut ctx).unwrap();
    assert_eq!(
        events,
        vec![MilestoneReachedEvent { vesting_id: 7, milestone_index: 0, unlocked_amount: 400 }]
    );
    assert_eq!(transfer.amount, 400);
    assert_eq!(event, TokensWithdrawnEvent { vesting_id: 7, creator: key(1), amount: 400 });
    assert_eq!(ctx.vesting_schedule.unlocked_amount, 0);
    assert!(ctx.vesting_schedule.milestones[0].reached);
    assert!(!ctx.vesting_schedule.milestones[1].reached);
}

#[test]
fn withdraw_pays_from_the_vault_under_its_seeds() {
    let mut ctx = withdrawing(schedule(1000, 400, vec![step(100, 4000, true)]), 0, key(1));
    ctx.vesting_schedule.vesting_id = 0x0102;
    let (_, transfer, _) = withdraw_unlocked(&mut ctx).unwrap();
    assert_eq!(transfer.from, key(4));
    assert_eq!(transfer.to, key(10));
    assert_eq!(transfer.authority, key(5));
    assert_eq!(
        transfer.signer_seeds,
        vec![b"token_vault".to_vec(), vec![2, 1, 0, 0, 0, 0, 0, 0], vec![254]]
    );
}

#[test]
fn withdraw_fails_on_overflow_and_changes_nothing() {
    let mut ctx = withdrawing(schedule(u64::MAX, 400, vec![step(1, 10000, false)]), 5, key(1));
    let before = ctx.clone();
    assert_eq!(withdraw_unlocked(&mut ctx), Err(VestingError::Arithmetic));
    assert_eq!(ctx, before);
}

#[test]
fn second_withdrawal_finds_nothing_to_withdraw() {
    let mut first = withdrawing(
        schedule(1000, 0, vec![step(100, 4000, false), step(200, 6000, false)]),
        150,
        key(1),
    );
    withdraw_unlocked(&mut first).unwrap();
    assert_eq!(first.vesting_schedule.unlocked_amount, 0);
    let before = first.clone();
    assert_eq!(withdraw_unlocked(&mut first), Err(VestingError::NoTokensToWithdraw));
    assert_eq!(first, before);
}

#[test]
fn a_check_after_a_withdrawal_unlocks_only_the_new_share() {
    let mut first = withdrawing(
        schedule(1000, 0, vec![step(100, 4000, false), step(200, 6000, false)]),
        150,
        key(1),
    );
    withdraw_unlocked(&mut first).unwrap();
    let mut second = checking(first.vesting_schedule, 250);
    check_milestones(&mut second).unwrap();
    assert_eq!(second.vesting_schedule.unlocked_amount, 600);
}

#[test]
fn vesting_error_messages() {
    assert_eq!(VestingError::ArrayLengthMismatch.message(), "Arrays must be the same length");
    assert_eq!(VestingError::NoMilestones.message(), "Must have at least one milestone");
    assert_eq!(
        VestingError::TotalPercentageExceeded.message(),
        "Total percentage cannot exceed 100%"
    );
    assert_eq!(VestingError::VestingNotActive.message(), "Vesting schedule not active");
    assert_eq!(VestingError::NoNewMilestonesReached.message(), "No new milestones reached");
    assert_eq!(VestingError::OnlyCreatorCanWithdraw.message(), "Only creator can withdraw");
    assert_eq!(VestingError::NoTokensToWithdraw.message(), "No tokens to withdraw");
    assert_eq!(VestingError::Arithmetic.message(), "Arithmetic overflow");
}
