use atlas_farming::accounts::{
    key_eq, ErrorCode, FarmPoolAccount, FarmPoolUserAccount, GlobalStateAccount, TokenTransfer,
    TransferAuthority, ACC_PRECISION,
};
use atlas_farming::calculator::calculate_reward;
use atlas_farming::engine::{
    change_tokens_per_second, close_pool, create_pool, create_state, create_user,
    fund_reward_token, harvest, stake, unstake,
};
use atlas_farming::schedule::{ExtraRewardSchedule, RewardBand};

const ADMIN: [u8; 32] = [1; 32];
const ALICE: [u8; 32] = [2; 32];
const BOB: [u8; 32] = [3; 32];
const ALICE_VAULT: [u8; 32] = [4; 32];
const BOB_VAULT: [u8; 32] = [5; 32];
const POOL_KEY: [u8; 32] = [6; 32];

fn setup(rate: u64, now: i64) -> (GlobalStateAccount, FarmPoolAccount) {
    let mut state = create_state(ADMIN, 255, now);
    let mut others: Vec<FarmPoolAccount> = Vec::new();
    let pool = create_pool(
        &mut state, &mut others, ADMIN, 254, [7; 32], [8; 32], [9; 32], [10; 32], rate, now,
    )
    .unwrap();
    (state, pool)
}

fn user(pool: &mut FarmPoolAccount, who: [u8; 32]) -> FarmPoolUserAccount {
    create_user(pool, POOL_KEY, who, 253).unwrap()
}

fn lock_schedule(state: &GlobalStateAccount) -> ExtraRewardSchedule {
    let mut s = ExtraRewardSchedule::new();
    let bands = vec![
        RewardBand { duration: 0, percent: 0 },
        RewardBand { duration: 100, percent: ACC_PRECISION / 2 },
        RewardBand { duration: 1000, percent: ACC_PRECISION },
    ];
    s.set_bands(state, &ADMIN, bands).unwrap();
    s
}

#[test]
fn single_staker_harvests_full_emission() {
    let (_state, mut pool) = setup(100, 0);
    let sched = ExtraRewardSchedule::new();
    let mut alice = user(&mut pool, ALICE);
    let t = stake(&mut pool, &mut alice, &sched, ALICE_VAULT, 1000, 0, 0).unwrap();
    assert_eq!(
        t,
        TokenTransfer {
            from: ALICE_VAULT,
            to: [8; 32],
            authority: TransferAuthority::Owner(ALICE),
            amount: 1000
        }
    );
    let mut settled = pool;
    settled.update(10).unwrap();
    assert_eq!(settled.acc_reward_per_share, 100 * 10 * ACC_PRECISION / 1000);
    let paid = harvest(&mut pool, &mut alice, &sched, ALICE_VAULT, 10).unwrap();
    assert_eq!(paid.amount, 1000);
    assert_eq!(paid.from, [10; 32]);
    assert_eq!(paid.authority, TransferAuthority::State);
    assert_eq!(pool.acc_reward_per_share, ACC_PRECISION);
    assert_eq!(alice.reward_amount, 0);
    assert_eq!(alice.reward_debt, 1000);
}

#[test]
fn two_stakers_split_proportionally() {
    let (_state, mut pool) = setup(100, 0);
    let sched = ExtraRewardSchedule::new();
    let mut alice = user(&mut pool, ALICE);
    let mut bob = user(&mut pool, BOB);
    stake(&mut pool, &mut alice, &sched, ALICE_VAULT, 1000, 0, 0).unwrap();
    stake(&mut pool, &mut bob, &sched, BOB_VAULT, 3000, 0, 0).unwrap();
    let a = harvest(&mut pool, &mut alice, &sched, ALICE_VAULT, 10).unwrap().amount;
    let b = harvest(&mut pool, &mut bob, &sched, BOB_VAULT, 10).unwrap().amount;
    assert_eq!(a, 250);
    assert_eq!(b, 750);
    assert_eq!(a + b, 1000);
}

#[test]
fn empty_pool_window_accrues_nothing() {
    let (_state, mut pool) = setup(100, 0);
    let sched = ExtraRewardSchedule::new();
    let mut alice = user(&mut pool, ALICE);
    stake(&mut pool, &mut alice, &sched, ALICE_VAULT, 1000, 0, 0).unwrap();
    unstake(&mut pool, &mut alice, &sched, ALICE_VAULT, 1000, 10).unwrap();
    let acc = pool.acc_reward_per_share;
    assert_eq!(pool.amount, 0);
    let mut probe = pool;
    probe.update(15).unwrap();
    assert_eq!(probe.acc_reward_per_share, acc);
    stake(&mut pool, &mut alice, &sched, ALICE_VAULT, 1000, 0, 15).unwrap();
    assert_eq!(pool.acc_reward_per_share, acc);
    assert_eq!(pool.last_reward_time, 15);
    let paid = harvest(&mut pool, &mut alice, &sched, ALICE_VAULT, 20).unwrap().amount;
    // 1000 for the first ten seconds, nothing for the empty window, 500 after.
    assert_eq!(paid, 1500);
}

#[test]
fn unstake_before_lock_expiry_is_under_locked() {
    let (state, mut pool) = setup(100, 0);
    let sched = lock_schedule(&state);
    let mut alice = user(&mut pool, ALICE);
    stake(&mut pool, &mut alice, &sched, ALICE_VAULT, 500, 100, 50).unwrap();
    let before = (pool, alice);
    assert_eq!(
        unstake(&mut pool, &mut alice, &sched, ALICE_VAULT, 100, 149),
        Err(ErrorCode::UnderLocked)
    );
    // Under lock wins even over an excessive amount.
    assert_eq!(
        unstake(&mut pool, &mut alice, &sched, ALICE_VAULT, 10_000, 149),
        Err(ErrorCode::UnderLocked)
    );
    assert_eq!((pool, alice), before);
    let t = unstake(&mut pool, &mut alice, &sched, ALICE_VAULT, 100, 150).unwrap();
    assert_eq!(t.authority, TransferAuthority::Pool);
    assert_eq!(t.from, [8; 32]);
    assert_eq!(t.to, ALICE_VAULT);
    assert_eq!(alice.amount, 400);
    assert_eq!(pool.amount, 400);
    assert_eq!(alice.lock_duration, 100);
    assert_eq!(alice.last_stake_time, 150);
}

#[test]
fn unstake_to_zero_clears_lock() {
    let (state, mut pool) = setup(100, 0);
    let sched = lock_schedule(&state);
    let mut alice = user(&mut pool, ALICE);
    stake(&mut pool, &mut alice, &sched, ALICE_VAULT, 500, 1000, 0).unwrap();
    unstake(&mut pool, &mut alice, &sched, ALICE_VAULT, 500, 1000).unwrap();
    assert_eq!(alice.amount, 0);
    assert_eq!(alice.lock_duration, 0);
    // A fresh commitment may now pick any band.
    stake(&mut pool, &mut alice, &sched, ALICE_VAULT, 10, 100, 1001).unwrap();
    assert_eq!(alice.lock_duration, 100);
}

#[test]
fn unstake_over_amount_fails() {
    let (_state, mut pool) = setup(100, 0);
    let sched = ExtraRewardSchedule::new();
    let mut alice = user(&mut pool, ALICE);
    stake(&mut pool, &mut alice, &sched, ALICE_VAULT, 500, 0, 0).unwrap();
    assert_eq!(
        unstake(&mut pool, &mut alice, &sched, ALICE_VAULT, 501, 5),
        Err(ErrorCode::UnstakeOverAmount)
    );
    assert_eq!(alice.amount, 500);
}

#[test]
fn stake_rejects_zero_and_bad_locks() {
    let (state, mut pool) = setup(100, 0);
    let sched = lock_schedule(&state);
    let mut alice = user(&mut pool, ALICE);
    assert_eq!(
        stake(&mut pool, &mut alice, &sched, ALICE_VAULT, 0, 0, 0),
        Err(ErrorCode::ZeroAmount)
    );
    assert_eq!(
        stake(&mut pool, &mut alice, &sched, ALICE_VAULT, 10, 50, 0),
        Err(ErrorCode::InvalidLockDuration)
    );
    stake(&mut pool, &mut alice, &sched, ALICE_VAULT, 10, 1000, 0).unwrap();
    assert_eq!(
        stake(&mut pool, &mut alice, &sched, ALICE_VAULT, 10, 100, 1),
        Err(ErrorCode::InvalidLockDuration)
    );
    assert_eq!(alice.amount, 10);
    assert_eq!(pool.amount, 10);
}

#[test]
fn lock_bonus_is_paid_on_harvest() {
    let (state, mut pool) = setup(100, 0);
    let sched = lock_schedule(&state);
    let mut alice = user(&mut pool, ALICE);
    stake(&mut pool, &mut alice, &sched, ALICE_VAULT, 1000, 100, 0).unwrap();
    let paid = harvest(&mut pool, &mut alice, &sched, ALICE_VAULT, 10).unwrap().amount;
    // 1000 of base reward and 50% of it as bonus.
    assert_eq!(paid, 1500);
    assert_eq!(alice.extra_reward, 0);
}

#[test]
fn bonus_band_lookup_at_boundaries() {
    let state = create_state(ADMIN, 1, 0);
    let sched = lock_schedule(&state);
    assert_eq!(sched.bonus_percentage(0), 0);
    assert_eq!(sched.bonus_percentage(99), 0);
    assert_eq!(sched.bonus_percentage(100), ACC_PRECISION / 2);
    assert_eq!(sched.bonus_percentage(999), ACC_PRECISION / 2);
    assert_eq!(sched.bonus_percentage(1000), ACC_PRECISION);
    assert_eq!(sched.bonus_percentage(u64::MAX), ACC_PRECISION);
    assert!(sched.has_band(100));
    assert!(!sched.has_band(101));
    let empty = {
        let mut s = ExtraRewardSchedule::new();
        s.set_bands(&state, &ADMIN, Vec::new()).unwrap();
        s
    };
    assert_eq!(empty.bonus_percentage(500), 0);
    assert!(empty.bands().is_empty());
}

#[test]
fn schedule_update_is_gated_and_ordered() {
    let state = create_state(ADMIN, 1, 0);
    let mut s = ExtraRewardSchedule::new();
    let bands = vec![RewardBand { duration: 10, percent: 1 }];
    assert_eq!(s.set_bands(&state, &ALICE, bands.clone()), Err(ErrorCode::Unauthorized));
    let unordered = vec![
        RewardBand { duration: 10, percent: 1 },
        RewardBand { duration: 10, percent: 2 },
    ];
    assert_eq!(s.set_bands(&state, &ADMIN, unordered), Err(ErrorCode::InvalidSEQ));
    assert_eq!(s.bands(), vec![RewardBand { duration: 0, percent: 0 }]);
    s.set_bands(&state, &ADMIN, bands.clone()).unwrap();
    assert_eq!(s.bands(), bands);
}

#[test]
fn settling_twice_at_same_instant_is_noop() {
    let (_state, mut pool) = setup(7, 0);
    pool.amount = 3;
    pool.update(5).unwrap();
    let once = pool;
    pool.update(5).unwrap();
    assert_eq!(pool, once);
    assert_eq!(once.acc_reward_per_share, 7 * 5 * ACC_PRECISION / 3);
}

#[test]
fn accumulator_never_decreases() {
    let (_state, mut pool) = setup(13, 0);
    pool.amount = 7;
    let mut last = pool.acc_reward_per_share;
    for t in [0i64, 1, 1, 4, 9, 9, 100] {
        pool.update(t).unwrap();
        assert!(pool.acc_reward_per_share >= last);
        last = pool.acc_reward_per_share;
    }
}

#[test]
fn harvest_frequency_does_not_change_total() {
    let sched = ExtraRewardSchedule::new();
    let (_s1, mut p1) = setup(100, 0);
    let mut u1 = user(&mut p1, ALICE);
    stake(&mut p1, &mut u1, &sched, ALICE_VAULT, 1000, 0, 0).unwrap();
    let (_s2, mut p2) = setup(100, 0);
    let mut u2 = user(&mut p2, ALICE);
    stake(&mut p2, &mut u2, &sched, ALICE_VAULT, 1000, 0, 0).unwrap();
    let mut each: u64 = 0;
    for t in 1..=60i64 {
        each += harvest(&mut p1, &mut u1, &sched, ALICE_VAULT, t).unwrap().amount;
    }
    let once = harvest(&mut p2, &mut u2, &sched, ALICE_VAULT, 60).unwrap().amount;
    assert_eq!(each, once);
    assert_eq!(once, 6000);
}

#[test]
fn staked_amounts_sum_to_pool_amount() {
    let (state, mut pool) = setup(100, 0);
    let sched = lock_schedule(&state);
    let mut alice = user(&mut pool, ALICE);
    let mut bob = user(&mut pool, BOB);
    stake(&mut pool, &mut alice, &sched, ALICE_VAULT, 700, 0, 0).unwrap();
    stake(&mut pool, &mut bob, &sched, BOB_VAULT, 300, 100, 3).unwrap();
    assert_eq!(alice.amount + bob.amount, pool.amount);
    harvest(&mut pool, &mut bob, &sched, BOB_VAULT, 7).unwrap();
    unstake(&mut pool, &mut alice, &sched, ALICE_VAULT, 200, 9).unwrap();
    assert_eq!(alice.amount + bob.amount, pool.amount);
    let _ = unstake(&mut pool, &mut bob, &sched, BOB_VAULT, 300, 10);
    assert_eq!(alice.amount + bob.amount, pool.amount);
    unstake(&mut pool, &mut bob, &sched, BOB_VAULT, 300, 103).unwrap();
    assert_eq!(alice.amount + bob.amount, pool.amount);
    assert_eq!(pool.amount, 500);
}

#[test]
fn settlement_overflow_is_reported() {
    let (_state, mut pool) = setup(u64::MAX, 0);
    pool.amount = 1;
    let before = pool;
    assert_eq!(pool.update(i64::MAX), Err(ErrorCode::MathOverflow));
    assert_eq!(pool, before);
}

#[test]
fn stale_debt_is_reported() {
    let (_state, pool) = setup(1, 0);
    let sched = ExtraRewardSchedule::new();
    let mut u = FarmPoolUserAccount {
        bump: 0,
        authority: ALICE,
        pool: POOL_KEY,
        amount: 10,
        reward_amount: 0,
        extra_reward: 0,
        reward_debt: 5,
        lock_duration: 0,
        last_stake_time: 0,
    };
    assert_eq!(u.calculate_reward_amount(&pool, &sched), Err(ErrorCode::MathOverflow));
    u.calculate_reward_debt(&pool).unwrap();
    assert_eq!(u.reward_debt, 0);
}

#[test]
fn pool_lifecycle_updates_registry() {
    let (mut state, mut pool) = setup(100, 0);
    assert_eq!(state.total_farm, 1);
    assert_eq!(state.start_time, 0);
    let sched = ExtraRewardSchedule::new();
    let mut alice = user(&mut pool, ALICE);
    assert_eq!(pool.total_user, 1);
    stake(&mut pool, &mut alice, &sched, ALICE_VAULT, 1000, 0, 0).unwrap();
    let mut pools = vec![pool];
    let second = create_pool(
        &mut state, &mut pools, ADMIN, 1, [11; 32], [12; 32], [13; 32], [14; 32], 5, 10,
    )
    .unwrap();
    assert_eq!(state.total_farm, 2);
    assert_eq!(second.acc_reward_per_share, 0);
    assert_eq!(second.last_reward_time, 10);
    assert_eq!(pools[0].acc_reward_per_share, ACC_PRECISION);
    assert_eq!(pools[0].last_reward_time, 10);
    let working = pools[0];
    assert_eq!(
        close_pool(&mut state, &mut pools, working, ADMIN, 10),
        Err(ErrorCode::WorkingPool)
    );
    assert_eq!(
        close_pool(&mut state, &mut pools, second, ALICE, 10),
        Err(ErrorCode::Unauthorized)
    );
    close_pool(&mut state, &mut pools, second, ADMIN, 12).unwrap();
    assert_eq!(state.total_farm, 1);
    assert_eq!(pools[0].last_reward_time, 12);
}

#[test]
fn create_pool_requires_administrator() {
    let mut state = create_state(ADMIN, 1, 0);
    let mut pools: Vec<FarmPoolAccount> = Vec::new();
    let r = create_pool(
        &mut state, &mut pools, BOB, 1, [11; 32], [12; 32], [13; 32], [14; 32], 5, 10,
    );
    assert_eq!(r, Err(ErrorCode::Unauthorized));
    assert_eq!(state.total_farm, 0);
}

#[test]
fn rate_change_applies_only_forward() {
    let (state, mut pool) = setup(100, 0);
    let sched = ExtraRewardSchedule::new();
    let mut alice = user(&mut pool, ALICE);
    stake(&mut pool, &mut alice, &sched, ALICE_VAULT, 1000, 0, 0).unwrap();
    assert_eq!(
        change_tokens_per_second(&state, &mut pool, BOB, 1, 10),
        Err(ErrorCode::Unauthorized)
    );
    change_tokens_per_second(&state, &mut pool, ADMIN, 10, 10).unwrap();
    assert_eq!(pool.token_per_second, 10);
    assert_eq!(pool.acc_reward_per_share, ACC_PRECISION);
    let paid = harvest(&mut pool, &mut alice, &sched, ALICE_VAULT, 20).unwrap().amount;
    assert_eq!(paid, 1000 + 100);
}

#[test]
fn funding_moves_reward_into_custody() {
    let (_state, pool) = setup(100, 0);
    let t = fund_reward_token(&pool, ADMIN, [20; 32], 5000).unwrap();
    assert_eq!(
        t,
        TokenTransfer {
            from: [20; 32],
            to: [10; 32],
            authority: TransferAuthority::Owner(ADMIN),
            amount: 5000
        }
    );
    assert_eq!(fund_reward_token(&pool, BOB, [20; 32], 1), Err(ErrorCode::Unauthorized));
}

#[test]
fn user_registration_counts_and_overflows() {
    let (_state, mut pool) = setup(100, 0);
    let u = user(&mut pool, ALICE);
    assert_eq!(u.pool, POOL_KEY);
    assert_eq!(u.authority, ALICE);
    assert_eq!(u.amount, 0);
    pool.total_user = u64::MAX;
    assert_eq!(create_user(&mut pool, POOL_KEY, BOB, 1), Err(ErrorCode::MathOverflow));
}

#[test]
fn keys_compare_by_bytes() {
    let mut k = ALICE;
    assert!(key_eq(&k, &ALICE));
    k[31] = 0;
    assert!(!key_eq(&k, &ALICE));
}

#[test]
fn weighted_reward_is_proportional() {
    assert_eq!(calculate_reward(500, 100, 6, 3, 7, 20, 10), 5 * 2 * 7 * 10);
    assert_eq!(calculate_reward(500, 0, 6, 3, 7, 20, 10), 0);
    assert_eq!(calculate_reward(50, 100, 6, 3, 7, 20, 10), 70);
    assert_eq!(calculate_reward(500, 100, 2, 3, 7, 20, 10), 233);
    assert_eq!(calculate_reward(1000, 4000, 1, 1, 100, 10, 0), 250);
    assert_eq!(calculate_reward(3000, 4000, 1, 1, 100, 10, 0), 750);
    assert_eq!(calculate_reward(1000, 4000, 1, 1, 100, 10, 10), 0);
}

#[test]
fn schedule_from_bands_checks_order() {
    let ok = ExtraRewardSchedule::from_bands(vec![
        RewardBand { duration: 0, percent: 0 },
        RewardBand { duration: 5, percent: 9 },
    ])
    .unwrap();
    assert_eq!(ok.bonus_percentage(7), 9);
    let bad = ExtraRewardSchedule::from_bands(vec![
        RewardBand { duration: 5, percent: 0 },
        RewardBand { duration: 4, percent: 9 },
    ]);
    assert_eq!(bad.err(), Some(ErrorCode::InvalidSEQ));
}

#[test]
fn uneven_per_second_emission_rounds_down_each_step() {
    // 1 token/sec over 3 staked units does not divide evenly per second:
    // settling every second loses the fractional part of each step.
    let sched = ExtraRewardSchedule::new();
    let (_s1, mut p1) = setup(1, 0);
    let mut u1 = user(&mut p1, ALICE);
    stake(&mut p1, &mut u1, &sched, ALICE_VAULT, 3, 0, 0).unwrap();
    let (_s2, mut p2) = setup(1, 0);
    let mut u2 = user(&mut p2, ALICE);
    stake(&mut p2, &mut u2, &sched, ALICE_VAULT, 3, 0, 0).unwrap();
    let mut each: u64 = 0;
    for t in 1..=3i64 {
        each += harvest(&mut p1, &mut u1, &sched, ALICE_VAULT, t).unwrap().amount;
    }
    let once = harvest(&mut p2, &mut u2, &sched, ALICE_VAULT, 3).unwrap().amount;
    assert_eq!(each, 2);
    assert_eq!(once, 3);
}

#[test]
fn bonus_is_credited_on_settlement() {
    let state = create_state(ADMIN, 1, 0);
    let sched = lock_schedule(&state);
    let (_s, mut pool) = setup(1, 0);
    pool.acc_reward_per_share = 3 * ACC_PRECISION;
    let mut u = FarmPoolUserAccount {
        bump: 0,
        authority: ALICE,
        pool: POOL_KEY,
        amount: 10,
        reward_amount: 1,
        extra_reward: 2,
        reward_debt: 10,
        lock_duration: 150,
        last_stake_time: 0,
    };
    u.calculate_reward_amount(&pool, &sched).unwrap();
    assert_eq!(u.reward_amount, 1 + 20);
    assert_eq!(u.extra_reward, 2 + 10);
    assert_eq!(u.reward_debt, 10);
    assert_eq!(u.amount, 10);
}
