use vstd::prelude::*;

verus! {

/// Emission over `[stake_prev, time_now]` at `reward_rate`, scaled by the
/// stake's share of the pool and the pool's share of the total weight:
/// the numerator of the weighted reward.
pub open spec fn weighted_numerator(
    stake_amount: u64,
    alloc_point: u16,
    reward_rate: u64,
    time_now: u32,
    stake_prev: u32,
) -> int {
    stake_amount * alloc_point * reward_rate * (time_now - stake_prev)
}

/// The weighted reward, multiplied out before the single division:
/// `floor(stake * alloc * rate * period / (deposit * total_alloc))`.
pub open spec fn weighted_reward(
    stake_amount: u64,
    total_pool_deposit: u64,
    alloc_point: u16,
    total_alloc_point: u16,
    reward_rate: u64,
    time_now: u32,
    stake_prev: u32,
) -> int {
    weighted_numerator(stake_amount, alloc_point, reward_rate, time_now, stake_prev) / (
    total_pool_deposit * total_alloc_point)
}

/// Reward of a stake over `[stake_prev, time_now]` in a weighted pool: its
/// proportional share of the emission, `stake / deposit` of the pool's
/// `alloc / total_alloc` share of `rate * period`, rounded down once at the
/// end; 0 for an empty pool.
pub fn calculate_reward(
    stake_amount: u64,
    total_pool_deposit: u64,
    alloc_point: u16,
    total_alloc_point: u16,
    reward_rate: u64,
    time_now: u32,
    stake_prev: u32,
) -> (r: u64)
    requires
        total_alloc_point > 0,
        stake_prev <= time_now,
        total_pool_deposit > 0 ==> weighted_numerator(
            stake_amount,
            alloc_point,
            reward_rate,
            time_now,
            stake_prev,
        ) <= u128::MAX,
        total_pool_deposit > 0 ==> weighted_reward(
            stake_amount,
            total_pool_deposit,
            alloc_point,
            total_alloc_point,
            reward_rate,
            time_now,
            stake_prev,
        ) <= u64::MAX,
    ensures
        total_pool_deposit == 0 ==> r == 0,
        total_pool_deposit > 0 ==> r == weighted_reward(
            stake_amount,
            total_pool_deposit,
            alloc_point,
            total_alloc_point,
            reward_rate,
            time_now,
            stake_prev,
        ),
{
    if total_pool_deposit == 0 {
        return 0;
    }
    let s = stake_amount as u128;
    let a = alloc_point as u128;
    let k = reward_rate as u128;
    let p = (time_now - stake_prev) as u128;
    let d = total_pool_deposit as u128;
    let t = total_alloc_point as u128;
    proof {
        assert(s * a <= 0xffff_ffff_ffff_ffff_ffffu128) by (nonlinear_arith)
            requires
                s <= u64::MAX,
                a <= u16::MAX,
        ;
        assert(d * t <= 0xffff_ffff_ffff_ffff_ffffu128) by (nonlinear_arith)
            requires
                d <= u64::MAX,
                t <= u16::MAX,
        ;
        assert(d * t > 0) by (nonlinear_arith)
            requires
                d > 0,
                t > 0,
        ;
    }
    let denominator: u128 = d * t;
    if s == 0 || a == 0 || k == 0 || p == 0 {
        proof {
            assert(s * a * k * p == 0) by (nonlinear_arith)
                requires
                    s == 0 || a == 0 || k == 0 || p == 0,
            ;
        }
        return 0;
    }
    let sa: u128 = s * a;
    proof {
        assert(sa * k <= sa * k * p) by (nonlinear_arith)
            requires
                sa * k >= 0,
                p >= 1,
        ;
    }
    let sak: u128 = sa * k;
    let numerator: u128 = sak * p;
    (numerator / denominator) as u64
}

} // verus!
