use vstd::prelude::*;
use vstd::arithmetic::div_mod::{
    lemma_div_by_multiple, lemma_div_is_ordered, lemma_fundamental_div_mod, lemma_fundamental_div_mod_converse,
};
use crate::accounts::{ACC_PRECISION, ErrorCode, FarmPoolAccount, FarmPoolUserAccount};
use crate::engine::{harvest_result, stake_result, under_lock, unstake_result};
use crate::schedule::{bonus_for, RewardBand};
use crate::settlement::{accrual, bonus_of, elapsed, entitled, pending, settle_pool, settled};

verus! {

/// Sum of the staked amounts of `users`.
pub open spec fn total_staked(users: Seq<FarmPoolUserAccount>) -> int
    decreases users.len(),
{
    if users.len() == 0 {
        0
    } else {
        total_staked(users.drop_last()) + users.last().amount
    }
}

/// Replacing one position changes the total by the difference of amounts.
pub proof fn lemma_total_staked_update(
    users: Seq<FarmPoolUserAccount>,
    i: int,
    v: FarmPoolUserAccount,
)
    requires
        0 <= i < users.len(),
    ensures
        total_staked(users.update(i, v)) == total_staked(users) - users[i].amount + v.amount,
    decreases users.len(),
{
    let w = users.update(i, v);
    if i == users.len() - 1 {
        assert(w.drop_last() =~= users.drop_last());
    } else {
        lemma_total_staked_update(users.drop_last(), i, v);
        assert(w.drop_last() =~= users.drop_last().update(i, v));
    }
}

/// Conservation under stake: if the positions of a pool sum to its staked
/// amount, they still do after any one of them stakes.
pub proof fn stake_conserves_total(
    pool: FarmPoolAccount,
    users: Seq<FarmPoolUserAccount>,
    i: int,
    bands: Seq<RewardBand>,
    amount: u64,
    lock_duration: u64,
    now: i64,
)
    requires
        0 <= i < users.len(),
        total_staked(users) == pool.amount,
    ensures
        stake_result(pool, users[i], bands, amount, lock_duration, now) matches Ok((p, u))
            ==> total_staked(users.update(i, u)) == p.amount,
{
    if let Ok((p, u)) = stake_result(pool, users[i], bands, amount, lock_duration, now) {
        lemma_total_staked_update(users, i, u);
    }
}

/// Conservation under unstake: if the positions of a pool sum to its staked
/// amount, they still do after any one of them unstakes.
pub proof fn unstake_conserves_total(
    pool: FarmPoolAccount,
    users: Seq<FarmPoolUserAccount>,
    i: int,
    bands: Seq<RewardBand>,
    amount: u64,
    now: i64,
)
    requires
        0 <= i < users.len(),
        total_staked(users) == pool.amount,
    ensures
        unstake_result(pool, users[i], bands, amount, now) matches Ok((p, u))
            ==> total_staked(users.update(i, u)) == p.amount,
{
    if let Ok((p, u)) = unstake_result(pool, users[i], bands, amount, now) {
        lemma_total_staked_update(users, i, u);
    }
}

/// Conservation under harvest: if the positions of a pool sum to its staked
/// amount, they still do after any one of them harvests.
pub proof fn harvest_conserves_total(
    pool: FarmPoolAccount,
    users: Seq<FarmPoolUserAccount>,
    i: int,
    bands: Seq<RewardBand>,
    now: i64,
)
    requires
        0 <= i < users.len(),
        total_staked(users) == pool.amount,
    ensures
        harvest_result(pool, users[i], bands, now) matches Ok((p, u, paid))
            ==> total_staked(users.update(i, u)) == p.amount,
{
    if let Ok((p, u, paid)) = harvest_result(pool, users[i], bands, now) {
        lemma_total_staked_update(users, i, u);
    }
}

/// Under consistent bookkeeping the pending reward is never negative: a debt
/// taken against an accumulator that has since not decreased is covered by
/// the entitlement under the current one.
pub proof fn pending_never_negative(u: FarmPoolUserAccount, acc_then: u128, acc_now: u128)
    requires
        u.reward_debt == entitled(u, acc_then),
        acc_then <= acc_now,
    ensures
        pending(u, acc_now) >= 0,
{
    assert(u.amount * acc_then <= u.amount * acc_now) by (nonlinear_arith)
        requires
            acc_then <= acc_now,
            u.amount >= 0,
    ;
    lemma_div_is_ordered(u.amount * acc_then, u.amount * acc_now, ACC_PRECISION as int);
}

/// The pool after settling at each of `times` in turn, or the first fault.
pub open spec fn settle_each(p: FarmPoolAccount, times: Seq<i64>) -> Result<FarmPoolAccount, ErrorCode>
    decreases times.len(),
{
    if times.len() == 0 {
        Ok(p)
    } else {
        match settle_pool(p, times[0]) {
            Err(e) => Err(e),
            Ok(q) => settle_each(q, times.drop_first()),
        }
    }
}

/// Accumulator monotonicity: no sequence of settlements lowers the
/// accumulator.
pub proof fn settlements_never_lower_accumulator(p: FarmPoolAccount, times: Seq<i64>)
    ensures
        settle_each(p, times) matches Ok(q) ==> q.acc_reward_per_share >= p.acc_reward_per_share,
    decreases times.len(),
{
    if times.len() > 0 {
        if let Ok(q) = settle_pool(p, times[0]) {
            settlements_never_lower_accumulator(q, times.drop_first());
        }
    }
}

/// Settlement idempotence: settling a second time at the same instant
/// succeeds and changes nothing.
pub proof fn settle_twice_same_instant(p: FarmPoolAccount, now: i64)
    ensures
        settle_pool(p, now) matches Ok(q) ==> settle_pool(q, now) == Ok::<FarmPoolAccount, ErrorCode>(q),
{
    if let Ok(q) = settle_pool(p, now) {
        assert(settle_pool(q, now) == Ok::<FarmPoolAccount, ErrorCode>(q));
    }
}

/// Lock enforcement: an unstake before the lock commitment expires fails as
/// under lock; at or after that instant it does not fail for that reason,
/// and it succeeds when the amount is held and the arithmetic fits.
pub proof fn unstake_respects_lock(
    pool: FarmPoolAccount,
    user: FarmPoolUserAccount,
    bands: Seq<RewardBand>,
    amount: u64,
    now: i64,
)
    ensures
        under_lock(user, now) ==> unstake_result(
            pool,
            user,
            bands,
            amount,
            now,
        ) == Err::<(FarmPoolAccount, FarmPoolUserAccount), ErrorCode>(ErrorCode::UnderLocked),
        !under_lock(user, now) ==> unstake_result(
            pool,
            user,
            bands,
            amount,
            now,
        ) != Err::<(FarmPoolAccount, FarmPoolUserAccount), ErrorCode>(ErrorCode::UnderLocked),
        !under_lock(user, now) && amount <= user.amount ==> unstake_result(
            pool,
            user,
            bands,
            amount,
            now,
        ) is Ok || unstake_result(pool, user, bands, amount, now) == Err::<
            (FarmPoolAccount, FarmPoolUserAccount),
            ErrorCode,
        >(ErrorCode::MathOverflow),
{
}

/// Total paid by harvesting at `now + 1`, `now + 2`, ..., `now + n`, or the
/// first fault.
pub open spec fn harvest_each_second(
    p: FarmPoolAccount,
    u: FarmPoolUserAccount,
    bands: Seq<RewardBand>,
    now: i64,
    n: nat,
) -> Result<int, ErrorCode>
    decreases n,
{
    if n == 0 {
        Ok(0)
    } else {
        match harvest_result(p, u, bands, (now + 1) as i64) {
            Err(e) => Err(e),
            Ok((p1, u1, paid)) => match harvest_each_second(p1, u1, bands, (now + 1) as i64, (n - 1) as nat) {
                Err(e) => Err(e),
                Ok(rest) => Ok(paid + rest),
            },
        }
    }
}

/// What one second adds to the accumulator of a pool whose staked amount
/// does not change.
pub open spec fn step_per_second(p: FarmPoolAccount) -> int {
    if p.amount > 0 {
        p.token_per_second * ACC_PRECISION / (p.amount as int)
    } else {
        0
    }
}

proof fn lemma_divides_evenly(x: int, a: int, n: int)
    requires
        a > 0,
        x >= 0,
        n >= 0,
        n * (x % a) < a,
    ensures
        (n * x) / a == n * (x / a),
{
    lemma_fundamental_div_mod(x, a);
    let q = x / a;
    let r = x % a;
    assert(n * x == (n * q) * a + n * r) by (nonlinear_arith)
        requires
            x == a * q + r,
    ;
    assert(n * r >= 0) by (nonlinear_arith)
        requires
            n >= 0,
            r >= 0,
    ;
    lemma_fundamental_div_mod_converse(n * x, a, n * q, n * r);
}

proof fn lemma_whole_bonus(pending: int, percent: u128)
    requires
        pending >= 0,
        percent % ACC_PRECISION == 0,
    ensures
        bonus_of(pending, percent) == pending * (percent / ACC_PRECISION),
{
    let m = percent / ACC_PRECISION;
    lemma_fundamental_div_mod(percent as int, ACC_PRECISION as int);
    assert(pending * percent == (pending * m) * ACC_PRECISION) by (nonlinear_arith)
        requires
            percent == ACC_PRECISION * m,
    ;
    assert(pending * m >= 0) by (nonlinear_arith)
        requires
            pending >= 0,
            m >= 0,
    ;
    lemma_div_by_multiple(pending * m, ACC_PRECISION as int);
}

/// One harvest one second after the last settlement pays the unharvested
/// reward plus the newly pending one with its bonus.
proof fn lemma_harvest_one_second(
    p: FarmPoolAccount,
    u: FarmPoolUserAccount,
    bands: Seq<RewardBand>,
    now: i64,
)
    requires
        p.last_reward_time == now,
        now < i64::MAX,
        bonus_for(bands, u.lock_duration) % ACC_PRECISION == 0,
        harvest_result(p, u, bands, (now + 1) as i64) is Ok,
    ensures
        ({
            let (p1, u1, paid) = harvest_result(p, u, bands, (now + 1) as i64)->Ok_0;
            let m = bonus_for(bands, u.lock_duration) / ACC_PRECISION;
            &&& p1.acc_reward_per_share == p.acc_reward_per_share + step_per_second(p)
            &&& p1.last_reward_time == now + 1
            &&& p1.amount == p.amount
            &&& p1.token_per_second == p.token_per_second
            &&& u1.amount == u.amount
            &&& u1.lock_duration == u.lock_duration
            &&& u1.reward_amount == 0
            &&& u1.extra_reward == 0
            &&& u1.reward_debt == entitled(u, p1.acc_reward_per_share)
            &&& paid == u.reward_amount + u.extra_reward + (1 + m) * pending(
                u,
                p1.acc_reward_per_share,
            )
        }),
{
    let t = (now + 1) as i64;
    let p1 = settled(p, t);
    assert(elapsed(p, t) == 1);
    assert(p.token_per_second * 1 * ACC_PRECISION == p.token_per_second * ACC_PRECISION);
    let percent = bonus_for(bands, u.lock_duration);
    let pend = pending(u, p1.acc_reward_per_share);
    lemma_whole_bonus(pend, percent);
    let m = percent / ACC_PRECISION;
    assert(pend + pend * m == (1 + m) * pend) by (nonlinear_arith);
}

/// Harvesting every second for `n >= 1` seconds pays the unharvested reward
/// plus `(1 + m)` times the entitlement gained over the accumulator's growth.
proof fn lemma_harvest_each_second_total(
    p: FarmPoolAccount,
    u: FarmPoolUserAccount,
    bands: Seq<RewardBand>,
    now: i64,
    n: nat,
)
    requires
        n >= 1,
        p.last_reward_time == now,
        now + n <= i64::MAX,
        bonus_for(bands, u.lock_duration) % ACC_PRECISION == 0,
        harvest_each_second(p, u, bands, now, n) is Ok,
    ensures
        harvest_each_second(p, u, bands, now, n)->Ok_0 == u.reward_amount + u.extra_reward + (1
            + bonus_for(bands, u.lock_duration) / ACC_PRECISION) * (u.amount * (
        p.acc_reward_per_share + n * step_per_second(p)) / (ACC_PRECISION as int) - u.reward_debt),
    decreases n,
{
    let t = (now + 1) as i64;
    lemma_harvest_one_second(p, u, bands, now);
    let (p1, u1, paid) = harvest_result(p, u, bands, t)->Ok_0;
    let m = bonus_for(bands, u.lock_duration) / ACC_PRECISION;
    if n > 1 {
        lemma_harvest_each_second_total(p1, u1, bands, t, (n - 1) as nat);
        assert(step_per_second(p1) == step_per_second(p));
        assert(p1.acc_reward_per_share + (n - 1) * step_per_second(p1) == p.acc_reward_per_share
            + n * step_per_second(p)) by (nonlinear_arith)
            requires
                p1.acc_reward_per_share == p.acc_reward_per_share + step_per_second(p),
                step_per_second(p1) == step_per_second(p),
        ;
        let e1 = entitled(u, p1.acc_reward_per_share);
        let en = u.amount * (p.acc_reward_per_share + n * step_per_second(p)) / (
        ACC_PRECISION as int);
        assert((1 + m) * (e1 - u.reward_debt) + (1 + m) * (en - e1) == (1 + m) * (en
            - u.reward_debt)) by (nonlinear_arith);
    } else {
        assert(p.acc_reward_per_share + 1 * step_per_second(p) == p.acc_reward_per_share
            + step_per_second(p));
    }
}

/// Frequency independence: for a position whose stake does not change,
/// harvesting every second for `n` seconds pays in total exactly what one
/// harvest after `n` seconds pays, provided the emission of `n` seconds
/// divides evenly into per-second steps (`n * (rate * ACC_PRECISION mod
/// staked) < staked`) and the bonus percentage is a whole multiple of 100%.
/// The stretch is at least one second.
pub proof fn harvest_frequency_independent(
    p: FarmPoolAccount,
    u: FarmPoolUserAccount,
    bands: Seq<RewardBand>,
    now: i64,
    n: nat,
)
    requires
        n >= 1,
        p.last_reward_time == now,
        now + n <= i64::MAX,
        p.amount > 0 ==> n * ((p.token_per_second * ACC_PRECISION) % (p.amount as int)) < p.amount,
        bonus_for(bands, u.lock_duration) % ACC_PRECISION == 0,
    ensures
        harvest_each_second(p, u, bands, now, n) matches Ok(total) ==> harvest_result(
            p,
            u,
            bands,
            (now + n) as i64,
        ) matches Ok((q, v, paid)) ==> paid == total,
{
    if harvest_each_second(p, u, bands, now, n) is Ok && harvest_result(
        p,
        u,
        bands,
        (now + n) as i64,
    ) is Ok {
        lemma_harvest_each_second_total(p, u, bands, now, n);
        let t = (now + n) as i64;
        let x = p.token_per_second * ACC_PRECISION;
        assert(elapsed(p, t) == n);
        if p.amount > 0 {
            lemma_divides_evenly(x, p.amount as int, n as int);
            assert(p.token_per_second * n * ACC_PRECISION == n * x) by (nonlinear_arith)
                requires
                    x == p.token_per_second * ACC_PRECISION,
            ;
        }
        assert(accrual(p, t) == n * step_per_second(p));
        let percent = bonus_for(bands, u.lock_duration);
        let p1 = settled(p, t);
        let pend = pending(u, p1.acc_reward_per_share);
        lemma_whole_bonus(pend, percent);
        let m = percent / ACC_PRECISION;
        assert(pend + pend * m == (1 + m) * pend) by (nonlinear_arith);
        assert(p1.acc_reward_per_share == p.acc_reward_per_share + n * step_per_second(p));
        let (q, v, paid) = harvest_result(p, u, bands, t)->Ok_0;
        assert(paid == u.reward_amount + u.extra_reward + pend + pend * m);
    }
}

} // verus!
