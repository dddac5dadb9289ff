use vstd::prelude::*;
use crate::accounts::{
    key_eq, ErrorCode, FarmPoolAccount, FarmPoolUserAccount, GlobalStateAccount, Key,
    TokenTransfer, TransferAuthority,
};
use crate::schedule::{bonus_for, has_band, ExtraRewardSchedule, RewardBand};
use crate::settlement::{accrue, rebase, settle_fits, settle_pool, settled};

verus! {

/// Stake as a whole: pool and user after the operation, or its failure.
/// Settle the pool, accrue the user under the old amount and lock, add the
/// stake to both, take the new lock, rebase the debt, record the time.
pub open spec fn stake_result(
    p: FarmPoolAccount,
    u: FarmPoolUserAccount,
    bands: Seq<RewardBand>,
    amount: u64,
    lock_duration: u64,
    now: i64,
) -> Result<(FarmPoolAccount, FarmPoolUserAccount), ErrorCode> {
    if amount == 0 {
        Err(ErrorCode::ZeroAmount)
    } else if lock_duration < u.lock_duration || !has_band(bands, lock_duration) {
        Err(ErrorCode::InvalidLockDuration)
    } else {
        match settle_pool(p, now) {
            Err(e) => Err(e),
            Ok(p1) => match accrue(u, p1.acc_reward_per_share, bonus_for(bands, u.lock_duration)) {
                Err(e) => Err(e),
                Ok(u1) => if u1.amount + amount > u64::MAX || p1.amount + amount > u64::MAX {
                    Err(ErrorCode::MathOverflow)
                } else {
                    let p2 = FarmPoolAccount { amount: (p1.amount + amount) as u64, ..p1 };
                    let u2 = FarmPoolUserAccount {
                        amount: (u1.amount + amount) as u64,
                        lock_duration,
                        ..u1
                    };
                    match rebase(u2, p2.acc_reward_per_share) {
                        Err(e) => Err(e),
                        Ok(u3) => Ok((p2, FarmPoolUserAccount { last_stake_time: now, ..u3 })),
                    }
                },
            },
        }
    }
}

/// Whether the user's lock commitment still holds at `now`.
pub open spec fn under_lock(u: FarmPoolUserAccount, now: i64) -> bool {
    now < u.last_stake_time + u.lock_duration
}

/// Unstake as a whole. Settle the pool, accrue the user, take the amount off
/// both, clear the lock if nothing is left, rebase the debt, record the time.
pub open spec fn unstake_result(
    p: FarmPoolAccount,
    u: FarmPoolUserAccount,
    bands: Seq<RewardBand>,
    amount: u64,
    now: i64,
) -> Result<(FarmPoolAccount, FarmPoolUserAccount), ErrorCode> {
    if under_lock(u, now) {
        Err(ErrorCode::UnderLocked)
    } else if amount > u.amount {
        Err(ErrorCode::UnstakeOverAmount)
    } else {
        match settle_pool(p, now) {
            Err(e) => Err(e),
            Ok(p1) => match accrue(u, p1.acc_reward_per_share, bonus_for(bands, u.lock_duration)) {
                Err(e) => Err(e),
                Ok(u1) => if p1.amount < amount {
                    Err(ErrorCode::MathOverflow)
                } else {
                    let p2 = FarmPoolAccount { amount: (p1.amount - amount) as u64, ..p1 };
                    let left = (u1.amount - amount) as u64;
                    let u2 = FarmPoolUserAccount {
                        amount: left,
                        lock_duration: if left == 0 {
                            0
                        } else {
                            u1.lock_duration
                        },
                        ..u1
                    };
                    match rebase(u2, p2.acc_reward_per_share) {
                        Err(e) => Err(e),
                        Ok(u3) => Ok((p2, FarmPoolUserAccount { last_stake_time: now, ..u3 })),
                    }
                },
            },
        }
    }
}

/// Harvest as a whole: pool, user, and the reward paid out. Settle the pool,
/// accrue the user, pay base plus bonus reward, zero both, rebase the debt.
pub open spec fn harvest_result(
    p: FarmPoolAccount,
    u: FarmPoolUserAccount,
    bands: Seq<RewardBand>,
    now: i64,
) -> Result<(FarmPoolAccount, FarmPoolUserAccount, u64), ErrorCode> {
    match settle_pool(p, now) {
        Err(e) => Err(e),
        Ok(p1) => match accrue(u, p1.acc_reward_per_share, bonus_for(bands, u.lock_duration)) {
            Err(e) => Err(e),
            Ok(u1) => if u1.reward_amount + u1.extra_reward > u64::MAX {
                Err(ErrorCode::MathOverflow)
            } else {
                let u2 = FarmPoolUserAccount { reward_amount: 0, extra_reward: 0, ..u1 };
                match rebase(u2, p1.acc_reward_per_share) {
                    Err(e) => Err(e),
                    Ok(u3) => Ok((p1, u3, (u1.reward_amount + u1.extra_reward) as u64)),
                }
            },
        },
    }
}

/// Locks `amount` more of the staked token into the pool for the user, with
/// lock commitment `lock_duration`, and returns the transfer from the user's
/// token account `user_vault` to the pool's custody. Nothing changes on
/// failure.
pub fn stake(
    pool: &mut FarmPoolAccount,
    user: &mut FarmPoolUserAccount,
    schedule: &ExtraRewardSchedule,
    user_vault: Key,
    amount: u64,
    lock_duration: u64,
    now: i64,
) -> (r: Result<TokenTransfer, ErrorCode>)
    requires
        old(pool).last_reward_time <= now,
    ensures
        match stake_result(*old(pool), *old(user), schedule@, amount, lock_duration, now) {
            Ok((p, u)) => {
                &&& r == Ok::<TokenTransfer, ErrorCode>(
                    (TokenTransfer {
                        from: user_vault,
                        to: old(pool).token_vault,
                        authority: TransferAuthority::Owner(old(user).authority),
                        amount,
                    }),
                )
                &&& *final(pool) == p
                &&& *final(user) == u
            },
            Err(e) => {
                &&& r == Err::<TokenTransfer, ErrorCode>(e)
                &&& *final(pool) == *old(pool)
                &&& *final(user) == *old(user)
            },
        },
        r is Ok ==> final(pool).amount == old(pool).amount + amount && final(user).amount
            == old(user).amount + amount,
{
    if amount == 0 {
        return Err(ErrorCode::ZeroAmount);
    }
    if lock_duration < user.lock_duration || !schedule.has_band(lock_duration) {
        return Err(ErrorCode::InvalidLockDuration);
    }
    let mut p = *pool;
    let mut u = *user;
    if let Err(e) = p.update(now) {
        return Err(e);
    }
    if let Err(e) = u.calculate_reward_amount(&p, schedule) {
        return Err(e);
    }
    if u.amount > u64::MAX - amount || p.amount > u64::MAX - amount {
        return Err(ErrorCode::MathOverflow);
    }
    u.amount = u.amount + amount;
    p.amount = p.amount + amount;
    u.lock_duration = lock_duration;
    if let Err(e) = u.calculate_reward_debt(&p) {
        return Err(e);
    }
    u.last_stake_time = now;
    *pool = p;
    *user = u;
    Ok(
        TokenTransfer {
            from: user_vault,
            to: p.token_vault,
            authority: TransferAuthority::Owner(u.authority),
            amount,
        },
    )
}

/// Releases `amount` of the user's stake once its lock commitment has
/// expired, and returns the transfer from the pool's custody to the user's
/// token account `user_vault`, signed by the pool. Nothing changes on failure.
pub fn unstake(
    pool: &mut FarmPoolAccount,
    user: &mut FarmPoolUserAccount,
    schedule: &ExtraRewardSchedule,
    user_vault: Key,
    amount: u64,
    now: i64,
) -> (r: Result<TokenTransfer, ErrorCode>)
    requires
        old(pool).last_reward_time <= now,
    ensures
        match unstake_result(*old(pool), *old(user), schedule@, amount, now) {
            Ok((p, u)) => {
                &&& r == Ok::<TokenTransfer, ErrorCode>(
                    (TokenTransfer {
                        from: old(pool).token_vault,
                        to: user_vault,
                        authority: TransferAuthority::Pool,
                        amount,
                    }),
                )
                &&& *final(pool) == p
                &&& *final(user) == u
            },
            Err(e) => {
                &&& r == Err::<TokenTransfer, ErrorCode>(e)
                &&& *final(pool) == *old(pool)
                &&& *final(user) == *old(user)
            },
        },
        under_lock(*old(user), now) ==> r == Err::<TokenTransfer, ErrorCode>(
            ErrorCode::UnderLocked,
        ),
        !under_lock(*old(user), now) ==> r != Err::<TokenTransfer, ErrorCode>(
            ErrorCode::UnderLocked,
        ),
        !under_lock(*old(user), now) && amount <= old(user).amount ==> r is Ok || r == Err::<
            TokenTransfer,
            ErrorCode,
        >(ErrorCode::MathOverflow),
        r is Ok ==> final(pool).amount == old(pool).amount - amount && final(user).amount
            == old(user).amount - amount,
        r is Ok && final(user).amount == 0 ==> final(user).lock_duration == 0,
{
    if (now as i128) < user.last_stake_time as i128 + user.lock_duration as i128 {
        return Err(ErrorCode::UnderLocked);
    }
    if amount > user.amount {
        return Err(ErrorCode::UnstakeOverAmount);
    }
    let mut p = *pool;
    let mut u = *user;
    if let Err(e) = p.update(now) {
        return Err(e);
    }
    if let Err(e) = u.calculate_reward_amount(&p, schedule) {
        return Err(e);
    }
    if p.amount < amount {
        return Err(ErrorCode::MathOverflow);
    }
    u.amount = u.amount - amount;
    p.amount = p.amount - amount;
    if u.amount == 0 {
        u.lock_duration = 0;
    }
    if let Err(e) = u.calculate_reward_debt(&p) {
        return Err(e);
    }
    u.last_stake_time = now;
    *pool = p;
    *user = u;
    Ok(
        TokenTransfer {
            from: p.token_vault,
            to: user_vault,
            authority: TransferAuthority::Pool,
            amount,
        },
    )
}

/// Pays the user's accrued base and bonus reward, and returns the transfer
/// from the pool's reward custody to the user's token account `user_vault`,
/// signed by the global state. The staked amount, the lock and the stake time
/// are left as they are. Nothing changes on failure.
pub fn harvest(
    pool: &mut FarmPoolAccount,
    user: &mut FarmPoolUserAccount,
    schedule: &ExtraRewardSchedule,
    user_vault: Key,
    now: i64,
) -> (r: Result<TokenTransfer, ErrorCode>)
    requires
        old(pool).last_reward_time <= now,
    ensures
        match harvest_result(*old(pool), *old(user), schedule@, now) {
            Ok((p, u, total)) => {
                &&& r == Ok::<TokenTransfer, ErrorCode>(
                    (TokenTransfer {
                        from: old(pool).reward_vault,
                        to: user_vault,
                        authority: TransferAuthority::State,
                        amount: total,
                    }),
                )
                &&& *final(pool) == p
                &&& *final(user) == u
            },
            Err(e) => {
                &&& r == Err::<TokenTransfer, ErrorCode>(e)
                &&& *final(pool) == *old(pool)
                &&& *final(user) == *old(user)
            },
        },
        final(pool).amount == old(pool).amount,
        final(user).amount == old(user).amount,
        final(user).lock_duration == old(user).lock_duration,
        final(user).last_stake_time == old(user).last_stake_time,
{
    let mut p = *pool;
    let mut u = *user;
    if let Err(e) = p.update(now) {
        return Err(e);
    }
    if let Err(e) = u.calculate_reward_amount(&p, schedule) {
        return Err(e);
    }
    if u.reward_amount > u64::MAX as u128 || u.extra_reward > u64::MAX as u128 - u.reward_amount {
        return Err(ErrorCode::MathOverflow);
    }
    let total: u64 = (u.reward_amount + u.extra_reward) as u64;
    u.reward_amount = 0;
    u.extra_reward = 0;
    if let Err(e) = u.calculate_reward_debt(&p) {
        return Err(e);
    }
    *pool = p;
    *user = u;
    Ok(
        TokenTransfer {
            from: p.reward_vault,
            to: user_vault,
            authority: TransferAuthority::State,
            amount: total,
        },
    )
}

/// The registry at bootstrap: administrator `authority`, no pools, created
/// at `now`.
pub fn create_state(authority: Key, bump: u8, now: i64) -> (r: GlobalStateAccount)
    ensures
        r == (GlobalStateAccount { authority, bump, total_farm: 0, start_time: now }),
{
    GlobalStateAccount { authority, bump, total_farm: 0, start_time: now }
}

/// Settles every pool in `pools` up to `now`, all or none.
pub fn settle_pools(pools: &mut Vec<FarmPoolAccount>, now: i64) -> (r: Result<(), ErrorCode>)
    requires
        forall|i: int| 0 <= i < old(pools)@.len() ==> old(pools)@[i].last_reward_time <= now,
    ensures
        r is Ok <==> forall|i: int| 0 <= i < old(pools)@.len() ==> settle_fits(old(pools)@[i], now),
        r is Ok ==> final(pools)@ == old(pools)@.map_values(|p: FarmPoolAccount| settled(p, now)),
        r is Err ==> r == Err::<(), ErrorCode>(ErrorCode::MathOverflow) && final(pools)@ == old(
            pools,
        )@,
{
    let mut out: Vec<FarmPoolAccount> = Vec::new();
    let mut i: usize = 0;
    while i < pools.len()
        invariant
            0 <= i <= pools@.len(),
            out@.len() == i,
            forall|j: int| 0 <= j < pools@.len() ==> pools@[j].last_reward_time <= now,
            forall|j: int| 0 <= j < i ==> settle_fits(#[trigger] pools@[j], now),
            forall|j: int| 0 <= j < i ==> #[trigger] out@[j] == settled(pools@[j], now),
        decreases pools@.len() - i,
    {
        let mut p = pools[i];
        if let Err(e) = p.update(now) {
            return Err(e);
        }
        assert(settle_fits(pools@[i as int], now) && p == settled(pools@[i as int], now));
        out.push(p);
        i = i + 1;
    }
    assert(out@ =~= pools@.map_values(|p: FarmPoolAccount| settled(p, now)));
    *pools = out;
    Ok(())
}

/// Opens a pool emitting `token_per_second`, after settling every existing
/// pool in `pools` up to `now`. Only the registry's administrator may do so.
/// The new pool is empty, with a zero accumulator settled at `now`; the
/// registry counts one more pool. Nothing changes on failure.
pub fn create_pool(
    state: &mut GlobalStateAccount,
    pools: &mut Vec<FarmPoolAccount>,
    authority: Key,
    bump: u8,
    token_mint: Key,
    token_vault: Key,
    reward_mint: Key,
    reward_vault: Key,
    token_per_second: u64,
    now: i64,
) -> (r: Result<FarmPoolAccount, ErrorCode>)
    requires
        forall|i: int| 0 <= i < old(pools)@.len() ==> old(pools)@[i].last_reward_time <= now,
    ensures
        authority@ != old(state).authority@ ==> r == Err::<FarmPoolAccount, ErrorCode>(
            ErrorCode::Unauthorized,
        ),
        r is Ok <==> authority@ == old(state).authority@ && (forall|i: int|
            0 <= i < old(pools)@.len() ==> settle_fits(old(pools)@[i], now)) && old(state).total_farm
            < u64::MAX,
        authority@ == old(state).authority@ && r is Err ==> r == Err::<FarmPoolAccount, ErrorCode>(
            ErrorCode::MathOverflow,
        ),
        r is Ok ==> {
            &&& r->Ok_0 == (FarmPoolAccount {
                bump,
                authority,
                amount: 0,
                token_mint,
                token_vault,
                reward_mint,
                reward_vault,
                token_per_second,
                last_reward_time: now,
                acc_reward_per_share: 0,
                total_user: 0,
            })
            &&& final(pools)@ == old(pools)@.map_values(|p: FarmPoolAccount| settled(p, now))
            &&& *final(state) == (GlobalStateAccount {
                total_farm: (old(state).total_farm + 1) as u64,
                ..*old(state)
            })
        },
        r is Err ==> *final(state) == *old(state) && final(pools)@ == old(pools)@,
{
    if !key_eq(&authority, &state.authority) {
        return Err(ErrorCode::Unauthorized);
    }
    if state.total_farm == u64::MAX {
        return Err(ErrorCode::MathOverflow);
    }
    if let Err(e) = settle_pools(pools, now) {
        return Err(e);
    }
    state.total_farm = state.total_farm + 1;
    Ok(
        FarmPoolAccount {
            bump,
            authority,
            amount: 0,
            token_mint,
            token_vault,
            reward_mint,
            reward_vault,
            token_per_second,
            last_reward_time: now,
            acc_reward_per_share: 0,
            total_user: 0,
        },
    )
}

/// Closes `pool`, after settling every pool in `pools` up to `now`. Only the
/// administrator of the registry and of the pool may do so, and only once
/// nothing is staked in it. The registry counts one pool less. Nothing
/// changes on failure.
pub fn close_pool(
    state: &mut GlobalStateAccount,
    pools: &mut Vec<FarmPoolAccount>,
    pool: FarmPoolAccount,
    authority: Key,
    now: i64,
) -> (r: Result<(), ErrorCode>)
    requires
        forall|i: int| 0 <= i < old(pools)@.len() ==> old(pools)@[i].last_reward_time <= now,
    ensures
        r == Err::<(), ErrorCode>(ErrorCode::Unauthorized) <==> (authority@ != old(state).authority@
            || authority@ != pool.authority@),
        r == Err::<(), ErrorCode>(ErrorCode::WorkingPool) <==> (authority@ == old(state).authority@
            && authority@ == pool.authority@ && pool.amount != 0),
        r is Ok <==> authority@ == old(state).authority@ && authority@ == pool.authority@
            && pool.amount == 0 && (forall|i: int|
            0 <= i < old(pools)@.len() ==> settle_fits(old(pools)@[i], now)) && old(state).total_farm
            > 0,
        authority@ == old(state).authority@ && authority@ == pool.authority@ && pool.amount == 0
            && r is Err ==> r == Err::<(), ErrorCode>(ErrorCode::MathOverflow),
        r is Ok ==> final(pools)@ == old(pools)@.map_values(|p: FarmPoolAccount| settled(p, now))
            && *final(state) == (GlobalStateAccount {
            total_farm: (old(state).total_farm - 1) as u64,
            ..*old(state)
        }),
        r is Err ==> *final(state) == *old(state) && final(pools)@ == old(pools)@,
{
    if !key_eq(&authority, &state.authority) || !key_eq(&authority, &pool.authority) {
        return Err(ErrorCode::Unauthorized);
    }
    if pool.amount != 0 {
        return Err(ErrorCode::WorkingPool);
    }
    if state.total_farm == 0 {
        return Err(ErrorCode::MathOverflow);
    }
    if let Err(e) = settle_pools(pools, now) {
        return Err(e);
    }
    state.total_farm = state.total_farm - 1;
    Ok(())
}

/// Sets the pool's emission rate, after settling the pool up to `now` so that
/// the new rate holds only from `now` on. Only the administrator of the
/// registry and of the pool may do so. Nothing changes on failure.
pub fn change_tokens_per_second(
    state: &GlobalStateAccount,
    pool: &mut FarmPoolAccount,
    authority: Key,
    token_per_second: u64,
    now: i64,
) -> (r: Result<(), ErrorCode>)
    requires
        old(pool).last_reward_time <= now,
    ensures
        r == Err::<(), ErrorCode>(ErrorCode::Unauthorized) <==> (authority@ != state.authority@
            || authority@ != old(pool).authority@),
        r is Ok <==> authority@ == state.authority@ && authority@ == old(pool).authority@
            && settle_fits(*old(pool), now),
        authority@ == state.authority@ && authority@ == old(pool).authority@ && r is Err ==> r
            == Err::<(), ErrorCode>(ErrorCode::MathOverflow),
        r is Ok ==> *final(pool) == (FarmPoolAccount {
            token_per_second,
            ..settled(*old(pool), now)
        }),
        r is Err ==> *final(pool) == *old(pool),
{
    if !key_eq(&authority, &state.authority) || !key_eq(&authority, &pool.authority) {
        return Err(ErrorCode::Unauthorized);
    }
    if let Err(e) = pool.update(now) {
        return Err(e);
    }
    pool.token_per_second = token_per_second;
    Ok(())
}

/// Registers participant `authority` in the pool whose identity is
/// `pool_key`: a dormant position with nothing staked. The pool counts one
/// more user.
pub fn create_user(pool: &mut FarmPoolAccount, pool_key: Key, authority: Key, bump: u8) -> (r:
    Result<FarmPoolUserAccount, ErrorCode>)
    ensures
        r is Ok <==> old(pool).total_user < u64::MAX,
        r is Ok ==> r->Ok_0 == (FarmPoolUserAccount {
            bump,
            authority,
            pool: pool_key,
            amount: 0,
            reward_amount: 0,
            extra_reward: 0,
            reward_debt: 0,
            lock_duration: 0,
            last_stake_time: 0,
        }) && *final(pool) == (FarmPoolAccount {
            total_user: (old(pool).total_user + 1) as u64,
            ..*old(pool)
        }),
        r is Err ==> r == Err::<FarmPoolUserAccount, ErrorCode>(ErrorCode::MathOverflow)
            && *final(pool) == *old(pool),
{
    if pool.total_user == u64::MAX {
        return Err(ErrorCode::MathOverflow);
    }
    pool.total_user = pool.total_user + 1;
    Ok(
        FarmPoolUserAccount {
            bump,
            authority,
            pool: pool_key,
            amount: 0,
            reward_amount: 0,
            extra_reward: 0,
            reward_debt: 0,
            lock_duration: 0,
            last_stake_time: 0,
        },
    )
}

/// The transfer that funds the pool's reward custody with `amount` from the
/// administrator's token account `source`. Only the pool's administrator may
/// fund it.
pub fn fund_reward_token(pool: &FarmPoolAccount, authority: Key, source: Key, amount: u64) -> (r:
    Result<TokenTransfer, ErrorCode>)
    ensures
        authority@ == pool.authority@ ==> r == Ok::<TokenTransfer, ErrorCode>(
            (TokenTransfer {
                from: source,
                to: pool.reward_vault,
                authority: TransferAuthority::Owner(authority),
                amount,
            }),
        ),
        authority@ != pool.authority@ ==> r == Err::<TokenTransfer, ErrorCode>(
            ErrorCode::Unauthorized,
        ),
{
    if !key_eq(&authority, &pool.authority) {
        return Err(ErrorCode::Unauthorized);
    }
    Ok(
        TokenTransfer {
            from: source,
            to: pool.reward_vault,
            authority: TransferAuthority::Owner(authority),
            amount,
        },
    )
}

} // verus!
