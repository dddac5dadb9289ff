use vstd::prelude::*;
use crate::accounts::{ACC_PRECISION, ErrorCode, FarmPoolAccount, FarmPoolUserAccount};
use crate::schedule::{bonus_for, ExtraRewardSchedule};

verus! {

/// Seconds since the pool's last settlement.
pub open spec fn elapsed(p: FarmPoolAccount, now: i64) -> int {
    now - p.last_reward_time
}

/// What a settlement at `now` adds to the accumulator: the emission of the
/// elapsed window, per staked unit, scaled; nothing for an empty pool.
pub open spec fn accrual(p: FarmPoolAccount, now: i64) -> int {
    if p.amount > 0 && elapsed(p, now) > 0 {
        p.token_per_second * elapsed(p, now) * ACC_PRECISION / (p.amount as int)
    } else {
        0
    }
}

/// A settlement at `now` stays within 128 bits at every step.
pub open spec fn settle_fits(p: FarmPoolAccount, now: i64) -> bool {
    &&& (p.amount > 0 && elapsed(p, now) > 0 ==> p.token_per_second * elapsed(p, now)
        * ACC_PRECISION <= u128::MAX)
    &&& p.acc_reward_per_share + accrual(p, now) <= u128::MAX
}

/// The pool after a settlement at `now` that fits.
pub open spec fn settled(p: FarmPoolAccount, now: i64) -> FarmPoolAccount {
    FarmPoolAccount {
        acc_reward_per_share: (p.acc_reward_per_share + accrual(p, now)) as u128,
        last_reward_time: now,
        ..p
    }
}

/// Pool settlement as a whole: the settled pool, or the arithmetic fault.
pub open spec fn settle_pool(p: FarmPoolAccount, now: i64) -> Result<FarmPoolAccount, ErrorCode> {
    if settle_fits(p, now) {
        Ok(settled(p, now))
    } else {
        Err(ErrorCode::MathOverflow)
    }
}

/// The user's entitlement under accumulator `acc`: `amount * acc / ACC_PRECISION`.
pub open spec fn entitled(u: FarmPoolUserAccount, acc: u128) -> int {
    u.amount * acc / (ACC_PRECISION as int)
}

/// Reward accrued since the last rebase.
pub open spec fn pending(u: FarmPoolUserAccount, acc: u128) -> int {
    entitled(u, acc) - u.reward_debt
}

/// The bonus that `pending` reward earns at `percent`.
pub open spec fn bonus_of(pending: int, percent: u128) -> int {
    pending * percent / (ACC_PRECISION as int)
}

/// A user settlement against `acc` is possible: no overflow, and the pending
/// reward is not negative.
pub open spec fn accrue_fits(u: FarmPoolUserAccount, acc: u128, percent: u128) -> bool {
    &&& u.amount * acc <= u128::MAX
    &&& pending(u, acc) >= 0
    &&& u.reward_amount + pending(u, acc) <= u128::MAX
    &&& pending(u, acc) * percent <= u128::MAX
    &&& u.extra_reward + bonus_of(pending(u, acc), percent) <= u128::MAX
}

/// The user after a settlement against `acc` that fits: the pending reward
/// and its bonus are credited; nothing else changes.
pub open spec fn accrued(u: FarmPoolUserAccount, acc: u128, percent: u128) -> FarmPoolUserAccount {
    FarmPoolUserAccount {
        reward_amount: (u.reward_amount + pending(u, acc)) as u128,
        extra_reward: (u.extra_reward + bonus_of(pending(u, acc), percent)) as u128,
        ..u
    }
}

/// User settlement as a whole.
pub open spec fn accrue(u: FarmPoolUserAccount, acc: u128, percent: u128) -> Result<
    FarmPoolUserAccount,
    ErrorCode,
> {
    if accrue_fits(u, acc, percent) {
        Ok(accrued(u, acc, percent))
    } else {
        Err(ErrorCode::MathOverflow)
    }
}

/// The user with its debt set to its entitlement under `acc`.
pub open spec fn rebased(u: FarmPoolUserAccount, acc: u128) -> FarmPoolUserAccount {
    FarmPoolUserAccount { reward_debt: entitled(u, acc) as u128, ..u }
}

/// Debt recompute as a whole.
pub open spec fn rebase(u: FarmPoolUserAccount, acc: u128) -> Result<FarmPoolUserAccount, ErrorCode> {
    if u.amount * acc <= u128::MAX {
        Ok(rebased(u, acc))
    } else {
        Err(ErrorCode::MathOverflow)
    }
}

impl FarmPoolAccount {
    /// Settles the pool up to `now`: the accumulator grows by the emission
    /// of the elapsed window per staked unit, and `now` becomes the last
    /// settlement time. On an arithmetic fault nothing changes.
    pub fn update(&mut self, now: i64) -> (r: Result<(), ErrorCode>)
        requires
            old(self).last_reward_time <= now,
        ensures
            r is Ok <==> settle_fits(*old(self), now),
            r is Ok ==> *final(self) == settled(*old(self), now),
            r is Err ==> r == Err::<(), ErrorCode>(ErrorCode::MathOverflow) && *final(self) == *old(
                self,
            ),
            final(self).acc_reward_per_share >= old(self).acc_reward_per_share,
    {
        let seconds: u128 = (now as i128 - self.last_reward_time as i128) as u128;
        let mut reward_per_share: u128 = 0;
        if self.amount > 0 && seconds > 0 {
            proof {
                let (a, b) = (self.token_per_second as int, seconds as int);
                assert(a * b <= u128::MAX) by (nonlinear_arith)
                    requires
                        0 <= a <= u64::MAX,
                        0 <= b <= u64::MAX,
                ;
            }
            let emitted: u128 = self.token_per_second as u128 * seconds;
            if emitted > u128::MAX / ACC_PRECISION {
                return Err(ErrorCode::MathOverflow);
            }
            reward_per_share = emitted * ACC_PRECISION / self.amount as u128;
        }
        if self.acc_reward_per_share > u128::MAX - reward_per_share {
            return Err(ErrorCode::MathOverflow);
        }
        self.acc_reward_per_share = self.acc_reward_per_share + reward_per_share;
        self.last_reward_time = now;
        Ok(())
    }
}

impl FarmPoolUserAccount {
    /// Settles the user against the pool's (already settled) accumulator:
    /// credits the reward accrued since the last rebase, and its bonus at the
    /// percentage that the active lock commitment earns. The staked amount
    /// and the debt are left as they are. On an arithmetic fault, or a
    /// negative pending reward, nothing changes.
    pub fn calculate_reward_amount(
        &mut self,
        pool: &FarmPoolAccount,
        schedule: &ExtraRewardSchedule,
    ) -> (r: Result<(), ErrorCode>)
        ensures
            ({
                let percent = bonus_for(schedule@, old(self).lock_duration);
                &&& r is Ok <==> accrue_fits(*old(self), pool.acc_reward_per_share, percent)
                &&& r is Ok ==> *final(self) == accrued(
                    *old(self),
                    pool.acc_reward_per_share,
                    percent,
                )
            }),
            r is Err ==> r == Err::<(), ErrorCode>(ErrorCode::MathOverflow) && *final(self) == *old(
                self,
            ),
    {
        let percent = schedule.bonus_percentage(self.lock_duration);
        let acc = pool.acc_reward_per_share;
        let amount = self.amount as u128;
        if acc != 0 && amount > u128::MAX / acc {
            proof {
                assert(amount * acc > u128::MAX) by (nonlinear_arith)
                    requires
                        acc > 0,
                        amount > u128::MAX / acc,
                ;
            }
            return Err(ErrorCode::MathOverflow);
        }
        proof {
            assert(amount * acc <= u128::MAX) by (nonlinear_arith)
                requires
                    acc == 0 || amount <= u128::MAX / acc,
            ;
        }
        let entitled: u128 = amount * acc / ACC_PRECISION;
        if entitled < self.reward_debt {
            return Err(ErrorCode::MathOverflow);
        }
        let pending: u128 = entitled - self.reward_debt;
        if self.reward_amount > u128::MAX - pending {
            return Err(ErrorCode::MathOverflow);
        }
        if percent != 0 && pending > u128::MAX / percent {
            proof {
                assert(pending * percent > u128::MAX) by (nonlinear_arith)
                    requires
                        percent > 0,
                        pending > u128::MAX / percent,
                ;
            }
            return Err(ErrorCode::MathOverflow);
        }
        proof {
            assert(pending * percent <= u128::MAX) by (nonlinear_arith)
                requires
                    percent == 0 || pending <= u128::MAX / percent,
            ;
        }
        let bonus: u128 = pending * percent / ACC_PRECISION;
        if self.extra_reward > u128::MAX - bonus {
            return Err(ErrorCode::MathOverflow);
        }
        self.reward_amount = self.reward_amount + pending;
        self.extra_reward = self.extra_reward + bonus;
        Ok(())
    }

    /// Sets the debt to the user's entitlement under the pool's accumulator,
    /// the baseline of the next settlement. On overflow nothing changes.
    pub fn calculate_reward_debt(&mut self, pool: &FarmPoolAccount) -> (r: Result<(), ErrorCode>)
        ensures
            r is Ok <==> old(self).amount * pool.acc_reward_per_share <= u128::MAX,
            r is Ok ==> *final(self) == rebased(*old(self), pool.acc_reward_per_share),
            r is Err ==> r == Err::<(), ErrorCode>(ErrorCode::MathOverflow) && *final(self) == *old(
                self,
            ),
    {
        let acc = pool.acc_reward_per_share;
        let amount = self.amount as u128;
        if acc != 0 && amount > u128::MAX / acc {
            proof {
                assert(amount * acc > u128::MAX) by (nonlinear_arith)
                    requires
                        acc > 0,
                        amount > u128::MAX / acc,
                ;
            }
            return Err(ErrorCode::MathOverflow);
        }
        proof {
            assert(amount * acc <= u128::MAX) by (nonlinear_arith)
                requires
                    acc == 0 || amount <= u128::MAX / acc,
            ;
        }
        self.reward_debt = amount * acc / ACC_PRECISION;
        Ok(())
    }
}

} // verus!
