use vstd::prelude::*;

verus! {

/// Fixed-point scale of the accumulator: one reward unit per staked unit is
/// stored as `ACC_PRECISION`. A bonus percentage of `ACC_PRECISION` is 100%.
pub const ACC_PRECISION: u128 = 100_000_000_000;

/// A 32-byte account identity (an administrator, a participant, a mint or a
/// token custody account).
pub type Key = [u8; 32];

/// Compares two identities byte by byte.
pub fn key_eq(a: &Key, b: &Key) -> (r: bool)
    ensures
        r == (a@ == b@),
{
    let mut i: usize = 0;
    while i < 32
        invariant
            0 <= i <= 32,
            a@.len() == 32,
            b@.len() == 32,
            forall|j: int| 0 <= j < i ==> a@[j] == b@[j],
        decreases 32 - i,
    {
        if a[i] != b[i] {
            return false;
        }
        i = i + 1;
    }
    assert(a@ =~= b@);
    true
}

/// Process-wide registry: the administrator, the number of open pools and
/// the creation time.
#[derive(Clone, Copy, Debug, PartialEq, Eq)]
pub struct GlobalStateAccount {
    pub authority: Key,
    pub bump: u8,
    pub total_farm: u64,
    pub start_time: i64,
}

/// One reward program: what is staked in it, its emission rate and its
/// running accumulator of reward per staked unit (scaled by `ACC_PRECISION`).
#[derive(Clone, Copy, Debug, PartialEq, Eq)]
pub struct FarmPoolAccount {
    pub bump: u8,
    pub authority: Key,
    pub amount: u64,
    pub token_mint: Key,
    pub token_vault: Key,
    pub reward_mint: Key,
    pub reward_vault: Key,
    pub token_per_second: u64,
    pub last_reward_time: i64,
    pub acc_reward_per_share: u128,
    pub total_user: u64,
}

/// One participant's position in one pool.
#[derive(Clone, Copy, Debug, PartialEq, Eq)]
pub struct FarmPoolUserAccount {
    pub bump: u8,
    pub authority: Key,
    pub pool: Key,
    pub amount: u64,
    /// Base reward accrued and not yet harvested.
    pub reward_amount: u128,
    /// Bonus reward (from the lock commitment) accrued and not yet harvested.
    pub extra_reward: u128,
    /// `amount * acc_reward_per_share / ACC_PRECISION` at the last rebase.
    pub reward_debt: u128,
    /// Active lock commitment, in seconds.
    pub lock_duration: u64,
    pub last_stake_time: i64,
}

/// Named failure conditions of the engine.
#[derive(Clone, Copy, Debug, PartialEq, Eq, Structural)]
pub enum ErrorCode {
    /// An unstake asked for more than the position holds.
    UnstakeOverAmount,
    /// An unstake came before the lock commitment expired.
    UnderLocked,
    /// A pool that still holds stake cannot be closed.
    WorkingPool,
    /// A lock duration shorter than the active one, or not in the schedule.
    InvalidLockDuration,
    /// Schedule bands that are not in strictly ascending order of duration.
    InvalidSEQ,
    /// A stake of zero units.
    ZeroAmount,
    /// The caller is not the administrator that the record names.
    Unauthorized,
    /// An overflow, an underflow or a negative pending reward.
    MathOverflow,
}

/// Who signs a token transfer.
#[derive(Clone, Copy, Debug, PartialEq, Eq)]
pub enum TransferAuthority {
    /// The owner of the source account, by its own signature.
    Owner(Key),
    /// The pool's own signing authority (custody of staked tokens).
    Pool,
    /// The global state's signing authority (custody of reward tokens).
    State,
}

/// A movement of tokens that the asset-transfer collaborator performs on
/// behalf of an operation, which commits only if the transfer succeeds.
#[derive(Clone, Copy, Debug, PartialEq, Eq)]
pub struct TokenTransfer {
    pub from: Key,
    pub to: Key,
    pub authority: TransferAuthority,
    pub amount: u64,
}

} // verus!
