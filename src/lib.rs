//! Reward-accounting engine for staking pools: a per-pool running
//! accumulator of reward per staked unit, per-user settlement bookkeeping,
//! lock commitments with a bonus schedule, and the administrative
//! operations on the pool registry.
pub mod accounts;
pub mod schedule;
pub mod settlement;
pub mod engine;
pub mod calculator;
pub mod laws;
