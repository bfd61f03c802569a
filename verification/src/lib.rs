//! Recurring-swap orchestration for a concentrated-liquidity pool: deterministic
//! derivation of the storage addresses a swap references, resolution of the
//! tick-array window bracketing the pool's current price, and the lifecycle of
//! a per-owner recurring-swap record and its schedule trigger.

pub mod address;
pub mod derivation;
pub mod instruction;
pub mod kickoff;
pub mod lifecycle;
pub mod store;
pub mod tick_math;
pub mod window;
