//! A single-account staking ledger: a user's staked balance, and reward
//! points that accrue with the balance and with time.

pub mod account;
pub mod error;
pub mod operations;
pub mod points;

pub use account::{same_identity, Identity, StakeAccount, StakeRecord};
pub use error::StakeError;
pub use operations::{
    claim_points, create_stake, initialize, un_stake, ClaimPoints, CreateStake, CustodyAuthority,
    Initialize, Transfer, UnStake,
};
pub use points::{calculate_points, update_points, POINT_SCALE, SECONDS_PER_DAY};
