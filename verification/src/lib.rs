//! Economic core of the CHAR token protocol: time-locked staking, voting
//! power, periodic rewards and the treasury fund waterfall.

pub mod accounts;
pub mod address;
pub mod burn;
pub mod config;
pub mod donation;
pub mod errors;
pub mod governance;
pub mod ledger;
pub mod lifecycle;
pub mod marketing;
pub mod math;
pub mod program;
pub mod rewards;
pub mod security;
pub mod staking;
