//! Economic engine of a token-launch platform: a constant-product pool, the
//! transfer hook that every asset movement passes, and the commit-reveal
//! detonation lifecycle with its pro-rata payout.

pub mod address;
pub mod errors;
pub mod math;
pub mod state;
pub mod events;
pub mod digest;
pub mod explosion;
pub mod extra_accounts;
pub mod amm;
pub mod hook;
pub mod round;
pub mod seeds;
pub mod sequencer;
pub mod launch;
pub mod presale;
pub mod vrf;
