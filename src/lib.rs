//! A gamified-learning ledger: quests, user progress, educational credentials,
//! leaderboard scores and educator grants, kept by one verified state machine.
use vstd::prelude::*;

pub mod types;
pub mod level;
pub mod model;
pub mod contract;
pub mod preimage;
pub mod laws;
