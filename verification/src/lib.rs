//! Offline RetroAchievements support: achievement definitions, condition
//! scanning, emulator memory snapshots and the decisions of the
//! evaluation loop.
use vstd::prelude::*;

pub mod condition;
pub mod local_definitions;
pub mod text;
pub mod memory;
pub mod paths;
pub mod console;
pub mod types;
pub mod evaluation;
pub mod export;
pub mod cache;
pub mod rcheevos;
pub mod cli;

pub use console::ConsoleId;
pub use evaluation::EvaluationEngine;
pub use local_definitions::{LocalAchievement, LocalDefinitions, LocalLeaderboard};
pub use types::{
    Achievement, AwardAchievementResponse, GameIdLookup, GameInfoAndProgress, GameListEntry,
    RecentGame, UserSummary,
};

verus! {

} // verus!
