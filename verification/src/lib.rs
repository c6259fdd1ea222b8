//! Automation engine for a locally running game client: an event decoder,
//! a shared game-state store, a game-flow state machine, and the decision
//! engines (auto-accept, auto-pick, match analysis) that react to it.
use vstd::prelude::*;

pub mod analysis;
pub mod champ_select;
pub mod context;
pub mod decode;
pub mod errors;
pub mod event;
pub mod game_flow;
pub mod handler;
pub mod json;
pub mod matchmaking;
pub mod meta;
pub mod score;
pub mod text;
pub mod uri;

verus! {

/// Largest number of recent matches fetched for one player when the
/// analysis engine aggregates a score.
pub const MAX_MATCHES: usize = 20;

/// Seconds between two chat posts of the analysis engine, to stay under
/// the channel's flood limits.
pub const MESSAGE_DELAY_SECONDS: u64 = 1;

} // verus!
