//! A two-player hide-and-seek match on an 8x8 grid: the rules of a round,
//! the binding of proofs to the session record, and the scoring of a match.

pub mod binder;
pub mod contract;
pub mod laws;
pub mod maps;
pub mod rules;
pub mod spawn;
pub mod types;

pub use contract::ZkHuntContract;
pub use maps::{Terrain, MAPS, MAP_COUNT};
pub use types::{abs_diff, DataKey, Error, Game, GamePhase, Player, RoundSetup};

