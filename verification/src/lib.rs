//! The bookkeeping of a small resource game: players spend energy to chop
//! wood, energy comes back with time, and wood can be burned for fire
//! tokens of which only a fixed number will ever exist.
//!
//! - `state` holds the two records, their views and their invariants;
//! - `energy` is the energy clock;
//! - `ledger` is what chopping and burning do to the records;
//! - `host` is what is taken on trust from the host: its clock and its error;
//! - `accounts` and `program` are the instructions and what each works on;
//! - `laws` states what holds over any history of the game.

pub mod accounts;
pub mod energy;
pub mod host;
pub mod laws;
pub mod ledger;
pub mod program;
pub mod state;

pub use crate::accounts::{
    BurnWoodForFireTokens, ChopTree, GetGameStats, GetPlayerStats, InitGameState, InitPlayer,
};
pub use crate::energy::refill_energy;
pub use crate::host::Failure;
pub use crate::ledger::{burn_has_room, burn_wood_for_fire_tokens, chop, chop_has_room};
pub use crate::program::{
    chop_tree, get_game_stats, get_player_stats, init_game_state, init_player, update_energy,
    GameStats,
};
pub use crate::state::{
    ErrorCode, GameState, GameView, PlayerData, PlayerView, MAX_ENERGY, MAX_FIRE_TOKEN_SUPPLY,
    TIME_TO_REFILL_ENERGY, WOOD_TO_FIRE_RATIO, XP_PER_LEVEL,
};
