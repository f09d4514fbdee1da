//! The records that each instruction of the game works on. The host loads
//! them for a player whose identity it has already established, hands them
//! to the instruction, and stores them again when the instruction succeeds.

use vstd::prelude::*;
use crate::state::{GameState, PlayerData};

verus! {

/// What `init_game_state` works on: the supply record to set up.
#[derive(Clone, Copy, Debug, PartialEq, Eq)]
pub struct InitGameState {
    pub game_state: GameState,
}

/// What `init_player` works on: the player record to set up.
#[derive(Clone, Debug, PartialEq, Eq)]
pub struct InitPlayer {
    pub player: PlayerData,
}

/// What `chop_tree` and `update_energy` work on: the player who chops.
#[derive(Clone, Debug, PartialEq, Eq)]
pub struct ChopTree {
    pub player: PlayerData,
}

/// What `burn_wood_for_fire_tokens` works on: the player who burns and the
/// supply record that the tokens are drawn from.
#[derive(Clone, Debug, PartialEq, Eq)]
pub struct BurnWoodForFireTokens {
    pub player: PlayerData,
    pub game_state: GameState,
}

/// What `get_player_stats` reads: the player to report on.
#[derive(Clone, Debug, PartialEq, Eq)]
pub struct GetPlayerStats {
    pub player: PlayerData,
}

/// What `get_game_stats` reads: the supply record to report on.
#[derive(Clone, Copy, Debug, PartialEq, Eq)]
pub struct GetGameStats {
    pub game_state: GameState,
}

} // verus!
