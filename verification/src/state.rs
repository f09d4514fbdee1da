//! The two records the game keeps, their mathematical views, and the
//! constants that govern them.

use vstd::prelude::*;

verus! {

/// The most energy a player can hold.
pub const MAX_ENERGY: u64 = 5;

/// Seconds it takes to regain one unit of energy.
pub const TIME_TO_REFILL_ENERGY: i64 = 30;

/// The number of fire tokens that can ever exist.
pub const MAX_FIRE_TOKEN_SUPPLY: u64 = 1;

/// Units of wood that one fire token costs.
pub const WOOD_TO_FIRE_RATIO: u64 = 1;

/// Experience points between one level and the next.
pub const XP_PER_LEVEL: u64 = 100;

/// The level that belongs to an amount of experience: one level for every
/// full hundred points, starting at level 1.
///
/// The hundred is written out, so that the quotient stays linear
/// arithmetic; `lemma_level_step` ties it to `XP_PER_LEVEL`.
pub open spec fn level_for(xp: nat) -> nat {
    xp / 100 + 1
}

/// The step that `level_for` counts in is `XP_PER_LEVEL`.
pub proof fn lemma_level_step(xp: nat)
    ensures
        level_for(xp) == xp / (XP_PER_LEVEL as nat) + 1,
{
}

/// Why the game turns an action down.
#[derive(Clone, Copy, Debug, PartialEq, Eq, Structural)]
pub enum ErrorCode {
    /// A chop was asked of a player who has no energy left.
    NotEnoughEnergy,
    /// A burn was asked for more wood than the player holds.
    NotEnoughWood,
    /// A burn would mint more fire tokens than the supply still allows.
    FireTokenSupplyExhausted,
}

impl ErrorCode {
    /// The text of the message that goes with each rejection.
    pub open spec fn message_text(self) -> Seq<char> {
        match self {
            ErrorCode::NotEnoughEnergy => "Not Enough Energy"@,
            ErrorCode::NotEnoughWood => "Not Enough Wood"@,
            ErrorCode::FireTokenSupplyExhausted => "Fire Token Supply Exhausted"@,
        }
    }

    /// The message shown to the player for this rejection.
    pub fn message(&self) -> (text: &'static str)
        ensures
            text@ == self.message_text(),
    {
        match self {
            ErrorCode::NotEnoughEnergy => "Not Enough Energy",
            ErrorCode::NotEnoughWood => "Not Enough Wood",
            ErrorCode::FireTokenSupplyExhausted => "Fire Token Supply Exhausted",
        }
    }
}

/// A player's record as plain mathematics: every counter is a natural
/// number, the timestamp an integer, the name a sequence of characters.
pub ghost struct PlayerView {
    pub name: Seq<char>,
    pub level: nat,
    pub xp: nat,
    pub wood: nat,
    pub energy: nat,
    pub fire_tokens: nat,
    pub last_login: int,
}

impl PlayerView {
    /// The invariant of a player record: energy never exceeds the cap and
    /// the level is the one that the experience gives.
    pub open spec fn wf(self) -> bool {
        &&& self.energy <= MAX_ENERGY
        &&& self.level == level_for(self.xp)
    }
}

/// The record the game keeps for each player.
#[derive(Clone, Debug, PartialEq, Eq)]
pub struct PlayerData {
    /// Display name, chosen when the player is created.
    pub name: String,
    /// Level reached; follows from `xp`.
    pub level: u8,
    /// Experience points, one per tree chopped.
    pub xp: u64,
    /// Wood in stock.
    pub wood: u64,
    /// Energy left, at most `MAX_ENERGY`.
    pub energy: u64,
    /// Fire tokens earned by burning wood.
    pub fire_tokens: u64,
    /// The second, in Unix time, up to which energy has been accounted for.
    pub last_login: i64,
}

impl View for PlayerData {
    type V = PlayerView;

    open spec fn view(&self) -> PlayerView {
        PlayerView {
            name: self.name@,
            level: self.level as nat,
            xp: self.xp as nat,
            wood: self.wood as nat,
            energy: self.energy as nat,
            fire_tokens: self.fire_tokens as nat,
            last_login: self.last_login as int,
        }
    }
}

impl PlayerData {
    /// The record's invariant, stated on its view.
    pub open spec fn wf(&self) -> bool {
        self@.wf()
    }

    /// A fresh player: full energy, level 1, nothing earned yet, energy
    /// accounted for up to `now`.
    pub fn new(name: String, now: i64) -> (player: Self)
        ensures
            player.name == name,
            player@ == new_player(name@, now as int),
            player.wf(),
    {
        PlayerData {
            name,
            level: 1,
            xp: 0,
            wood: 0,
            energy: MAX_ENERGY,
            fire_tokens: 0,
            last_login: now,
        }
    }
}

/// The view of a player created with `name` at time `now`.
pub open spec fn new_player(name: Seq<char>, now: int) -> PlayerView {
    PlayerView {
        name,
        level: 1,
        xp: 0,
        wood: 0,
        energy: MAX_ENERGY as nat,
        fire_tokens: 0,
        last_login: now,
    }
}

/// The supply record as plain mathematics.
pub ghost struct GameView {
    pub total_fire_tokens_minted: nat,
    pub max_supply: nat,
}

impl GameView {
    /// The invariant of the supply record: never more tokens minted than
    /// the supply allows.
    pub open spec fn wf(self) -> bool {
        self.total_fire_tokens_minted <= self.max_supply
    }

    /// How many tokens can still be minted; negative only when the
    /// invariant is broken.
    pub open spec fn remaining_supply(self) -> int {
        self.max_supply - self.total_fire_tokens_minted
    }
}

/// The one record, shared by all players, that tracks the fire token supply.
#[derive(Clone, Copy, Debug, PartialEq, Eq, Structural)]
pub struct GameState {
    /// Fire tokens minted so far, over all players.
    pub total_fire_tokens_minted: u64,
    /// The most fire tokens that may ever be minted.
    pub max_supply: u64,
}

impl View for GameState {
    type V = GameView;

    open spec fn view(&self) -> GameView {
        GameView {
            total_fire_tokens_minted: self.total_fire_tokens_minted as nat,
            max_supply: self.max_supply as nat,
        }
    }
}

impl GameState {
    /// The record's invariant, stated on its view.
    pub open spec fn wf(&self) -> bool {
        self@.wf()
    }

    /// The supply record at the start of the game: nothing minted, the
    /// supply capped at `MAX_FIRE_TOKEN_SUPPLY`.
    pub fn new() -> (state: Self)
        ensures
            state@ == new_game(),
            state.wf(),
    {
        GameState { total_fire_tokens_minted: 0, max_supply: MAX_FIRE_TOKEN_SUPPLY }
    }
}

/// The view of the supply record at the start of the game.
pub open spec fn new_game() -> GameView {
    GameView { total_fire_tokens_minted: 0, max_supply: MAX_FIRE_TOKEN_SUPPLY as nat }
}

} // verus!
