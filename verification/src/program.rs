//! The instructions of the game, each on the records it is handed.

use vstd::prelude::*;
use crate::accounts::{ChopTree, GetGameStats, GetPlayerStats, InitGameState, InitPlayer};
use crate::energy::{refill_energy, refilled};
use crate::host::{unix_timestamp, Failure};
use crate::ledger::{chop, chop_fits, chopped};
use crate::state::{
    new_game, new_player, ErrorCode, GameState, PlayerData, PlayerView, MAX_ENERGY,
};

verus! {

/// Sets up the supply record: nothing minted yet, the supply capped at
/// `MAX_FIRE_TOKEN_SUPPLY`.
pub fn init_game_state(ctx: &mut InitGameState)
    ensures
        final(ctx).game_state@ == new_game(),
        final(ctx).game_state.wf(),
{
    ctx.game_state = GameState::new();
}

/// Sets up the record of a new player named `name`, with the host's clock
/// as the time up to which energy is accounted for.
///
/// Where the host tells the time, the record becomes that of a fresh
/// player at that time. Where it does not, the record is left alone and
/// the host's error is handed on.
pub fn init_player(ctx: &mut InitPlayer, name: String) -> (result: Result<(), Failure>)
    ensures
        match result {
            Ok(_) => {
                &&& final(ctx).player.name == name
                &&& exists|now: i64| final(ctx).player@ == new_player(name@, now as int)
                &&& final(ctx).player.wf()
            },
            Err(failure) => failure is Host && *final(ctx) == *old(ctx),
        },
{
    match unix_timestamp() {
        Ok(now) => {
            ctx.player = PlayerData::new(name, now);
            Ok(())
        },
        Err(error) => Err(Failure::Host(error)),
    }
}

/// Reconciles the player's energy with the host's clock.
///
/// Where the host tells the time, the record becomes what `refilled` gives
/// for that time. Where it does not, the record is left alone and the
/// host's error is handed on.
pub fn update_energy(ctx: &mut ChopTree) -> (result: Result<(), Failure>)
    ensures
        match result {
            Ok(_) => {
                &&& exists|now: i64| final(ctx).player@ == refilled(old(ctx).player@, now as int)
                &&& final(ctx).player.name == old(ctx).player.name
                &&& final(ctx).player.last_login >= old(ctx).player.last_login
            },
            Err(failure) => failure is Host && *final(ctx) == *old(ctx),
        },
        old(ctx).player.energy <= MAX_ENERGY ==> final(ctx).player.energy <= MAX_ENERGY,
        old(ctx).player.wf() ==> final(ctx).player.wf(),
{
    match unix_timestamp() {
        Ok(now) => {
            refill_energy(&mut ctx.player, now);
            Ok(())
        },
        Err(error) => Err(Failure::Host(error)),
    }
}

/// Chops a tree for the player, at the time the host's clock shows.
///
/// Where the host tells the time, the outcome is the one `chopped` gives
/// for that time: a chop that goes through, or a rejection that leaves the
/// record alone. Where it does not, the record is left alone and the
/// host's error is handed on. As the time is not known beforehand, the
/// caller has to make sure that one more chop fits the record.
pub fn chop_tree(ctx: &mut ChopTree) -> (result: Result<(), Failure>)
    requires
        chop_fits(old(ctx).player@),
    ensures
        match result {
            Ok(_) => {
                &&& exists|now: i64|
                    chopped(old(ctx).player@, now as int) == Ok::<_, ErrorCode>(
                        final(ctx).player@,
                    )
                &&& final(ctx).player.name == old(ctx).player.name
            },
            Err(Failure::Rejected(code)) => {
                &&& exists|now: i64|
                    chopped(old(ctx).player@, now as int) == Err::<PlayerView, _>(code)
                &&& *final(ctx) == *old(ctx)
            },
            Err(Failure::Host(_)) => *final(ctx) == *old(ctx),
        },
        old(ctx).player.energy <= MAX_ENERGY ==> final(ctx).player.energy <= MAX_ENERGY,
        old(ctx).player.wf() ==> final(ctx).player.wf(),
{
    match unix_timestamp() {
        Ok(now) => match chop(&mut ctx.player, now) {
            Ok(_) => Ok(()),
            Err(code) => Err(Failure::Rejected(code)),
        },
        Err(error) => Err(Failure::Host(error)),
    }
}

/// A report on the supply of fire tokens.
#[derive(Clone, Copy, Debug, PartialEq, Eq, Structural)]
pub struct GameStats {
    /// Fire tokens minted so far.
    pub total_fire_tokens_minted: u64,
    /// The most fire tokens that may ever be minted.
    pub max_supply: u64,
    /// Fire tokens that can still be minted.
    pub remaining_supply: u64,
}

/// Reports on a player: a copy of the record, field for field.
pub fn get_player_stats(ctx: &GetPlayerStats) -> (stats: PlayerData)
    ensures
        stats == ctx.player,
{
    PlayerData {
        name: ctx.player.name.clone(),
        level: ctx.player.level,
        xp: ctx.player.xp,
        wood: ctx.player.wood,
        energy: ctx.player.energy,
        fire_tokens: ctx.player.fire_tokens,
        last_login: ctx.player.last_login,
    }
}

/// Reports on the supply: the two counts as they are stored, and beside
/// them what is left of the supply, worked out at the time of asking.
pub fn get_game_stats(ctx: &GetGameStats) -> (stats: GameStats)
    requires
        ctx.game_state.wf(),
    ensures
        stats.total_fire_tokens_minted == ctx.game_state.total_fire_tokens_minted,
        stats.max_supply == ctx.game_state.max_supply,
        stats.remaining_supply == ctx.game_state@.remaining_supply(),
{
    GameStats {
        total_fire_tokens_minted: ctx.game_state.total_fire_tokens_minted,
        max_supply: ctx.game_state.max_supply,
        remaining_supply: ctx.game_state.max_supply - ctx.game_state.total_fire_tokens_minted,
    }
}

} // verus!
