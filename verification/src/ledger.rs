//! The ledger: what chopping a tree and burning wood do to the records.

use vstd::prelude::*;
use crate::accounts::BurnWoodForFireTokens;
use crate::energy::{refill_energy, refilled};
use crate::state::{
    level_for, ErrorCode, GameView, PlayerData, PlayerView, MAX_ENERGY, WOOD_TO_FIRE_RATIO,
    XP_PER_LEVEL,
};

verus! {

/// What chopping a tree does to a player whose energy is up to date.
///
/// A player without energy is turned down. Any other player pays one unit
/// of energy and gains one unit of wood and one point of experience; the
/// level rises to the one the new experience gives, and never falls.
pub open spec fn chop_step(player: PlayerView) -> Result<PlayerView, ErrorCode> {
    if player.energy == 0 {
        Err(ErrorCode::NotEnoughEnergy)
    } else {
        let level: nat = level_for(player.xp + 1);
        Ok(
            PlayerView {
                wood: player.wood + 1,
                energy: (player.energy - 1) as nat,
                xp: player.xp + 1,
                level: if level > player.level {
                    level
                } else {
                    player.level
                },
                ..player
            },
        )
    }
}

/// What an attempt to chop a tree at time `now` does to a player: energy is
/// reconciled with the time first, and the chop is judged on the result.
pub open spec fn chopped(player: PlayerView, now: int) -> Result<PlayerView, ErrorCode> {
    chop_step(refilled(player, now))
}

/// Whether one more chop leaves the player's wood, experience and level
/// small enough for their fields.
pub open spec fn chop_fits(player: PlayerView) -> bool {
    &&& player.wood < u64::MAX
    &&& player.xp < u64::MAX
    &&& level_for(player.xp + 1) <= u8::MAX
}

/// Tells whether one more chop fits the player's record.
pub fn chop_has_room(player: &PlayerData) -> (room: bool)
    ensures
        room == chop_fits(player@),
{
    player.wood < u64::MAX && player.xp < u64::MAX && (player.xp + 1) / XP_PER_LEVEL + 1
        <= u8::MAX as u64
}

/// Chops a tree for the player at time `now`.
///
/// Energy is reconciled with `now` first. The outcome is the one `chopped`
/// gives: with no energy left the request is turned down and the record
/// stays as it was; otherwise the record becomes the one `chopped` names.
/// The one demand on the caller is that, where the chop goes through, the
/// new counts still fit their fields.
pub fn chop(player: &mut PlayerData, now: i64) -> (result: Result<(), ErrorCode>)
    requires
        chopped(old(player)@, now as int) is Ok ==> chop_fits(old(player)@),
    ensures
        match chopped(old(player)@, now as int) {
            Ok(after) => {
                &&& result is Ok
                &&& final(player)@ == after
                &&& final(player).name == old(player).name
            },
            Err(code) => result == Err::<(), ErrorCode>(code) && *final(player) == *old(player),
        },
        result is Err <==> refilled(old(player)@, now as int).energy == 0,
        result is Ok ==> {
            &&& final(player).energy == refilled(old(player)@, now as int).energy - 1
            &&& final(player).wood == old(player).wood + 1
            &&& final(player).xp == old(player).xp + 1
            &&& final(player).level >= old(player).level
        },
        final(player).last_login >= old(player).last_login,
        old(player).energy <= MAX_ENERGY ==> final(player).energy <= MAX_ENERGY,
        old(player).wf() ==> final(player).wf(),
{
    refill_energy(player, now);
    if player.energy == 0 {
        return Err(ErrorCode::NotEnoughEnergy);
    }
    player.wood = player.wood + 1;
    player.energy = player.energy - 1;
    player.xp = player.xp + 1;
    let new_level: u64 = player.xp / XP_PER_LEVEL + 1;
    if new_level > player.level as u64 {
        player.level = new_level as u8;
    }
    Ok(())
}

/// The fire tokens that a request to burn `wood_amount` wood pays for: one
/// per full `WOOD_TO_FIRE_RATIO` units, the remainder counting for nothing.
pub open spec fn tokens_for(wood_amount: nat) -> nat {
    wood_amount / (WOOD_TO_FIRE_RATIO as nat)
}

/// What burning `wood_amount` wood does to a player and to the supply.
///
/// The request is turned down as a whole when the player holds less wood
/// than asked, and when the tokens it pays for exceed what is left of the
/// supply. Otherwise the player pays exactly the wood that the tokens cost
/// and receives them, and the supply counts them as minted.
pub open spec fn burned(player: PlayerView, game: GameView, wood_amount: nat) -> Result<
    (PlayerView, GameView),
    ErrorCode,
> {
    let tokens: nat = tokens_for(wood_amount);
    if player.wood < wood_amount {
        Err(ErrorCode::NotEnoughWood)
    } else if tokens > game.remaining_supply() {
        Err(ErrorCode::FireTokenSupplyExhausted)
    } else {
        Ok(
            (
                PlayerView {
                    wood: (player.wood - tokens * WOOD_TO_FIRE_RATIO) as nat,
                    fire_tokens: player.fire_tokens + tokens,
                    ..player
                },
                GameView {
                    total_fire_tokens_minted: game.total_fire_tokens_minted + tokens,
                    ..game
                },
            ),
        )
    }
}

/// Whether the tokens that `wood_amount` wood pays for can be added to the
/// player's count without leaving its field.
pub open spec fn burn_fits(player: PlayerView, wood_amount: nat) -> bool {
    player.fire_tokens + tokens_for(wood_amount) <= u64::MAX
}

/// Tells whether the tokens that `wood_amount` wood pays for fit the
/// player's record.
pub fn burn_has_room(player: &PlayerData, wood_amount: u64) -> (room: bool)
    ensures
        room == burn_fits(player@, wood_amount as nat),
{
    wood_amount / WOOD_TO_FIRE_RATIO <= u64::MAX - player.fire_tokens
}

/// Burns `wood_amount` of the player's wood for fire tokens.
///
/// The outcome is the one `burned` gives. A request that is turned down
/// changes nothing; one that is granted changes the player's wood and
/// tokens and the supply's count together. The one demand on the caller is
/// that the player's token count, once the new tokens are added, still
/// fits its field.
pub fn burn_wood_for_fire_tokens(ctx: &mut BurnWoodForFireTokens, wood_amount: u64) -> (result:
    Result<(), ErrorCode>)
    requires
        burned(old(ctx).player@, old(ctx).game_state@, wood_amount as nat) is Ok ==> burn_fits(
            old(ctx).player@,
            wood_amount as nat,
        ),
    ensures
        match burned(old(ctx).player@, old(ctx).game_state@, wood_amount as nat) {
            Ok((player, game)) => {
                &&& result is Ok
                &&& final(ctx).player@ == player
                &&& final(ctx).game_state@ == game
                &&& final(ctx).player.name == old(ctx).player.name
            },
            Err(code) => result == Err::<(), ErrorCode>(code) && *final(ctx) == *old(ctx),
        },
        old(ctx).game_state.wf() ==> final(ctx).game_state.wf(),
        old(ctx).player.wf() ==> final(ctx).player.wf(),
{
    if ctx.player.wood < wood_amount {
        return Err(ErrorCode::NotEnoughWood);
    }
    let fire_tokens_to_mint: u64 = wood_amount / WOOD_TO_FIRE_RATIO;
    if ctx.game_state.total_fire_tokens_minted > ctx.game_state.max_supply {
        return Err(ErrorCode::FireTokenSupplyExhausted);
    }
    let remaining_supply: u64 = ctx.game_state.max_supply
        - ctx.game_state.total_fire_tokens_minted;
    if fire_tokens_to_mint > remaining_supply {
        return Err(ErrorCode::FireTokenSupplyExhausted);
    }
    if fire_tokens_to_mint > 0 {
        let wood_used: u64 = fire_tokens_to_mint * WOOD_TO_FIRE_RATIO;
        ctx.player.wood = ctx.player.wood - wood_used;
        ctx.player.fire_tokens = ctx.player.fire_tokens + fire_tokens_to_mint;
        ctx.game_state.total_fire_tokens_minted = ctx.game_state.total_fire_tokens_minted
            + fire_tokens_to_mint;
    }
    Ok(())
}

} // verus!
