//! What holds of the game over any history of refills, chops and burns,
//! proved on the views of the records.

use vstd::prelude::*;
use crate::energy::refilled;
use crate::ledger::{burned, chopped, tokens_for};
use crate::state::{
    level_for, ErrorCode, GameView, PlayerView, MAX_ENERGY, WOOD_TO_FIRE_RATIO,
};

verus! {

/// The player's record after energy has been reconciled at each of
/// `times`, in turn.
pub open spec fn refilled_each(player: PlayerView, times: Seq<int>) -> PlayerView
    decreases times.len(),
{
    if times.len() == 0 {
        player
    } else {
        refilled(refilled_each(player, times.drop_last()), times.last())
    }
}

/// The player's record after an attempt to chop at time `now`: the record
/// `chopped` names where the chop goes through, the record as it was where
/// it is turned down.
pub open spec fn after_chop(player: PlayerView, now: int) -> PlayerView {
    match chopped(player, now) {
        Ok(after) => after,
        Err(_) => player,
    }
}

/// The player's record after an attempt to chop at each of `times`, in
/// turn.
pub open spec fn after_chops(player: PlayerView, times: Seq<int>) -> PlayerView
    decreases times.len(),
{
    if times.len() == 0 {
        player
    } else {
        after_chop(after_chops(player, times.drop_last()), times.last())
    }
}

/// The two records after an attempt to burn `wood_amount` wood: the ones
/// `burned` names where the burn goes through, the ones before where it is
/// turned down.
pub open spec fn after_burn(player: PlayerView, game: GameView, wood_amount: nat) -> (
    PlayerView,
    GameView,
) {
    match burned(player, game, wood_amount) {
        Ok(after) => after,
        Err(_) => (player, game),
    }
}

/// The supply record after each of `requests`, a player and the wood that
/// player asks to burn, has been tried against it in turn.
pub open spec fn after_burns(game: GameView, requests: Seq<(PlayerView, nat)>) -> GameView
    decreases requests.len(),
{
    if requests.len() == 0 {
        game
    } else {
        let request: (PlayerView, nat) = requests.last();
        after_burn(request.0, after_burns(game, requests.drop_last()), request.1).1
    }
}

/// Energy that is within the cap stays within it through a refill and
/// through a chop, whatever the time.
pub proof fn lemma_energy_stays_within_cap(player: PlayerView, now: int)
    requires
        player.energy <= MAX_ENERGY,
    ensures
        0 <= refilled(player, now).energy <= MAX_ENERGY,
        0 <= after_chop(player, now).energy <= MAX_ENERGY,
{
}

/// A refill changes nothing but energy and `last_login`, never lowers
/// either, and never sets `last_login` past a clock that has not run
/// backward.
pub proof fn lemma_refill_moves_forward(player: PlayerView, now: int)
    ensures
        refilled(player, now) == (PlayerView {
            energy: refilled(player, now).energy,
            last_login: refilled(player, now).last_login,
            ..player
        }),
        refilled(player, now).energy >= player.energy,
        refilled(player, now).last_login >= player.last_login,
        now >= player.last_login ==> refilled(player, now).last_login <= now,
{
}

/// For a player at the energy cap a refill does no more than move
/// `last_login` up to the time given: energy stays at the cap, so the same
/// holds of the next refill.
pub proof fn lemma_refill_at_cap(player: PlayerView, now: int)
    requires
        player.energy == MAX_ENERGY,
    ensures
        refilled(player, now) == (PlayerView {
            last_login: if now > player.last_login {
                now
            } else {
                player.last_login
            },
            ..player
        }),
        refilled(player, now).energy == MAX_ENERGY,
{
}

/// Any number of refills of a player at the energy cap leave the energy
/// at the cap and touch nothing but `last_login`.
pub proof fn lemma_refills_at_cap(player: PlayerView, times: Seq<int>)
    requires
        player.energy == MAX_ENERGY,
    ensures
        refilled_each(player, times) == (PlayerView {
            last_login: refilled_each(player, times).last_login,
            ..player
        }),
        refilled_each(player, times).last_login >= player.last_login,
    decreases times.len(),
{
    if times.len() > 0 {
        lemma_refills_at_cap(player, times.drop_last());
        lemma_refill_at_cap(refilled_each(player, times.drop_last()), times.last());
    }
}

/// A second refill at the same time changes nothing.
pub proof fn lemma_refill_idempotent(player: PlayerView, now: int)
    ensures
        refilled(refilled(player, now), now) == refilled(player, now),
{
}

/// A chop is turned down exactly when the player has no energy once the
/// time is accounted for. Otherwise it costs exactly one unit of that
/// energy, yields exactly one unit of wood and one point of experience, and
/// leaves name, fire tokens and the reconciled `last_login` alone.
pub proof fn lemma_chop_exact(player: PlayerView, now: int)
    ensures
        chopped(player, now) is Err <==> refilled(player, now).energy == 0,
        chopped(player, now) matches Ok(after) ==> {
            &&& after.energy == refilled(player, now).energy - 1
            &&& after.wood == player.wood + 1
            &&& after.xp == player.xp + 1
            &&& after.name == player.name
            &&& after.fire_tokens == player.fire_tokens
            &&& after.last_login == refilled(player, now).last_login
        },
        chopped(player, now) is Err ==> refilled(player, now) == player,
{
}

/// After a chop the level is the one the experience gives, provided the
/// level was not ahead of the experience before; and whatever it was, it
/// does not fall.
pub proof fn lemma_chop_level(player: PlayerView, now: int)
    ensures
        after_chop(player, now).level >= player.level,
        after_chop(player, now).xp >= player.xp,
        chopped(player, now) matches Ok(after) ==> (player.level <= level_for(after.xp)
            ==> after.level == level_for(after.xp)),
        player.level == level_for(player.xp) ==> after_chop(player, now).level == level_for(
            after_chop(player, now).xp,
        ),
{
}

/// Over any run of chop attempts the level never falls and experience
/// never shrinks; for a player whose record is well formed, it stays well
/// formed, so the level is always the one the experience gives.
pub proof fn lemma_level_never_falls(player: PlayerView, times: Seq<int>)
    ensures
        after_chops(player, times).level >= player.level,
        after_chops(player, times).xp >= player.xp,
        player.wf() ==> after_chops(player, times).wf(),
    decreases times.len(),
{
    if times.len() > 0 {
        let before: PlayerView = after_chops(player, times.drop_last());
        lemma_level_never_falls(player, times.drop_last());
        lemma_chop_level(before, times.last());
        if player.wf() {
            lemma_energy_stays_within_cap(before, times.last());
        }
    }
}

/// A burn is all or nothing. Either both records stay as they were, or the
/// player's wood, the player's fire tokens and the supply's count all move
/// by the one amount the request pays for, and nothing else changes.
pub proof fn lemma_burn_all_or_nothing(player: PlayerView, game: GameView, wood_amount: nat)
    ensures
        burned(player, game, wood_amount) is Err ==> after_burn(player, game, wood_amount) == (
            player,
            game,
        ),
        burned(player, game, wood_amount) matches Ok((after, supply)) ==> {
            let tokens: nat = tokens_for(wood_amount);
            &&& after == (PlayerView {
                wood: (player.wood - tokens * WOOD_TO_FIRE_RATIO) as nat,
                fire_tokens: player.fire_tokens + tokens,
                ..player
            })
            &&& supply == (GameView {
                total_fire_tokens_minted: game.total_fire_tokens_minted + tokens,
                ..game
            })
            &&& tokens * WOOD_TO_FIRE_RATIO <= wood_amount <= player.wood
            &&& tokens == 0 ==> after == player && supply == game
        },
{
}

/// A burn is granted exactly when the player holds the wood asked for and
/// the supply has room for the tokens it pays for; a request for too much
/// wood is reported as such even where the supply is short as well.
pub proof fn lemma_burn_granted_iff(player: PlayerView, game: GameView, wood_amount: nat)
    ensures
        burned(player, game, wood_amount) is Ok <==> player.wood >= wood_amount && tokens_for(
            wood_amount,
        ) <= game.remaining_supply(),
        burned(player, game, wood_amount) == Err::<(PlayerView, GameView), _>(
            ErrorCode::NotEnoughWood,
        ) <==> player.wood < wood_amount,
        burned(player, game, wood_amount) == Err::<(PlayerView, GameView), _>(
            ErrorCode::FireTokenSupplyExhausted,
        ) <==> player.wood >= wood_amount && tokens_for(wood_amount) > game.remaining_supply(),
{
}

/// One burn attempt keeps the supply within its cap, leaves the cap alone
/// and never lowers the count of tokens minted.
pub proof fn lemma_burn_keeps_supply(player: PlayerView, game: GameView, wood_amount: nat)
    ensures
        game.wf() ==> after_burn(player, game, wood_amount).1.wf(),
        after_burn(player, game, wood_amount).1.max_supply == game.max_supply,
        after_burn(player, game, wood_amount).1.total_fire_tokens_minted
            >= game.total_fire_tokens_minted,
        after_burn(player, game, wood_amount).0.wf() == player.wf(),
{
}

/// Over any run of burn attempts, by whichever players and for whatever
/// amounts, the tokens minted never exceed the supply, the supply's cap
/// stays what it was, and the count of tokens minted never falls.
pub proof fn lemma_supply_never_exceeded(game: GameView, requests: Seq<(PlayerView, nat)>)
    requires
        game.wf(),
    ensures
        after_burns(game, requests).wf(),
        after_burns(game, requests).total_fire_tokens_minted <= game.max_supply,
        after_burns(game, requests).max_supply == game.max_supply,
        after_burns(game, requests).total_fire_tokens_minted >= game.total_fire_tokens_minted,
    decreases requests.len(),
{
    if requests.len() > 0 {
        let request: (PlayerView, nat) = requests.last();
        lemma_supply_never_exceeded(game, requests.drop_last());
        lemma_burn_keeps_supply(request.0, after_burns(game, requests.drop_last()), request.1);
    }
}

} // verus!
