//! The energy clock: how much energy a player has regained by a given time.

use vstd::prelude::*;
use crate::state::{PlayerData, PlayerView, MAX_ENERGY, TIME_TO_REFILL_ENERGY};

verus! {

/// The seconds that have passed for a player by `now`. A clock that reads
/// earlier than the player's last reconciliation counts as no time at all.
pub open spec fn elapsed(player: PlayerView, now: int) -> nat {
    if now < player.last_login {
        0
    } else {
        (now - player.last_login) as nat
    }
}

/// The number of full refill periods in a span of `seconds`.
///
/// The length of a period is written out, so that the quotient stays
/// linear arithmetic; `lemma_refill_period` ties it to
/// `TIME_TO_REFILL_ENERGY`.
pub open spec fn periods_in(seconds: nat) -> nat {
    seconds / 30
}

/// The seconds that `ticks` refill periods take.
pub open spec fn seconds_of(ticks: nat) -> nat {
    ticks * 30
}

/// The period that `periods_in` and `seconds_of` count in is
/// `TIME_TO_REFILL_ENERGY`.
pub proof fn lemma_refill_period(seconds: nat, ticks: nat)
    ensures
        periods_in(seconds) == seconds / (TIME_TO_REFILL_ENERGY as nat),
        seconds_of(ticks) == ticks * TIME_TO_REFILL_ENERGY,
{
}

/// The units of energy a player regains by `now`: one for each full refill
/// period that has passed, but no more than the player lacks to the cap.
pub open spec fn refill_ticks(player: PlayerView, now: int) -> nat {
    let periods: nat = periods_in(elapsed(player, now));
    if player.energy >= MAX_ENERGY {
        0
    } else if periods <= MAX_ENERGY - player.energy {
        periods
    } else {
        (MAX_ENERGY - player.energy) as nat
    }
}

/// The player's record once energy has been reconciled at time `now`.
///
/// Energy grows by `refill_ticks`. A player who is then at the cap counts
/// as fully caught up: `last_login` moves to `now` and the seconds left
/// over are dropped. Otherwise `last_login` moves on only by the seconds
/// that were turned into energy, so the rest counts toward the next unit.
/// `last_login` never moves backward.
pub open spec fn refilled(player: PlayerView, now: int) -> PlayerView {
    let ticks: nat = refill_ticks(player, now);
    let energy: nat = player.energy + ticks;
    PlayerView {
        energy,
        last_login: if energy == MAX_ENERGY {
            player.last_login + elapsed(player, now)
        } else {
            player.last_login + seconds_of(ticks)
        },
        ..player
    }
}

/// Reconciles the player's energy with the time `now`.
///
/// The record becomes what `refilled` says, for every record and every
/// time; nothing but `energy` and `last_login` changes.
pub fn refill_energy(player: &mut PlayerData, now: i64)
    ensures
        final(player)@ == refilled(old(player)@, now as int),
        final(player).name == old(player).name,
        old(player).energy <= MAX_ENERGY ==> final(player).energy <= MAX_ENERGY,
        old(player).wf() ==> final(player).wf(),
        final(player).last_login >= old(player).last_login,
{
    let ghost before: PlayerView = player@;
    let mut energy: u64 = player.energy;
    let mut reconciled: i64 = player.last_login;
    let ghost mut ticks: nat = 0;
    while energy < MAX_ENERGY && reconciled <= i64::MAX - TIME_TO_REFILL_ENERGY && reconciled
        + TIME_TO_REFILL_ENERGY <= now
        invariant
            before.last_login == player.last_login,
            before.energy == player.energy,
            ticks <= MAX_ENERGY,
            energy == before.energy + ticks,
            reconciled == before.last_login + seconds_of(ticks),
            ticks > 0 ==> energy <= MAX_ENERGY && reconciled <= now,
        decreases MAX_ENERGY - energy,
    {
        energy = energy + 1;
        reconciled = reconciled + TIME_TO_REFILL_ENERGY;
        proof {
            ticks = ticks + 1;
        }
    }
    assert(ticks == refill_ticks(before, now as int));
    player.energy = energy;
    if energy == MAX_ENERGY {
        if now > player.last_login {
            player.last_login = now;
        }
    } else {
        player.last_login = reconciled;
    }
}

} // verus!
