use anchor_lang::prelude::ProgramError;
use lumberjack::{
    chop_tree, get_game_stats, get_player_stats, init_game_state, init_player, update_energy,
    ChopTree, ErrorCode, Failure, GameState, GameStats, GetGameStats, GetPlayerStats,
    InitGameState, InitPlayer, PlayerData,
};

fn sample() -> PlayerData {
    PlayerData {
        name: String::from("Teak"),
        level: 2,
        xp: 150,
        wood: 30,
        energy: 1,
        fire_tokens: 0,
        last_login: 1_700_000_000,
    }
}

#[test]
fn init_game_state_sets_the_supply_up() {
    let mut ctx = InitGameState {
        game_state: GameState { total_fire_tokens_minted: 9, max_supply: 4 },
    };
    init_game_state(&mut ctx);
    assert_eq!(ctx.game_state, GameState { total_fire_tokens_minted: 0, max_supply: 1 });
}

#[test]
fn game_stats_report_what_is_left() {
    let ctx =
        GetGameStats { game_state: GameState { total_fire_tokens_minted: 3, max_supply: 10 } };
    assert_eq!(
        get_game_stats(&ctx),
        GameStats { total_fire_tokens_minted: 3, max_supply: 10, remaining_supply: 7 }
    );
    let spent =
        GetGameStats { game_state: GameState { total_fire_tokens_minted: 1, max_supply: 1 } };
    assert_eq!(get_game_stats(&spent).remaining_supply, 0);
}

#[test]
fn player_stats_are_the_record_as_it_stands() {
    let ctx = GetPlayerStats { player: sample() };
    assert_eq!(get_player_stats(&ctx), sample());
    assert_eq!(ctx.player, sample());
}

#[test]
fn without_a_clock_update_energy_hands_the_error_on_and_changes_nothing() {
    let mut ctx = ChopTree { player: sample() };
    match update_energy(&mut ctx) {
        Ok(()) => {
            assert!(ctx.player.energy >= 1 && ctx.player.energy <= 5);
            assert!(ctx.player.last_login >= 1_700_000_000);
        }
        Err(failure) => {
            assert_eq!(failure, Failure::Host(ProgramError::UnsupportedSysvar));
            assert_eq!(ctx.player, sample());
        }
    }
}

#[test]
fn without_a_clock_chop_tree_hands_the_error_on_and_changes_nothing() {
    let mut ctx = ChopTree { player: sample() };
    match chop_tree(&mut ctx) {
        Ok(()) => {
            assert_eq!((ctx.player.wood, ctx.player.xp), (31, 151));
            assert!(ctx.player.energy <= 4);
        }
        Err(failure) => {
            assert!(!matches!(failure, Failure::Rejected(ErrorCode::NotEnoughWood)));
            assert!(!matches!(failure, Failure::Rejected(ErrorCode::FireTokenSupplyExhausted)));
            assert_eq!(ctx.player, sample());
        }
    }
}

#[test]
fn without_a_clock_init_player_hands_the_error_on_and_changes_nothing() {
    let mut ctx = InitPlayer { player: sample() };
    match init_player(&mut ctx, String::from("Umbra")) {
        Ok(()) => {
            assert_eq!(ctx.player.name, "Umbra");
            assert_eq!(
                (ctx.player.level, ctx.player.xp, ctx.player.wood, ctx.player.energy),
                (1, 0, 0, 5)
            );
            assert_eq!(ctx.player.fire_tokens, 0);
        }
        Err(failure) => {
            assert!(matches!(failure, Failure::Host(_)));
            assert_eq!(ctx.player, sample());
        }
    }
}
