use mcc_autosplitter::cell::Ieee32;
use mcc_autosplitter::controller::tick;
use mcc_autosplitter::snapshot::{GameState, Settings, TimerPhase};
use mcc_autosplitter::splitter::SplitterState;

fn f(v: f32) -> Ieee32 {
    Ieee32 { bits: v.to_bits() }
}

/// Samples the launcher indicators of a tick in the given title.
fn launcher(st: &mut GameState, game: u8, menu: u8, load: u8) {
    st.mcc_gameindicator.update(Some(game));
    st.mcc_menuindicator.update(Some(menu));
    st.mcc_loadindicator.update(Some(load));
    st.mcc_pgcrindicator.update(Some(0));
}

fn h1_sample(st: &mut GameState, level: &str, tick: u32, x: f32, bsp: u8, cinematic: bool) {
    h1_sample_loading(st, level, tick, x, bsp, cinematic, 0);
}

fn h1_sample_loading(st: &mut GameState, level: &str, tick: u32, x: f32, bsp: u8, cinematic: bool, load: u8) {
    launcher(st, 0, 1, load);
    st.h1_levelname.update(Some(level.to_string()));
    st.h1_tickcounter.update(Some(tick));
    st.h1_igt.update(Some(tick));
    st.h1_xpos.update(Some(f(x)));
    st.h1_bspstate.update(Some(bsp));
    st.h1_cinematic.update(Some(cinematic));
    st.h1_cutsceneskip.update(Some(false));
}

#[test]
fn poa_start_fires_once() {
    let cfg = Settings::new();
    let mut st = GameState::new();
    let mut sp = SplitterState::new();
    h1_sample(&mut st, "a10", 281, -60.0, 0, true);
    let first = tick(&st, &cfg, &mut sp, TimerPhase::NotRunning);
    assert!(!first.start);
    h1_sample(&mut st, "a10", 282, -60.0, 0, false);
    let second = tick(&st, &cfg, &mut sp, TimerPhase::NotRunning);
    assert!(second.start);
    assert_eq!(sp.started_level, "a10");
    assert_eq!(sp.started_game, 0);
    // The same values again, now that the timer runs: no second start.
    h1_sample(&mut st, "a10", 282, -60.0, 0, false);
    let third = tick(&st, &cfg, &mut sp, TimerPhase::Running);
    assert!(!third.start && !third.reset && !third.split);
}

#[test]
fn poa_start_needs_x_below_bound() {
    let cfg = Settings::new();
    let mut st = GameState::new();
    let mut sp = SplitterState::new();
    h1_sample(&mut st, "a10", 281, -50.0, 0, true);
    tick(&st, &cfg, &mut sp, TimerPhase::NotRunning);
    h1_sample(&mut st, "a10", 282, -50.0, 0, false);
    assert!(!tick(&st, &cfg, &mut sp, TimerPhase::NotRunning).start);
    assert_eq!(sp.started_level, "");
}

#[test]
fn poa_start_needs_tick_past_280() {
    let cfg = Settings::new();
    let mut st = GameState::new();
    let mut sp = SplitterState::new();
    h1_sample(&mut st, "a10", 270, -60.0, 0, true);
    tick(&st, &cfg, &mut sp, TimerPhase::NotRunning);
    h1_sample(&mut st, "a10", 280, -60.0, 0, false);
    assert!(!tick(&st, &cfg, &mut sp, TimerPhase::NotRunning).start);
}

#[test]
fn region_split_once_per_marker() {
    let mut cfg = Settings::new();
    cfg.bsp_mode = true;
    let mut st = GameState::new();
    let mut sp = SplitterState::new();
    h1_sample(&mut st, "a10", 400, 0.0, 0, false);
    tick(&st, &cfg, &mut sp, TimerPhase::Running);
    h1_sample(&mut st, "a10", 401, 0.0, 1, false);
    let a = tick(&st, &cfg, &mut sp, TimerPhase::Running);
    assert!(a.split);
    assert!(sp.contains_dirty_bsp_byte(1));
    h1_sample(&mut st, "a10", 402, 0.0, 1, false);
    let b = tick(&st, &cfg, &mut sp, TimerPhase::Running);
    assert!(!b.split);
    // Leaving and coming back to region 1 does not split again in the same attempt.
    h1_sample(&mut st, "a10", 403, 0.0, 0, false);
    assert!(!tick(&st, &cfg, &mut sp, TimerPhase::Running).split);
    h1_sample(&mut st, "a10", 404, 0.0, 1, false);
    assert!(!tick(&st, &cfg, &mut sp, TimerPhase::Running).split);
}

#[test]
fn region_split_repeats_in_cached_mode() {
    let mut cfg = Settings::new();
    cfg.bsp_mode = true;
    cfg.bsp_cache = true;
    let mut st = GameState::new();
    let mut sp = SplitterState::new();
    h1_sample(&mut st, "a10", 400, 0.0, 0, false);
    tick(&st, &cfg, &mut sp, TimerPhase::Running);
    h1_sample(&mut st, "a10", 401, 0.0, 1, false);
    assert!(tick(&st, &cfg, &mut sp, TimerPhase::Running).split);
    h1_sample(&mut st, "a10", 402, 0.0, 0, false);
    tick(&st, &cfg, &mut sp, TimerPhase::Running);
    h1_sample(&mut st, "a10", 403, 0.0, 1, false);
    assert!(tick(&st, &cfg, &mut sp, TimerPhase::Running).split);
    assert!(!sp.contains_dirty_bsp_byte(1));
}

#[test]
fn loading_edge_splits_and_clears_markers() {
    let cfg = Settings::new();
    let mut st = GameState::new();
    let mut sp = SplitterState::new();
    sp.add_dirty_bsp_byte(3);
    sp.add_dirty_bsp_int(7);
    sp.add_dirty_bsp_long(9);
    // Third title, full game.
    launcher(&mut st, 2, 1, 0);
    st.h3_levelname.update(Some("030".to_string()));
    sp.started_game = 2;
    tick(&st, &cfg, &mut sp, TimerPhase::Running);
    launcher(&mut st, 2, 1, 1);
    let a = tick(&st, &cfg, &mut sp, TimerPhase::Running);
    assert!(a.split);
    assert!(!sp.contains_dirty_bsp_byte(3));
    assert!(!sp.contains_dirty_bsp_int(7));
    assert!(!sp.contains_dirty_bsp_long(9));
    assert!(sp.dirty_bsps_byte.is_empty() && sp.dirty_bsps_int.is_empty() && sp.dirty_bsps_long.is_empty());
    // The loading screen goes on: no second split for the same edge.
    launcher(&mut st, 2, 1, 1);
    assert!(!tick(&st, &cfg, &mut sp, TimerPhase::Running).split);
    assert!(!sp.force_split);
}

#[test]
fn first_title_loading_edge_splits_once() {
    let cfg = Settings::new();
    let mut st = GameState::new();
    let mut sp = SplitterState::new();
    h1_sample(&mut st, "a30", 900, 0.0, 0, false);
    tick(&st, &cfg, &mut sp, TimerPhase::Running);
    h1_sample_loading(&mut st, "a30", 901, 0.0, 0, false, 1);
    assert!(tick(&st, &cfg, &mut sp, TimerPhase::Running).split);
    h1_sample_loading(&mut st, "a30", 901, 0.0, 0, false, 1);
    assert!(!tick(&st, &cfg, &mut sp, TimerPhase::Running).split);
    assert!(!sp.force_split);
}

#[test]
fn report_splits_on_the_next_tick() {
    let cfg = Settings::new();
    let mut st = GameState::new();
    let mut sp = SplitterState::new();
    sp.started_game = 3;
    launcher(&mut st, 3, 1, 0);
    st.h4_levelname.update(Some("m30".to_string()));
    st.mcc_igt_ticks.update(Some(100));
    tick(&st, &cfg, &mut sp, TimerPhase::Running);
    launcher(&mut st, 3, 1, 0);
    st.mcc_pgcrindicator.update(Some(1));
    st.mcc_igt_ticks.update(Some(101));
    assert!(!tick(&st, &cfg, &mut sp, TimerPhase::Running).split);
    launcher(&mut st, 3, 1, 0);
    st.mcc_pgcrindicator.update(Some(1));
    assert!(tick(&st, &cfg, &mut sp, TimerPhase::Running).split);
    launcher(&mut st, 3, 1, 0);
    st.mcc_pgcrindicator.update(Some(1));
    assert!(!tick(&st, &cfg, &mut sp, TimerPhase::Running).split);
}

#[test]
fn loading_edge_does_not_split_in_individual_level_mode() {
    let mut cfg = Settings::new();
    cfg.il_mode = true;
    let mut st = GameState::new();
    let mut sp = SplitterState::new();
    launcher(&mut st, 2, 1, 0);
    st.h3_levelname.update(Some("030".to_string()));
    tick(&st, &cfg, &mut sp, TimerPhase::Running);
    launcher(&mut st, 2, 1, 1);
    assert!(!tick(&st, &cfg, &mut sp, TimerPhase::Running).split);
}

#[test]
fn reset_on_restart_of_starting_level() {
    let cfg = Settings::new();
    let mut st = GameState::new();
    let mut sp = SplitterState::new();
    h1_sample(&mut st, "a10", 900, 0.0, 0, false);
    tick(&st, &cfg, &mut sp, TimerPhase::Running);
    h1_sample(&mut st, "a10", 5, 0.0, 0, false);
    let a = tick(&st, &cfg, &mut sp, TimerPhase::Running);
    assert!(a.reset);
    assert_eq!(sp.started_game, 10);
    assert_eq!(sp.level_time, 0);
}

#[test]
fn reset_ignores_other_titles() {
    let cfg = Settings::new();
    let mut st = GameState::new();
    let mut sp = SplitterState::new();
    sp.started_game = 1;
    h1_sample(&mut st, "a10", 900, 0.0, 0, false);
    tick(&st, &cfg, &mut sp, TimerPhase::Running);
    h1_sample(&mut st, "a10", 5, 0.0, 0, false);
    assert!(!tick(&st, &cfg, &mut sp, TimerPhase::Running).reset);
}

#[test]
fn no_reset_once_ended() {
    let cfg = Settings::new();
    let mut st = GameState::new();
    let mut sp = SplitterState::new();
    h1_sample(&mut st, "a10", 900, 0.0, 0, false);
    tick(&st, &cfg, &mut sp, TimerPhase::Ended);
    h1_sample(&mut st, "a10", 5, 0.0, 0, false);
    let a = tick(&st, &cfg, &mut sp, TimerPhase::Ended);
    assert!(!a.reset && !a.split && a.pause_game_time.is_none());
}

#[test]
fn individual_level_mode_resets_in_main_menu() {
    let mut cfg = Settings::new();
    cfg.il_mode = true;
    let mut st = GameState::new();
    let mut sp = SplitterState::new();
    launcher(&mut st, 0, 0, 0);
    assert!(tick(&st, &cfg, &mut sp, TimerPhase::Running).reset);
}

#[test]
fn fresh_state_after_finished_attempt() {
    let cfg = Settings::new();
    let mut st = GameState::new();
    let mut sp = SplitterState::new();
    h1_sample(&mut st, "a30", 900, 0.0, 0, false);
    tick(&st, &cfg, &mut sp, TimerPhase::Running);
    assert!(sp.vars_reset);
    sp.death_counter = 4;
    tick(&st, &cfg, &mut sp, TimerPhase::NotRunning);
    assert!(!sp.vars_reset);
    assert_eq!(sp.death_counter, 0);
}

#[test]
fn deaths_are_counted() {
    let mut cfg = Settings::new();
    cfg.death_counter = true;
    let mut st = GameState::new();
    let mut sp = SplitterState::new();
    h1_sample(&mut st, "a30", 900, 0.0, 0, false);
    st.h1_deathflag.update(Some(false));
    tick(&st, &cfg, &mut sp, TimerPhase::Running);
    h1_sample(&mut st, "a30", 901, 0.0, 0, false);
    st.h1_deathflag.update(Some(true));
    let a = tick(&st, &cfg, &mut sp, TimerPhase::Running);
    assert_eq!(a.deaths, Some(1));
    h1_sample(&mut st, "a30", 902, 0.0, 0, false);
    st.h1_deathflag.update(Some(true));
    assert_eq!(tick(&st, &cfg, &mut sp, TimerPhase::Running).deaths, None);
}

#[test]
fn menu_pauses_game_clock() {
    let cfg = Settings::new();
    let mut st = GameState::new();
    let mut sp = SplitterState::new();
    launcher(&mut st, 3, 0, 0);
    assert_eq!(tick(&st, &cfg, &mut sp, TimerPhase::Running).pause_game_time, Some(true));
    launcher(&mut st, 3, 1, 0);
    st.h4_levelname.update(Some("m30".to_string()));
    assert_eq!(tick(&st, &cfg, &mut sp, TimerPhase::Running).pause_game_time, Some(false));
}
