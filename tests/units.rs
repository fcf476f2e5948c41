use mcc_autosplitter::cell::{Ieee32, Watched, WatchedName};
use mcc_autosplitter::clock::update_game_time;
use mcc_autosplitter::continuity::{check_multigame_pause, check_multigame_resume, handle_loading};
use mcc_autosplitter::names::name_is;
use mcc_autosplitter::snapshot::{GameState, Settings};
use mcc_autosplitter::split::{should_split, should_split_h2_tgj, should_split_h4, should_split_odst};
use mcc_autosplitter::splitter::{
    get_h1_bsp_list, get_h2_bsp_list, get_h3_bsp_list, get_h4_bsp_list, get_hr_bsp_list,
    get_odst_bsp_list, H1Checklist, MCCGame, SplitterState,
};
use mcc_autosplitter::start::should_start;

fn f(v: f32) -> Ieee32 {
    Ieee32 { bits: v.to_bits() }
}

#[test]
fn cell_reports_nothing_after_first_sample() {
    let mut c: Watched<u8> = Watched::new(0);
    assert!(!c.changed() && !c.changed_to(0));
    c.update(Some(5));
    assert!(!c.changed());
    assert!(!c.changed_to(5));
    assert!(!c.changed_from(5));
    assert!(!c.changed_from_to(5, 5));
    c.update(Some(7));
    assert!(c.changed());
    assert!(c.changed_to(7));
    assert!(!c.changed_to(5));
    assert!(c.changed_from(5));
    assert!(c.changed_from_to(5, 7));
}

#[test]
fn cell_changed_to_needs_a_different_first_value() {
    let mut c: Watched<bool> = Watched::new(false);
    c.update(Some(true));
    c.update(Some(true));
    assert!(!c.changed_to(true));
}

#[test]
fn cell_keeps_values_on_missing_sample() {
    let mut c: Watched<u32> = Watched::new(0);
    c.update(Some(1));
    c.update(Some(2));
    c.update(None);
    assert_eq!(c.current_or(9), 2);
    assert_eq!(c.previous_or(9), 1);
    assert!(c.changed_from_to(1, 2));
    let u: Watched<u32> = Watched::new(0);
    assert_eq!(u.current_or(9), 9);
}

#[test]
fn name_cell_shifts() {
    let mut n = WatchedName::new();
    assert_eq!(n.current_name(), "");
    n.update(Some("a10".to_string()));
    assert_eq!(n.previous_name(), "a10");
    n.update(Some("a30".to_string()));
    assert_eq!(n.current_name(), "a30");
    assert_eq!(n.previous_name(), "a10");
    n.update(None);
    assert_eq!(n.current_name(), "a30");
}

#[test]
fn float_comparisons_follow_ieee() {
    assert!(f(-60.0).below((-55.0f32).to_bits()));
    assert!(!f(-50.0).below((-55.0f32).to_bits()));
    assert!(f(1.0).above((0.5f32).to_bits()));
    assert!(f(-0.0).equals(0));
    assert!(f(0.96).at_most((0.96f32).to_bits()));
    assert!(!f(f32::NAN).below(0) && !f(f32::NAN).above(0) && !f(f32::NAN).equals(f32::NAN.to_bits()));
    assert!(f(-2.0).less_than(&f(-1.0)));
}

#[test]
fn marker_added_twice_is_held_once() {
    let mut sp = SplitterState::new();
    sp.add_dirty_bsp_byte(4);
    sp.add_dirty_bsp_byte(4);
    assert_eq!(sp.dirty_bsps_byte, vec![4]);
    sp.add_dirty_bsp_int(40);
    sp.add_dirty_bsp_int(40);
    assert_eq!(sp.dirty_bsps_int, vec![40]);
    sp.add_dirty_bsp_long(400);
    sp.add_dirty_bsp_long(400);
    assert_eq!(sp.dirty_bsps_long, vec![400]);
    sp.clear_dirty_bsps();
    assert!(!sp.contains_dirty_bsp_byte(4));
    assert!(!sp.contains_dirty_bsp_int(40));
    assert!(!sp.contains_dirty_bsp_long(400));
}

#[test]
fn reset_zeroes_the_attempt() {
    let mut sp = SplitterState::new();
    sp.add_dirty_bsp_byte(1);
    sp.started_level = "a10".to_string();
    sp.ingame_time = 500;
    sp.force_split = true;
    sp.h3_reset_flag = true;
    sp.reset();
    assert!(sp.dirty_bsps_byte.is_empty());
    assert_eq!(sp.started_level, "");
    assert_eq!(sp.started_game, 10);
    assert_eq!(sp.ingame_time, 0);
    assert!(!sp.force_split);
    assert!(sp.loop_split);
    assert!(sp.h3_reset_flag);
}

#[test]
fn landmark_tables() {
    assert_eq!(get_h1_bsp_list("a10"), &[1, 2, 3, 4, 5, 6]);
    assert_eq!(get_h1_bsp_list("c40"), &[12, 10, 1, 9, 8, 6, 0, 5]);
    assert!(get_h1_bsp_list("zzz").is_empty());
    assert!(get_h2_bsp_list("01a").is_empty());
    assert_eq!(get_h2_bsp_list("08b"), &[0, 1, 3]);
    assert_eq!(get_h3_bsp_list("110"), &[4294967459, 4294967527, 4294967535, 4294967551]);
    assert_eq!(get_h3_bsp_list("100")[10], 21673629041340192);
    assert_eq!(get_h4_bsp_list("m80"), &[0, 0x0020000080000006, 0x0000000080400006, 0x0000000180C0000E]);
    assert_eq!(get_hr_bsp_list("m70"), &[31, 63, 127, 255, 511, 1023, 2047]);
    assert!(get_hr_bsp_list("m52").is_empty());
    assert_eq!(get_odst_bsp_list("l300"), &[33, 41, 56, 112]);
    assert!(get_odst_bsp_list("a10").is_empty());
}

#[test]
fn checklist_lookup() {
    let mut c = H1Checklist::new();
    c.b30 = 682311759;
    c.d40 = 1695151528;
    assert_eq!(c.get("b30"), Some(682311759));
    assert_eq!(c.get("d40"), Some(1695151528));
    assert_eq!(c.get("a10"), Some(0));
    assert_eq!(c.get("b3"), None);
}

#[test]
fn game_codes() {
    assert_eq!(MCCGame::ODST.code(), 5);
    assert_eq!(MCCGame::from_code(6), Some(MCCGame::Reach));
    assert_eq!(MCCGame::from_code(4), None);
    assert_eq!(MCCGame::MainMenu.name(), "MainMenu");
    assert!(name_is("h100", "h100") && !name_is("h100", "h10"));
}

fn h4_tick(st: &mut GameState, igt: u32, load: u8, pgcr: u8) {
    st.mcc_menuindicator.update(Some(1));
    st.mcc_gameindicator.update(Some(3));
    st.mcc_loadindicator.update(Some(load));
    st.mcc_pgcrindicator.update(Some(pgcr));
    st.mcc_igt_ticks.update(Some(igt));
    st.h4_levelname.update(Some("m30".to_string()));
}

#[test]
fn clock_accumulates_and_converts_to_milliseconds() {
    let cfg = Settings::new();
    let mut st = GameState::new();
    let mut sp = SplitterState::new();
    h4_tick(&mut st, 100, 0, 0);
    assert_eq!(update_game_time(&st, &cfg, &mut sp, 3, false), Some(1666));
    assert_eq!(sp.level_time, 100);
    h4_tick(&mut st, 190, 0, 0);
    assert_eq!(update_game_time(&st, &cfg, &mut sp, 3, false), Some(3166));
    // A jump past the sanity bound is not play time.
    h4_tick(&mut st, 600, 0, 0);
    update_game_time(&st, &cfg, &mut sp, 3, false);
    assert_eq!(sp.level_time, 190);
    assert!(sp.ingame_time + sp.level_time >= 190);
}

#[test]
fn report_banks_whole_seconds() {
    let cfg = Settings::new();
    let mut st = GameState::new();
    let mut sp = SplitterState::new();
    h4_tick(&mut st, 130, 0, 0);
    update_game_time(&st, &cfg, &mut sp, 3, false);
    h4_tick(&mut st, 135, 0, 1);
    let gt = update_game_time(&st, &cfg, &mut sp, 3, false);
    assert_eq!(sp.level_time, 0);
    assert_eq!(sp.ingame_time, 120);
    assert!(sp.pgcr_exists && sp.force_split);
    assert_eq!(gt, Some(2000));
}

#[test]
fn restart_rounds_to_nearer_second() {
    let cfg = Settings::new();
    let mut st = GameState::new();
    let mut sp = SplitterState::new();
    h4_tick(&mut st, 100, 0, 0);
    update_game_time(&st, &cfg, &mut sp, 3, false);
    h4_tick(&mut st, 5, 0, 0);
    update_game_time(&st, &cfg, &mut sp, 3, false);
    // 100 ticks is 1 s and 40 ticks: past the half mark, so 2 s are banked.
    assert_eq!(sp.ingame_time, 120);
    assert_eq!(sp.level_time, 0);
}

#[test]
fn restart_under_half_a_second_banks_nothing() {
    let cfg = Settings::new();
    let mut st = GameState::new();
    let mut sp = SplitterState::new();
    h4_tick(&mut st, 5, 0, 0);
    update_game_time(&st, &cfg, &mut sp, 3, false);
    h4_tick(&mut st, 8, 0, 0);
    update_game_time(&st, &cfg, &mut sp, 3, false);
    assert_eq!(sp.level_time, 8);
    h4_tick(&mut st, 2, 0, 0);
    update_game_time(&st, &cfg, &mut sp, 3, false);
    assert_eq!(sp.ingame_time, 0);
    assert_eq!(sp.level_time, 0);
}

#[test]
fn restart_past_half_a_second_banks_one() {
    let cfg = Settings::new();
    let mut st = GameState::new();
    let mut sp = SplitterState::new();
    h4_tick(&mut st, 40, 0, 0);
    update_game_time(&st, &cfg, &mut sp, 3, false);
    h4_tick(&mut st, 2, 0, 0);
    update_game_time(&st, &cfg, &mut sp, 3, false);
    assert_eq!(sp.ingame_time, 60);
}

#[test]
fn edge_on_a_tick_that_split_arms_nothing() {
    let cfg = Settings::new();
    let mut st = GameState::new();
    let mut sp = SplitterState::new();
    h4_tick(&mut st, 95, 0, 0);
    update_game_time(&st, &cfg, &mut sp, 3, false);
    h4_tick(&mut st, 95, 0, 1);
    update_game_time(&st, &cfg, &mut sp, 3, true);
    assert_eq!(sp.ingame_time, 60);
    assert!(!sp.force_split);
}

#[test]
fn restart_banks_exact_time_in_additive_mode() {
    let mut cfg = Settings::new();
    cfg.igt_add = true;
    let mut st = GameState::new();
    let mut sp = SplitterState::new();
    h4_tick(&mut st, 100, 0, 0);
    update_game_time(&st, &cfg, &mut sp, 3, false);
    h4_tick(&mut st, 5, 0, 0);
    update_game_time(&st, &cfg, &mut sp, 3, false);
    assert_eq!(sp.ingame_time, 100);
}

#[test]
fn loading_shows_banked_time_only() {
    let cfg = Settings::new();
    let mut st = GameState::new();
    let mut sp = SplitterState::new();
    h4_tick(&mut st, 95, 0, 0);
    update_game_time(&st, &cfg, &mut sp, 3, false);
    h4_tick(&mut st, 95, 1, 0);
    assert_eq!(update_game_time(&st, &cfg, &mut sp, 3, false), Some(1000));
    assert_eq!(sp.ingame_time, 60);
    assert!(sp.force_split);
}

#[test]
fn first_title_clock_runs_at_thirty() {
    let cfg = Settings::new();
    let mut st = GameState::new();
    let mut sp = SplitterState::new();
    st.mcc_loadindicator.update(Some(0));
    st.h1_igt.update(Some(45));
    assert_eq!(update_game_time(&st, &cfg, &mut sp, 0, false), Some(1500));
    let mut il = Settings::new();
    il.il_mode = true;
    assert_eq!(update_game_time(&st, &il, &mut sp, 0, false), None);
}

#[test]
fn fourth_title_splits_on_unlisted_region() {
    let mut cfg = Settings::new();
    cfg.bsp_mode = true;
    let mut st = GameState::new();
    let mut sp = SplitterState::new();
    st.h4_levelname.update(Some("m02".to_string()));
    st.h4_bspstate.update(Some(0));
    st.h4_bspstate.update(Some(0x0000000080000C02));
    assert!(!should_split_h4(&st, &cfg, &mut sp));
    st.h4_bspstate.update(Some(77));
    assert!(should_split_h4(&st, &cfg, &mut sp));
    assert!(sp.contains_dirty_bsp_long(77));
}

#[test]
fn competitive_timer_split() {
    let mut cfg = Settings::new();
    cfg.comp_splits = true;
    let mut st = GameState::new();
    let mut sp = SplitterState::new();
    st.odst_levelname.update(Some("l300".to_string()));
    st.mcc_loadindicator.update(Some(0));
    st.mcc_pgcrindicator.update(Some(0));
    st.mcc_igt_float.update(Some(f(3.0)));
    st.mcc_comptimerstate.update(Some(1));
    st.mcc_comptimerstate.update(Some(876414390));
    assert!(!should_split_odst(&st, &cfg, &mut sp));
    st.mcc_comptimerstate.update(Some(5));
    assert!(should_split_odst(&st, &cfg, &mut sp));
}

#[test]
fn tgj_visits_in_order() {
    let mut st = GameState::new();
    let mut sp = SplitterState::new();
    let mut visit = |st: &mut GameState, bsp: u8, x: f32, y: f32| {
        st.h2_bspstate.update(Some(bsp));
        st.h2_xpos.update(Some(f(x)));
        st.h2_ypos.update(Some(f(y)));
    };
    visit(&mut st, 2, 0.0, 0.0);
    visit(&mut st, 1, 0.0, -20.0);
    assert!(should_split_h2_tgj(&st, &mut sp));
    // The fourth visit needs the third.
    visit(&mut st, 0, 50.0, 0.0);
    assert!(!should_split_h2_tgj(&st, &mut sp));
    visit(&mut st, 2, 0.0, 0.0);
    visit(&mut st, 0, -15.0, 25.0);
    assert!(should_split_h2_tgj(&st, &mut sp));
    visit(&mut st, 1, 20.0, 20.0);
    assert!(should_split_h2_tgj(&st, &mut sp));
    visit(&mut st, 0, 50.0, 0.0);
    assert!(should_split_h2_tgj(&st, &mut sp));
    assert_eq!(sp.dirty_bsps_byte, vec![1, 10, 21, 20]);
}

#[test]
fn forced_split_wins_and_clears() {
    let cfg = Settings::new();
    let st = GameState::new();
    let mut sp = SplitterState::new();
    sp.add_dirty_bsp_byte(2);
    sp.force_split = true;
    assert!(!should_split(&st, &cfg, &mut sp, 0, 0));
    assert!(should_split(&st, &cfg, &mut sp, 0, 1));
    assert!(!sp.force_split && sp.dirty_bsps_byte.is_empty());
    assert!(!should_split(&st, &cfg, &mut sp, 0, 1));
}

#[test]
fn multi_title_pause_and_resume() {
    let cfg = Settings::new();
    let mut st = GameState::new();
    let mut sp = SplitterState::new();
    sp.game_time = 123456;
    st.mcc_loadindicator.update(Some(0));
    st.mcc_loadindicator.update(Some(1));
    st.h3_levelname.update(Some("130".to_string()));
    assert!(check_multigame_pause(&st, &cfg, &sp, 2));
    let d = handle_loading(&st, &cfg, &mut sp, 2, 1, 1, false);
    assert!(sp.multigame_pause && d.pause_game_time);
    assert_eq!(sp.multigame_time, 123456);
    assert_eq!(d.game_time, None);
    st.h4_levelname.update(Some("m10".to_string()));
    st.mcc_igt_float.update(Some(f(0.3)));
    assert!(check_multigame_resume(&st, 3));
    handle_loading(&st, &cfg, &mut sp, 3, 1, 0, false);
    assert!(!sp.multigame_pause);
}

#[test]
fn second_title_start_on_first_level() {
    let cfg = Settings::new();
    let mut st = GameState::new();
    let mut sp = SplitterState::new();
    st.h2_levelname.update(Some("01a".to_string()));
    st.h2_tickcounter.update(Some(27));
    assert!(!should_start(&st, &cfg, &mut sp, 1, 0));
    assert!(should_start(&st, &cfg, &mut sp, 1, 1));
    assert_eq!(sp.started_level, "01a");
    assert_eq!(sp.started_game, 1);
}

#[test]
fn fifth_title_records_scene() {
    let mut cfg = Settings::new();
    cfg.any_level = true;
    let mut st = GameState::new();
    let mut sp = SplitterState::new();
    st.odst_levelname.update(Some("sc10".to_string()));
    st.odst_streets.update(Some(3));
    st.mcc_igt_float.update(Some(f(0.2)));
    assert!(should_start(&st, &cfg, &mut sp, 5, 1));
    assert_eq!(sp.started_scene, 3);
    assert_eq!(sp.started_level, "sc10");
}
