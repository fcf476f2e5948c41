//! When an attempt is thrown away: the run is back at its own starting landmark.
use vstd::prelude::*;
use crate::cell::{bits_eq, bits_lt, Ieee32};
use crate::names::name_is;
use crate::snapshot::{GameState, Settings, TimerPhase, zero_f, F_IGT_START_LOW, F_ZERO};
use crate::splitter::{RunView, SplitterState};

verus! {

/// The launcher's in-game time went back below its intro mark, or a level is loading at zero.
pub open spec fn igt_restarted(st: &GameState) -> bool {
    let igt = st.mcc_igt_float.cur_or(zero_f()).bits;
    let igt_old = st.mcc_igt_float.prev_or(zero_f()).bits;
    (bits_lt(igt, igt_old) && bits_lt(igt, F_IGT_START_LOW)) || (st.mcc_loadindicator.cur_or(0) == 1
        && bits_eq(igt, F_ZERO))
}

fn igt_restart(st: &GameState) -> (r: bool)
    ensures
        r == igt_restarted(st),
{
    let igt = st.mcc_igt_float.current_or(Ieee32 { bits: 0 });
    let igt_old = st.mcc_igt_float.previous_or(Ieee32 { bits: 0 });
    (igt.less_than(&igt_old) && igt.below(F_IGT_START_LOW)) || (st.mcc_loadindicator.current_or(0)
        == 1 && igt.equals(F_ZERO))
}

/// A counter went back below 10, or a loading screen ended before tick 60.
pub open spec fn counter_restarted(igt: u32, igt_old: u32, st: &GameState, tick: u32) -> bool {
    (igt < igt_old && igt < 10) || (st.mcc_loadindicator.cur_or(0) == 0
        && st.mcc_loadindicator.prev_or(0) == 1 && tick < 60)
}

#[verifier::opaque]
pub open spec fn h1_resets(st: &GameState, cfg: &Settings, v: RunView) -> bool {
    let level = st.h1_levelname.cur();
    let target = if cfg.il_mode || cfg.any_level { v.started_level } else { "a10"@ };
    level == target && counter_restarted(
        st.h1_igt.cur_or(0),
        st.h1_igt.prev_or(0),
        st,
        st.h1_tickcounter.cur_or(0),
    )
}

#[verifier::opaque]
pub open spec fn h2_resets(st: &GameState, cfg: &Settings, v: RunView) -> bool {
    let level = st.h2_levelname.cur();
    let igt = st.h2_igt.cur_or(0);
    let igt_old = st.h2_igt.prev_or(0);
    if cfg.il_mode || cfg.any_level {
        level == v.started_level && ((igt < igt_old && igt < 10) || (st.mcc_loadindicator.cur_or(0)
            == 1 && igt == 0))
    } else {
        (level == "01a"@ || (level == "01b"@ && v.started_level != "01a"@) || level == "00a"@)
            && counter_restarted(igt, igt_old, st, st.h2_tickcounter.cur_or(0))
    }
}

#[verifier::opaque]
pub open spec fn h3_resets(st: &GameState, cfg: &Settings, v: RunView) -> bool {
    let level = st.h3_levelname.cur();
    let igt = st.mcc_igt_float.cur_or(zero_f()).bits;
    let igt_old = st.mcc_igt_float.prev_or(zero_f()).bits;
    let theater = st.h3_theatertime.cur_or(0);
    let tick = st.h3_tickcounter.cur_or(0);
    let tick_old = st.h3_tickcounter.prev_or(0);
    let load = st.mcc_loadindicator.cur_or(0);
    if cfg.il_mode {
        level == v.started_level && bits_lt(igt, igt_old) && bits_lt(igt, F_IGT_START_LOW)
    } else if cfg.any_level {
        level == v.started_level && theater > 0 && theater < 15
    } else if level == "005"@ {
        load == 0 && st.mcc_loadindicator.prev_or(0) == 1 && tick < 60
    } else if level == "010"@ {
        (theater > 0 && theater < 15) || (theater >= 15 && tick < tick_old && tick < 10 && load == 0)
    } else {
        false
    }
}

#[verifier::opaque]
pub open spec fn h4_resets(st: &GameState, cfg: &Settings, v: RunView) -> bool {
    let target = if cfg.il_mode || cfg.any_level { v.started_level } else { "m10"@ };
    st.h4_levelname.cur() == target && igt_restarted(st)
}

#[verifier::opaque]
pub open spec fn odst_resets(st: &GameState, cfg: &Settings, v: RunView) -> bool {
    let level = st.odst_levelname.cur();
    let streets = st.odst_streets.cur_or(0);
    if cfg.any_level || cfg.il_mode {
        level == v.started_level && v.started_scene == streets && igt_restarted(st)
    } else {
        (level == "c100"@ || (level == "h100"@ && streets == 0)) && igt_restarted(st)
    }
}

#[verifier::opaque]
pub open spec fn hr_resets(st: &GameState, cfg: &Settings, v: RunView) -> bool {
    let target = if cfg.il_mode || cfg.any_level { v.started_level } else { "m10"@ };
    st.hr_levelname.cur() == target && igt_restarted(st)
}

/// Whether the attempt is to be reset on this tick.
///
/// Only the title the attempt started on can reset it, and never once the timer has ended.
#[verifier::opaque]
pub open spec fn resets(
    st: &GameState,
    cfg: &Settings,
    v: RunView,
    game: u8,
    menu: u8,
    timer: TimerPhase,
) -> bool {
    if cfg.loop_mode {
        false
    } else if cfg.il_mode && menu == 0 && timer != TimerPhase::Ended {
        true
    } else if menu != 1 || timer == TimerPhase::Ended || v.started_game != game {
        false
    } else {
        match game {
            0 => h1_resets(st, cfg, v),
            1 => h2_resets(st, cfg, v),
            2 => h3_resets(st, cfg, v),
            3 => h4_resets(st, cfg, v),
            5 => odst_resets(st, cfg, v),
            6 => hr_resets(st, cfg, v),
            _ => false,
        }
    }
}

pub fn should_reset_h1(st: &GameState, cfg: &Settings, sp: &SplitterState, timer: TimerPhase) -> (r: bool)
    ensures
        r == (sp.started_game == 0 && timer != TimerPhase::Ended && h1_resets(st, cfg, sp@)),
{
    proof {
        reveal(h1_resets);
        reveal_strlit("a10");
    }
    if sp.started_game != 0 || timer == TimerPhase::Ended {
        return false;
    }
    let level = st.h1_levelname.current_name();
    let target = if cfg.il_mode || cfg.any_level { sp.started_level.as_str() } else { "a10" };
    if name_is(level, target) {
        let igt = st.h1_igt.current_or(0);
        let igt_old = st.h1_igt.previous_or(0);
        let tick = st.h1_tickcounter.current_or(0);
        return (igt < igt_old && igt < 10) || (st.mcc_loadindicator.current_or(0) == 0
            && st.mcc_loadindicator.previous_or(0) == 1 && tick < 60);
    }
    false
}

pub fn should_reset_h2(st: &GameState, cfg: &Settings, sp: &SplitterState, timer: TimerPhase) -> (r: bool)
    ensures
        r == (sp.started_game == 1 && timer != TimerPhase::Ended && h2_resets(st, cfg, sp@)),
{
    proof {
        reveal(h2_resets);
    }
    if sp.started_game != 1 || timer == TimerPhase::Ended {
        return false;
    }
    let level = st.h2_levelname.current_name();
    let igt = st.h2_igt.current_or(0);
    let igt_old = st.h2_igt.previous_or(0);
    let tick = st.h2_tickcounter.current_or(0);
    let load = st.mcc_loadindicator.current_or(0);
    let load_old = st.mcc_loadindicator.previous_or(0);
    if cfg.il_mode || cfg.any_level {
        if name_is(level, sp.started_level.as_str()) {
            return (igt < igt_old && igt < 10) || (load == 1 && igt == 0);
        }
    } else {
        if name_is(level, "01a") || (name_is(level, "01b") && !name_is(sp.started_level.as_str(), "01a"))
            || name_is(level, "00a") {
            return (igt < igt_old && igt < 10) || (load == 0 && load_old == 1 && tick < 60);
        }
    }
    false
}

pub fn should_reset_h3(st: &GameState, cfg: &Settings, sp: &SplitterState, timer: TimerPhase) -> (r: bool)
    ensures
        r == (sp.started_game == 2 && timer != TimerPhase::Ended && h3_resets(st, cfg, sp@)),
{
    proof {
        reveal(h3_resets);
    }
    if sp.started_game != 2 || timer == TimerPhase::Ended {
        return false;
    }
    let level = st.h3_levelname.current_name();
    let igt = st.mcc_igt_float.current_or(Ieee32 { bits: 0 });
    let igt_old = st.mcc_igt_float.previous_or(Ieee32 { bits: 0 });
    let theater = st.h3_theatertime.current_or(0);
    let tick = st.h3_tickcounter.current_or(0);
    let tick_old = st.h3_tickcounter.previous_or(0);
    let load = st.mcc_loadindicator.current_or(0);
    let load_old = st.mcc_loadindicator.previous_or(0);
    if cfg.il_mode {
        name_is(level, sp.started_level.as_str()) && igt.less_than(&igt_old) && igt.below(
            F_IGT_START_LOW,
        )
    } else if cfg.any_level {
        name_is(level, sp.started_level.as_str()) && theater > 0 && theater < 15
    } else if name_is(level, "005") {
        load == 0 && load_old == 1 && tick < 60
    } else if name_is(level, "010") {
        (theater > 0 && theater < 15) || (theater >= 15 && tick < tick_old && tick < 10 && load == 0)
    } else {
        false
    }
}

pub fn should_reset_h4(st: &GameState, cfg: &Settings, sp: &SplitterState, timer: TimerPhase) -> (r: bool)
    ensures
        r == (sp.started_game == 3 && timer != TimerPhase::Ended && h4_resets(st, cfg, sp@)),
{
    proof {
        reveal(h4_resets);
        reveal_strlit("m10");
    }
    if sp.started_game != 3 || timer == TimerPhase::Ended {
        return false;
    }
    let target = if cfg.il_mode || cfg.any_level { sp.started_level.as_str() } else { "m10" };
    name_is(st.h4_levelname.current_name(), target) && igt_restart(st)
}

pub fn should_reset_odst(st: &GameState, cfg: &Settings, sp: &SplitterState, timer: TimerPhase) -> (r: bool)
    ensures
        r == (sp.started_game == 5 && timer != TimerPhase::Ended && odst_resets(st, cfg, sp@)),
{
    proof {
        reveal(odst_resets);
    }
    if sp.started_game != 5 || timer == TimerPhase::Ended {
        return false;
    }
    let level = st.odst_levelname.current_name();
    let streets = st.odst_streets.current_or(0);
    if cfg.any_level || cfg.il_mode {
        name_is(level, sp.started_level.as_str()) && sp.started_scene == streets && igt_restart(st)
    } else {
        (name_is(level, "c100") || (name_is(level, "h100") && streets == 0)) && igt_restart(st)
    }
}

pub fn should_reset_hr(st: &GameState, cfg: &Settings, sp: &SplitterState, timer: TimerPhase) -> (r: bool)
    ensures
        r == (sp.started_game == 6 && timer != TimerPhase::Ended && hr_resets(st, cfg, sp@)),
{
    proof {
        reveal(hr_resets);
        reveal_strlit("m10");
    }
    if sp.started_game != 6 || timer == TimerPhase::Ended {
        return false;
    }
    let target = if cfg.il_mode || cfg.any_level { sp.started_level.as_str() } else { "m10" };
    name_is(st.hr_levelname.current_name(), target) && igt_restart(st)
}

/// Checks whether the attempt is back at its own starting landmark; in individual-level
/// mode returning to the main menu resets too. Loop mode never resets.
pub fn should_reset(
    st: &GameState,
    cfg: &Settings,
    sp: &SplitterState,
    current_game: u8,
    menu_indicator: u8,
    timer: TimerPhase,
) -> (r: bool)
    ensures
        r == resets(st, cfg, sp@, current_game, menu_indicator, timer),
{
    proof {
        reveal(resets);
    }
    if cfg.loop_mode {
        return false;
    }
    if cfg.il_mode && menu_indicator == 0 && timer != TimerPhase::Ended {
        return true;
    }
    if menu_indicator != 1 {
        return false;
    }
    match current_game {
        0 => should_reset_h1(st, cfg, sp, timer),
        1 => should_reset_h2(st, cfg, sp, timer),
        2 => should_reset_h3(st, cfg, sp, timer),
        3 => should_reset_h4(st, cfg, sp, timer),
        5 => should_reset_odst(st, cfg, sp, timer),
        6 => should_reset_hr(st, cfg, sp, timer),
        _ => false,
    }
}

} // verus!
