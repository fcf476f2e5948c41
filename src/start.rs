//! When an attempt starts: one landmark condition per title.
use vstd::prelude::*;
use crate::cell::{bits_lt, Ieee32};
use crate::names::name_is;
use crate::snapshot::{GameState, Settings, zero_f, F_HALF, F_IGT_START_LOW, F_POA_START_X};
use crate::splitter::{same_markers, RunView, SplitterState};
use vstd::string::*;

verus! {

/// The launcher's in-game time lies in the band that follows a level's intro.
pub open spec fn igt_in_start_band(st: &GameState) -> bool {
    let igt = st.mcc_igt_float.cur_or(zero_f()).bits;
    bits_lt(F_IGT_START_LOW, igt) && bits_lt(igt, F_HALF)
}

pub fn igt_start_band(st: &GameState) -> (r: bool)
    ensures
        r == igt_in_start_band(st),
{
    let igt = st.mcc_igt_float.current_or(Ieee32 { bits: 0 });
    igt.above(F_IGT_START_LOW) && igt.below(F_HALF)
}

/// The first title's start landmark.
#[verifier::opaque]
pub open spec fn h1_starts(st: &GameState, cfg: &Settings) -> bool {
    let level = st.h1_levelname.cur();
    let bsp = st.h1_bspstate.cur_or(255);
    let x = st.h1_xpos.cur_or(zero_f()).bits;
    let tick = st.h1_tickcounter.cur_or(0);
    let cinematic_end = !st.h1_cinematic.cur_or(false) && st.h1_cinematic.prev_or(false);
    let skip = st.h1_cutsceneskip.cur_or(false);
    let skip_end = !skip && st.h1_cutsceneskip.prev_or(false);
    let chosen = cfg.il_mode || cfg.any_level;
    &&& st.h1_levelname.initialized
    &&& level.len() > 0
    &&& if level == "a10"@ {
        bsp == 0 && bits_lt(x, F_POA_START_X) && tick > 280 && cinematic_end
    } else if level == "a30"@ {
        chosen && ((182 <= tick && tick < 190) || (cinematic_end && tick > 500 && tick < 900)) && !skip
    } else if level == "a50"@ {
        chosen && tick > 30 && tick < 900 && cinematic_end
    } else if level == "b30"@ {
        chosen && tick > 30 && tick < 1060 && cinematic_end
    } else if level == "b40"@ {
        chosen && tick > 30 && tick < 950 && cinematic_end
    } else if level == "c10"@ {
        chosen && tick > 30 && tick < 700 && cinematic_end
    } else if level == "c20"@ || level == "c40"@ || level == "d20"@ || level == "d40"@ {
        chosen && skip_end
    } else {
        cfg.any_start && (skip_end || (tick > 30 && cinematic_end))
    }
}

/// The second title's start landmark.
#[verifier::opaque]
pub open spec fn h2_starts(st: &GameState, cfg: &Settings) -> bool {
    let level = st.h2_levelname.cur();
    let tick = st.h2_tickcounter.cur_or(0);
    let fade = st.h2_fadebyte.cur_or(0);
    let fade_old = st.h2_fadebyte.prev_or(0);
    let igt = st.h2_igt.cur_or(0);
    let load = st.mcc_loadindicator.cur_or(0);
    let bsp = st.h2_bspstate.cur_or(255);
    let fadetick = st.h2_fadetick.cur_or(0);
    let fadelength = st.h2_fadelength.cur_or(0);
    &&& st.h2_levelname.initialized
    &&& if cfg.il_mode && level != "01a"@ {
        igt > 10 && igt < 30
    } else if level == "01a"@ && tick >= 26 && tick < 30 {
        true
    } else if level == "01b"@ && load == 0 && fade == 0 && fade_old == 1 && tick < 30 {
        true
    } else if (cfg.any_level || cfg.il_mode) && load == 0 {
        if level == "03a"@ {
            fade == 1 && bsp == 0 && tick > 10 && tick < 100 && fadelength > 15
                && tick >= fadetick + fadelength * 67 / 1000
        } else {
            fade == 0 && fade_old == 1 && tick < 120
        }
    } else {
        false
    }
}

/// The third title's start landmark; `reset_seen` tells whether its first level was restarted.
#[verifier::opaque]
pub open spec fn h3_starts(st: &GameState, cfg: &Settings, reset_seen: bool) -> bool {
    let level = st.h3_levelname.cur();
    let theater = st.h3_theatertime.cur_or(0);
    let tick = st.h3_tickcounter.cur_or(0);
    let tick_old = st.h3_tickcounter.prev_or(0);
    let load = st.mcc_loadindicator.cur_or(0);
    &&& st.h3_levelname.initialized
    &&& if cfg.il_mode {
        igt_in_start_band(st)
    } else if cfg.any_level || level == "010"@ {
        (load == 0 && theater > 15 && theater < 30) || (reset_seen && level == "010"@ && tick > 0
            && tick < 15 && tick > tick_old)
    } else {
        false
    }
}

/// The fourth title's start landmark.
#[verifier::opaque]
pub open spec fn h4_starts(st: &GameState, cfg: &Settings) -> bool {
    &&& st.h4_levelname.initialized
    &&& cfg.il_mode || cfg.any_level || st.h4_levelname.cur() == "m10"@
    &&& igt_in_start_band(st)
}

/// The fifth title's start landmark.
#[verifier::opaque]
pub open spec fn odst_starts(st: &GameState, cfg: &Settings) -> bool {
    &&& st.odst_levelname.initialized
    &&& cfg.il_mode || cfg.any_level || (st.odst_levelname.cur() == "h100"@ && st.odst_streets.cur_or(
        0,
    ) == 0)
    &&& igt_in_start_band(st)
}

/// The sixth title's start landmark.
#[verifier::opaque]
pub open spec fn hr_starts(st: &GameState, cfg: &Settings) -> bool {
    &&& st.hr_levelname.initialized
    &&& cfg.il_mode || cfg.any_level || st.hr_levelname.cur() == "m10"@
    &&& igt_in_start_band(st)
}

/// The run state after a start check on `level`: the level is recorded when `started`.
pub open spec fn record_start(v: RunView, started: bool, level: Seq<char>) -> RunView {
    if started {
        RunView { started_level: level, ..v }
    } else {
        v
    }
}

/// Whether the title reported by `game` is at its start landmark.
pub open spec fn title_starts(st: &GameState, cfg: &Settings, v: RunView, game: u8) -> bool {
    match game {
        0 => h1_starts(st, cfg),
        1 => h2_starts(st, cfg),
        2 => h3_starts(st, cfg, v.h3_reset_flag),
        3 => h4_starts(st, cfg),
        5 => odst_starts(st, cfg),
        6 => hr_starts(st, cfg),
        _ => false,
    }
}

/// The current level name of the title reported by `game`.
pub open spec fn level_of(st: &GameState, game: u8) -> Seq<char> {
    match game {
        0 => st.h1_levelname.cur(),
        1 => st.h2_levelname.cur(),
        2 => st.h3_levelname.cur(),
        3 => st.h4_levelname.cur(),
        5 => st.odst_levelname.cur(),
        6 => st.hr_levelname.cur(),
        _ => Seq::empty(),
    }
}

/// Whether an attempt starts on this tick.
#[verifier::opaque]
pub open spec fn starts(st: &GameState, cfg: &Settings, v: RunView, game: u8, menu: u8) -> bool {
    menu == 1 && !v.vars_reset && title_starts(st, cfg, v, game)
}

/// The run state after a start check: the title is recorded whenever the check runs,
/// and the level (and for the fifth title the scene) when the attempt starts.
#[verifier::opaque]
pub open spec fn after_start_check(st: &GameState, cfg: &Settings, v: RunView, game: u8, menu: u8) -> RunView {
    if menu != 1 || v.vars_reset {
        v
    } else {
        let v1 = RunView { started_game: game, ..v };
        if title_starts(st, cfg, v, game) {
            RunView {
                started_level: level_of(st, game),
                started_scene: if game == 5 { st.odst_streets.cur_or(0) } else { v.started_scene },
                ..v1
            }
        } else {
            v1
        }
    }
}

pub fn should_start_h1(st: &GameState, cfg: &Settings, sp: &mut SplitterState) -> (r: bool)
    ensures
        r == h1_starts(st, cfg),
        final(sp)@ == record_start(old(sp)@, r, st.h1_levelname.cur()),
{
    proof {
        reveal(h1_starts);
    }
    if !st.h1_levelname.initialized {
        return false;
    }
    let level = st.h1_levelname.current.as_str();
    if level.unicode_len() == 0 {
        return false;
    }
    let bsp = st.h1_bspstate.current_or(255);
    let x = st.h1_xpos.current_or(Ieee32 { bits: 0 });
    let tick = st.h1_tickcounter.current_or(0);
    let cinematic_end = !st.h1_cinematic.current_or(false) && st.h1_cinematic.previous_or(false);
    let skip = st.h1_cutsceneskip.current_or(false);
    let skip_end = !skip && st.h1_cutsceneskip.previous_or(false);
    let chosen = cfg.il_mode || cfg.any_level;

    let start = if name_is(level, "a10") {
        bsp == 0 && x.below(F_POA_START_X) && tick > 280 && cinematic_end
    } else if name_is(level, "a30") {
        chosen && ((182 <= tick && tick < 190) || (cinematic_end && tick > 500 && tick < 900)) && !skip
    } else if name_is(level, "a50") {
        chosen && tick > 30 && tick < 900 && cinematic_end
    } else if name_is(level, "b30") {
        chosen && tick > 30 && tick < 1060 && cinematic_end
    } else if name_is(level, "b40") {
        chosen && tick > 30 && tick < 950 && cinematic_end
    } else if name_is(level, "c10") {
        chosen && tick > 30 && tick < 700 && cinematic_end
    } else if name_is(level, "c20") || name_is(level, "c40") || name_is(level, "d20") || name_is(
        level,
        "d40",
    ) {
        chosen && skip_end
    } else {
        cfg.any_start && (skip_end || (tick > 30 && cinematic_end))
    };

    if start {
        sp.started_level = level.to_owned();
    }
    start
}

pub fn should_start_h2(st: &GameState, cfg: &Settings, sp: &mut SplitterState) -> (r: bool)
    ensures
        r == h2_starts(st, cfg),
        final(sp)@ == record_start(old(sp)@, r, st.h2_levelname.cur()),
{
    proof {
        reveal(h2_starts);
    }
    if !st.h2_levelname.initialized {
        return false;
    }
    let level = st.h2_levelname.current.as_str();
    let tick = st.h2_tickcounter.current_or(0);
    let fade = st.h2_fadebyte.current_or(0);
    let fade_old = st.h2_fadebyte.previous_or(0);
    let igt = st.h2_igt.current_or(0);
    let load = st.mcc_loadindicator.current_or(0);
    let bsp = st.h2_bspstate.current_or(255);

    let start = if cfg.il_mode && !name_is(level, "01a") {
        igt > 10 && igt < 30
    } else if name_is(level, "01a") && tick >= 26 && tick < 30 {
        true
    } else if name_is(level, "01b") && load == 0 && fade == 0 && fade_old == 1 && tick < 30 {
        true
    } else if (cfg.any_level || cfg.il_mode) && load == 0 {
        if name_is(level, "03a") {
            let fadetick = st.h2_fadetick.current_or(0);
            let fadelength = st.h2_fadelength.current_or(0);
            fade == 1 && bsp == 0 && tick > 10 && tick < 100 && fadelength > 15 && tick as u64
                >= fadetick as u64 + fadelength as u64 * 67 / 1000
        } else {
            fade == 0 && fade_old == 1 && tick < 120
        }
    } else {
        false
    };

    if start {
        sp.started_level = level.to_owned();
    }
    start
}

pub fn should_start_h3(st: &GameState, cfg: &Settings, sp: &mut SplitterState) -> (r: bool)
    ensures
        r == h3_starts(st, cfg, old(sp).h3_reset_flag),
        final(sp)@ == record_start(old(sp)@, r, st.h3_levelname.cur()),
{
    proof {
        reveal(h3_starts);
    }
    if !st.h3_levelname.initialized {
        return false;
    }
    let level = st.h3_levelname.current.as_str();
    let theater = st.h3_theatertime.current_or(0);
    let tick = st.h3_tickcounter.current_or(0);
    let tick_old = st.h3_tickcounter.previous_or(0);
    let load = st.mcc_loadindicator.current_or(0);

    let start = if cfg.il_mode {
        igt_start_band(st)
    } else if cfg.any_level || name_is(level, "010") {
        (load == 0 && theater > 15 && theater < 30) || (sp.h3_reset_flag && name_is(level, "010")
            && tick > 0 && tick < 15 && tick > tick_old)
    } else {
        false
    };

    if start {
        sp.started_level = level.to_owned();
    }
    start
}

pub fn should_start_h4(st: &GameState, cfg: &Settings, sp: &mut SplitterState) -> (r: bool)
    ensures
        r == h4_starts(st, cfg),
        final(sp)@ == record_start(old(sp)@, r, st.h4_levelname.cur()),
{
    proof {
        reveal(h4_starts);
    }
    if !st.h4_levelname.initialized {
        return false;
    }
    let level = st.h4_levelname.current.as_str();
    let start = (cfg.il_mode || cfg.any_level || name_is(level, "m10")) && igt_start_band(st);
    if start {
        sp.started_level = level.to_owned();
    }
    start
}

pub fn should_start_odst(st: &GameState, cfg: &Settings, sp: &mut SplitterState) -> (r: bool)
    ensures
        r == odst_starts(st, cfg),
        final(sp)@ == (if r {
            RunView {
                started_level: st.odst_levelname.cur(),
                started_scene: st.odst_streets.cur_or(0),
                ..old(sp)@
            }
        } else {
            old(sp)@
        }),
{
    proof {
        reveal(odst_starts);
    }
    if !st.odst_levelname.initialized {
        return false;
    }
    let level = st.odst_levelname.current.as_str();
    let streets = st.odst_streets.current_or(0);
    let start = (cfg.il_mode || cfg.any_level || (name_is(level, "h100") && streets == 0))
        && igt_start_band(st);
    if start {
        sp.started_level = level.to_owned();
        sp.started_scene = streets;
    }
    start
}

pub fn should_start_hr(st: &GameState, cfg: &Settings, sp: &mut SplitterState) -> (r: bool)
    ensures
        r == hr_starts(st, cfg),
        final(sp)@ == record_start(old(sp)@, r, st.hr_levelname.cur()),
{
    proof {
        reveal(hr_starts);
    }
    if !st.hr_levelname.initialized {
        return false;
    }
    let level = st.hr_levelname.current.as_str();
    let start = (cfg.il_mode || cfg.any_level || name_is(level, "m10")) && igt_start_band(st);
    if start {
        sp.started_level = level.to_owned();
    }
    start
}

/// Checks the start landmark of the title reported by `current_game`, while the launcher
/// is in a level (`menu_indicator == 1`) and no attempt is under way.
pub fn should_start(
    st: &GameState,
    cfg: &Settings,
    sp: &mut SplitterState,
    current_game: u8,
    menu_indicator: u8,
) -> (r: bool)
    ensures
        r == starts(st, cfg, old(sp)@, current_game, menu_indicator),
        final(sp)@ == after_start_check(st, cfg, old(sp)@, current_game, menu_indicator),
        same_markers(final(sp)@, old(sp)@),
{
    proof {
        reveal(starts);
        reveal(after_start_check);
    }
    if menu_indicator != 1 || sp.vars_reset {
        return false;
    }
    sp.started_game = current_game;
    match current_game {
        0 => should_start_h1(st, cfg, sp),
        1 => should_start_h2(st, cfg, sp),
        2 => should_start_h3(st, cfg, sp),
        3 => should_start_h4(st, cfg, sp),
        5 => should_start_odst(st, cfg, sp),
        6 => should_start_hr(st, cfg, sp),
        _ => false,
    }
}

} // verus!
