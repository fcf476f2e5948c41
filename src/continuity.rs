//! Multi-title runs: pausing at one title's ending and resuming at the next title's start.
use vstd::prelude::*;
use crate::cell::{bits_lt, Ieee32};
use crate::clock::{
    clock_step, h1_loading_after, h2_loading_after, handle_h1_loading, handle_h2_loading,
    letterbox_closes, letterbox_closing, update_game_time,
};
use crate::names::name_is;
use crate::snapshot::{GameState, Settings, zero_f, F_MAW_END_X, F_POA_START_X};
use crate::split::load_edge;
use crate::splitter::{same_markers, RunView, SplitterState};
use crate::start::{igt_in_start_band, igt_start_band};

verus! {

/// A post-game report appeared on this tick.
pub open spec fn pgcr_edge(st: &GameState) -> bool {
    st.mcc_pgcrindicator.cur_or(0) == 1 && st.mcc_pgcrindicator.prev_or(0) == 0
}

/// The ending landmark of the title reported by `game`, which pauses a full-game run
/// until the next title starts.
#[verifier::opaque]
pub open spec fn title_ends(st: &GameState, cfg: &Settings, v: RunView, game: u8) -> bool {
    if cfg.il_mode || cfg.any_level {
        false
    } else if game == 0 {
        st.h1_levelname.cur() == "d40"@ && !st.h1_cinematic.prev_or(false) && st.h1_cinematic.cur_or(
            false,
        ) && !st.h1_cutsceneskip.cur_or(false) && bits_lt(
            F_MAW_END_X,
            st.h1_xpos.cur_or(zero_f()).bits,
        ) && !st.h1_deathflag.cur_or(false)
    } else if game == 1 {
        st.h2_levelname.cur() == "08b"@ && st.h2_fadebyte.cur_or(0) == 1 && letterbox_closes(st)
            && v.h2_tgj_ready_flag && st.h2_tickcounter.cur_or(0) > v.h2_tgj_ready_time + 300
    } else if game == 2 {
        load_edge(st) && st.h3_levelname.cur() == "130"@
    } else if game == 3 {
        pgcr_edge(st) && st.h4_levelname.cur() == "m90"@
    } else if game == 5 {
        pgcr_edge(st) && st.odst_levelname.cur() == "l300"@
    } else if game == 6 {
        pgcr_edge(st) && st.hr_levelname.cur() == "m70"@
    } else {
        false
    }
}

/// The canonical start landmark of the title reported by `game`, which resumes a paused
/// multi-title run.
#[verifier::opaque]
pub open spec fn title_resumes(st: &GameState, game: u8) -> bool {
    if game == 0 {
        st.h1_levelname.cur() == "a10"@ && st.h1_bspstate.cur_or(255) == 0 && bits_lt(
            st.h1_xpos.cur_or(zero_f()).bits,
            F_POA_START_X,
        ) && st.h1_tickcounter.cur_or(0) > 280 && !st.h1_cinematic.cur_or(false)
            && st.h1_cinematic.prev_or(false)
    } else if game == 1 {
        let level = st.h2_levelname.cur();
        let tick = st.h2_tickcounter.cur_or(0);
        (level == "01a"@ && tick >= 26 && tick < 30) || (level == "01b"@ && st.mcc_loadindicator.cur_or(0)
            == 0 && st.h2_fadebyte.cur_or(0) == 0 && st.h2_fadebyte.prev_or(0) == 1 && tick < 30)
    } else if game == 2 {
        st.h3_levelname.cur() == "010"@ && st.h3_theatertime.cur_or(0) > 15 && st.h3_theatertime.cur_or(
            0,
        ) < 30
    } else if game == 3 {
        st.h4_levelname.cur() == "m10"@ && igt_in_start_band(st)
    } else if game == 5 {
        st.odst_levelname.cur() == "h100"@ && st.odst_streets.cur_or(0) == 0 && igt_in_start_band(st)
    } else if game == 6 {
        st.hr_levelname.cur() == "m10"@ && igt_in_start_band(st)
    } else {
        false
    }
}

pub fn check_multigame_pause(st: &GameState, cfg: &Settings, sp: &SplitterState, current_game: u8) -> (r: bool)
    ensures
        r == title_ends(st, cfg, sp@, current_game),
{
    proof {
        reveal(title_ends);
    }
    if cfg.il_mode || cfg.any_level {
        return false;
    }
    if current_game == 0 {
        name_is(st.h1_levelname.current_name(), "d40") && !st.h1_cinematic.previous_or(false)
            && st.h1_cinematic.current_or(false) && !st.h1_cutsceneskip.current_or(false)
            && st.h1_xpos.current_or(Ieee32 { bits: 0 }).above(F_MAW_END_X)
            && !st.h1_deathflag.current_or(false)
    } else if current_game == 1 {
        name_is(st.h2_levelname.current_name(), "08b") && st.h2_fadebyte.current_or(0) == 1
            && letterbox_closing(st) && sp.h2_tgj_ready_flag && st.h2_tickcounter.current_or(0) as u64
            > sp.h2_tgj_ready_time as u64 + 300
    } else if current_game == 2 {
        st.mcc_loadindicator.current_or(0) == 1 && st.mcc_loadindicator.previous_or(0) == 0
            && name_is(st.h3_levelname.current_name(), "130")
    } else if current_game == 3 {
        pgcr_rises(st) && name_is(st.h4_levelname.current_name(), "m90")
    } else if current_game == 5 {
        pgcr_rises(st) && name_is(st.odst_levelname.current_name(), "l300")
    } else if current_game == 6 {
        pgcr_rises(st) && name_is(st.hr_levelname.current_name(), "m70")
    } else {
        false
    }
}

fn pgcr_rises(st: &GameState) -> (r: bool)
    ensures
        r == pgcr_edge(st),
{
    st.mcc_pgcrindicator.current_or(0) == 1 && st.mcc_pgcrindicator.previous_or(0) == 0
}

pub fn check_multigame_resume(st: &GameState, current_game: u8) -> (r: bool)
    ensures
        r == title_resumes(st, current_game),
{
    proof {
        reveal(title_resumes);
    }
    if current_game == 0 {
        name_is(st.h1_levelname.current_name(), "a10") && st.h1_bspstate.current_or(255) == 0
            && st.h1_xpos.current_or(Ieee32 { bits: 0 }).below(F_POA_START_X)
            && st.h1_tickcounter.current_or(0) > 280 && !st.h1_cinematic.current_or(false)
            && st.h1_cinematic.previous_or(false)
    } else if current_game == 1 {
        let level = st.h2_levelname.current_name();
        let tick = st.h2_tickcounter.current_or(0);
        (name_is(level, "01a") && tick >= 26 && tick < 30) || (name_is(level, "01b")
            && st.mcc_loadindicator.current_or(0) == 0 && st.h2_fadebyte.current_or(0) == 0
            && st.h2_fadebyte.previous_or(0) == 1 && tick < 30)
    } else if current_game == 2 {
        name_is(st.h3_levelname.current_name(), "010") && st.h3_theatertime.current_or(0) > 15
            && st.h3_theatertime.current_or(0) < 30
    } else if current_game == 3 {
        name_is(st.h4_levelname.current_name(), "m10") && igt_start_band(st)
    } else if current_game == 5 {
        name_is(st.odst_levelname.current_name(), "h100") && st.odst_streets.current_or(0) == 0
            && igt_start_band(st)
    } else if current_game == 6 {
        name_is(st.hr_levelname.current_name(), "m10") && igt_start_band(st)
    } else {
        false
    }
}

/// What the loading step asks of the timer: whether its game clock is paused, and the
/// game time in milliseconds to report, if any.
pub struct LoadingDecision {
    pub pause_game_time: bool,
    pub game_time: Option<u64>,
}

/// The run state after the multi-title check: a pause banks the game time and, for the
/// first two titles, arms a split unless this tick has already split; a resume ends the
/// pause.
pub open spec fn after_continuity(
    st: &GameState,
    cfg: &Settings,
    v: RunView,
    game: u8,
    split_this_tick: bool,
) -> RunView {
    if !v.multigame_pause && !cfg.il_mode {
        if title_ends(st, cfg, v, game) {
            RunView {
                multigame_pause: true,
                multigame_time: v.game_time,
                force_split: v.force_split || ((game == 0 || game == 1) && !split_this_tick),
                h2_tgj_ready_flag: if game == 1 { false } else { v.h2_tgj_ready_flag },
                ..v
            }
        } else {
            v
        }
    } else if v.multigame_pause && title_resumes(st, game) {
        RunView { multigame_pause: false, ..v }
    } else {
        v
    }
}

/// The run state after load removal for the first two titles, in full-game real-time mode.
pub open spec fn after_load_removal(st: &GameState, cfg: &Settings, v: RunView, game: u8, load: u8) -> RunView {
    if v.multigame_pause || cfg.igt_mode || cfg.il_mode {
        v
    } else if game == 0 {
        RunView { loading: h1_loading_after(st, v, load), ..v }
    } else if game == 1 {
        RunView { loading: h2_loading_after(st, v, load), ..v }
    } else {
        v
    }
}

/// The loading step of one tick: the pause decision, the game time, and the state after it.
#[verifier::opaque]
pub open spec fn loading_step(
    st: &GameState,
    cfg: &Settings,
    v: RunView,
    game: u8,
    menu: u8,
    load: u8,
    split_this_tick: bool,
) -> (bool, Option<u64>, RunView) {
    let v1 = after_continuity(st, cfg, v, game, split_this_tick);
    let pause = v1.multigame_pause || (cfg.menu_pause && (load == 1 || menu == 0)) || v1.loading;
    let v2 = after_load_removal(st, cfg, v1, game, load);
    if menu == 1 && !v2.multigame_pause {
        let (gt, v3) = clock_step(st, cfg, v2, game, split_this_tick);
        (pause, gt, v3)
    } else {
        (pause, None, v2)
    }
}

fn follow_titles(st: &GameState, cfg: &Settings, sp: &mut SplitterState, current_game: u8, split_this_tick: bool)
    ensures
        final(sp)@ == after_continuity(st, cfg, old(sp)@, current_game, split_this_tick),
{
    if !sp.multigame_pause && !cfg.il_mode {
        if check_multigame_pause(st, cfg, sp, current_game) {
            sp.multigame_pause = true;
            sp.multigame_time = sp.game_time;
            if (current_game == 0 || current_game == 1) && !split_this_tick {
                sp.force_split = true;
            }
            if current_game == 1 {
                sp.h2_tgj_ready_flag = false;
            }
        }
    } else if sp.multigame_pause {
        if check_multigame_resume(st, current_game) {
            sp.multigame_pause = false;
        }
    }
}

fn remove_loads(st: &GameState, cfg: &Settings, sp: &mut SplitterState, current_game: u8, load_indicator: u8)
    ensures
        final(sp)@ == after_load_removal(st, cfg, old(sp)@, current_game, load_indicator),
{
    if !sp.multigame_pause && !cfg.igt_mode && !cfg.il_mode {
        if current_game == 0 {
            handle_h1_loading(st, sp, load_indicator);
        } else if current_game == 1 {
            handle_h2_loading(st, sp, load_indicator);
        }
    }
}

/// Runs the multi-title check, decides whether the game clock pauses, removes loads for
/// the real-time titles and advances the virtual clock.
pub fn handle_loading(
    st: &GameState,
    cfg: &Settings,
    sp: &mut SplitterState,
    current_game: u8,
    menu_indicator: u8,
    load_indicator: u8,
    split_this_tick: bool,
) -> (r: LoadingDecision)
    ensures
        (r.pause_game_time, r.game_time, final(sp)@) == loading_step(
            st,
            cfg,
            old(sp)@,
            current_game,
            menu_indicator,
            load_indicator,
            split_this_tick,
        ),
        same_markers(final(sp)@, old(sp)@),
{
    proof {
        reveal(loading_step);
    }
    follow_titles(st, cfg, sp, current_game, split_this_tick);

    let pause = sp.multigame_pause || (cfg.menu_pause && (load_indicator == 1 || menu_indicator == 0))
        || sp.loading;

    remove_loads(st, cfg, sp, current_game, load_indicator);

    let game_time = if menu_indicator == 1 && !sp.multigame_pause {
        update_game_time(st, cfg, sp, current_game, split_this_tick)
    } else {
        None
    };
    LoadingDecision { pause_game_time: pause, game_time }
}

} // verus!
