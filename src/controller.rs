//! The run controller: one decision pass per tick, from the timer's phase to timer actions.
use vstd::prelude::*;
use crate::continuity::{handle_loading, loading_step};
use crate::names::name_is;
use crate::reset::{resets, should_reset};
use crate::snapshot::{GameState, Settings, TimerPhase};
use crate::split::{should_split, split_step};
use crate::splitter::{fresh_run, same_markers, RunView, SplitterState};
use crate::start::{after_start_check, should_start, starts};

verus! {

/// The calls that one tick asks of the external timer.
#[derive(Clone, Copy, PartialEq, Eq, Structural, Debug)]
pub struct TickActions {
    pub start: bool,
    pub reset: bool,
    pub split: bool,
    /// `Some(true)` pauses the game clock, `Some(false)` resumes it.
    pub pause_game_time: Option<bool>,
    /// The game time to show, in milliseconds.
    pub game_time: Option<u64>,
    /// The new death count, to show.
    pub deaths: Option<u32>,
}

pub open spec fn no_actions() -> TickActions {
    TickActions {
        start: false,
        reset: false,
        split: false,
        pause_game_time: None,
        game_time: None,
        deaths: None,
    }
}

/// The run state after the per-tick flag upkeep that precedes every decision.
#[verifier::opaque]
pub open spec fn after_upkeep(st: &GameState, cfg: &Settings, v: RunView) -> RunView {
    let menu = st.mcc_menuindicator.cur_or(0);
    let game = st.mcc_gameindicator.cur_or(10);
    let v1 = if menu == 0 {
        RunView { h3_reset_flag: false, pgcr_exists: false, ..v }
    } else {
        v
    };
    if game == 1 && menu == 1 {
        after_tgj_flag(st, v1)
    } else if game == 2 && menu == 1 && !cfg.il_mode && !cfg.any_level {
        RunView {
            h3_reset_flag: v1.h3_reset_flag || (st.h3_levelname.cur() == "010"@
                && st.h3_theatertime.cur_or(0) >= 15),
            ..v1
        }
    } else {
        v1
    }
}

/// The second title's last level is ready to end once its region 3 has been reached;
/// a change of level takes the readiness back.
pub open spec fn after_tgj_flag(st: &GameState, v: RunView) -> RunView {
    let level = st.h2_levelname.cur();
    let v1 = if level == "08b"@ && !v.h2_tgj_ready_flag && st.h2_bspstate.cur_or(255) == 3 {
        RunView { h2_tgj_ready_flag: true, h2_tgj_ready_time: st.h2_tickcounter.cur_or(0), ..v }
    } else {
        v
    };
    if level != st.h2_levelname.prev() {
        RunView { h2_tgj_ready_flag: false, h2_tgj_ready_time: 0, ..v1 }
    } else {
        v1
    }
}

pub fn update_h2_tgj_flag(st: &GameState, sp: &mut SplitterState)
    ensures
        final(sp)@ == after_tgj_flag(st, old(sp)@),
{
    let level = st.h2_levelname.current_name();
    if name_is(level, "08b") && !sp.h2_tgj_ready_flag {
        if st.h2_bspstate.current_or(255) == 3 {
            sp.h2_tgj_ready_flag = true;
            sp.h2_tgj_ready_time = st.h2_tickcounter.current_or(0);
        }
    }
    if !name_is(level, st.h2_levelname.previous_name()) {
        sp.h2_tgj_ready_flag = false;
        sp.h2_tgj_ready_time = 0;
    }
}

pub fn update_h3_reset_flag(st: &GameState, sp: &mut SplitterState)
    ensures
        final(sp)@ == (RunView {
            h3_reset_flag: old(sp).h3_reset_flag || (st.h3_levelname.cur() == "010"@
                && st.h3_theatertime.cur_or(0) >= 15),
            ..old(sp)@
        }),
{
    if name_is(st.h3_levelname.current_name(), "010") && st.h3_theatertime.current_or(0) >= 15 {
        sp.h3_reset_flag = true;
    }
}

/// Upkeep before the decisions of a tick: outside a level the third title's restart
/// record and the report flag are dropped; in a level the flags of the second and third
/// titles follow their landmarks.
pub fn update_splitter_state(st: &GameState, cfg: &Settings, sp: &mut SplitterState)
    ensures
        final(sp)@ == after_upkeep(st, cfg, old(sp)@),
        same_markers(final(sp)@, old(sp)@),
{
    proof {
        reveal(after_upkeep);
    }
    let menu = st.mcc_menuindicator.current_or(0);
    if menu == 0 {
        sp.h3_reset_flag = false;
        sp.pgcr_exists = false;
    }
    let game = st.mcc_gameindicator.current_or(10);
    if game == 1 && menu == 1 {
        update_h2_tgj_flag(st, sp);
    }
    if game == 2 && menu == 1 && !cfg.il_mode && !cfg.any_level {
        update_h3_reset_flag(st, sp);
    }
}

/// Whether the title reported by `game` shows a fresh death on this tick.
pub open spec fn died(st: &GameState, game: u8) -> bool {
    match game {
        0 => st.h1_deathflag.spec_changed_to(true),
        1 => st.h2_deathflag.spec_changed_to(true),
        2 => st.h3_deathflag.spec_changed_to(true),
        5 => st.odst_deathflag.spec_changed_to(true),
        6 => st.hr_deathflag.spec_changed_to(true),
        _ => false,
    }
}

/// Counts a fresh death and returns the new count to show, if there was one.
pub fn update_death_counter(st: &GameState, sp: &mut SplitterState, current_game: u8) -> (r: Option<u32>)
    ensures
        final(sp)@ == (if died(st, current_game) {
            RunView { death_counter: old(sp).death_counter.saturating_add(1), ..old(sp)@ }
        } else {
            old(sp)@
        }),
        r == (if died(st, current_game) { Some(final(sp).death_counter) } else { None }),
        old(sp).death_counter < u32::MAX ==> final(sp).death_counter == old(sp).death_counter + (if died(st, current_game) { 1int } else { 0 }),
{
    let d = match current_game {
        0 => st.h1_deathflag.changed_to(true),
        1 => st.h2_deathflag.changed_to(true),
        2 => st.h3_deathflag.changed_to(true),
        5 => st.odst_deathflag.changed_to(true),
        6 => st.hr_deathflag.changed_to(true),
        _ => false,
    };
    if d {
        sp.death_counter = sp.death_counter.saturating_add(1);
        Some(sp.death_counter)
    } else {
        None
    }
}

/// The timer's phase after it carries out `a`.
pub open spec fn next_phase(p: TimerPhase, a: TickActions) -> TimerPhase {
    if a.reset {
        TimerPhase::NotRunning
    } else if a.start {
        TimerPhase::Running
    } else {
        p
    }
}

/// One tick of the controller: the timer actions and the run state after them.
pub open spec fn tick_step(st: &GameState, cfg: &Settings, v: RunView, timer: TimerPhase) -> (TickActions, RunView) {
    let v0 = after_upkeep(st, cfg, v);
    let game = st.mcc_gameindicator.cur_or(10);
    let menu = st.mcc_menuindicator.cur_or(0);
    let load = st.mcc_loadindicator.cur_or(0);
    match timer {
        TimerPhase::NotRunning => {
            let v1 = if v0.vars_reset { fresh_run() } else { v0 };
            (
                TickActions { start: starts(st, cfg, v1, game, menu), ..no_actions() },
                after_start_check(st, cfg, v1, game, menu),
            )
        },
        TimerPhase::Ended => (no_actions(), v0),
        _ => running_step(
            st,
            cfg,
            RunView { vars_reset: true, ..v0 },
            timer,
            game,
            menu,
            load,
        ),
    }
}

/// The decisions of a tick while an attempt is under way.
pub open spec fn running_step(
    st: &GameState,
    cfg: &Settings,
    v1: RunView,
    timer: TimerPhase,
    game: u8,
    menu: u8,
    load: u8,
) -> (TickActions, RunView) {
    if resets(st, cfg, v1, game, menu, timer) {
        (TickActions { reset: true, ..no_actions() }, v1.after_reset())
    } else {
        let (split, v2) = split_step(st, cfg, v1, game, menu);
        let (pause, gt, v3) = loading_step(st, cfg, v2, game, menu, load, split);
        let (deaths, v4) = if cfg.death_counter && died(st, game) {
            (
                Some(v3.death_counter.saturating_add(1)),
                RunView { death_counter: v3.death_counter.saturating_add(1), ..v3 },
            )
        } else {
            (None, v3)
        };
        (
            TickActions {
                start: false,
                reset: false,
                split,
                pause_game_time: Some(pause),
                game_time: gt,
                deaths,
            },
            v4,
        )
    }
}

fn run_tick(
    st: &GameState,
    cfg: &Settings,
    sp: &mut SplitterState,
    timer: TimerPhase,
    game: u8,
    menu: u8,
    load: u8,
) -> (r: TickActions)
    requires
        old(sp)@.wf(),
    ensures
        (r, final(sp)@) == running_step(st, cfg, RunView { vars_reset: true, ..old(sp)@ }, timer, game, menu, load),
        final(sp)@.wf(),
{
    let mut actions = TickActions {
        start: false,
        reset: false,
        split: false,
        pause_game_time: None,
        game_time: None,
        deaths: None,
    };
    sp.vars_reset = true;
    if should_reset(st, cfg, sp, game, menu, timer) {
        sp.reset();
        actions.reset = true;
        return actions;
    }
    actions.split = should_split(st, cfg, sp, game, menu);
    let d = handle_loading(st, cfg, sp, game, menu, load, actions.split);
    actions.pause_game_time = Some(d.pause_game_time);
    actions.game_time = d.game_time;
    if cfg.death_counter {
        actions.deaths = update_death_counter(st, sp, game);
    }
    actions
}

/// One decision pass: upkeep, then by the timer's phase a start check, or a reset check
/// that ends the pass, a split check, the loading and clock step and the death count.
pub fn tick(st: &GameState, cfg: &Settings, sp: &mut SplitterState, timer: TimerPhase) -> (r: TickActions)
    requires
        old(sp)@.wf(),
    ensures
        (r, final(sp)@) == tick_step(st, cfg, old(sp)@, timer),
        final(sp)@.wf(),
{
    update_splitter_state(st, cfg, sp);
    let game = st.mcc_gameindicator.current_or(10);
    let menu = st.mcc_menuindicator.current_or(0);
    let load = st.mcc_loadindicator.current_or(0);
    let mut actions = TickActions {
        start: false,
        reset: false,
        split: false,
        pause_game_time: None,
        game_time: None,
        deaths: None,
    };
    match timer {
        TimerPhase::NotRunning => {
            if sp.vars_reset {
                *sp = SplitterState::new();
            }
            actions.start = should_start(st, cfg, sp, game, menu);
        },
        TimerPhase::Ended => {},
        _ => {
            actions = run_tick(st, cfg, sp, timer, game, menu, load);
        },
    }
    actions
}

} // verus!
