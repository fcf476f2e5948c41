//! The virtual clock: level ticks accumulated into a run time, and load removal.
use vstd::prelude::*;
use crate::cell::{bits_eq, bits_lt, Ieee32};
use crate::snapshot::{GameState, Settings, zero_f, F_LETTERBOX, F_ZERO};
use crate::splitter::{same_markers, RunView, SplitterState};

verus! {

/// The largest step of a tick counter that is taken as play rather than as a jump.
pub const SANITY_BOUND: u32 = 300;

/// `x` capped at the largest `u32`.
pub open spec fn sat_u32(x: int) -> u32 {
    if x > u32::MAX {
        u32::MAX
    } else {
        x as u32
    }
}

/// `x` capped at the largest `u64`.
pub open spec fn sat_u64(x: int) -> u64 {
    if x > u64::MAX {
        u64::MAX
    } else {
        x as u64
    }
}

/// The counter that the clock follows for `game`, current and previous, with its rate in
/// ticks a second; `None` where the clock is not kept for that title.
pub open spec fn clock_reading(st: &GameState, cfg: &Settings, game: u8) -> Option<(u32, u32, u32)> {
    let uses_igt = cfg.igt_mode || game == 2 || game == 3 || game == 5 || game == 6;
    let is_rta = (game == 0 || game == 1) && !cfg.il_mode && !cfg.igt_mode;
    if !uses_igt && !is_rta {
        None
    } else if game == 0 {
        Some((st.h1_igt.cur_or(0), st.h1_igt.prev_or(0), 30))
    } else if game == 1 {
        Some((st.h2_igt.cur_or(0), st.h2_igt.prev_or(0), 60))
    } else if game == 2 && !cfg.il_mode {
        Some((st.h3_theatertime.cur_or(0), st.h3_theatertime.prev_or(0), 60))
    } else if game == 2 || game == 3 || game == 5 || game == 6 {
        Some((st.mcc_igt_ticks.cur_or(0), st.mcc_igt_ticks.prev_or(0), 60))
    } else {
        None
    }
}

#[verifier::opaque]
/// The level time after this tick's reading: seeded from the counter when it is zero
/// (outside loading screens and reports), else grown by a forward step under the bound.
pub open spec fn accrued(v: RunView, igt: u32, igt_old: u32, load: u8) -> u32 {
    if v.level_time == 0 {
        if load == 0 && !v.pgcr_exists {
            igt
        } else {
            0
        }
    } else if igt > igt_old && igt - igt_old < SANITY_BOUND {
        sat_u32(v.level_time + (igt - igt_old))
    } else {
        v.level_time
    }
}

/// `t` rounded down to a whole second of `rate` ticks.
pub open spec fn whole_seconds(t: u32, rate: u32) -> int
    recommends
        rate > 0,
{
    t - t % rate
}

/// What a level restart banks: the exact time in additive mode, else the time rounded to
/// the nearer whole second.
pub open spec fn restart_bank(cfg: &Settings, t: u32, igt_old: u32, rate: u32) -> u32
    recommends
        rate > 0,
{
    if cfg.igt_add {
        t
    } else if t % rate > rate / 2 {
        sat_u32(t + (rate - t % rate))
    } else {
        (t - t % rate) as u32
    }
}

#[verifier::opaque]
/// The run state after the boundary events of one tick, from the accrued level time.
///
/// A report or a loading screen arms a forced split for the next tick, unless this tick
/// has already split: one split answers the tick's events.
pub open spec fn banked(
    st: &GameState,
    cfg: &Settings,
    v: RunView,
    igt: u32,
    igt_old: u32,
    rate: u32,
    split_this_tick: bool,
) -> RunView
    recommends
        rate > 0,
{
    let t = v.level_time;
    let load = st.mcc_loadindicator.cur_or(0);
    if st.mcc_pgcrindicator.cur_or(0) == 1 && st.mcc_pgcrindicator.prev_or(0) == 0 {
        RunView {
            ingame_time: sat_u32(v.ingame_time + whole_seconds(t, rate)),
            level_time: 0,
            pgcr_exists: true,
            force_split: v.force_split || !split_this_tick,
            ..v
        }
    } else if load == 1 && st.mcc_loadindicator.prev_or(0) == 0 {
        if !v.pgcr_exists {
            RunView {
                ingame_time: sat_u32(v.ingame_time + whole_seconds(t, rate)),
                level_time: 0,
                force_split: v.force_split || !split_this_tick,
                pgcr_exists: false,
                ..v
            }
        } else {
            RunView { pgcr_exists: false, ..v }
        }
    } else if igt < igt_old && igt < 10 && load == 0 {
        RunView {
            ingame_time: sat_u32(v.ingame_time + restart_bank(cfg, t, igt_old, rate)),
            level_time: 0,
            ..v
        }
    } else {
        v
    }
}

/// The elapsed time in milliseconds that `ticks` at `rate` a second stand for.
pub open spec fn ticks_to_ms(ticks: int, rate: u32) -> int
    recommends
        rate > 0,
{
    1000 * ticks / rate as int
}

/// The ticks shown: the banked time alone during a loading screen, else with the level time.
pub open spec fn shown_ticks(load: u8, v: RunView) -> int {
    if load == 1 {
        v.ingame_time as int
    } else {
        v.ingame_time + v.level_time
    }
}

/// One clock step for `game`: the game time to report, if any, and the run state after it.
#[verifier::opaque]
pub open spec fn clock_step(
    st: &GameState,
    cfg: &Settings,
    v: RunView,
    game: u8,
    split_this_tick: bool,
) -> (Option<u64>, RunView) {
    match clock_reading(st, cfg, game) {
        None => (None, v),
        Some((igt, igt_old, rate)) => {
            let load = st.mcc_loadindicator.cur_or(0);
            let v1 = RunView { level_time: accrued(v, igt, igt_old, load), ..v };
            let v2 = banked(st, cfg, v1, igt, igt_old, rate, split_this_tick);
            let ms = ticks_to_ms(shown_ticks(load, v2), rate);
            let gt = sat_u64(ms + v2.multigame_time);
            (Some(gt), RunView { game_time: gt, ..v2 })
        },
    }
}

fn reading(st: &GameState, cfg: &Settings, game: u8) -> (r: Option<(u32, u32, u32)>)
    ensures
        r == clock_reading(st, cfg, game),
        r matches Some((_, _, rate)) ==> rate > 0,
{
    let uses_igt = cfg.igt_mode || game == 2 || game == 3 || game == 5 || game == 6;
    let is_rta = (game == 0 || game == 1) && !cfg.il_mode && !cfg.igt_mode;
    if !uses_igt && !is_rta {
        None
    } else if game == 0 {
        Some((st.h1_igt.current_or(0), st.h1_igt.previous_or(0), 30))
    } else if game == 1 {
        Some((st.h2_igt.current_or(0), st.h2_igt.previous_or(0), 60))
    } else if game == 2 && !cfg.il_mode {
        Some((st.h3_theatertime.current_or(0), st.h3_theatertime.previous_or(0), 60))
    } else if game == 2 || game == 3 || game == 5 || game == 6 {
        Some((st.mcc_igt_ticks.current_or(0), st.mcc_igt_ticks.previous_or(0), 60))
    } else {
        None
    }
}

fn accrue(sp: &mut SplitterState, igt: u32, igt_old: u32, load: u8)
    ensures
        final(sp)@ == (RunView { level_time: accrued(old(sp)@, igt, igt_old, load), ..old(sp)@ }),
{
    proof {
        reveal(accrued);
    }
    if sp.level_time == 0 {
        if load == 0 && !sp.pgcr_exists {
            sp.level_time = igt;
        }
    } else if igt > igt_old && igt - igt_old < SANITY_BOUND {
        sp.level_time = sp.level_time.saturating_add(igt - igt_old);
    }
}

fn round_down(t: u32, rate: u32) -> (r: u32)
    requires
        rate > 0,
    ensures
        r == whole_seconds(t, rate),
{
    let m = t % rate;
    assert(m <= t) by (nonlinear_arith)
        requires
            m == t % rate,
            rate > 0,
    ;
    t - m
}

fn restart_amount(cfg: &Settings, t: u32, igt_old: u32, rate: u32) -> (r: u32)
    requires
        rate > 0,
    ensures
        r == restart_bank(cfg, t, igt_old, rate),
{
    if cfg.igt_add {
        t
    } else if t % rate > rate / 2 {
        let m = t % rate;
        assert(m < rate) by (nonlinear_arith)
            requires
                m == t % rate,
                rate > 0,
        ;
        t.saturating_add(rate - m)
    } else {
        round_down(t, rate)
    }
}

fn bank_boundaries(
    st: &GameState,
    cfg: &Settings,
    sp: &mut SplitterState,
    igt: u32,
    igt_old: u32,
    rate: u32,
    split_this_tick: bool,
)
    requires
        rate > 0,
    ensures
        final(sp)@ == banked(st, cfg, old(sp)@, igt, igt_old, rate, split_this_tick),
        same_markers(final(sp)@, old(sp)@),
{
    proof {
        reveal(banked);
    }
    let t = sp.level_time;
    let load = st.mcc_loadindicator.current_or(0);
    if st.mcc_pgcrindicator.current_or(0) == 1 && st.mcc_pgcrindicator.previous_or(0) == 0 {
        sp.ingame_time = sp.ingame_time.saturating_add(round_down(t, rate));
        sp.level_time = 0;
        sp.pgcr_exists = true;
        if !split_this_tick {
            sp.force_split = true;
        }
    } else if load == 1 && st.mcc_loadindicator.previous_or(0) == 0 {
        if !sp.pgcr_exists {
            sp.ingame_time = sp.ingame_time.saturating_add(round_down(t, rate));
            sp.level_time = 0;
            if !split_this_tick {
                sp.force_split = true;
            }
        }
        sp.pgcr_exists = false;
    } else if igt < igt_old && igt < 10 && load == 0 {
        sp.ingame_time = sp.ingame_time.saturating_add(restart_amount(cfg, t, igt_old, rate));
        sp.level_time = 0;
    }
}

fn ticks_to_millis(total: u64, rate: u32) -> (r: u64)
    requires
        rate > 0,
        total <= 2 * (u32::MAX as u64),
    ensures
        r == ticks_to_ms(total as int, rate),
{
    assert(1000 * total <= 1000 * 2 * (u32::MAX as u64)) by (nonlinear_arith)
        requires
            total <= 2 * (u32::MAX as u64),
    ;
    1000 * total / rate as u64
}

/// Advances the virtual clock by one tick and returns the game time to report, if the
/// clock is kept for the title being played. `split_this_tick` tells whether the tick has
/// already split, in which case no forced split is armed for the next one.
pub fn update_game_time(
    st: &GameState,
    cfg: &Settings,
    sp: &mut SplitterState,
    current_game: u8,
    split_this_tick: bool,
) -> (r: Option<u64>)
    ensures
        (r, final(sp)@) == clock_step(st, cfg, old(sp)@, current_game, split_this_tick),
        same_markers(final(sp)@, old(sp)@),
{
    proof {
        reveal(clock_step);
    }
    let (igt, igt_old, rate) = match reading(st, cfg, current_game) {
        Some(x) => x,
        None => return None,
    };
    let load = st.mcc_loadindicator.current_or(0);
    accrue(sp, igt, igt_old, load);
    bank_boundaries(st, cfg, sp, igt, igt_old, rate, split_this_tick);

    let total: u64 = if load == 1 {
        sp.ingame_time as u64
    } else {
        sp.ingame_time as u64 + sp.level_time as u64
    };
    sp.game_time = ticks_to_millis(total, rate).saturating_add(sp.multigame_time);
    Some(sp.game_time)
}

/// The first title's load removal: the flag rises at a level's win or at a loading screen
/// outside a level, and falls when the tick counter resumes by one.
#[verifier::opaque]
pub open spec fn h1_loading_after(st: &GameState, v: RunView, load: u8) -> bool {
    if !v.loading {
        if st.mcc_menuindicator.cur_or(0) == 1 {
            st.h1_gamewon.cur_or(false) && !st.h1_gamewon.prev_or(false)
        } else {
            load == 1 && st.mcc_loadindicator.prev_or(0) == 0
        }
    } else {
        !(st.h1_tickcounter.cur_or(0) == st.h1_tickcounter.prev_or(0) + 1)
    }
}

pub fn handle_h1_loading(st: &GameState, sp: &mut SplitterState, load_indicator: u8)
    ensures
        final(sp)@ == (RunView { loading: h1_loading_after(st, old(sp)@, load_indicator), ..old(sp)@ }),
{
    proof {
        reveal(h1_loading_after);
    }
    if !sp.loading {
        if st.mcc_menuindicator.current_or(0) == 1 {
            if st.h1_gamewon.current_or(false) && !st.h1_gamewon.previous_or(false) {
                sp.loading = true;
            }
        } else if load_indicator == 1 && st.mcc_loadindicator.previous_or(0) == 0 {
            sp.loading = true;
        }
    } else {
        if st.h1_tickcounter.current_or(0) as u64 == st.h1_tickcounter.previous_or(0) as u64 + 1 {
            sp.loading = false;
        }
    }
}

/// The letterbox of an ending cinematic has just closed in.
pub open spec fn letterbox_closes(st: &GameState) -> bool {
    let lb = st.h2_letterbox.cur_or(zero_f()).bits;
    let lb_old = st.h2_letterbox.prev_or(zero_f()).bits;
    bits_lt(F_LETTERBOX, lb) && (bits_lt(lb_old, F_LETTERBOX) || bits_eq(lb_old, F_LETTERBOX))
        && !bits_eq(lb_old, F_ZERO)
}

pub fn letterbox_closing(st: &GameState) -> (r: bool)
    ensures
        r == letterbox_closes(st),
{
    let lb = st.h2_letterbox.current_or(Ieee32 { bits: 0 });
    let lb_old = st.h2_letterbox.previous_or(Ieee32 { bits: 0 });
    lb.above(F_LETTERBOX) && lb_old.at_most(F_LETTERBOX) && !lb_old.equals(F_ZERO)
}

/// The second title's load removal: the flag rises at a level's closing fade or at a
/// loading screen, and falls once the next level fades in.
#[verifier::opaque]
pub open spec fn h2_loading_after(st: &GameState, v: RunView, load: u8) -> bool {
    let menu = st.mcc_menuindicator.cur_or(0);
    let fade = st.h2_fadebyte.cur_or(0);
    let fade_old = st.h2_fadebyte.prev_or(0);
    let tick = st.h2_tickcounter.cur_or(0);
    let bsp = st.h2_bspstate.cur_or(255);
    if !v.loading {
        if menu == 1 {
            (tick > 60 && fade == 1 && fade_old == 1 && letterbox_closes(st)) || load == 1
        } else {
            load == 1 && st.mcc_loadindicator.prev_or(0) == 0
        }
    } else {
        !(menu == 1 && load == 0 && ((fade == 0 && fade_old == 1 && st.mcc_pauseindicator.cur_or(0)
            == 0 && bsp != 255) || (fade == 0 && tick > 10 && bsp != 255)))
    }
}

pub fn handle_h2_loading(st: &GameState, sp: &mut SplitterState, load_indicator: u8)
    ensures
        final(sp)@ == (RunView { loading: h2_loading_after(st, old(sp)@, load_indicator), ..old(sp)@ }),
{
    proof {
        reveal(h2_loading_after);
    }
    let menu = st.mcc_menuindicator.current_or(0);
    let fade = st.h2_fadebyte.current_or(0);
    let fade_old = st.h2_fadebyte.previous_or(0);
    let tick = st.h2_tickcounter.current_or(0);
    let bsp = st.h2_bspstate.current_or(255);
    if !sp.loading {
        if menu == 1 {
            if (tick > 60 && fade == 1 && fade_old == 1 && letterbox_closing(st)) || load_indicator == 1 {
                sp.loading = true;
            }
        } else if load_indicator == 1 && st.mcc_loadindicator.previous_or(0) == 0 {
            sp.loading = true;
        }
    } else {
        if menu == 1 && load_indicator == 0 {
            if fade == 0 && fade_old == 1 && st.mcc_pauseindicator.current_or(0) == 0 && bsp != 255 {
                sp.loading = false;
            } else if fade == 0 && tick > 10 && bsp != 255 {
                sp.loading = false;
            }
        }
    }
}

} // verus!
