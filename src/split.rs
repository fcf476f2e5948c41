//! When a segment ends: forced splits, landmark regions, level ends and loading screens.
use vstd::prelude::*;
use crate::cell::{bits_lt, Ieee32};
use crate::names::name_is;
use crate::snapshot::{
    GameState, Settings, zero_f, F_B40_Y_HIGH, F_B40_Y_LOW, F_C40_X_HIGH, F_C40_X_LOW,
    F_C40_Y_HIGH, F_C40_Y_LOW, F_HALF, F_MAW_END_X, F_NEG_10, F_NEG_15, F_NEG_2, F_NEG_20,
    F_NEG_35, F_NEG_5, F_TWO, F_10, F_15, F_20, F_25, F_30, F_45, F_5, F_55,
};
use crate::splitter::{
    get_h1_bsp_list, get_h2_bsp_list, get_h3_bsp_list, get_h4_bsp_list, get_hr_bsp_list,
    get_odst_bsp_list, h1_landmarks, h2_landmarks, h3_landmarks, h4_landmarks, hr_landmarks,
    odst_landmarks, RunView, SplitterState,
};

verus! {

/// The value lies strictly between the bit patterns `lo` and `hi`.
pub open spec fn within(x: Ieee32, lo: u32, hi: u32) -> bool {
    bits_lt(lo, x.bits) && bits_lt(x.bits, hi)
}

fn between(x: Ieee32, lo: u32, hi: u32) -> (r: bool)
    ensures
        r == within(x, lo, hi),
{
    x.above(lo) && x.below(hi)
}

/// A loading screen appeared on this tick.
pub open spec fn load_edge(st: &GameState) -> bool {
    st.mcc_loadindicator.cur_or(0) == 1 && st.mcc_loadindicator.prev_or(0) == 0
}

fn load_rises(st: &GameState) -> (r: bool)
    ensures
        r == load_edge(st),
{
    st.mcc_loadindicator.current_or(0) == 1 && st.mcc_loadindicator.previous_or(0) == 0
}

/// The end of a first-title level, as seen in individual-level mode.
pub open spec fn h1_level_end(st: &GameState, level: Seq<char>, bsp: u8) -> bool {
    let cin = st.h1_cinematic.cur_or(false);
    let cin_old = st.h1_cinematic.prev_or(false);
    let skip = st.h1_cutsceneskip.cur_or(false);
    let skip_start = !st.h1_cutsceneskip.prev_or(false) && skip;
    let fadelength = st.h1_fadelength.cur_or(0);
    let tick = st.h1_tickcounter.cur_or(0);
    if level == "a10"@ {
        bsp == 6 && skip_start
    } else if level == "a30"@ {
        bsp == 1 && skip_start
    } else if level == "a50"@ {
        (bsp == 3 || bsp == 2) && skip_start && fadelength == 15
    } else if level == "b30"@ {
        bsp == 0 && !cin && skip_start
    } else if level == "b40"@ {
        bsp == 2 && skip_start
    } else if level == "c10"@ {
        bsp != 2 && skip_start
    } else if level == "c20"@ {
        cin && !cin_old && tick > 30
    } else if level == "c40"@ {
        tick > 30 && skip_start && st.h1_fadebyte.cur_or(0) != 1
    } else if level == "d20"@ {
        fadelength == 30 && !cin_old && cin
    } else if level == "d40"@ {
        !cin_old && cin && !skip && bits_lt(F_MAW_END_X, st.h1_xpos.cur_or(zero_f()).bits)
            && !st.h1_deathflag.cur_or(false)
    } else {
        false
    }
}

/// The first title's split decision and the run state after it.
#[verifier::opaque]
pub open spec fn split_h1(st: &GameState, cfg: &Settings, v: RunView) -> (bool, RunView) {
    let level = st.h1_levelname.cur();
    let bsp = st.h1_bspstate.cur_or(255);
    let marked = if cfg.bsp_cache { v } else { v.with_byte(bsp) };
    if cfg.bsp_mode && bsp != st.h1_bspstate.prev_or(255) && h1_landmarks(level).contains(bsp) && (
    cfg.bsp_cache || !v.dirty_bytes.contains(bsp)) {
        if level == "b40"@ && bsp == 0 {
            if within(st.h1_ypos.cur_or(zero_f()), F_B40_Y_LOW, F_B40_Y_HIGH) {
                (true, marked)
            } else {
                (false, v)
            }
        } else if level == "c40"@ && bsp == 0 {
            if within(st.h1_xpos.cur_or(zero_f()), F_C40_X_LOW, F_C40_X_HIGH) && within(
                st.h1_ypos.cur_or(zero_f()),
                F_C40_Y_LOW,
                F_C40_Y_HIGH,
            ) {
                (true, marked)
            } else {
                (false, v)
            }
        } else {
            (true, marked)
        }
    } else if cfg.il_mode && !cfg.igt_mode && h1_level_end(st, level, bsp) {
        (true, RunView { loading: cfg.loop_mode || v.loading, ..v.cleared() })
    } else if !cfg.il_mode && !cfg.igt_mode && load_edge(st) {
        (true, v.cleared())
    } else {
        (false, v)
    }
}

/// The last level of the second title: four visits, each a region entered within a window,
/// marked by their own numbers (1, 10, 21, 20) and the region 3.
#[verifier::opaque]
pub open spec fn split_h2_tgj(st: &GameState, v: RunView) -> (bool, RunView) {
    let bsp = st.h2_bspstate.cur_or(255);
    let x = st.h2_xpos.cur_or(zero_f());
    let y = st.h2_ypos.cur_or(zero_f());
    let d = v.dirty_bytes;
    if bsp == st.h2_bspstate.prev_or(255) {
        (false, v)
    } else if bsp == 1 {
        if !d.contains(1) && within(x, F_NEG_2, F_5) && within(y, F_NEG_35, F_NEG_15) {
            (true, v.with_byte(1))
        } else if !d.contains(21) && d.contains(10) && within(x, F_15, F_25) && within(y, F_15, F_30) {
            (true, v.with_byte(21))
        } else {
            (false, v)
        }
    } else if bsp == 0 {
        if !d.contains(10) && within(x, F_NEG_20, F_NEG_10) && within(y, F_20, F_30) {
            (true, v.with_byte(10))
        } else if !d.contains(20) && d.contains(21) && within(x, F_45, F_55) && within(y, F_NEG_5, F_10) {
            (true, v.with_byte(20))
        } else {
            (false, v)
        }
    } else if bsp == 3 && !d.contains(3) {
        (true, v.with_byte(3))
    } else {
        (false, v)
    }
}

/// The region that must have been visited before region 0 counts on `level`, if any.
pub open spec fn h2_zero_guard(level: Seq<char>) -> Option<u8> {
    if level == "01b"@ {
        Some(2)
    } else if level == "04a"@ {
        Some(3)
    } else if level == "08a"@ {
        Some(1)
    } else {
        None
    }
}

/// The second title's region split without repeats, or `None` where it falls through.
pub open spec fn h2_region(level: Seq<char>, bsp: u8, v: RunView) -> Option<(bool, RunView)> {
    let fresh = h2_landmarks(level).contains(bsp) && !v.dirty_bytes.contains(bsp);
    if level == "04b"@ {
        if fresh {
            if bsp == 0 && v.dirty_bytes.contains(3) {
                Some((true, v))
            } else {
                Some((true, v.with_byte(bsp)))
            }
        } else {
            None
        }
    } else if fresh {
        match h2_zero_guard(level) {
            Some(g) => if bsp == 0 && !v.dirty_bytes.contains(g) {
                Some((false, v))
            } else {
                Some((true, v.with_byte(bsp)))
            },
            None => Some((true, v.with_byte(bsp))),
        }
    } else {
        None
    }
}

/// The second title's split decision and the run state after it.
#[verifier::opaque]
pub open spec fn split_h2(st: &GameState, cfg: &Settings, v: RunView) -> (bool, RunView) {
    let level = st.h2_levelname.cur();
    let bsp = st.h2_bspstate.cur_or(255);
    let region = cfg.bsp_mode && bsp != st.h2_bspstate.prev_or(255);
    // On level "04b" the region 3 is marked whenever it is entered.
    let v1 = if region && !cfg.bsp_cache && level != "08b"@ && level == "04b"@ && bsp == 3 {
        v.with_byte(3)
    } else {
        v
    };
    let fall = if !(cfg.il_mode || cfg.igt_mode) && load_edge(st) && level != "00a"@ {
        (true, v1.cleared())
    } else {
        (false, v1)
    };
    if region && cfg.bsp_cache {
        if h2_landmarks(level).contains(bsp) {
            (true, v)
        } else {
            fall
        }
    } else if region && level == "08b"@ {
        split_h2_tgj(st, v)
    } else if region {
        match h2_region(level, bsp, v1) {
            Some(out) => out,
            None => fall,
        }
    } else {
        fall
    }
}

/// The third title's split decision and the run state after it.
#[verifier::opaque]
pub open spec fn split_h3(st: &GameState, cfg: &Settings, v: RunView) -> (bool, RunView) {
    let bsp = st.h3_bspstate.cur_or(0);
    let listed = h3_landmarks(st.h3_levelname.cur()).contains(bsp);
    let region = cfg.bsp_mode && bsp != st.h3_bspstate.prev_or(0);
    if region && cfg.bsp_cache && listed {
        (true, v)
    } else if region && !cfg.bsp_cache && listed && !v.dirty_longs.contains(bsp) {
        (true, v.with_long(bsp))
    } else if !cfg.il_mode && load_edge(st) {
        (true, v.cleared())
    } else {
        (false, v)
    }
}

/// The competitive timer moved on to a new state past the first two seconds of play.
pub open spec fn comp_timer_split(st: &GameState, invalid: u32) -> bool {
    let comp = st.mcc_comptimerstate.cur_or(0);
    &&& st.mcc_loadindicator.cur_or(0) == 0
    &&& st.mcc_pgcrindicator.cur_or(0) == 0
    &&& comp != st.mcc_comptimerstate.prev_or(0)
    &&& comp != invalid
    &&& comp != 0
    &&& bits_lt(F_TWO, st.mcc_igt_float.cur_or(zero_f()).bits)
}

fn comp_timer_moves(st: &GameState, invalid: u32) -> (r: bool)
    ensures
        r == comp_timer_split(st, invalid),
{
    let comp = st.mcc_comptimerstate.current_or(0);
    st.mcc_loadindicator.current_or(0) == 0 && st.mcc_pgcrindicator.current_or(0) == 0 && comp
        != st.mcc_comptimerstate.previous_or(0) && comp != invalid && comp != 0
        && st.mcc_igt_float.current_or(Ieee32 { bits: 0 }).above(F_TWO)
}

/// The fourth title's split decision and the run state after it; a region split here
/// fires on a region that is absent from the level's list.
#[verifier::opaque]
pub open spec fn split_h4(st: &GameState, cfg: &Settings, v: RunView) -> (bool, RunView) {
    let bsp = st.h4_bspstate.cur_or(0);
    let unlisted = !h4_landmarks(st.h4_levelname.cur()).contains(bsp);
    if cfg.comp_splits {
        (comp_timer_split(st, 0), v)
    } else if cfg.bsp_mode && bsp != st.h4_bspstate.prev_or(0) {
        if cfg.bsp_cache {
            (unlisted, v)
        } else if unlisted && !v.dirty_longs.contains(bsp) {
            (true, v.with_long(bsp))
        } else {
            (false, v)
        }
    } else {
        (false, v)
    }
}

/// The competitive timer state that does not count on `level` of the fifth title.
pub open spec fn odst_invalid_comp(level: Seq<char>) -> u32 {
    if level == "l300"@ {
        876414390
    } else {
        0
    }
}

/// The fifth title's split decision and the run state after it.
#[verifier::opaque]
pub open spec fn split_odst(st: &GameState, cfg: &Settings, v: RunView) -> (bool, RunView) {
    let level = st.odst_levelname.cur();
    let bsp = st.odst_bspstate.cur_or(0);
    let listed = odst_landmarks(level).contains(bsp);
    if cfg.comp_splits {
        (comp_timer_split(st, odst_invalid_comp(level)), v)
    } else if cfg.bsp_mode && bsp != st.odst_bspstate.prev_or(0) && bits_lt(
        F_HALF,
        st.mcc_igt_float.cur_or(zero_f()).bits,
    ) {
        if cfg.bsp_cache {
            (listed, v)
        } else if listed && !v.dirty_ints.contains(bsp) {
            (true, v.with_int(bsp))
        } else {
            (false, v)
        }
    } else {
        (false, v)
    }
}

/// The sixth title's split decision and the run state after it.
#[verifier::opaque]
pub open spec fn split_hr(st: &GameState, cfg: &Settings, v: RunView) -> (bool, RunView) {
    let bsp = st.hr_bspstate.cur_or(0);
    let listed = hr_landmarks(st.hr_levelname.cur()).contains(bsp);
    if cfg.bsp_mode && bsp != st.hr_bspstate.prev_or(0) {
        if cfg.bsp_cache {
            (listed, v)
        } else if listed && !v.dirty_ints.contains(bsp) {
            (true, v.with_int(bsp))
        } else {
            (false, v)
        }
    } else {
        (false, v)
    }
}

/// The split decision of the title reported by `game`.
pub open spec fn title_split(st: &GameState, cfg: &Settings, v: RunView, game: u8) -> (bool, RunView) {
    match game {
        0 => split_h1(st, cfg, v),
        1 => split_h2(st, cfg, v),
        2 => split_h3(st, cfg, v),
        3 => split_h4(st, cfg, v),
        5 => split_odst(st, cfg, v),
        6 => split_hr(st, cfg, v),
        _ => (false, v),
    }
}

/// The split decision of one tick and the run state after it.
///
/// A pending forced split always wins, clears the markers and answers every forced split
/// then pending; otherwise nothing splits outside a level or while a multi-title pause is
/// active.
#[verifier::opaque]
pub open spec fn split_step(st: &GameState, cfg: &Settings, v: RunView, game: u8, menu: u8) -> (bool, RunView) {
    if v.force_split2 {
        (true, RunView { force_split2: false, force_split: false, ..v.cleared() })
    } else if menu != 1 {
        (false, v)
    } else if v.force_split {
        (
            true,
            RunView {
                force_split: false,
                loop_split: if cfg.loop_mode { false } else { v.loop_split },
                ..v.cleared()
            },
        )
    } else if v.multigame_pause {
        (false, v)
    } else {
        title_split(st, cfg, v, game)
    }
}

pub fn should_split_h1(st: &GameState, cfg: &Settings, sp: &mut SplitterState) -> (r: bool)
    requires
        old(sp)@.wf(),
    ensures
        (r, final(sp)@) == split_h1(st, cfg, old(sp)@),
        final(sp)@.wf(),
{
    proof {
        reveal(split_h1);
    }
    let level = st.h1_levelname.current_name();
    let bsp = st.h1_bspstate.current_or(255);

    if cfg.bsp_mode && bsp != st.h1_bspstate.previous_or(255) {
        let list = get_h1_bsp_list(level);
        if slice_has_byte(list, bsp) {
            if cfg.bsp_cache || !sp.contains_dirty_bsp_byte(bsp) {
                let fires = if name_is(level, "b40") && bsp == 0 {
                    between(st.h1_ypos.current_or(Ieee32 { bits: 0 }), F_B40_Y_LOW, F_B40_Y_HIGH)
                } else if name_is(level, "c40") && bsp == 0 {
                    between(st.h1_xpos.current_or(Ieee32 { bits: 0 }), F_C40_X_LOW, F_C40_X_HIGH)
                        && between(
                        st.h1_ypos.current_or(Ieee32 { bits: 0 }),
                        F_C40_Y_LOW,
                        F_C40_Y_HIGH,
                    )
                } else {
                    true
                };
                if fires && !cfg.bsp_cache {
                    sp.add_dirty_bsp_byte(bsp);
                }
                return fires;
            }
        }
    }

    if cfg.il_mode && !cfg.igt_mode && h1_level_ends(st, level, bsp) {
        sp.clear_dirty_bsps();
        if cfg.loop_mode {
            sp.loading = true;
        }
        return true;
    }

    if !cfg.il_mode && !cfg.igt_mode && load_rises(st) {
        sp.clear_dirty_bsps();
        return true;
    }
    false
}

fn h1_level_ends(st: &GameState, level: &str, bsp: u8) -> (r: bool)
    ensures
        r == h1_level_end(st, level@, bsp),
{
    let cin = st.h1_cinematic.current_or(false);
    let cin_old = st.h1_cinematic.previous_or(false);
    let skip = st.h1_cutsceneskip.current_or(false);
    let skip_start = !st.h1_cutsceneskip.previous_or(false) && skip;
    let fadelength = st.h1_fadelength.current_or(0);
    let tick = st.h1_tickcounter.current_or(0);
    if name_is(level, "a10") {
        bsp == 6 && skip_start
    } else if name_is(level, "a30") {
        bsp == 1 && skip_start
    } else if name_is(level, "a50") {
        (bsp == 3 || bsp == 2) && skip_start && fadelength == 15
    } else if name_is(level, "b30") {
        bsp == 0 && !cin && skip_start
    } else if name_is(level, "b40") {
        bsp == 2 && skip_start
    } else if name_is(level, "c10") {
        bsp != 2 && skip_start
    } else if name_is(level, "c20") {
        cin && !cin_old && tick > 30
    } else if name_is(level, "c40") {
        tick > 30 && skip_start && st.h1_fadebyte.current_or(0) != 1
    } else if name_is(level, "d20") {
        fadelength == 30 && !cin_old && cin
    } else if name_is(level, "d40") {
        !cin_old && cin && !skip && st.h1_xpos.current_or(Ieee32 { bits: 0 }).above(F_MAW_END_X)
            && !st.h1_deathflag.current_or(false)
    } else {
        false
    }
}

fn slice_has_byte(s: &[u8], x: u8) -> (r: bool)
    ensures
        r == s@.contains(x),
{
    let mut i: usize = 0;
    while i < s.len()
        invariant
            i <= s.len(),
            forall|j: int| 0 <= j < i ==> s@[j] != x,
        decreases s.len() - i,
    {
        if s[i] == x {
            assert(s@[i as int] == x);
            return true;
        }
        i += 1;
    }
    false
}

fn slice_has_int(s: &[u32], x: u32) -> (r: bool)
    ensures
        r == s@.contains(x),
{
    let mut i: usize = 0;
    while i < s.len()
        invariant
            i <= s.len(),
            forall|j: int| 0 <= j < i ==> s@[j] != x,
        decreases s.len() - i,
    {
        if s[i] == x {
            assert(s@[i as int] == x);
            return true;
        }
        i += 1;
    }
    false
}

fn slice_has_long(s: &[u64], x: u64) -> (r: bool)
    ensures
        r == s@.contains(x),
{
    let mut i: usize = 0;
    while i < s.len()
        invariant
            i <= s.len(),
            forall|j: int| 0 <= j < i ==> s@[j] != x,
        decreases s.len() - i,
    {
        if s[i] == x {
            assert(s@[i as int] == x);
            return true;
        }
        i += 1;
    }
    false
}

pub fn should_split_h2_tgj(st: &GameState, sp: &mut SplitterState) -> (r: bool)
    requires
        old(sp)@.wf(),
    ensures
        (r, final(sp)@) == split_h2_tgj(st, old(sp)@),
        final(sp)@.wf(),
{
    proof {
        reveal(split_h2_tgj);
    }
    let bsp = st.h2_bspstate.current_or(255);
    if bsp == st.h2_bspstate.previous_or(255) {
        return false;
    }
    let x = st.h2_xpos.current_or(Ieee32 { bits: 0 });
    let y = st.h2_ypos.current_or(Ieee32 { bits: 0 });
    if bsp == 1 {
        if !sp.contains_dirty_bsp_byte(1) && between(x, F_NEG_2, F_5) && between(y, F_NEG_35, F_NEG_15) {
            sp.add_dirty_bsp_byte(1);
            return true;
        } else if !sp.contains_dirty_bsp_byte(21) && sp.contains_dirty_bsp_byte(10) && between(x, F_15, F_25)
            && between(y, F_15, F_30) {
            sp.add_dirty_bsp_byte(21);
            return true;
        }
    } else if bsp == 0 {
        if !sp.contains_dirty_bsp_byte(10) && between(x, F_NEG_20, F_NEG_10) && between(y, F_20, F_30) {
            sp.add_dirty_bsp_byte(10);
            return true;
        } else if !sp.contains_dirty_bsp_byte(20) && sp.contains_dirty_bsp_byte(21) && between(x, F_45, F_55)
            && between(y, F_NEG_5, F_10) {
            sp.add_dirty_bsp_byte(20);
            return true;
        }
    } else if bsp == 3 {
        if !sp.contains_dirty_bsp_byte(3) {
            sp.add_dirty_bsp_byte(3);
            return true;
        }
    }
    false
}

pub fn should_split_h2(st: &GameState, cfg: &Settings, sp: &mut SplitterState) -> (r: bool)
    requires
        old(sp)@.wf(),
    ensures
        (r, final(sp)@) == split_h2(st, cfg, old(sp)@),
        final(sp)@.wf(),
{
    proof {
        reveal(split_h2);
    }
    let level = st.h2_levelname.current_name();
    let bsp = st.h2_bspstate.current_or(255);

    if cfg.bsp_mode && bsp != st.h2_bspstate.previous_or(255) {
        let listed = slice_has_byte(get_h2_bsp_list(level), bsp);
        if cfg.bsp_cache {
            if listed {
                return true;
            }
        } else if name_is(level, "08b") {
            return should_split_h2_tgj(st, sp);
        } else if name_is(level, "04b") {
            if bsp == 3 && !sp.contains_dirty_bsp_byte(3) {
                sp.add_dirty_bsp_byte(3);
            }
            if listed && !sp.contains_dirty_bsp_byte(bsp) {
                if bsp == 0 && sp.contains_dirty_bsp_byte(3) {
                    return true;
                }
                sp.add_dirty_bsp_byte(bsp);
                return true;
            }
        } else {
            let guard: Option<u8> = if name_is(level, "01b") {
                Some(2)
            } else if name_is(level, "04a") {
                Some(3)
            } else if name_is(level, "08a") {
                Some(1)
            } else {
                None
            };
            if listed && !sp.contains_dirty_bsp_byte(bsp) {
                if let Some(g) = guard {
                    if bsp == 0 && !sp.contains_dirty_bsp_byte(g) {
                        return false;
                    }
                }
                sp.add_dirty_bsp_byte(bsp);
                return true;
            }
        }
    }

    if !(cfg.il_mode || cfg.igt_mode) && load_rises(st) && !name_is(level, "00a") {
        sp.clear_dirty_bsps();
        return true;
    }
    false
}

pub fn should_split_h3(st: &GameState, cfg: &Settings, sp: &mut SplitterState) -> (r: bool)
    requires
        old(sp)@.wf(),
    ensures
        (r, final(sp)@) == split_h3(st, cfg, old(sp)@),
        final(sp)@.wf(),
{
    proof {
        reveal(split_h3);
    }
    let bsp = st.h3_bspstate.current_or(0);
    if cfg.bsp_mode && bsp != st.h3_bspstate.previous_or(0) {
        let listed = slice_has_long(get_h3_bsp_list(st.h3_levelname.current_name()), bsp);
        if cfg.bsp_cache {
            if listed {
                return true;
            }
        } else if listed && !sp.contains_dirty_bsp_long(bsp) {
            sp.add_dirty_bsp_long(bsp);
            return true;
        }
    }
    if !cfg.il_mode && load_rises(st) {
        sp.clear_dirty_bsps();
        return true;
    }
    false
}

pub fn should_split_h4(st: &GameState, cfg: &Settings, sp: &mut SplitterState) -> (r: bool)
    requires
        old(sp)@.wf(),
    ensures
        (r, final(sp)@) == split_h4(st, cfg, old(sp)@),
        final(sp)@.wf(),
{
    proof {
        reveal(split_h4);
    }
    let bsp = st.h4_bspstate.current_or(0);
    if cfg.comp_splits {
        return comp_timer_moves(st, 0);
    } else if cfg.bsp_mode && bsp != st.h4_bspstate.previous_or(0) {
        let unlisted = !slice_has_long(get_h4_bsp_list(st.h4_levelname.current_name()), bsp);
        if cfg.bsp_cache {
            return unlisted;
        } else if unlisted && !sp.contains_dirty_bsp_long(bsp) {
            sp.add_dirty_bsp_long(bsp);
            return true;
        }
    }
    false
}

pub fn should_split_odst(st: &GameState, cfg: &Settings, sp: &mut SplitterState) -> (r: bool)
    requires
        old(sp)@.wf(),
    ensures
        (r, final(sp)@) == split_odst(st, cfg, old(sp)@),
        final(sp)@.wf(),
{
    proof {
        reveal(split_odst);
    }
    let level = st.odst_levelname.current_name();
    let bsp = st.odst_bspstate.current_or(0);
    if cfg.comp_splits {
        let invalid: u32 = if name_is(level, "l300") { 876414390 } else { 0 };
        return comp_timer_moves(st, invalid);
    } else if cfg.bsp_mode && bsp != st.odst_bspstate.previous_or(0) && st.mcc_igt_float.current_or(
        Ieee32 { bits: 0 },
    ).above(F_HALF) {
        let listed = slice_has_int(get_odst_bsp_list(level), bsp);
        if cfg.bsp_cache {
            return listed;
        } else if listed && !sp.contains_dirty_bsp_int(bsp) {
            sp.add_dirty_bsp_int(bsp);
            return true;
        }
    }
    false
}

pub fn should_split_hr(st: &GameState, cfg: &Settings, sp: &mut SplitterState) -> (r: bool)
    requires
        old(sp)@.wf(),
    ensures
        (r, final(sp)@) == split_hr(st, cfg, old(sp)@),
        final(sp)@.wf(),
{
    proof {
        reveal(split_hr);
    }
    let bsp = st.hr_bspstate.current_or(0);
    if cfg.bsp_mode && bsp != st.hr_bspstate.previous_or(0) {
        let listed = slice_has_int(get_hr_bsp_list(st.hr_levelname.current_name()), bsp);
        if cfg.bsp_cache {
            return listed;
        } else if listed && !sp.contains_dirty_bsp_int(bsp) {
            sp.add_dirty_bsp_int(bsp);
            return true;
        }
    }
    false
}

/// Decides whether this tick ends a segment: a pending forced split first, then, while in
/// a level and not paused between titles, the split policy of the title being played.
pub fn should_split(
    st: &GameState,
    cfg: &Settings,
    sp: &mut SplitterState,
    current_game: u8,
    menu_indicator: u8,
) -> (r: bool)
    requires
        old(sp)@.wf(),
    ensures
        (r, final(sp)@) == split_step(st, cfg, old(sp)@, current_game, menu_indicator),
        final(sp)@.wf(),
{
    proof {
        reveal(split_step);
    }
    if sp.force_split2 {
        sp.force_split2 = false;
        sp.force_split = false;
        sp.clear_dirty_bsps();
        return true;
    }
    if menu_indicator != 1 {
        return false;
    }
    if sp.force_split {
        sp.force_split = false;
        sp.clear_dirty_bsps();
        if cfg.loop_mode {
            sp.loop_split = false;
        }
        return true;
    }
    if sp.multigame_pause {
        return false;
    }
    match current_game {
        0 => should_split_h1(st, cfg, sp),
        1 => should_split_h2(st, cfg, sp),
        2 => should_split_h3(st, cfg, sp),
        3 => should_split_h4(st, cfg, sp),
        5 => should_split_odst(st, cfg, sp),
        6 => should_split_hr(st, cfg, sp),
        _ => false,
    }
}

} // verus!
