//! Properties that relate several calls of the library.
use vstd::prelude::*;
use crate::cell::Watched;
use crate::clock::{accrued, banked, clock_reading, clock_step, whole_seconds, SANITY_BOUND};
use crate::continuity::{loading_step, pgcr_edge};
use crate::controller::{after_upkeep, next_phase, running_step, tick_step};
use crate::reset::resets;
use crate::snapshot::{GameState, Settings, TimerPhase};
use crate::split::{
    load_edge, split_h1, split_h2, split_h2_tgj, split_h3, split_h4, split_hr, split_odst,
    split_step, title_split,
};
use crate::splitter::RunView;

verus! {

/// A cell reports no transition after its first sample; after its second, it has changed
/// to `v` exactly when the second sample is `v` and the first was not.
pub proof fn lemma_cell_first_samples<T>(c: Watched<T>, a: T, b: T, v: T, w: T)
    requires
        !c.initialized,
    ensures
        !c.after(Some(a)).spec_changed(),
        !c.after(Some(a)).spec_changed_to(v),
        !c.after(Some(a)).spec_changed_from(v),
        !c.after(Some(a)).spec_changed_from_to(v, w),
        c.after(Some(a)).after(Some(b)).spec_changed_to(v) == (b == v && a != v),
{
}

/// A missing sample is no transition: the cell stays as it was.
pub proof fn lemma_cell_missing_sample<T>(c: Watched<T>)
    ensures
        c.after(None) == c,
{
}

/// Marking the same region twice leaves it held exactly once; after clearing, no marker
/// is held.
pub proof fn lemma_markers(v: RunView, b: u8, i: u32, l: u64)
    requires
        v.wf(),
    ensures
        v.with_byte(b).with_byte(b).dirty_bytes.to_multiset().count(b) == 1,
        v.with_int(i).with_int(i).dirty_ints.to_multiset().count(i) == 1,
        v.with_long(l).with_long(l).dirty_longs.to_multiset().count(l) == 1,
        forall|x: u8| !v.cleared().dirty_bytes.contains(x),
        forall|x: u32| !v.cleared().dirty_ints.contains(x),
        forall|x: u64| !v.cleared().dirty_longs.contains(x),
{
    broadcast use vstd::seq_lib::to_multiset_contains;

    let sb = v.with_byte(b).with_byte(b).dirty_bytes;
    let si = v.with_int(i).with_int(i).dirty_ints;
    let sl = v.with_long(l).with_long(l).dirty_longs;
    assert(sb.contains(b)) by {
        if !v.dirty_bytes.contains(b) {
            assert(v.dirty_bytes.push(b)[v.dirty_bytes.len() as int] == b);
        }
    }
    assert(si.contains(i)) by {
        if !v.dirty_ints.contains(i) {
            assert(v.dirty_ints.push(i)[v.dirty_ints.len() as int] == i);
        }
    }
    assert(sl.contains(l)) by {
        if !v.dirty_longs.contains(l) {
            assert(v.dirty_longs.push(l)[v.dirty_longs.len() as int] == l);
        }
    }
    assert(v.with_byte(b).wf());
    assert(v.with_int(i).wf());
    assert(v.with_long(l).wf());
    sb.lemma_multiset_has_no_duplicates();
    si.lemma_multiset_has_no_duplicates();
    sl.lemma_multiset_has_no_duplicates();
}

/// Within a level the clock never runs backwards: with no report, no loading screen and
/// the counter stepping forward by less than the sanity bound, banked plus level time
/// does not decrease. While a level is under way the step is exactly the counter's,
/// wherever the level time stays within `u32`.
pub proof fn lemma_clock_monotonic(st: &GameState, cfg: &Settings, v: RunView, game: u8, split_this_tick: bool)
    requires
        clock_reading(st, cfg, game) matches Some((igt, igt_old, _)) && igt > igt_old && igt
            - igt_old < SANITY_BOUND,
        !pgcr_edge(st),
        !load_edge(st),
    ensures
        ({
            let after = clock_step(st, cfg, v, game, split_this_tick).1;
            let (igt, igt_old, _) = clock_reading(st, cfg, game).unwrap();
            &&& after.ingame_time + after.level_time >= v.ingame_time + v.level_time
            &&& (v.level_time != 0 && v.level_time + (igt - igt_old) <= u32::MAX) ==> (
            after.ingame_time == v.ingame_time && after.level_time == v.level_time + (igt
                - igt_old))
        }),
{
    reveal(clock_step);
    reveal(accrued);
    reveal(banked);
}

/// A post-game report banks the level time, rounded down to whole seconds of the title's
/// tick rate, and starts the next level at zero; it arms a forced split unless the tick
/// has already split. The level time is the one that includes this tick's reading; the
/// banked time must not overflow.
pub proof fn lemma_report_banks_whole_seconds(
    st: &GameState,
    cfg: &Settings,
    v: RunView,
    game: u8,
    split_this_tick: bool,
)
    requires
        clock_reading(st, cfg, game) matches Some((igt, igt_old, rate)) && v.ingame_time
            + whole_seconds(accrued(v, igt, igt_old, st.mcc_loadindicator.cur_or(0)), rate)
            <= u32::MAX,
        pgcr_edge(st),
    ensures
        ({
            let (igt, igt_old, rate) = clock_reading(st, cfg, game).unwrap();
            let t = accrued(v, igt, igt_old, st.mcc_loadindicator.cur_or(0));
            let after = clock_step(st, cfg, v, game, split_this_tick).1;
            &&& after.level_time == 0
            &&& after.ingame_time == v.ingame_time + (t - t % rate)
            &&& after.pgcr_exists
            &&& after.force_split == (v.force_split || !split_this_tick)
        }),
{
    reveal(clock_step);
    reveal(banked);
}

/// On a replayed snapshot no title's own policy splits: every split it knows needs a
/// value to change.
pub proof fn lemma_replay_title_split(st: &GameState, cfg: &Settings, v: RunView, game: u8)
    requires
        st.replayed(),
    ensures
        !title_split(st, cfg, v, game).0,
{
    reveal(split_h1);
    reveal(split_h2);
    reveal(split_h2_tgj);
    reveal(split_h3);
    reveal(split_h4);
    reveal(split_odst);
    reveal(split_hr);
}

/// No title's own split touches the pending forced splits.
pub proof fn lemma_title_split_keeps_forced(st: &GameState, cfg: &Settings, v: RunView, game: u8)
    ensures
        title_split(st, cfg, v, game).1.force_split == v.force_split,
        title_split(st, cfg, v, game).1.force_split2 == v.force_split2,
{
    reveal(split_h1);
    reveal(split_h2);
    reveal(split_h2_tgj);
    reveal(split_h3);
    reveal(split_h4);
    reveal(split_odst);
    reveal(split_hr);
}

/// A tick's split leaves no forced split pending.
pub proof fn lemma_split_answers_forced(st: &GameState, cfg: &Settings, v: RunView, game: u8, menu: u8)
    requires
        split_step(st, cfg, v, game, menu).0,
    ensures
        !split_step(st, cfg, v, game, menu).1.force_split,
        !split_step(st, cfg, v, game, menu).1.force_split2,
{
    reveal(split_step);
    lemma_title_split_keeps_forced(st, cfg, v, game);
}

/// The loading step of a tick that has split arms no forced split.
pub proof fn lemma_loading_arms_nothing_after_split(
    st: &GameState,
    cfg: &Settings,
    v: RunView,
    game: u8,
    menu: u8,
    load: u8,
)
    requires
        !v.force_split,
        !v.force_split2,
    ensures
        !loading_step(st, cfg, v, game, menu, load, true).2.force_split,
        !loading_step(st, cfg, v, game, menu, load, true).2.force_split2,
{
    reveal(loading_step);
    reveal(clock_step);
    reveal(banked);
}

/// Replaying a snapshot never repeats a call: after a start or a reset the timer has left
/// the phase in which it can repeat; a tick that splits leaves no forced split pending,
/// and a replayed snapshot gives no title any change to split on.
pub proof fn lemma_replay_no_second_call(
    st1: &GameState,
    st2: &GameState,
    cfg: &Settings,
    v: RunView,
    p: TimerPhase,
)
    requires
        st2.replayed(),
    ensures
        ({
            let (a1, v1) = tick_step(st1, cfg, v, p);
            let a2 = tick_step(st2, cfg, v1, next_phase(p, a1)).0;
            &&& !(a1.start && a2.start)
            &&& !(a1.reset && a2.reset)
            &&& !(a1.split && a2.split)
        }),
{
    let (a1, v1) = tick_step(st1, cfg, v, p);
    if a1.split {
        let game = st1.mcc_gameindicator.cur_or(10);
        let menu = st1.mcc_menuindicator.cur_or(0);
        let load = st1.mcc_loadindicator.cur_or(0);
        let w = RunView { vars_reset: true, ..after_upkeep(st1, cfg, v) };
        assert(p != TimerPhase::NotRunning && p != TimerPhase::Ended);
        assert(!resets(st1, cfg, w, game, menu, p));
        let (sp, w2) = split_step(st1, cfg, w, game, menu);
        assert(sp);
        lemma_split_answers_forced(st1, cfg, w, game, menu);
        lemma_loading_arms_nothing_after_split(st1, cfg, w2, game, menu, load);
        assert(!v1.force_split && !v1.force_split2);
        let v0 = after_upkeep(st2, cfg, v1);
        reveal(after_upkeep);
        reveal(split_step);
        lemma_replay_title_split(
            st2,
            cfg,
            RunView { vars_reset: true, ..v0 },
            st2.mcc_gameindicator.cur_or(10),
        );
    }
}

} // verus!
