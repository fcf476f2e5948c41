//! The per-tick snapshot of every sampled quantity, and the user's configuration.
use vstd::prelude::*;
use crate::cell::{Ieee32, Watched, WatchedName};

verus! {

/// The mode flags that the user selected.
#[derive(Clone, Copy)]
pub struct Settings {
    /// Individual-level mode.
    pub il_mode: bool,
    /// Level loop mode.
    pub loop_mode: bool,
    /// Split on landmark regions.
    pub bsp_mode: bool,
    /// Split on landmark regions seen before in the attempt too.
    pub bsp_cache: bool,
    /// Split on the in-game competitive timer.
    pub comp_splits: bool,
    /// Keep the clock running on the pause screen.
    pub h3_coop: bool,
    /// Start full-game runs on any level.
    pub any_level: bool,
    /// Pause the clock in the main menu.
    pub menu_pause: bool,
    /// Split when a level is loaded from the main menu.
    pub sq_split: bool,
    /// Start on custom maps of the first title.
    pub any_start: bool,
    /// Count deaths.
    pub death_counter: bool,
    /// Bank the exact level time on a restart.
    pub igt_add: bool,
    /// Follow the in-game time whatever the title.
    pub igt_mode: bool,
}

impl Settings {
    /// The defaults: every mode off but pausing in the main menu.
    pub fn new() -> (r: Settings)
        ensures
            r.menu_pause,
            !r.il_mode && !r.loop_mode && !r.bsp_mode && !r.bsp_cache && !r.comp_splits,
            !r.h3_coop && !r.any_level && !r.sq_split && !r.any_start,
            !r.death_counter && !r.igt_add && !r.igt_mode,
    {
        Settings {
            il_mode: false,
            loop_mode: false,
            bsp_mode: false,
            bsp_cache: false,
            comp_splits: false,
            h3_coop: false,
            any_level: false,
            menu_pause: true,
            sq_split: false,
            any_start: false,
            death_counter: false,
            igt_add: false,
            igt_mode: false,
        }
    }
}

/// Every sampled quantity of one tick, each with its value on the tick before.
///
/// Floating-point quantities are held as their IEEE-754 bit patterns. `mcc_igt_ticks`
/// is the launcher's in-game time scaled to 60 ticks a second and rounded, sampled
/// together with `mcc_igt_float`.
pub struct GameState {
    pub mcc_loadindicator: Watched<u8>,
    pub mcc_menuindicator: Watched<u8>,
    pub mcc_pauseindicator: Watched<u8>,
    pub mcc_pgcrindicator: Watched<u8>,
    pub mcc_gameindicator: Watched<u8>,
    pub mcc_igt_float: Watched<Ieee32>,
    pub mcc_igt_ticks: Watched<u32>,
    pub mcc_comptimerstate: Watched<u32>,

    pub h1_tickcounter: Watched<u32>,
    pub h1_igt: Watched<u32>,
    pub h1_bspstate: Watched<u8>,
    pub h1_levelname: WatchedName,
    pub h1_gamewon: Watched<bool>,
    pub h1_cinematic: Watched<bool>,
    pub h1_cutsceneskip: Watched<bool>,
    pub h1_xpos: Watched<Ieee32>,
    pub h1_ypos: Watched<Ieee32>,
    pub h1_fadetick: Watched<u32>,
    pub h1_fadelength: Watched<u16>,
    pub h1_fadebyte: Watched<u8>,
    pub h1_deathflag: Watched<bool>,
    pub h1_checksum: Watched<u32>,
    pub h1_aflags: Watched<u8>,

    pub h2_levelname: WatchedName,
    pub h2_igt: Watched<u32>,
    pub h2_bspstate: Watched<u8>,
    pub h2_deathflag: Watched<bool>,
    pub h2_tickcounter: Watched<u32>,
    pub h2_graphics: Watched<u8>,
    pub h2_fadebyte: Watched<u8>,
    pub h2_letterbox: Watched<Ieee32>,
    pub h2_xpos: Watched<Ieee32>,
    pub h2_ypos: Watched<Ieee32>,
    pub h2_fadetick: Watched<u32>,
    pub h2_fadelength: Watched<u16>,

    pub h3_levelname: WatchedName,
    pub h3_theatertime: Watched<u32>,
    pub h3_tickcounter: Watched<u32>,
    pub h3_bspstate: Watched<u64>,
    pub h3_deathflag: Watched<bool>,

    pub hr_levelname: WatchedName,
    pub hr_bspstate: Watched<u32>,
    pub hr_deathflag: Watched<bool>,

    pub odst_levelname: WatchedName,
    pub odst_streets: Watched<u8>,
    pub odst_bspstate: Watched<u32>,
    pub odst_deathflag: Watched<bool>,

    pub h4_levelname: WatchedName,
    pub h4_bspstate: Watched<u64>,
}

/// The zero of the bit patterns: positive zero.
pub open spec fn zero_f() -> Ieee32 {
    Ieee32 { bits: 0 }
}

impl GameState {
    /// No sampled number or flag changed on the last tick: the snapshot was replayed.
    pub open spec fn replayed(&self) -> bool {
        &&& self.mcc_loadindicator.steady() && self.mcc_menuindicator.steady()
        &&& self.mcc_pauseindicator.steady() && self.mcc_pgcrindicator.steady()
        &&& self.mcc_gameindicator.steady() && self.mcc_igt_float.steady()
        &&& self.mcc_igt_ticks.steady() && self.mcc_comptimerstate.steady()
        &&& self.h1_tickcounter.steady() && self.h1_igt.steady() && self.h1_bspstate.steady()
        &&& self.h1_gamewon.steady() && self.h1_cinematic.steady() && self.h1_cutsceneskip.steady()
        &&& self.h1_xpos.steady() && self.h1_ypos.steady() && self.h1_fadetick.steady()
        &&& self.h1_fadelength.steady() && self.h1_fadebyte.steady() && self.h1_deathflag.steady()
        &&& self.h1_checksum.steady() && self.h1_aflags.steady()
        &&& self.h2_igt.steady() && self.h2_bspstate.steady() && self.h2_deathflag.steady()
        &&& self.h2_tickcounter.steady() && self.h2_graphics.steady() && self.h2_fadebyte.steady()
        &&& self.h2_letterbox.steady() && self.h2_xpos.steady() && self.h2_ypos.steady()
        &&& self.h2_fadetick.steady() && self.h2_fadelength.steady()
        &&& self.h3_theatertime.steady() && self.h3_tickcounter.steady()
        &&& self.h3_bspstate.steady() && self.h3_deathflag.steady()
        &&& self.hr_bspstate.steady() && self.hr_deathflag.steady()
        &&& self.odst_streets.steady() && self.odst_bspstate.steady() && self.odst_deathflag.steady()
        &&& self.h4_bspstate.steady()
    }

    /// Nothing has been sampled yet.
    pub open spec fn unsampled(&self) -> bool {
        &&& !self.mcc_loadindicator.initialized && !self.mcc_menuindicator.initialized
        &&& !self.mcc_pauseindicator.initialized && !self.mcc_pgcrindicator.initialized
        &&& !self.mcc_gameindicator.initialized && !self.mcc_igt_float.initialized
        &&& !self.mcc_igt_ticks.initialized && !self.mcc_comptimerstate.initialized
        &&& !self.h1_tickcounter.initialized && !self.h1_igt.initialized
        &&& !self.h1_bspstate.initialized && !self.h1_levelname.initialized
        &&& !self.h1_gamewon.initialized && !self.h1_cinematic.initialized
        &&& !self.h1_cutsceneskip.initialized && !self.h1_xpos.initialized
        &&& !self.h1_ypos.initialized && !self.h1_fadetick.initialized
        &&& !self.h1_fadelength.initialized && !self.h1_fadebyte.initialized
        &&& !self.h1_deathflag.initialized && !self.h1_checksum.initialized
        &&& !self.h1_aflags.initialized
        &&& !self.h2_levelname.initialized && !self.h2_igt.initialized
        &&& !self.h2_bspstate.initialized && !self.h2_deathflag.initialized
        &&& !self.h2_tickcounter.initialized && !self.h2_graphics.initialized
        &&& !self.h2_fadebyte.initialized && !self.h2_letterbox.initialized
        &&& !self.h2_xpos.initialized && !self.h2_ypos.initialized
        &&& !self.h2_fadetick.initialized && !self.h2_fadelength.initialized
        &&& !self.h3_levelname.initialized && !self.h3_theatertime.initialized
        &&& !self.h3_tickcounter.initialized && !self.h3_bspstate.initialized
        &&& !self.h3_deathflag.initialized
        &&& !self.hr_levelname.initialized && !self.hr_bspstate.initialized
        &&& !self.hr_deathflag.initialized
        &&& !self.odst_levelname.initialized && !self.odst_streets.initialized
        &&& !self.odst_bspstate.initialized && !self.odst_deathflag.initialized
        &&& !self.h4_levelname.initialized && !self.h4_bspstate.initialized
    }

    /// A snapshot in which nothing has been sampled yet.
    pub fn new() -> (r: GameState)
        ensures
            r.unsampled(),
    {
        let z = Ieee32 { bits: 0 };
        GameState {
            mcc_loadindicator: Watched::new(0),
            mcc_menuindicator: Watched::new(0),
            mcc_pauseindicator: Watched::new(0),
            mcc_pgcrindicator: Watched::new(0),
            mcc_gameindicator: Watched::new(0),
            mcc_igt_float: Watched::new(z),
            mcc_igt_ticks: Watched::new(0),
            mcc_comptimerstate: Watched::new(0),
            h1_tickcounter: Watched::new(0),
            h1_igt: Watched::new(0),
            h1_bspstate: Watched::new(0),
            h1_levelname: WatchedName::new(),
            h1_gamewon: Watched::new(false),
            h1_cinematic: Watched::new(false),
            h1_cutsceneskip: Watched::new(false),
            h1_xpos: Watched::new(z),
            h1_ypos: Watched::new(z),
            h1_fadetick: Watched::new(0),
            h1_fadelength: Watched::new(0),
            h1_fadebyte: Watched::new(0),
            h1_deathflag: Watched::new(false),
            h1_checksum: Watched::new(0),
            h1_aflags: Watched::new(0),
            h2_levelname: WatchedName::new(),
            h2_igt: Watched::new(0),
            h2_bspstate: Watched::new(0),
            h2_deathflag: Watched::new(false),
            h2_tickcounter: Watched::new(0),
            h2_graphics: Watched::new(0),
            h2_fadebyte: Watched::new(0),
            h2_letterbox: Watched::new(z),
            h2_xpos: Watched::new(z),
            h2_ypos: Watched::new(z),
            h2_fadetick: Watched::new(0),
            h2_fadelength: Watched::new(0),
            h3_levelname: WatchedName::new(),
            h3_theatertime: Watched::new(0),
            h3_tickcounter: Watched::new(0),
            h3_bspstate: Watched::new(0),
            h3_deathflag: Watched::new(false),
            hr_levelname: WatchedName::new(),
            hr_bspstate: Watched::new(0),
            hr_deathflag: Watched::new(false),
            odst_levelname: WatchedName::new(),
            odst_streets: Watched::new(0),
            odst_bspstate: Watched::new(0),
            odst_deathflag: Watched::new(false),
            h4_levelname: WatchedName::new(),
            h4_bspstate: Watched::new(0),
        }
    }
}

} // verus!

verus! {

// Bit patterns of the single-precision constants that the policies compare against.

/// 0.0
pub const F_ZERO: u32 = 0x0000_0000;
/// 0.167: the in-game time a level shows just after its intro.
pub const F_IGT_START_LOW: u32 = 0x3e2b_020c;
/// 0.5
pub const F_HALF: u32 = 0x3f00_0000;
/// 2.0
pub const F_TWO: u32 = 0x4000_0000;
/// 0.96: the letterbox bars of an ending cinematic.
pub const F_LETTERBOX: u32 = 0x3f75_c28f;
/// -55.0: the first level's starting x-position bound.
pub const F_POA_START_X: u32 = 0xc25c_0000;
/// 1000.0: the x-position past which the last level's ending plays.
pub const F_MAW_END_X: u32 = 0x447a_0000;
/// -19.544 and -19.144: the y-window of one region of level "b40".
pub const F_B40_Y_LOW: u32 = 0xc19c_5a1d;
pub const F_B40_Y_HIGH: u32 = 0xc199_26e9;
/// 171.87326, 185.818526, -295.3629, -284.356986: the window of one region of level "c40".
pub const F_C40_X_LOW: u32 = 0x432b_df8e;
pub const F_C40_X_HIGH: u32 = 0x4339_d18b;
pub const F_C40_Y_LOW: u32 = 0xc393_ae74;
pub const F_C40_Y_HIGH: u32 = 0xc38e_2db2;
/// -35.0, -20.0, -15.0, -10.0, -5.0, -2.0
pub const F_NEG_35: u32 = 0xc20c_0000;
pub const F_NEG_20: u32 = 0xc1a0_0000;
pub const F_NEG_15: u32 = 0xc170_0000;
pub const F_NEG_10: u32 = 0xc120_0000;
pub const F_NEG_5: u32 = 0xc0a0_0000;
pub const F_NEG_2: u32 = 0xc000_0000;
/// 5.0, 10.0, 15.0, 20.0, 25.0, 30.0, 45.0, 55.0
pub const F_5: u32 = 0x40a0_0000;
pub const F_10: u32 = 0x4120_0000;
pub const F_15: u32 = 0x4170_0000;
pub const F_20: u32 = 0x41a0_0000;
pub const F_25: u32 = 0x41c8_0000;
pub const F_30: u32 = 0x41f0_0000;
pub const F_45: u32 = 0x4234_0000;
pub const F_55: u32 = 0x425c_0000;

} // verus!

verus! {

/// The phase of the external timer.
#[derive(Clone, Copy, PartialEq, Eq, Structural, Debug)]
pub enum TimerPhase {
    NotRunning,
    Running,
    Paused,
    Ended,
}

} // verus!
