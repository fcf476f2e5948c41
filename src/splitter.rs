//! Titles, per-level landmark tables and the state that one attempt carries.
use vstd::prelude::*;
use crate::names::name_is;

verus! {

/// The titles of the launcher, and its main menu.
#[derive(Clone, Copy, PartialEq, Eq, Structural, Debug)]
pub enum MCCGame {
    Halo1,
    Halo2,
    Halo3,
    Halo4,
    ODST,
    Reach,
    MainMenu,
}

/// The value by which the launcher reports each title.
pub open spec fn game_code(g: MCCGame) -> u8 {
    match g {
        MCCGame::Halo1 => 0,
        MCCGame::Halo2 => 1,
        MCCGame::Halo3 => 2,
        MCCGame::Halo4 => 3,
        MCCGame::ODST => 5,
        MCCGame::Reach => 6,
        MCCGame::MainMenu => 10,
    }
}

/// The name of each variant, as shown in diagnostics.
pub open spec fn game_name(g: MCCGame) -> Seq<char> {
    match g {
        MCCGame::Halo1 => "Halo1"@,
        MCCGame::Halo2 => "Halo2"@,
        MCCGame::Halo3 => "Halo3"@,
        MCCGame::Halo4 => "Halo4"@,
        MCCGame::ODST => "ODST"@,
        MCCGame::Reach => "Reach"@,
        MCCGame::MainMenu => "MainMenu"@,
    }
}

impl MCCGame {
    /// The value by which the launcher reports this title.
    pub fn code(&self) -> (r: u8)
        ensures
            r == game_code(*self),
    {
        match self {
            MCCGame::Halo1 => 0,
            MCCGame::Halo2 => 1,
            MCCGame::Halo3 => 2,
            MCCGame::Halo4 => 3,
            MCCGame::ODST => 5,
            MCCGame::Reach => 6,
            MCCGame::MainMenu => 10,
        }
    }

    /// The title that the launcher reports by `code`, if it names one.
    pub fn from_code(code: u8) -> (r: Option<MCCGame>)
        ensures
            match r {
                Some(g) => game_code(g) == code,
                None => forall|g: MCCGame| game_code(g) != code,
            },
    {
        match code {
            0 => Some(MCCGame::Halo1),
            1 => Some(MCCGame::Halo2),
            2 => Some(MCCGame::Halo3),
            3 => Some(MCCGame::Halo4),
            5 => Some(MCCGame::ODST),
            6 => Some(MCCGame::Reach),
            10 => Some(MCCGame::MainMenu),
            _ => None,
        }
    }

    /// The variant's name, as shown in diagnostics.
    pub fn name(&self) -> (r: &'static str)
        ensures
            r@ == game_name(*self),
    {
        match self {
            MCCGame::Halo1 => "Halo1",
            MCCGame::Halo2 => "Halo2",
            MCCGame::Halo3 => "Halo3",
            MCCGame::Halo4 => "Halo4",
            MCCGame::ODST => "ODST",
            MCCGame::Reach => "Reach",
            MCCGame::MainMenu => "MainMenu",
        }
    }
}

/// The expected map checksum of each first-title campaign level, for one game version.
#[derive(Clone, Copy)]
pub struct H1Checklist {
    pub a10: u32,
    pub a30: u32,
    pub a50: u32,
    pub b30: u32,
    pub b40: u32,
    pub c10: u32,
    pub c20: u32,
    pub c40: u32,
    pub d20: u32,
    pub d40: u32,
}

impl Default for H1Checklist {
    fn default() -> (r: Self)
        ensures
            r.a10 == 0 && r.a30 == 0 && r.a50 == 0 && r.b30 == 0 && r.b40 == 0,
            r.c10 == 0 && r.c20 == 0 && r.c40 == 0 && r.d20 == 0 && r.d40 == 0,
    {
        H1Checklist::new()
    }
}

impl H1Checklist {
    /// The checksum recorded for `level`.
    pub open spec fn spec_get(self, level: Seq<char>) -> Option<u32> {
        if level == "a10"@ {
            Some(self.a10)
        } else if level == "a30"@ {
            Some(self.a30)
        } else if level == "a50"@ {
            Some(self.a50)
        } else if level == "b30"@ {
            Some(self.b30)
        } else if level == "b40"@ {
            Some(self.b40)
        } else if level == "c10"@ {
            Some(self.c10)
        } else if level == "c20"@ {
            Some(self.c20)
        } else if level == "c40"@ {
            Some(self.c40)
        } else if level == "d20"@ {
            Some(self.d20)
        } else if level == "d40"@ {
            Some(self.d40)
        } else {
            None
        }
    }

    pub fn new() -> (r: Self)
        ensures
            r.a10 == 0 && r.a30 == 0 && r.a50 == 0 && r.b30 == 0 && r.b40 == 0,
            r.c10 == 0 && r.c20 == 0 && r.c40 == 0 && r.d20 == 0 && r.d40 == 0,
    {
        H1Checklist { a10: 0, a30: 0, a50: 0, b30: 0, b40: 0, c10: 0, c20: 0, c40: 0, d20: 0, d40: 0 }
    }

    /// The checksum recorded for `level`; `None` for a level outside the campaign.
    pub fn get(&self, level: &str) -> (r: Option<u32>)
        ensures
            r == self.spec_get(level@),
    {
        if name_is(level, "a10") {
            Some(self.a10)
        } else if name_is(level, "a30") {
            Some(self.a30)
        } else if name_is(level, "a50") {
            Some(self.a50)
        } else if name_is(level, "b30") {
            Some(self.b30)
        } else if name_is(level, "b40") {
            Some(self.b40)
        } else if name_is(level, "c10") {
            Some(self.c10)
        } else if name_is(level, "c20") {
            Some(self.c20)
        } else if name_is(level, "c40") {
            Some(self.c40)
        } else if name_is(level, "d20") {
            Some(self.d20)
        } else if name_is(level, "d40") {
            Some(self.d40)
        } else {
            None
        }
    }
}

/// The landmark regions of each first-title level.
pub open spec fn h1_landmarks(level: Seq<char>) -> Seq<u8> {
    if level == "a10"@ {
        seq![1u8, 2, 3, 4, 5, 6]
    } else if level == "a30"@ {
        seq![1u8]
    } else if level == "a50"@ {
        seq![1u8, 2, 3]
    } else if level == "b30"@ {
        seq![1u8]
    } else if level == "b40"@ {
        seq![0u8, 1, 2, 4, 8, 9, 10, 11]
    } else if level == "c10"@ {
        seq![1u8, 3, 4, 5]
    } else if level == "c20"@ {
        seq![1u8, 2, 3]
    } else if level == "c40"@ {
        seq![12u8, 10, 1, 9, 8, 6, 0, 5]
    } else if level == "d20"@ {
        seq![4u8, 3, 2]
    } else if level == "d40"@ {
        seq![1u8, 2, 3, 4, 5, 6, 7]
    } else {
        Seq::empty()
    }
}

/// The landmark regions of a first-title level; empty for an unknown level.
pub fn get_h1_bsp_list(level: &str) -> (r: &'static [u8])
    ensures
        r@ == h1_landmarks(level@),
{
    if name_is(level, "a10") {
        &[1, 2, 3, 4, 5, 6]
    } else if name_is(level, "a30") {
        &[1]
    } else if name_is(level, "a50") {
        &[1, 2, 3]
    } else if name_is(level, "b30") {
        &[1]
    } else if name_is(level, "b40") {
        &[0, 1, 2, 4, 8, 9, 10, 11]
    } else if name_is(level, "c10") {
        &[1, 3, 4, 5]
    } else if name_is(level, "c20") {
        &[1, 2, 3]
    } else if name_is(level, "c40") {
        &[12, 10, 1, 9, 8, 6, 0, 5]
    } else if name_is(level, "d20") {
        &[4, 3, 2]
    } else if name_is(level, "d40") {
        &[1, 2, 3, 4, 5, 6, 7]
    } else {
        &[]
    }
}

/// The landmark regions of each second-title level.
pub open spec fn h2_landmarks(level: Seq<char>) -> Seq<u8> {
    if level == "01a"@ {
        Seq::empty()
    } else if level == "01b"@ {
        seq![2u8, 0, 3]
    } else if level == "03a"@ {
        seq![1u8, 2]
    } else if level == "03b"@ {
        seq![1u8]
    } else if level == "04a"@ {
        seq![3u8, 0]
    } else if level == "04b"@ {
        seq![0u8, 2, 1, 5]
    } else if level == "05a"@ {
        seq![1u8]
    } else if level == "05b"@ {
        seq![1u8, 2]
    } else if level == "06a"@ {
        seq![1u8, 2]
    } else if level == "06b"@ {
        seq![1u8, 2, 3]
    } else if level == "07a"@ {
        seq![1u8, 2, 3, 4, 5]
    } else if level == "08a"@ {
        seq![1u8, 0]
    } else if level == "07b"@ {
        seq![1u8, 2, 4]
    } else if level == "08b"@ {
        seq![0u8, 1, 3]
    } else {
        Seq::empty()
    }
}

/// The landmark regions of a second-title level; empty for an unknown level.
pub fn get_h2_bsp_list(level: &str) -> (r: &'static [u8])
    ensures
        r@ == h2_landmarks(level@),
{
    if name_is(level, "01a") {
        &[]
    } else if name_is(level, "01b") {
        &[2, 0, 3]
    } else if name_is(level, "03a") {
        &[1, 2]
    } else if name_is(level, "03b") {
        &[1]
    } else if name_is(level, "04a") {
        &[3, 0]
    } else if name_is(level, "04b") {
        &[0, 2, 1, 5]
    } else if name_is(level, "05a") {
        &[1]
    } else if name_is(level, "05b") {
        &[1, 2]
    } else if name_is(level, "06a") {
        &[1, 2]
    } else if name_is(level, "06b") {
        &[1, 2, 3]
    } else if name_is(level, "07a") {
        &[1, 2, 3, 4, 5]
    } else if name_is(level, "08a") {
        &[1, 0]
    } else if name_is(level, "07b") {
        &[1, 2, 4]
    } else if name_is(level, "08b") {
        &[0, 1, 3]
    } else {
        &[]
    }
}

/// The landmark regions of each third-title level.
pub open spec fn h3_landmarks(level: Seq<char>) -> Seq<u64> {
    if level == "010"@ {
        seq![7u64, 4111, 4127, 8589938751, 12884907135, 4294972543, 4294972927, 6143]
    } else if level == "020"@ {
        seq![2753726871765283u64, 351925325267239, 527984624664871, 527980329698111, 355107896034111, 495845384389503, 1058778157941759, 2081384101315583, 2076028277097471, 2043042928264191]
    } else if level == "030"@ {
        seq![708669603847u64, 1812476198927, 1709396983839, 128849018943, 2327872274495]
    } else if level == "040"@ {
        seq![70746701299715u64, 76347338653703, 5987184410895, 43920335569183, 52712133624127, 4449586119039, 110002702385663, 127560528691711]
    } else if level == "050"@ {
        seq![137438953607u64, 154618822791, 167503724703, 98784247967, 98784247999, 133143986431, 111669150207]
    } else if level == "070"@ {
        seq![319187993615142919u64, 497073530286903311, 5109160733019475999, 7059113264503853119, 7058267740062093439, 5296235395170702591, 6467180094380056063, 6471685893030682623, 6453663797939806207]
    } else if level == "100"@ {
        seq![4508347378708774919u64, 2060429875000377375, 4384271889560765215, 2060429875000378143, 4508347378708775711, 4229124150272197439, 4105313024951190527, 4159567262287660031, 4153434048988972031, 4099400491367139327, 21673629041340192]
    } else if level == "110"@ {
        seq![4294967459u64, 4294967527, 4294967535, 4294967551]
    } else if level == "120"@ {
        seq![1030792151055u64, 691489734703, 1924145349759, 1133871367679, 1202590844927, 1219770714111]
    } else {
        Seq::empty()
    }
}

/// The landmark regions of a third-title level; empty for an unknown level.
pub fn get_h3_bsp_list(level: &str) -> (r: &'static [u64])
    ensures
        r@ == h3_landmarks(level@),
{
    if name_is(level, "010") {
        &[7, 4111, 4127, 8589938751, 12884907135, 4294972543, 4294972927, 6143]
    } else if name_is(level, "020") {
        &[2753726871765283, 351925325267239, 527984624664871, 527980329698111, 355107896034111, 495845384389503, 1058778157941759, 2081384101315583, 2076028277097471, 2043042928264191]
    } else if name_is(level, "030") {
        &[708669603847, 1812476198927, 1709396983839, 128849018943, 2327872274495]
    } else if name_is(level, "040") {
        &[70746701299715, 76347338653703, 5987184410895, 43920335569183, 52712133624127, 4449586119039, 110002702385663, 127560528691711]
    } else if name_is(level, "050") {
        &[137438953607, 154618822791, 167503724703, 98784247967, 98784247999, 133143986431, 111669150207]
    } else if name_is(level, "070") {
        &[319187993615142919, 497073530286903311, 5109160733019475999, 7059113264503853119, 7058267740062093439, 5296235395170702591, 6467180094380056063, 6471685893030682623, 6453663797939806207]
    } else if name_is(level, "100") {
        &[4508347378708774919, 2060429875000377375, 4384271889560765215, 2060429875000378143, 4508347378708775711, 4229124150272197439, 4105313024951190527, 4159567262287660031, 4153434048988972031, 4099400491367139327, 21673629041340192]
    } else if name_is(level, "110") {
        &[4294967459, 4294967527, 4294967535, 4294967551]
    } else if name_is(level, "120") {
        &[1030792151055, 691489734703, 1924145349759, 1133871367679, 1202590844927, 1219770714111]
    } else {
        &[]
    }
}

/// The landmark regions of each fourth-title level.
pub open spec fn h4_landmarks(level: Seq<char>) -> Seq<u64> {
    if level == "m10"@ {
        seq![0u64, 0x0000000001800000, 0x000000000700000F]
    } else if level == "m02"@ {
        seq![0u64, 0x0000000080000C02]
    } else if level == "m30"@ {
        seq![0u64, 0x0000000072001902]
    } else if level == "m40"@ {
        seq![0u64, 0x00000040000C0001, 0x00000000013C0001]
    } else if level == "m60"@ {
        seq![0u64, 0x0000C00002100001, 0x0000400006000001]
    } else if level == "m70"@ {
        seq![0u64, 0x0000000100100004]
    } else if level == "m80"@ {
        seq![0u64, 0x0020000080000006, 0x0000000080400006, 0x0000000180C0000E]
    } else if level == "m90"@ {
        seq![0u64, 0x0000010000000006, 0x0000000000A00006]
    } else {
        Seq::empty()
    }
}

/// The landmark regions of a fourth-title level; empty for an unknown level.
pub fn get_h4_bsp_list(level: &str) -> (r: &'static [u64])
    ensures
        r@ == h4_landmarks(level@),
{
    if name_is(level, "m10") {
        &[0, 0x0000000001800000, 0x000000000700000F]
    } else if name_is(level, "m02") {
        &[0, 0x0000000080000C02]
    } else if name_is(level, "m30") {
        &[0, 0x0000000072001902]
    } else if name_is(level, "m40") {
        &[0, 0x00000040000C0001, 0x00000000013C0001]
    } else if name_is(level, "m60") {
        &[0, 0x0000C00002100001, 0x0000400006000001]
    } else if name_is(level, "m70") {
        &[0, 0x0000000100100004]
    } else if name_is(level, "m80") {
        &[0, 0x0020000080000006, 0x0000000080400006, 0x0000000180C0000E]
    } else if name_is(level, "m90") {
        &[0, 0x0000010000000006, 0x0000000000A00006]
    } else {
        &[]
    }
}

/// The landmark regions of each sixth-title level.
pub open spec fn hr_landmarks(level: Seq<char>) -> Seq<u32> {
    if level == "m10"@ {
        seq![143u32, 175, 239, 495]
    } else if level == "m20"@ {
        seq![249u32, 505, 509, 511]
    } else if level == "m30"@ {
        seq![269u32, 781, 797, 1821, 1853, 1917]
    } else if level == "m35"@ {
        seq![4111u32, 4127, 4223, 4607, 5119]
    } else if level == "m45"@ {
        seq![31u32, 383, 10111, 12159, 16255, 32639]
    } else if level == "m50"@ {
        seq![5135u32, 5151, 5247, 5631, 8191]
    } else if level == "m52"@ {
        Seq::empty()
    } else if level == "m60"@ {
        seq![113u32, 125, 4221, 4223, 5119]
    } else if level == "m70"@ {
        seq![31u32, 63, 127, 255, 511, 1023, 2047]
    } else {
        Seq::empty()
    }
}

/// The landmark regions of a sixth-title level; empty for an unknown level.
pub fn get_hr_bsp_list(level: &str) -> (r: &'static [u32])
    ensures
        r@ == hr_landmarks(level@),
{
    if name_is(level, "m10") {
        &[143, 175, 239, 495]
    } else if name_is(level, "m20") {
        &[249, 505, 509, 511]
    } else if name_is(level, "m30") {
        &[269, 781, 797, 1821, 1853, 1917]
    } else if name_is(level, "m35") {
        &[4111, 4127, 4223, 4607, 5119]
    } else if name_is(level, "m45") {
        &[31, 383, 10111, 12159, 16255, 32639]
    } else if name_is(level, "m50") {
        &[5135, 5151, 5247, 5631, 8191]
    } else if name_is(level, "m52") {
        &[]
    } else if name_is(level, "m60") {
        &[113, 125, 4221, 4223, 5119]
    } else if name_is(level, "m70") {
        &[31, 63, 127, 255, 511, 1023, 2047]
    } else {
        &[]
    }
}

/// The landmark regions of each fifth-title level.
pub open spec fn odst_landmarks(level: Seq<char>) -> Seq<u32> {
    if level == "h100"@ {
        seq![296u32, 352, 304, 400, 896, 262, 388, 259]
    } else if level == "sc10"@ {
        seq![14u32, 13, 9]
    } else if level == "sc11"@ {
        seq![79u32, 92, 96]
    } else if level == "sc13"@ {
        seq![11u32, 3, 7]
    } else if level == "sc12"@ {
        seq![11u32, 14, 12]
    } else if level == "sc14"@ {
        seq![11u32, 14, 12]
    } else if level == "sc15"@ {
        seq![14u32, 28, 24]
    } else if level == "l200"@ {
        seq![14u32, 28, 24, 48, 208, 224, 416]
    } else if level == "l300"@ {
        seq![33u32, 41, 56, 112]
    } else {
        Seq::empty()
    }
}

/// The landmark regions of a fifth-title level; empty for an unknown level.
pub fn get_odst_bsp_list(level: &str) -> (r: &'static [u32])
    ensures
        r@ == odst_landmarks(level@),
{
    if name_is(level, "h100") {
        &[296, 352, 304, 400, 896, 262, 388, 259]
    } else if name_is(level, "sc10") {
        &[14, 13, 9]
    } else if name_is(level, "sc11") {
        &[79, 92, 96]
    } else if name_is(level, "sc13") {
        &[11, 3, 7]
    } else if name_is(level, "sc12") {
        &[11, 14, 12]
    } else if name_is(level, "sc14") {
        &[11, 14, 12]
    } else if name_is(level, "sc15") {
        &[14, 28, 24]
    } else if name_is(level, "l200") {
        &[14, 28, 24, 48, 208, 224, 416]
    } else if name_is(level, "l300") {
        &[33, 41, 56, 112]
    } else {
        &[]
    }
}

/// What one attempt carries from tick to tick, as values.
pub struct RunView {
    pub vars_reset: bool,
    pub started_level: Seq<char>,
    pub started_game: u8,
    pub started_scene: u8,
    pub dirty_bytes: Seq<u8>,
    pub dirty_ints: Seq<u32>,
    pub dirty_longs: Seq<u64>,
    pub loop_split: bool,
    pub force_split: bool,
    pub force_split2: bool,
    pub h2_tgj_ready_flag: bool,
    pub h2_tgj_ready_time: u32,
    pub loading: bool,
    pub multigame_pause: bool,
    pub multigame_time: u64,
    pub game_time: u64,
    pub ingame_time: u32,
    pub level_time: u32,
    pub pgcr_exists: bool,
    pub h3_reset_flag: bool,
    pub death_counter: u32,
}

/// The run continuity state of one attempt.
///
/// `multigame_time` and `game_time` are in milliseconds; `ingame_time` and `level_time`
/// are in ticks of the title being played.
pub struct SplitterState {
    pub vars_reset: bool,
    pub started_level: String,
    pub started_game: u8,
    pub started_scene: u8,
    pub dirty_bsps_byte: Vec<u8>,
    pub dirty_bsps_int: Vec<u32>,
    pub dirty_bsps_long: Vec<u64>,
    pub loop_split: bool,
    pub force_split: bool,
    pub force_split2: bool,
    pub h2_tgj_ready_flag: bool,
    pub h2_tgj_ready_time: u32,
    pub loading: bool,
    pub multigame_pause: bool,
    pub multigame_time: u64,
    pub game_time: u64,
    pub ingame_time: u32,
    pub level_time: u32,
    pub pgcr_exists: bool,
    pub h3_reset_flag: bool,
    pub death_counter: u32,
}

impl View for SplitterState {
    type V = RunView;

    open spec fn view(&self) -> RunView {
        RunView {
            vars_reset: self.vars_reset,
            started_level: self.started_level@,
            started_game: self.started_game,
            started_scene: self.started_scene,
            dirty_bytes: self.dirty_bsps_byte@,
            dirty_ints: self.dirty_bsps_int@,
            dirty_longs: self.dirty_bsps_long@,
            loop_split: self.loop_split,
            force_split: self.force_split,
            force_split2: self.force_split2,
            h2_tgj_ready_flag: self.h2_tgj_ready_flag,
            h2_tgj_ready_time: self.h2_tgj_ready_time,
            loading: self.loading,
            multigame_pause: self.multigame_pause,
            multigame_time: self.multigame_time,
            game_time: self.game_time,
            ingame_time: self.ingame_time,
            level_time: self.level_time,
            pgcr_exists: self.pgcr_exists,
            h3_reset_flag: self.h3_reset_flag,
            death_counter: self.death_counter,
        }
    }
}

/// `s` with `x` added, unless it is there already.
pub open spec fn with_marker<T>(s: Seq<T>, x: T) -> Seq<T> {
    if s.contains(x) {
        s
    } else {
        s.push(x)
    }
}

impl RunView {
    /// No marker is held twice.
    pub open spec fn wf(self) -> bool {
        self.dirty_bytes.no_duplicates() && self.dirty_ints.no_duplicates()
            && self.dirty_longs.no_duplicates()
    }

    /// The state with all three marker sets emptied.
    pub open spec fn cleared(self) -> RunView {
        RunView { dirty_bytes: Seq::empty(), dirty_ints: Seq::empty(), dirty_longs: Seq::empty(), ..self }
    }

    pub open spec fn with_byte(self, b: u8) -> RunView {
        RunView { dirty_bytes: with_marker(self.dirty_bytes, b), ..self }
    }

    pub open spec fn with_int(self, b: u32) -> RunView {
        RunView { dirty_ints: with_marker(self.dirty_ints, b), ..self }
    }

    pub open spec fn with_long(self, b: u64) -> RunView {
        RunView { dirty_longs: with_marker(self.dirty_longs, b), ..self }
    }

    /// The state after an explicit reset of the run.
    pub open spec fn after_reset(self) -> RunView {
        RunView {
            vars_reset: self.vars_reset,
            started_level: Seq::empty(),
            started_game: 10,
            started_scene: 0,
            dirty_bytes: Seq::empty(),
            dirty_ints: Seq::empty(),
            dirty_longs: Seq::empty(),
            loop_split: true,
            force_split: false,
            force_split2: false,
            h2_tgj_ready_flag: false,
            h2_tgj_ready_time: 0,
            loading: false,
            multigame_pause: false,
            multigame_time: 0,
            game_time: 0,
            ingame_time: 0,
            level_time: 0,
            pgcr_exists: false,
            h3_reset_flag: self.h3_reset_flag,
            death_counter: 0,
        }
    }
}

/// The state in which every session begins.
pub open spec fn fresh_run() -> RunView {
    RunView {
        vars_reset: false,
        started_level: Seq::empty(),
        started_game: 0,
        started_scene: 0,
        dirty_bytes: Seq::empty(),
        dirty_ints: Seq::empty(),
        dirty_longs: Seq::empty(),
        loop_split: false,
        force_split: false,
        force_split2: false,
        h2_tgj_ready_flag: false,
        h2_tgj_ready_time: 0,
        loading: false,
        multigame_pause: false,
        multigame_time: 0,
        game_time: 0,
        ingame_time: 0,
        level_time: 0,
        pgcr_exists: false,
        h3_reset_flag: false,
        death_counter: 0,
    }
}

/// The two states hold the same markers.
pub open spec fn same_markers(a: RunView, b: RunView) -> bool {
    a.dirty_bytes == b.dirty_bytes && a.dirty_ints == b.dirty_ints && a.dirty_longs == b.dirty_longs
}

fn has_byte(v: &Vec<u8>, x: u8) -> (r: bool)
    ensures
        r == v@.contains(x),
{
    let mut i: usize = 0;
    while i < v.len()
        invariant
            i <= v.len(),
            forall|j: int| 0 <= j < i ==> v@[j] != x,
        decreases v.len() - i,
    {
        if v[i] == x {
            assert(v@[i as int] == x);
            return true;
        }
        i += 1;
    }
    false
}

fn has_int(v: &Vec<u32>, x: u32) -> (r: bool)
    ensures
        r == v@.contains(x),
{
    let mut i: usize = 0;
    while i < v.len()
        invariant
            i <= v.len(),
            forall|j: int| 0 <= j < i ==> v@[j] != x,
        decreases v.len() - i,
    {
        if v[i] == x {
            assert(v@[i as int] == x);
            return true;
        }
        i += 1;
    }
    false
}

fn has_long(v: &Vec<u64>, x: u64) -> (r: bool)
    ensures
        r == v@.contains(x),
{
    let mut i: usize = 0;
    while i < v.len()
        invariant
            i <= v.len(),
            forall|j: int| 0 <= j < i ==> v@[j] != x,
        decreases v.len() - i,
    {
        if v[i] == x {
            assert(v@[i as int] == x);
            return true;
        }
        i += 1;
    }
    false
}

impl Default for SplitterState {
    fn default() -> (r: Self)
        ensures
            r@ == fresh_run(),
            r@.wf(),
    {
        SplitterState::new()
    }
}

impl SplitterState {
    /// A fresh state, as at the start of a session.
    pub fn new() -> (r: Self)
        ensures
            r@ == fresh_run(),
            r@.wf(),
    {
        proof {
            assert(Seq::<u8>::empty().no_duplicates());
        }
        let r = SplitterState {
            vars_reset: false,
            started_level: String::new(),
            started_game: 0,
            started_scene: 0,
            dirty_bsps_byte: Vec::new(),
            dirty_bsps_int: Vec::new(),
            dirty_bsps_long: Vec::new(),
            loop_split: false,
            force_split: false,
            force_split2: false,
            h2_tgj_ready_flag: false,
            h2_tgj_ready_time: 0,
            loading: false,
            multigame_pause: false,
            multigame_time: 0,
            game_time: 0,
            ingame_time: 0,
            level_time: 0,
            pgcr_exists: false,
            h3_reset_flag: false,
            death_counter: 0,
        };
        assert(r.dirty_bsps_byte@ =~= Seq::<u8>::empty());
        assert(r.dirty_bsps_int@ =~= Seq::<u32>::empty());
        assert(r.dirty_bsps_long@ =~= Seq::<u64>::empty());
        assert(r.started_level@ =~= Seq::<char>::empty());
        r
    }

    /// Zeroes the attempt: markers, start record, flags and clocks.
    pub fn reset(&mut self)
        ensures
            final(self)@ == old(self)@.after_reset(),
            final(self)@.wf(),
    {
        self.dirty_bsps_byte.clear();
        self.dirty_bsps_int.clear();
        self.dirty_bsps_long.clear();

        self.started_level = String::new();
        self.started_game = 10;
        self.started_scene = 0;

        self.loop_split = true;
        self.force_split = false;
        self.force_split2 = false;

        self.h2_tgj_ready_flag = false;
        self.h2_tgj_ready_time = 0;
        self.loading = false;
        self.multigame_pause = false;
        self.multigame_time = 0;

        self.game_time = 0;
        self.ingame_time = 0;
        self.level_time = 0;
        self.pgcr_exists = false;

        self.death_counter = 0;
        assert(self.dirty_bsps_byte@ =~= Seq::<u8>::empty());
        assert(self.dirty_bsps_int@ =~= Seq::<u32>::empty());
        assert(self.dirty_bsps_long@ =~= Seq::<u64>::empty());
        assert(self@ =~= old(self)@.after_reset());
    }

    /// Empties all three marker sets.
    pub fn clear_dirty_bsps(&mut self)
        ensures
            final(self)@ == old(self)@.cleared(),
            final(self)@.wf(),
    {
        self.dirty_bsps_byte.clear();
        self.dirty_bsps_int.clear();
        self.dirty_bsps_long.clear();
        assert(self.dirty_bsps_byte@ =~= Seq::<u8>::empty());
        assert(self.dirty_bsps_int@ =~= Seq::<u32>::empty());
        assert(self.dirty_bsps_long@ =~= Seq::<u64>::empty());
        assert(self@ =~= old(self)@.cleared());
    }

    /// Marks an 8-bit region as handled; a marker already there is kept once.
    pub fn add_dirty_bsp_byte(&mut self, bsp: u8)
        requires
            old(self)@.wf(),
        ensures
            final(self)@ == old(self)@.with_byte(bsp),
            final(self)@.wf(),
    {
        if !has_byte(&self.dirty_bsps_byte, bsp) {
            self.dirty_bsps_byte.push(bsp);
        }
        assert(self@ =~= old(self)@.with_byte(bsp));
    }

    /// Marks a 32-bit region as handled; a marker already there is kept once.
    pub fn add_dirty_bsp_int(&mut self, bsp: u32)
        requires
            old(self)@.wf(),
        ensures
            final(self)@ == old(self)@.with_int(bsp),
            final(self)@.wf(),
    {
        if !has_int(&self.dirty_bsps_int, bsp) {
            self.dirty_bsps_int.push(bsp);
        }
        assert(self@ =~= old(self)@.with_int(bsp));
    }

    /// Marks a 64-bit region as handled; a marker already there is kept once.
    pub fn add_dirty_bsp_long(&mut self, bsp: u64)
        requires
            old(self)@.wf(),
        ensures
            final(self)@ == old(self)@.with_long(bsp),
            final(self)@.wf(),
    {
        if !has_long(&self.dirty_bsps_long, bsp) {
            self.dirty_bsps_long.push(bsp);
        }
        assert(self@ =~= old(self)@.with_long(bsp));
    }

    pub fn contains_dirty_bsp_byte(&self, bsp: u8) -> (r: bool)
        ensures
            r == self@.dirty_bytes.contains(bsp),
    {
        has_byte(&self.dirty_bsps_byte, bsp)
    }

    pub fn contains_dirty_bsp_int(&self, bsp: u32) -> (r: bool)
        ensures
            r == self@.dirty_ints.contains(bsp),
    {
        has_int(&self.dirty_bsps_int, bsp)
    }

    pub fn contains_dirty_bsp_long(&self, bsp: u64) -> (r: bool)
        ensures
            r == self@.dirty_longs.contains(bsp),
    {
        has_long(&self.dirty_bsps_long, bsp)
    }
}

} // verus!
