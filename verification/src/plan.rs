//! The patch plan: which room patches apply to which rooms, for a configuration and a game
//! version, in the order they are applied.

use vstd::prelude::*;
use crate::patches::Version;
use crate::text::{lowercase, to_lowercase, trim, trim_spec, str_equal};

verus! {

/// The three coordinates of a position or scale, each as the bit pattern of a 32-bit float.
#[derive(Copy, Clone, Debug, PartialEq, Eq, Structural)]
pub struct Vec3Bits {
    pub x: u32,
    pub y: u32,
    pub z: u32,
}

/// A room that the plan patches, named after its area file.
#[derive(Copy, Clone, Debug, PartialEq, Eq, Structural)]
pub enum Room {
    Stonehenge07,
    IceShorelines05,
    IceVault13,
    UnderIntroVentshaft08b,
    UnderIntroReactor07,
    UnderIntroToReactor06,
    UnderIntroFreight06,
    UnderIntroZoo05,
    UnderIntroSpecimenChamber05,
    MinesMainplaza01,
    Over1alavaarea10,
    MinesShotemup02,
    HiveTotem19,
    Courtyard08,
    IntroElevator02,
    IntroHangerConnect01,
    IntroMechshaft00h,
    IntroSpecimenChamber04,
    IntroFreightLifts06,
    IntroToReactor06,
    OverMainplaza01,
    Crater03f,
    MinesConnect00j,
    MinesConnect00p,
    Morphballtunnel1a,
    Bathhall05,
    MinesSavestationB00,
    IntroVentshaft08b,
    ElevLavaB0,
    MinesEliteboss12,
    IceConnect00n,
    OverBurningeffigy13,
    MinesPillar04,
    Flaahgra22,
    ConnectTunnel0v,
    IceResearchB12,
    IceObservatory11,
    IceGravityChamber18,
    Crater03a,
    Crater03b,
    Crater03c,
    Crater03d,
    Crater03e,
    FCrater03e,
    MinesConnect00i,
    Mainplaza01,
    Mines03,
    MinesElectric07,
    IceResearchA10,
    MinesConnect00o,
    Mines11,
    Mines08,
    MinesForcefields05,
    OverXray05,
    OverHall00j,
    IceCaveA15,
    Energycores15,
    MaproomD04,
    Ruinedroof07,
    Wateryhall11,
    Halfpipe18,
    IceTemple06,
    IceBoostCanyon04,
    OverMuddywatersB11,
    ChozoBowling17,
    MinesConnect00h,
    IceRidley08,
    MinesElitebustout06,
    IcePlaza01,
    Endcinema01,
    MorphballShrine1a,
    MonkeyLower03,
    IceLobby09,
    IceThardus19,
    IceChapel07,
}

/// The area file of a room.
pub open spec fn room_file_name(r: Room) -> Seq<char> {
    match r {
        Room::Stonehenge07 => "07_stonehenge.MREA"@,
        Room::IceShorelines05 => "05_ice_shorelines.MREA"@,
        Room::IceVault13 => "13_ice_vault.MREA"@,
        Room::UnderIntroVentshaft08b => "08b_under_intro_ventshaft.MREA"@,
        Room::UnderIntroReactor07 => "07_under_intro_reactor.MREA"@,
        Room::UnderIntroToReactor06 => "06_under_intro_to_reactor.MREA"@,
        Room::UnderIntroFreight06 => "06_under_intro_freight.MREA"@,
        Room::UnderIntroZoo05 => "05_under_intro_zoo.MREA"@,
        Room::UnderIntroSpecimenChamber05 => "05_under_intro_specimen_chamber.MREA"@,
        Room::MinesMainplaza01 => "01_mines_mainplaza.MREA"@,
        Room::Over1alavaarea10 => "10_over_1alavaarea.MREA"@,
        Room::MinesShotemup02 => "02_mines_shotemup.MREA"@,
        Room::HiveTotem19 => "19_hive_totem.MREA"@,
        Room::Courtyard08 => "08_courtyard.MREA"@,
        Room::IntroElevator02 => "02_intro_elevator.MREA"@,
        Room::IntroHangerConnect01 => "01_intro_hanger_connect.MREA"@,
        Room::IntroMechshaft00h => "00h_intro_mechshaft.MREA"@,
        Room::IntroSpecimenChamber04 => "04_intro_specimen_chamber.MREA"@,
        Room::IntroFreightLifts06 => "06_intro_freight_lifts.MREA"@,
        Room::IntroToReactor06 => "06_intro_to_reactor.MREA"@,
        Room::OverMainplaza01 => "01_over_mainplaza.MREA"@,
        Room::Crater03f => "03f_crater.MREA"@,
        Room::MinesConnect00j => "00j_mines_connect.MREA"@,
        Room::MinesConnect00p => "00p_mines_connect.MREA"@,
        Room::Morphballtunnel1a => "1a_morphballtunnel.MREA"@,
        Room::Bathhall05 => "05_bathhall.MREA"@,
        Room::MinesSavestationB00 => "00_mines_savestation_b.MREA"@,
        Room::IntroVentshaft08b => "08b_intro_ventshaft.MREA"@,
        Room::ElevLavaB0 => "0_elev_lava_b.MREA"@,
        Room::MinesEliteboss12 => "12_mines_eliteboss.MREA"@,
        Room::IceConnect00n => "00n_ice_connect.MREA"@,
        Room::OverBurningeffigy13 => "13_over_burningeffigy.MREA"@,
        Room::MinesPillar04 => "04_mines_pillar.MREA"@,
        Room::Flaahgra22 => "22_Flaahgra.MREA"@,
        Room::ConnectTunnel0v => "0v_connect_tunnel.MREA"@,
        Room::IceResearchB12 => "12_ice_research_b.MREA"@,
        Room::IceObservatory11 => "11_ice_observatory.MREA"@,
        Room::IceGravityChamber18 => "18_ice_gravity_chamber.MREA"@,
        Room::Crater03a => "03a_crater.MREA"@,
        Room::Crater03b => "03b_crater.MREA"@,
        Room::Crater03c => "03c_crater.MREA"@,
        Room::Crater03d => "03d_crater.MREA"@,
        Room::Crater03e => "03e_crater.MREA"@,
        Room::FCrater03e => "03e_f_crater.MREA"@,
        Room::MinesConnect00i => "00i_mines_connect.MREA"@,
        Room::Mainplaza01 => "01_mainplaza.MREA"@,
        Room::Mines03 => "03_mines.MREA"@,
        Room::MinesElectric07 => "07_mines_electric.MREA"@,
        Room::IceResearchA10 => "10_ice_research_a.MREA"@,
        Room::MinesConnect00o => "00o_mines_connect.MREA"@,
        Room::Mines11 => "11_mines.MREA"@,
        Room::Mines08 => "08_mines.MREA"@,
        Room::MinesForcefields05 => "05_mines_forcefields.MREA"@,
        Room::OverXray05 => "05_over_xray.MREA"@,
        Room::OverHall00j => "00j_over_hall.MREA"@,
        Room::IceCaveA15 => "15_ice_cave_a.MREA"@,
        Room::Energycores15 => "15_energycores.MREA"@,
        Room::MaproomD04 => "04_maproom_d.MREA"@,
        Room::Ruinedroof07 => "07_ruinedroof.MREA"@,
        Room::Wateryhall11 => "11_wateryhall.MREA"@,
        Room::Halfpipe18 => "18_halfpipe.MREA"@,
        Room::IceTemple06 => "06_ice_temple.MREA"@,
        Room::IceBoostCanyon04 => "04_ice_boost_canyon.MREA"@,
        Room::OverMuddywatersB11 => "11_over_muddywaters_b.MREA"@,
        Room::ChozoBowling17 => "17_chozo_bowling.MREA"@,
        Room::MinesConnect00h => "00h_mines_connect.MREA"@,
        Room::IceRidley08 => "08_ice_ridley.MREA"@,
        Room::MinesElitebustout06 => "06_mines_elitebustout.MREA"@,
        Room::IcePlaza01 => "01_ice_plaza.MREA"@,
        Room::Endcinema01 => "01_endcinema.MREA"@,
        Room::MorphballShrine1a => "1a_morphball_shrine.MREA"@,
        Room::MonkeyLower03 => "03_monkey_lower.MREA"@,
        Room::IceLobby09 => "09_ice_lobby.MREA"@,
        Room::IceThardus19 => "19_ice_thardus.MREA"@,
        Room::IceChapel07 => "07_ice_chapel.MREA"@,
    }
}

impl Room {
    /// The area file of the room.
    pub fn file_name(&self) -> (r: &'static str)
        ensures
            r@ == room_file_name(*self),
    {
        match self {
            Room::Stonehenge07 => "07_stonehenge.MREA",
            Room::IceShorelines05 => "05_ice_shorelines.MREA",
            Room::IceVault13 => "13_ice_vault.MREA",
            Room::UnderIntroVentshaft08b => "08b_under_intro_ventshaft.MREA",
            Room::UnderIntroReactor07 => "07_under_intro_reactor.MREA",
            Room::UnderIntroToReactor06 => "06_under_intro_to_reactor.MREA",
            Room::UnderIntroFreight06 => "06_under_intro_freight.MREA",
            Room::UnderIntroZoo05 => "05_under_intro_zoo.MREA",
            Room::UnderIntroSpecimenChamber05 => "05_under_intro_specimen_chamber.MREA",
            Room::MinesMainplaza01 => "01_mines_mainplaza.MREA",
            Room::Over1alavaarea10 => "10_over_1alavaarea.MREA",
            Room::MinesShotemup02 => "02_mines_shotemup.MREA",
            Room::HiveTotem19 => "19_hive_totem.MREA",
            Room::Courtyard08 => "08_courtyard.MREA",
            Room::IntroElevator02 => "02_intro_elevator.MREA",
            Room::IntroHangerConnect01 => "01_intro_hanger_connect.MREA",
            Room::IntroMechshaft00h => "00h_intro_mechshaft.MREA",
            Room::IntroSpecimenChamber04 => "04_intro_specimen_chamber.MREA",
            Room::IntroFreightLifts06 => "06_intro_freight_lifts.MREA",
            Room::IntroToReactor06 => "06_intro_to_reactor.MREA",
            Room::OverMainplaza01 => "01_over_mainplaza.MREA",
            Room::Crater03f => "03f_crater.MREA",
            Room::MinesConnect00j => "00j_mines_connect.MREA",
            Room::MinesConnect00p => "00p_mines_connect.MREA",
            Room::Morphballtunnel1a => "1a_morphballtunnel.MREA",
            Room::Bathhall05 => "05_bathhall.MREA",
            Room::MinesSavestationB00 => "00_mines_savestation_b.MREA",
            Room::IntroVentshaft08b => "08b_intro_ventshaft.MREA",
            Room::ElevLavaB0 => "0_elev_lava_b.MREA",
            Room::MinesEliteboss12 => "12_mines_eliteboss.MREA",
            Room::IceConnect00n => "00n_ice_connect.MREA",
            Room::OverBurningeffigy13 => "13_over_burningeffigy.MREA",
            Room::MinesPillar04 => "04_mines_pillar.MREA",
            Room::Flaahgra22 => "22_Flaahgra.MREA",
            Room::ConnectTunnel0v => "0v_connect_tunnel.MREA",
            Room::IceResearchB12 => "12_ice_research_b.MREA",
            Room::IceObservatory11 => "11_ice_observatory.MREA",
            Room::IceGravityChamber18 => "18_ice_gravity_chamber.MREA",
            Room::Crater03a => "03a_crater.MREA",
            Room::Crater03b => "03b_crater.MREA",
            Room::Crater03c => "03c_crater.MREA",
            Room::Crater03d => "03d_crater.MREA",
            Room::Crater03e => "03e_crater.MREA",
            Room::FCrater03e => "03e_f_crater.MREA",
            Room::MinesConnect00i => "00i_mines_connect.MREA",
            Room::Mainplaza01 => "01_mainplaza.MREA",
            Room::Mines03 => "03_mines.MREA",
            Room::MinesElectric07 => "07_mines_electric.MREA",
            Room::IceResearchA10 => "10_ice_research_a.MREA",
            Room::MinesConnect00o => "00o_mines_connect.MREA",
            Room::Mines11 => "11_mines.MREA",
            Room::Mines08 => "08_mines.MREA",
            Room::MinesForcefields05 => "05_mines_forcefields.MREA",
            Room::OverXray05 => "05_over_xray.MREA",
            Room::OverHall00j => "00j_over_hall.MREA",
            Room::IceCaveA15 => "15_ice_cave_a.MREA",
            Room::Energycores15 => "15_energycores.MREA",
            Room::MaproomD04 => "04_maproom_d.MREA",
            Room::Ruinedroof07 => "07_ruinedroof.MREA",
            Room::Wateryhall11 => "11_wateryhall.MREA",
            Room::Halfpipe18 => "18_halfpipe.MREA",
            Room::IceTemple06 => "06_ice_temple.MREA",
            Room::IceBoostCanyon04 => "04_ice_boost_canyon.MREA",
            Room::OverMuddywatersB11 => "11_over_muddywaters_b.MREA",
            Room::ChozoBowling17 => "17_chozo_bowling.MREA",
            Room::MinesConnect00h => "00h_mines_connect.MREA",
            Room::IceRidley08 => "08_ice_ridley.MREA",
            Room::MinesElitebustout06 => "06_mines_elitebustout.MREA",
            Room::IcePlaza01 => "01_ice_plaza.MREA",
            Room::Endcinema01 => "01_endcinema.MREA",
            Room::MorphballShrine1a => "1a_morphball_shrine.MREA",
            Room::MonkeyLower03 => "03_monkey_lower.MREA",
            Room::IceLobby09 => "09_ice_lobby.MREA",
            Room::IceThardus19 => "19_ice_thardus.MREA",
            Room::IceChapel07 => "07_ice_chapel.MREA",
        }
    }
}

/// A room patch, with the arguments it takes from the plan; each is named after the patch of
/// the same name.
#[derive(Copy, Clone, Debug, PartialEq, Eq, Structural)]
pub enum PatchKind {
    /// Skips the room's cutscenes; `ids` is the entry of `cutscene_id_lists` that gives the timers
    /// to set to zero and the objects to spare.
    RemoveCutscenes { ids: u32, use_timers: bool },
    LabAetherCutsceneTrigger,
    TournamentWinners,
    FixArtifactOfTruthRequirements,
    ArtifactHintAvailability,
    ThermalConduitsDamageVulnerabilities,
    RemoveDoorLocks,
    HiveMechaFirstPassLayer,
    HiveMechaAutoStartRelay,
    ArboretumSandstone,
    DisableItemLoss,
    PostPqFrigate,
    /// Adds a circular platform at the position.
    CirclePlatform(Vec3Bits),
    LandingSiteCutsceneTriggers,
    EssenceCinematicSkipWhitescreen,
    EssenceCinematicSkipNomusic,
    FixCentralDynamoCrash,
    FixPcaCrash,
    /// Moves the spawn point (see `relative` and `force_default`).
    SpawnPointPosition { position: Vec3Bits, relative: bool, force_default: bool },
    /// Removes the objects with these two instance ids.
    RemoveTwoIds(u32, u32),
    CutsceneForcePhazonSuit,
    ResearchCoreAccessSoftLock,
    ArboretumInvisibleWall,
    RuinedCourtyardThermalConduits,
    MainQuarryDoorLock0_02,
    GeothermalCoreDoorLock0_02,
    HiveTotemBossTrigger0_02,
    OreProcessingDoorLock0_02,
    OreProcessingDestructibleRockPal,
    GeothermalCoreDestructibleRockPal,
    MainQuarryDoorLockPal,
    SunchamberPreventWildBeforeFlaahgra,
    SunTowerPreventWildBeforeFlaahgra,
    ResearchLabAetherExplodingWall,
    ResearchLabAetherExplodingWall2,
    Observatory2ndPassSolvability,
    Observatory1stPassSoftlock,
    MinesSecurityStationSoftLock,
    GravityChamberStalactiteGrapplePoint,
    HiveTotemSoftlock,
    FinalBossPermadeath,
    SubchamberFiveNintendontFix,
    /// Teleports the player who reaches the source box to the destination dock.
    DockTeleport { source_position: Vec3Bits, source_scale: Vec3Bits, destination_dock: u32, spawn_position: Option<Vec3Bits> },
    MainPlazaLockedDoorTwoWays,
    EliteResearchFightLayers,
    EliteResearchFightCentralDynamo,
    MainVentilationShaftSectionBDoor,
    ResearchLabHydraBarrier,
    MainQuarryBarrier,
    BackwardsLowerMinesPca,
    BackwardsLowerMinesEqa,
    BackwardsLowerMinesMqb,
    BackwardsLowerMinesMqa,
    BackwardsLowerMinesEliteControl,
}

/// A patch and the room it applies to.
#[derive(Copy, Clone, Debug, PartialEq, Eq, Structural)]
pub struct RoomPatch {
    pub room: Room,
    pub patch: PatchKind,
}

/// Which cutscenes are skipped: none, those that cost time in races, the minor ones, or the
/// minor and the major ones.
#[derive(Copy, Clone, Debug, PartialEq, Eq, Structural)]
pub enum CutsceneMode {
    Original,
    Competitive,
    Minor,
    Major,
}

/// For each list that a cutscene patch names: the timers it sets to zero and the objects it
/// leaves in place.
pub open spec fn cutscene_id_lists() -> Seq<(Seq<u32>, Seq<u32>)> {
    seq![
        (seq![], seq![]),
        (seq![], seq![0x000203DE, 0x000203DC, 0x0002040D, 0x0002040C, 0x0002023E, 0x00020021, 0x00020253, 0x0002043D]),
        (seq![0x0013012E, 0x00130131, 0x00130141], seq![]),
        (seq![], seq![0x00170153]),
        (seq![], seq![0x002A01D0]),
        (seq![0x0029006C, 0x0029006B], seq![]),
        (seq![0x002C00E8, 0x002C0101, 0x002C00F5, 0x002C0068, 0x002C0055, 0x002C0079, 0x002C0067, 0x002C00E7, 0x002C0102, 0x002C0104, 0x002C00EB, 0x002C0069, 0x002C01BC], seq![]),
        (seq![0x001B0100], seq![]),
        (seq![0x001E028A], seq![]),
        (seq![0x002000DB], seq![]),
        (seq![0x001D00E5, 0x001D00E8], seq![]),
        (seq![0x000C0153, 0x000C0154, 0x000C015B, 0x000C0151, 0x000C013E], seq![]),
        (seq![0x0029280A, 0x002927FD], seq![]),
        (seq![0x001401DD, 0x001401E3], seq![]),
        (seq![0x00080201, 0x0008024E, 0x00080170, 0x00080118], seq![]),
        (seq![], seq![0x000D04C8, 0x000D01CF]),
        (seq![0x00070513], seq![]),
        (seq![], seq![0x002000CF]),
        (seq![0x00020443], seq![]),
        (seq![0x003400F4, 0x003400F8, 0x003400F9, 0x0034018C], seq![0x003400F5, 0x00340046, 0x0034004A, 0x003400EA, 0x0034004F, 0x0034025C, 0x00340264, 0x00340268, 0x0034025B, 0x00340142, 0x00340378]),
        (seq![0x001200C3, 0x001200DE], seq![]),
        (seq![0x001E0042, 0x001E000E], seq![]),
        (seq![0x002702DD, 0x002702D5, 0x00270544, 0x002703DF], seq![]),
        (seq![0x001B03F8], seq![0x001B0349, 0x001B0356]),
        (seq![0x00020203], seq![0x000202A9, 0x000202A8, 0x000202B7]),
        (seq![0x003400F4, 0x003400F8, 0x003400F9, 0x0034018C], seq![0x003400F5, 0x00340046, 0x0034004A, 0x003400EA, 0x0034004F, 0x0034025C, 0x00340264, 0x00340268, 0x0034025B]),
        (seq![0x00020203], seq![]),
        (seq![], seq![0x00100463, 0x0010046F, 0x0010036F, 0x0010026C, 0x00100202, 0x00100207, 0x00100373, 0x001003C4, 0x001003D9, 0x001003DC, 0x001003E6, 0x001003CE, 0x0010020C, 0x0010021A, 0x001003EF, 0x001003E9, 0x0010021A, 0x00100491, 0x001003EE, 0x001003F0, 0x001003FE, 0x0010021F, 0x001002C8, 0x001002B8, 0x001002C2]),
        (seq![0x000D01A9], seq![]),
        (seq![0x0030017B], seq![]),
        (seq![0x00250092, 0x00250093, 0x00250094, 0x002500A8, 0x0025276A], seq![0x002500CA, 0x00252FE4, 0x00252727, 0x0025272C, 0x00252741, 0x0025000B, 0x00250123, 0x00252FC0]),
        (seq![0x001402F7, 0x00140243, 0x001402D6, 0x001402D0, 0x001402B3], seq![]),
        (seq![0x002000D7, 0x002000DE, 0x002000E0, 0x00200708], seq![]),
        (seq![], seq![0x001A0282, 0x001A0283, 0x001A02B3, 0x001A02BF, 0x001A0284, 0x001A031A, 0x001A0294, 0x001A02B9]),
        (seq![], seq![0x0005002B, 0x0005002C, 0x0005007D, 0x0005002D, 0x00050032, 0x00050078, 0x00050033, 0x00050034, 0x00050035, 0x00050083, 0x0005002E, 0x0005008B, 0x00050089]),
        (seq![], seq![0x000B019D, 0x000B008B, 0x000B008D, 0x000B0093, 0x000B0094, 0x000B00A7, 0x000B00AF, 0x000B00E1, 0x000B00DF, 0x000B00B0, 0x000B00D3, 0x000B00E3, 0x000B00E6, 0x000B0095, 0x000B00E4, 0x000B00ED]),
        (seq![0x000E0057], seq![0x000E019D, 0x000E019B]),
    ]
}

/// The timers to set to zero and the objects to leave in place of cutscene list `ids`.
pub fn cutscene_ids(ids: u32) -> (r: (Vec<u32>, Vec<u32>))
    requires
        ids < 37,
    ensures
        r.0@ == cutscene_id_lists()[ids as int].0,
        r.1@ == cutscene_id_lists()[ids as int].1,
{
    match ids {
        0 => {
            let r = (vec![], vec![]);
            assert(r.0@ =~= cutscene_id_lists()[0].0 && r.1@ =~= cutscene_id_lists()[0].1);
            r
        },
        1 => {
            let r = (vec![], vec![0x000203DE, 0x000203DC, 0x0002040D, 0x0002040C, 0x0002023E, 0x00020021, 0x00020253, 0x0002043D]);
            assert(r.0@ =~= cutscene_id_lists()[1].0 && r.1@ =~= cutscene_id_lists()[1].1);
            r
        },
        2 => {
            let r = (vec![0x0013012E, 0x00130131, 0x00130141], vec![]);
            assert(r.0@ =~= cutscene_id_lists()[2].0 && r.1@ =~= cutscene_id_lists()[2].1);
            r
        },
        3 => {
            let r = (vec![], vec![0x00170153]);
            assert(r.0@ =~= cutscene_id_lists()[3].0 && r.1@ =~= cutscene_id_lists()[3].1);
            r
        },
        4 => {
            let r = (vec![], vec![0x002A01D0]);
            assert(r.0@ =~= cutscene_id_lists()[4].0 && r.1@ =~= cutscene_id_lists()[4].1);
            r
        },
        5 => {
            let r = (vec![0x0029006C, 0x0029006B], vec![]);
            assert(r.0@ =~= cutscene_id_lists()[5].0 && r.1@ =~= cutscene_id_lists()[5].1);
            r
        },
        6 => {
            let r = (vec![0x002C00E8, 0x002C0101, 0x002C00F5, 0x002C0068, 0x002C0055, 0x002C0079, 0x002C0067, 0x002C00E7, 0x002C0102, 0x002C0104, 0x002C00EB, 0x002C0069, 0x002C01BC], vec![]);
            assert(r.0@ =~= cutscene_id_lists()[6].0 && r.1@ =~= cutscene_id_lists()[6].1);
            r
        },
        7 => {
            let r = (vec![0x001B0100], vec![]);
            assert(r.0@ =~= cutscene_id_lists()[7].0 && r.1@ =~= cutscene_id_lists()[7].1);
            r
        },
        8 => {
            let r = (vec![0x001E028A], vec![]);
            assert(r.0@ =~= cutscene_id_lists()[8].0 && r.1@ =~= cutscene_id_lists()[8].1);
            r
        },
        9 => {
            let r = (vec![0x002000DB], vec![]);
            assert(r.0@ =~= cutscene_id_lists()[9].0 && r.1@ =~= cutscene_id_lists()[9].1);
            r
        },
        10 => {
            let r = (vec![0x001D00E5, 0x001D00E8], vec![]);
            assert(r.0@ =~= cutscene_id_lists()[10].0 && r.1@ =~= cutscene_id_lists()[10].1);
            r
        },
        11 => {
            let r = (vec![0x000C0153, 0x000C0154, 0x000C015B, 0x000C0151, 0x000C013E], vec![]);
            assert(r.0@ =~= cutscene_id_lists()[11].0 && r.1@ =~= cutscene_id_lists()[11].1);
            r
        },
        12 => {
            let r = (vec![0x0029280A, 0x002927FD], vec![]);
            assert(r.0@ =~= cutscene_id_lists()[12].0 && r.1@ =~= cutscene_id_lists()[12].1);
            r
        },
        13 => {
            let r = (vec![0x001401DD, 0x001401E3], vec![]);
            assert(r.0@ =~= cutscene_id_lists()[13].0 && r.1@ =~= cutscene_id_lists()[13].1);
            r
        },
        14 => {
            let r = (vec![0x00080201, 0x0008024E, 0x00080170, 0x00080118], vec![]);
            assert(r.0@ =~= cutscene_id_lists()[14].0 && r.1@ =~= cutscene_id_lists()[14].1);
            r
        },
        15 => {
            let r = (vec![], vec![0x000D04C8, 0x000D01CF]);
            assert(r.0@ =~= cutscene_id_lists()[15].0 && r.1@ =~= cutscene_id_lists()[15].1);
            r
        },
        16 => {
            let r = (vec![0x00070513], vec![]);
            assert(r.0@ =~= cutscene_id_lists()[16].0 && r.1@ =~= cutscene_id_lists()[16].1);
            r
        },
        17 => {
            let r = (vec![], vec![0x002000CF]);
            assert(r.0@ =~= cutscene_id_lists()[17].0 && r.1@ =~= cutscene_id_lists()[17].1);
            r
        },
        18 => {
            let r = (vec![0x00020443], vec![]);
            assert(r.0@ =~= cutscene_id_lists()[18].0 && r.1@ =~= cutscene_id_lists()[18].1);
            r
        },
        19 => {
            let r = (vec![0x003400F4, 0x003400F8, 0x003400F9, 0x0034018C], vec![0x003400F5, 0x00340046, 0x0034004A, 0x003400EA, 0x0034004F, 0x0034025C, 0x00340264, 0x00340268, 0x0034025B, 0x00340142, 0x00340378]);
            assert(r.0@ =~= cutscene_id_lists()[19].0 && r.1@ =~= cutscene_id_lists()[19].1);
            r
        },
        20 => {
            let r = (vec![0x001200C3, 0x001200DE], vec![]);
            assert(r.0@ =~= cutscene_id_lists()[20].0 && r.1@ =~= cutscene_id_lists()[20].1);
            r
        },
        21 => {
            let r = (vec![0x001E0042, 0x001E000E], vec![]);
            assert(r.0@ =~= cutscene_id_lists()[21].0 && r.1@ =~= cutscene_id_lists()[21].1);
            r
        },
        22 => {
            let r = (vec![0x002702DD, 0x002702D5, 0x00270544, 0x002703DF], vec![]);
            assert(r.0@ =~= cutscene_id_lists()[22].0 && r.1@ =~= cutscene_id_lists()[22].1);
            r
        },
        23 => {
            let r = (vec![0x001B03F8], vec![0x001B0349, 0x001B0356]);
            assert(r.0@ =~= cutscene_id_lists()[23].0 && r.1@ =~= cutscene_id_lists()[23].1);
            r
        },
        24 => {
            let r = (vec![0x00020203], vec![0x000202A9, 0x000202A8, 0x000202B7]);
            assert(r.0@ =~= cutscene_id_lists()[24].0 && r.1@ =~= cutscene_id_lists()[24].1);
            r
        },
        25 => {
            let r = (vec![0x003400F4, 0x003400F8, 0x003400F9, 0x0034018C], vec![0x003400F5, 0x00340046, 0x0034004A, 0x003400EA, 0x0034004F, 0x0034025C, 0x00340264, 0x00340268, 0x0034025B]);
            assert(r.0@ =~= cutscene_id_lists()[25].0 && r.1@ =~= cutscene_id_lists()[25].1);
            r
        },
        26 => {
            let r = (vec![0x00020203], vec![]);
            assert(r.0@ =~= cutscene_id_lists()[26].0 && r.1@ =~= cutscene_id_lists()[26].1);
            r
        },
        27 => {
            let r = (vec![], vec![0x00100463, 0x0010046F, 0x0010036F, 0x0010026C, 0x00100202, 0x00100207, 0x00100373, 0x001003C4, 0x001003D9, 0x001003DC, 0x001003E6, 0x001003CE, 0x0010020C, 0x0010021A, 0x001003EF, 0x001003E9, 0x0010021A, 0x00100491, 0x001003EE, 0x001003F0, 0x001003FE, 0x0010021F, 0x001002C8, 0x001002B8, 0x001002C2]);
            assert(r.0@ =~= cutscene_id_lists()[27].0 && r.1@ =~= cutscene_id_lists()[27].1);
            r
        },
        28 => {
            let r = (vec![0x000D01A9], vec![]);
            assert(r.0@ =~= cutscene_id_lists()[28].0 && r.1@ =~= cutscene_id_lists()[28].1);
            r
        },
        29 => {
            let r = (vec![0x0030017B], vec![]);
            assert(r.0@ =~= cutscene_id_lists()[29].0 && r.1@ =~= cutscene_id_lists()[29].1);
            r
        },
        30 => {
            let r = (vec![0x00250092, 0x00250093, 0x00250094, 0x002500A8, 0x0025276A], vec![0x002500CA, 0x00252FE4, 0x00252727, 0x0025272C, 0x00252741, 0x0025000B, 0x00250123, 0x00252FC0]);
            assert(r.0@ =~= cutscene_id_lists()[30].0 && r.1@ =~= cutscene_id_lists()[30].1);
            r
        },
        31 => {
            let r = (vec![0x001402F7, 0x00140243, 0x001402D6, 0x001402D0, 0x001402B3], vec![]);
            assert(r.0@ =~= cutscene_id_lists()[31].0 && r.1@ =~= cutscene_id_lists()[31].1);
            r
        },
        32 => {
            let r = (vec![0x002000D7, 0x002000DE, 0x002000E0, 0x00200708], vec![]);
            assert(r.0@ =~= cutscene_id_lists()[32].0 && r.1@ =~= cutscene_id_lists()[32].1);
            r
        },
        33 => {
            let r = (vec![], vec![0x001A0282, 0x001A0283, 0x001A02B3, 0x001A02BF, 0x001A0284, 0x001A031A, 0x001A0294, 0x001A02B9]);
            assert(r.0@ =~= cutscene_id_lists()[33].0 && r.1@ =~= cutscene_id_lists()[33].1);
            r
        },
        34 => {
            let r = (vec![], vec![0x0005002B, 0x0005002C, 0x0005007D, 0x0005002D, 0x00050032, 0x00050078, 0x00050033, 0x00050034, 0x00050035, 0x00050083, 0x0005002E, 0x0005008B, 0x00050089]);
            assert(r.0@ =~= cutscene_id_lists()[34].0 && r.1@ =~= cutscene_id_lists()[34].1);
            r
        },
        35 => {
            let r = (vec![], vec![0x000B019D, 0x000B008B, 0x000B008D, 0x000B0093, 0x000B0094, 0x000B00A7, 0x000B00AF, 0x000B00E1, 0x000B00DF, 0x000B00B0, 0x000B00D3, 0x000B00E3, 0x000B00E6, 0x000B0095, 0x000B00E4, 0x000B00ED]);
            assert(r.0@ =~= cutscene_id_lists()[35].0 && r.1@ =~= cutscene_id_lists()[35].1);
            r
        },
        _ => {
            let r = (vec![0x000E0057], vec![0x000E019D, 0x000E019B]);
            assert(r.0@ =~= cutscene_id_lists()[36].0 && r.1@ =~= cutscene_id_lists()[36].1);
            r
        },
    }
}

/// The choices of a configuration that decide which room patches apply.
#[derive(Copy, Clone, Debug, PartialEq, Eq, Structural)]
pub struct PatchPlanInput {
    pub force_vanilla_layout: bool,
    pub patch_power_conduits: bool,
    pub remove_mine_security_station_locks: bool,
    pub remove_hive_mecha: bool,
    pub power_bomb_arboretum_sandstone: bool,
    pub skip_frigate: bool,
    pub disable_item_loss: bool,
    /// The game starts in the Landing Site.
    pub starts_at_landing_site: bool,
    /// Which cutscenes are skipped.
    pub qol_cutscenes: CutsceneMode,
    /// Pickups are moved within their rooms.
    pub shuffle_pickup_position: bool,
    pub qol_game_breaking: bool,
    /// Samus is made smaller than nine tenths of her size.
    pub small_samus: bool,
    /// Beating the Essence leads somewhere other than the credits.
    pub boss_permadeath: bool,
    pub main_plaza_door: bool,
    pub phazon_elite_without_dynamo: bool,
    pub backwards_frigate: bool,
    pub backwards_labs: bool,
    pub backwards_upper_mines: bool,
    pub backwards_lower_mines: bool,
}

/// The room patch at place `i` of the patcher's list of every room patch, with the condition
/// under which it applies.
pub open spec fn plan_entry(c: PatchPlanInput, v: Version, i: int) -> (bool, RoomPatch) {
    if i == 0 {
        (c.qol_cutscenes == CutsceneMode::Competitive, RoomPatch { room: Room::MinesMainplaza01, patch: PatchKind::RemoveCutscenes { ids: 1, use_timers: false } })
    } else if i == 1 {
        (c.qol_cutscenes == CutsceneMode::Competitive, RoomPatch { room: Room::Courtyard08, patch: PatchKind::RemoveCutscenes { ids: 2, use_timers: false } })
    } else if i == 2 {
        (c.qol_cutscenes == CutsceneMode::Competitive, RoomPatch { room: Room::Over1alavaarea10, patch: PatchKind::RemoveCutscenes { ids: 3, use_timers: false } })
    } else if i == 3 {
        (c.qol_cutscenes == CutsceneMode::Competitive, RoomPatch { room: Room::OverXray05, patch: PatchKind::RemoveCutscenes { ids: 4, use_timers: true } })
    } else if i == 4 {
        (c.qol_cutscenes == CutsceneMode::Competitive, RoomPatch { room: Room::IceResearchB12, patch: PatchKind::LabAetherCutsceneTrigger })
    } else if i == 5 {
        (c.qol_cutscenes == CutsceneMode::Competitive, RoomPatch { room: Room::OverHall00j, patch: PatchKind::RemoveCutscenes { ids: 0, use_timers: true } })
    } else if i == 6 {
        (c.qol_cutscenes == CutsceneMode::Competitive, RoomPatch { room: Room::IceCaveA15, patch: PatchKind::RemoveCutscenes { ids: 5, use_timers: false } })
    } else if i == 7 {
        (c.qol_cutscenes == CutsceneMode::Competitive, RoomPatch { room: Room::Energycores15, patch: PatchKind::RemoveCutscenes { ids: 6, use_timers: false } })
    } else if i == 8 {
        (c.qol_cutscenes == CutsceneMode::Competitive, RoomPatch { room: Room::UnderIntroReactor07, patch: PatchKind::RemoveCutscenes { ids: 0, use_timers: false } })
    } else if i == 9 {
        (c.qol_cutscenes == CutsceneMode::Competitive, RoomPatch { room: Room::UnderIntroFreight06, patch: PatchKind::RemoveCutscenes { ids: 7, use_timers: false } })
    } else if i == 10 {
        (c.qol_cutscenes == CutsceneMode::Competitive, RoomPatch { room: Room::UnderIntroZoo05, patch: PatchKind::RemoveCutscenes { ids: 8, use_timers: false } })
    } else if i == 11 {
        (c.qol_cutscenes == CutsceneMode::Competitive, RoomPatch { room: Room::UnderIntroSpecimenChamber05, patch: PatchKind::RemoveCutscenes { ids: 9, use_timers: false } })
    } else if i == 12 {
        (c.qol_cutscenes == CutsceneMode::Competitive, RoomPatch { room: Room::MaproomD04, patch: PatchKind::RemoveCutscenes { ids: 0, use_timers: false } })
    } else if i == 13 {
        (c.qol_cutscenes == CutsceneMode::Competitive, RoomPatch { room: Room::ConnectTunnel0v, patch: PatchKind::RemoveCutscenes { ids: 10, use_timers: false } })
    } else if i == 14 {
        (c.qol_cutscenes == CutsceneMode::Competitive, RoomPatch { room: Room::Ruinedroof07, patch: PatchKind::RemoveCutscenes { ids: 11, use_timers: true } })
    } else if i == 15 {
        (c.qol_cutscenes == CutsceneMode::Competitive, RoomPatch { room: Room::Wateryhall11, patch: PatchKind::RemoveCutscenes { ids: 12, use_timers: false } })
    } else if i == 16 {
        (c.qol_cutscenes == CutsceneMode::Competitive, RoomPatch { room: Room::Halfpipe18, patch: PatchKind::RemoveCutscenes { ids: 0, use_timers: false } })
    } else if i == 17 {
        (c.qol_cutscenes == CutsceneMode::Competitive, RoomPatch { room: Room::OverBurningeffigy13, patch: PatchKind::RemoveCutscenes { ids: 13, use_timers: false } })
    } else if i == 18 {
        (c.qol_cutscenes == CutsceneMode::Competitive, RoomPatch { room: Room::IceTemple06, patch: PatchKind::RemoveCutscenes { ids: 14, use_timers: false } })
    } else if i == 19 {
        (c.qol_cutscenes == CutsceneMode::Competitive, RoomPatch { room: Room::IceBoostCanyon04, patch: PatchKind::RemoveCutscenes { ids: 0, use_timers: false } })
    } else if i == 20 {
        (c.qol_cutscenes == CutsceneMode::Competitive, RoomPatch { room: Room::IceShorelines05, patch: PatchKind::RemoveCutscenes { ids: 0, use_timers: false } })
    } else if i == 21 {
        (c.qol_cutscenes == CutsceneMode::Competitive, RoomPatch { room: Room::IceVault13, patch: PatchKind::RemoveCutscenes { ids: 0, use_timers: false } })
    } else if i == 22 {
        (c.qol_cutscenes == CutsceneMode::Competitive, RoomPatch { room: Room::Mines03, patch: PatchKind::RemoveCutscenes { ids: 15, use_timers: true } })
    } else if i == 23 {
        (c.qol_cutscenes == CutsceneMode::Competitive, RoomPatch { room: Room::MinesShotemup02, patch: PatchKind::RemoveCutscenes { ids: 16, use_timers: true } })
    } else if i == 24 {
        ((c.qol_cutscenes == CutsceneMode::Minor || c.qol_cutscenes == CutsceneMode::Major), RoomPatch { room: Room::Courtyard08, patch: PatchKind::RemoveCutscenes { ids: 2, use_timers: false } })
    } else if i == 25 {
        ((c.qol_cutscenes == CutsceneMode::Minor || c.qol_cutscenes == CutsceneMode::Major), RoomPatch { room: Room::Mines08, patch: PatchKind::RemoveCutscenes { ids: 17, use_timers: false } })
    } else if i == 26 {
        ((c.qol_cutscenes == CutsceneMode::Minor || c.qol_cutscenes == CutsceneMode::Major), RoomPatch { room: Room::IceResearchB12, patch: PatchKind::LabAetherCutsceneTrigger })
    } else if i == 27 {
        ((c.qol_cutscenes == CutsceneMode::Minor || c.qol_cutscenes == CutsceneMode::Major), RoomPatch { room: Room::OverHall00j, patch: PatchKind::RemoveCutscenes { ids: 0, use_timers: true } })
    } else if i == 28 {
        ((c.qol_cutscenes == CutsceneMode::Minor || c.qol_cutscenes == CutsceneMode::Major), RoomPatch { room: Room::IceCaveA15, patch: PatchKind::RemoveCutscenes { ids: 5, use_timers: false } })
    } else if i == 29 {
        ((c.qol_cutscenes == CutsceneMode::Minor || c.qol_cutscenes == CutsceneMode::Major), RoomPatch { room: Room::Energycores15, patch: PatchKind::RemoveCutscenes { ids: 6, use_timers: false } })
    } else if i == 30 {
        ((c.qol_cutscenes == CutsceneMode::Minor || c.qol_cutscenes == CutsceneMode::Major), RoomPatch { room: Room::Over1alavaarea10, patch: PatchKind::RemoveCutscenes { ids: 3, use_timers: false } })
    } else if i == 31 {
        ((c.qol_cutscenes == CutsceneMode::Minor || c.qol_cutscenes == CutsceneMode::Major), RoomPatch { room: Room::UnderIntroReactor07, patch: PatchKind::RemoveCutscenes { ids: 0, use_timers: false } })
    } else if i == 32 {
        ((c.qol_cutscenes == CutsceneMode::Minor || c.qol_cutscenes == CutsceneMode::Major), RoomPatch { room: Room::UnderIntroFreight06, patch: PatchKind::RemoveCutscenes { ids: 7, use_timers: false } })
    } else if i == 33 {
        ((c.qol_cutscenes == CutsceneMode::Minor || c.qol_cutscenes == CutsceneMode::Major), RoomPatch { room: Room::UnderIntroZoo05, patch: PatchKind::RemoveCutscenes { ids: 8, use_timers: false } })
    } else if i == 34 {
        ((c.qol_cutscenes == CutsceneMode::Minor || c.qol_cutscenes == CutsceneMode::Major), RoomPatch { room: Room::UnderIntroSpecimenChamber05, patch: PatchKind::RemoveCutscenes { ids: 9, use_timers: false } })
    } else if i == 35 {
        ((c.qol_cutscenes == CutsceneMode::Minor || c.qol_cutscenes == CutsceneMode::Major), RoomPatch { room: Room::OverXray05, patch: PatchKind::RemoveCutscenes { ids: 0, use_timers: true } })
    } else if i == 36 {
        ((c.qol_cutscenes == CutsceneMode::Minor || c.qol_cutscenes == CutsceneMode::Major), RoomPatch { room: Room::Mainplaza01, patch: PatchKind::RemoveCutscenes { ids: 0, use_timers: false } })
    } else if i == 37 {
        ((c.qol_cutscenes == CutsceneMode::Minor || c.qol_cutscenes == CutsceneMode::Major), RoomPatch { room: Room::MinesMainplaza01, patch: PatchKind::RemoveCutscenes { ids: 18, use_timers: false } })
    } else if i == 38 {
        ((c.qol_cutscenes == CutsceneMode::Minor || c.qol_cutscenes == CutsceneMode::Major), RoomPatch { room: Room::OverMuddywatersB11, patch: PatchKind::RemoveCutscenes { ids: 0, use_timers: false } })
    } else if i == 39 {
        ((c.qol_cutscenes == CutsceneMode::Minor || c.qol_cutscenes == CutsceneMode::Major), RoomPatch { room: Room::MaproomD04, patch: PatchKind::RemoveCutscenes { ids: 0, use_timers: false } })
    } else if i == 40 {
        ((c.qol_cutscenes == CutsceneMode::Minor || c.qol_cutscenes == CutsceneMode::Major), RoomPatch { room: Room::ConnectTunnel0v, patch: PatchKind::RemoveCutscenes { ids: 10, use_timers: false } })
    } else if i == 41 {
        ((c.qol_cutscenes == CutsceneMode::Minor || c.qol_cutscenes == CutsceneMode::Major), RoomPatch { room: Room::Ruinedroof07, patch: PatchKind::RemoveCutscenes { ids: 11, use_timers: true } })
    } else if i == 42 {
        ((c.qol_cutscenes == CutsceneMode::Minor || c.qol_cutscenes == CutsceneMode::Major), RoomPatch { room: Room::Wateryhall11, patch: PatchKind::RemoveCutscenes { ids: 12, use_timers: false } })
    } else if i == 43 {
        ((c.qol_cutscenes == CutsceneMode::Minor || c.qol_cutscenes == CutsceneMode::Major), RoomPatch { room: Room::Halfpipe18, patch: PatchKind::RemoveCutscenes { ids: 0, use_timers: false } })
    } else if i == 44 {
        ((c.qol_cutscenes == CutsceneMode::Minor || c.qol_cutscenes == CutsceneMode::Major), RoomPatch { room: Room::ChozoBowling17, patch: PatchKind::RemoveCutscenes { ids: 19, use_timers: false } })
    } else if i == 45 {
        ((c.qol_cutscenes == CutsceneMode::Minor || c.qol_cutscenes == CutsceneMode::Major), RoomPatch { room: Room::OverBurningeffigy13, patch: PatchKind::RemoveCutscenes { ids: 13, use_timers: false } })
    } else if i == 46 {
        ((c.qol_cutscenes == CutsceneMode::Minor || c.qol_cutscenes == CutsceneMode::Major), RoomPatch { room: Room::MinesConnect00h, patch: PatchKind::RemoveCutscenes { ids: 20, use_timers: true } })
    } else if i == 47 {
        ((c.qol_cutscenes == CutsceneMode::Minor || c.qol_cutscenes == CutsceneMode::Major), RoomPatch { room: Room::IceTemple06, patch: PatchKind::RemoveCutscenes { ids: 14, use_timers: false } })
    } else if i == 48 {
        ((c.qol_cutscenes == CutsceneMode::Minor || c.qol_cutscenes == CutsceneMode::Major), RoomPatch { room: Room::IceBoostCanyon04, patch: PatchKind::RemoveCutscenes { ids: 0, use_timers: false } })
    } else if i == 49 {
        ((c.qol_cutscenes == CutsceneMode::Minor || c.qol_cutscenes == CutsceneMode::Major), RoomPatch { room: Room::IceShorelines05, patch: PatchKind::RemoveCutscenes { ids: 0, use_timers: false } })
    } else if i == 50 {
        ((c.qol_cutscenes == CutsceneMode::Minor || c.qol_cutscenes == CutsceneMode::Major), RoomPatch { room: Room::IceObservatory11, patch: PatchKind::RemoveCutscenes { ids: 21, use_timers: false } })
    } else if i == 51 {
        ((c.qol_cutscenes == CutsceneMode::Minor || c.qol_cutscenes == CutsceneMode::Major), RoomPatch { room: Room::IceRidley08, patch: PatchKind::RemoveCutscenes { ids: 22, use_timers: false } })
    } else if i == 52 {
        ((c.qol_cutscenes == CutsceneMode::Minor || c.qol_cutscenes == CutsceneMode::Major), RoomPatch { room: Room::IceVault13, patch: PatchKind::RemoveCutscenes { ids: 0, use_timers: false } })
    } else if i == 53 {
        ((c.qol_cutscenes == CutsceneMode::Minor || c.qol_cutscenes == CutsceneMode::Major), RoomPatch { room: Room::Mines03, patch: PatchKind::RemoveCutscenes { ids: 15, use_timers: true } })
    } else if i == 54 {
        ((c.qol_cutscenes == CutsceneMode::Minor || c.qol_cutscenes == CutsceneMode::Major), RoomPatch { room: Room::MinesElitebustout06, patch: PatchKind::RemoveCutscenes { ids: 0, use_timers: true } })
    } else if i == 55 {
        ((c.qol_cutscenes == CutsceneMode::Minor || c.qol_cutscenes == CutsceneMode::Major), RoomPatch { room: Room::MinesElectric07, patch: PatchKind::RemoveCutscenes { ids: 23, use_timers: true } })
    } else if i == 56 {
        ((c.qol_cutscenes == CutsceneMode::Minor || c.qol_cutscenes == CutsceneMode::Major), RoomPatch { room: Room::MinesShotemup02, patch: PatchKind::RemoveCutscenes { ids: 16, use_timers: true } })
    } else if i == 57 {
        ((c.qol_cutscenes == CutsceneMode::Minor || c.qol_cutscenes == CutsceneMode::Major), RoomPatch { room: Room::IcePlaza01, patch: PatchKind::RemoveCutscenes { ids: 24, use_timers: true } })
    } else if i == 58 {
        (c.qol_cutscenes == CutsceneMode::Major, RoomPatch { room: Room::Courtyard08, patch: PatchKind::RemoveCutscenes { ids: 2, use_timers: false } })
    } else if i == 59 {
        (c.qol_cutscenes == CutsceneMode::Major, RoomPatch { room: Room::Endcinema01, patch: PatchKind::RemoveCutscenes { ids: 0, use_timers: true } })
    } else if i == 60 {
        (c.qol_cutscenes == CutsceneMode::Major, RoomPatch { room: Room::ChozoBowling17, patch: PatchKind::RemoveCutscenes { ids: 25, use_timers: false } })
    } else if i == 61 {
        (c.qol_cutscenes == CutsceneMode::Major, RoomPatch { room: Room::IcePlaza01, patch: PatchKind::RemoveCutscenes { ids: 26, use_timers: false } })
    } else if i == 62 {
        (c.qol_cutscenes == CutsceneMode::Major, RoomPatch { room: Room::Stonehenge07, patch: PatchKind::RemoveCutscenes { ids: 27, use_timers: true } })
    } else if i == 63 {
        (c.qol_cutscenes == CutsceneMode::Major, RoomPatch { room: Room::Mines03, patch: PatchKind::RemoveCutscenes { ids: 28, use_timers: true } })
    } else if i == 64 {
        (c.qol_cutscenes == CutsceneMode::Major, RoomPatch { room: Room::HiveTotem19, patch: PatchKind::RemoveCutscenes { ids: 0, use_timers: false } })
    } else if i == 65 {
        (c.qol_cutscenes == CutsceneMode::Major, RoomPatch { room: Room::MorphballShrine1a, patch: PatchKind::RemoveCutscenes { ids: 0, use_timers: true } })
    } else if i == 66 {
        (c.qol_cutscenes == CutsceneMode::Major, RoomPatch { room: Room::MonkeyLower03, patch: PatchKind::RemoveCutscenes { ids: 29, use_timers: true } })
    } else if i == 67 {
        (c.qol_cutscenes == CutsceneMode::Major, RoomPatch { room: Room::Flaahgra22, patch: PatchKind::RemoveCutscenes { ids: 30, use_timers: false } })
    } else if i == 68 {
        (c.qol_cutscenes == CutsceneMode::Major, RoomPatch { room: Room::IceLobby09, patch: PatchKind::RemoveCutscenes { ids: 31, use_timers: false } })
    } else if i == 69 {
        (c.qol_cutscenes == CutsceneMode::Major, RoomPatch { room: Room::IceThardus19, patch: PatchKind::RemoveCutscenes { ids: 0, use_timers: true } })
    } else if i == 70 {
        (c.qol_cutscenes == CutsceneMode::Major, RoomPatch { room: Room::MinesForcefields05, patch: PatchKind::RemoveCutscenes { ids: 0, use_timers: true } })
    } else if i == 71 {
        (c.qol_cutscenes == CutsceneMode::Major, RoomPatch { room: Room::Mines08, patch: PatchKind::RemoveCutscenes { ids: 32, use_timers: false } })
    } else if i == 72 {
        (c.qol_cutscenes == CutsceneMode::Major, RoomPatch { room: Room::MinesEliteboss12, patch: PatchKind::RemoveCutscenes { ids: 33, use_timers: true } })
    } else if i == 73 {
        (c.qol_cutscenes == CutsceneMode::Major, RoomPatch { room: Room::Crater03a, patch: PatchKind::RemoveCutscenes { ids: 34, use_timers: false } })
    } else if i == 74 {
        (c.qol_cutscenes == CutsceneMode::Major, RoomPatch { room: Room::Crater03b, patch: PatchKind::RemoveCutscenes { ids: 0, use_timers: false } })
    } else if i == 75 {
        (c.qol_cutscenes == CutsceneMode::Major, RoomPatch { room: Room::Crater03c, patch: PatchKind::RemoveCutscenes { ids: 0, use_timers: false } })
    } else if i == 76 {
        (c.qol_cutscenes == CutsceneMode::Major, RoomPatch { room: Room::Crater03d, patch: PatchKind::RemoveCutscenes { ids: 0, use_timers: false } })
    } else if i == 77 {
        (c.qol_cutscenes == CutsceneMode::Major, RoomPatch { room: Room::Crater03e, patch: PatchKind::RemoveCutscenes { ids: 0, use_timers: true } })
    } else if i == 78 {
        (c.qol_cutscenes == CutsceneMode::Major, RoomPatch { room: Room::Crater03f, patch: PatchKind::RemoveCutscenes { ids: 35, use_timers: true } })
    } else if i == 79 {
        (c.qol_cutscenes == CutsceneMode::Major && !c.shuffle_pickup_position, RoomPatch { room: Room::IceChapel07, patch: PatchKind::RemoveCutscenes { ids: 36, use_timers: true } })
    } else if i == 80 {
        (!c.force_vanilla_layout, RoomPatch { room: Room::Stonehenge07, patch: PatchKind::TournamentWinners })
    } else if i == 81 {
        (true, RoomPatch { room: Room::Stonehenge07, patch: PatchKind::FixArtifactOfTruthRequirements })
    } else if i == 82 {
        (true, RoomPatch { room: Room::Stonehenge07, patch: PatchKind::ArtifactHintAvailability })
    } else if i == 83 {
        (c.patch_power_conduits, RoomPatch { room: Room::IceShorelines05, patch: PatchKind::ThermalConduitsDamageVulnerabilities })
    } else if i == 84 {
        (c.patch_power_conduits, RoomPatch { room: Room::IceVault13, patch: PatchKind::ThermalConduitsDamageVulnerabilities })
    } else if i == 85 {
        (c.patch_power_conduits, RoomPatch { room: Room::UnderIntroVentshaft08b, patch: PatchKind::ThermalConduitsDamageVulnerabilities })
    } else if i == 86 {
        (c.patch_power_conduits, RoomPatch { room: Room::UnderIntroReactor07, patch: PatchKind::ThermalConduitsDamageVulnerabilities })
    } else if i == 87 {
        (c.patch_power_conduits, RoomPatch { room: Room::UnderIntroToReactor06, patch: PatchKind::ThermalConduitsDamageVulnerabilities })
    } else if i == 88 {
        (c.patch_power_conduits, RoomPatch { room: Room::UnderIntroFreight06, patch: PatchKind::ThermalConduitsDamageVulnerabilities })
    } else if i == 89 {
        (c.patch_power_conduits, RoomPatch { room: Room::UnderIntroZoo05, patch: PatchKind::ThermalConduitsDamageVulnerabilities })
    } else if i == 90 {
        (c.patch_power_conduits, RoomPatch { room: Room::UnderIntroSpecimenChamber05, patch: PatchKind::ThermalConduitsDamageVulnerabilities })
    } else if i == 91 {
        (c.patch_power_conduits, RoomPatch { room: Room::MinesMainplaza01, patch: PatchKind::ThermalConduitsDamageVulnerabilities })
    } else if i == 92 {
        (c.patch_power_conduits, RoomPatch { room: Room::Over1alavaarea10, patch: PatchKind::ThermalConduitsDamageVulnerabilities })
    } else if i == 93 {
        (c.remove_mine_security_station_locks, RoomPatch { room: Room::MinesShotemup02, patch: PatchKind::RemoveDoorLocks })
    } else if i == 94 {
        (c.remove_hive_mecha, RoomPatch { room: Room::HiveTotem19, patch: PatchKind::HiveMechaFirstPassLayer })
    } else if i == 95 {
        (c.remove_hive_mecha, RoomPatch { room: Room::HiveTotem19, patch: PatchKind::HiveMechaAutoStartRelay })
    } else if i == 96 {
        (c.power_bomb_arboretum_sandstone, RoomPatch { room: Room::Courtyard08, patch: PatchKind::ArboretumSandstone })
    } else if i == 97 {
        (!c.skip_frigate && c.disable_item_loss, RoomPatch { room: Room::IntroElevator02, patch: PatchKind::DisableItemLoss })
    } else if i == 98 {
        (!c.skip_frigate && !c.force_vanilla_layout, RoomPatch { room: Room::IntroHangerConnect01, patch: PatchKind::PostPqFrigate })
    } else if i == 99 {
        (!c.skip_frigate && !c.force_vanilla_layout, RoomPatch { room: Room::IntroMechshaft00h, patch: PatchKind::PostPqFrigate })
    } else if i == 100 {
        (!c.skip_frigate && !c.force_vanilla_layout, RoomPatch { room: Room::IntroSpecimenChamber04, patch: PatchKind::PostPqFrigate })
    } else if i == 101 {
        (!c.skip_frigate && !c.force_vanilla_layout, RoomPatch { room: Room::IntroFreightLifts06, patch: PatchKind::PostPqFrigate })
    } else if i == 102 {
        (!c.skip_frigate && !c.force_vanilla_layout, RoomPatch { room: Room::IntroToReactor06, patch: PatchKind::PostPqFrigate })
    } else if i == 103 {
        (!c.skip_frigate && !c.force_vanilla_layout, RoomPatch { room: Room::IntroElevator02, patch: PatchKind::PostPqFrigate })
    } else if i == 104 {
        (!c.skip_frigate && !c.force_vanilla_layout, RoomPatch { room: Room::IntroSpecimenChamber04, patch: PatchKind::CirclePlatform(Vec3Bits { x: 0x422c0000, y: 0xc3420000, z: 0xc2300000 }) })
    } else if i == 105 {
        (!c.skip_frigate && !c.force_vanilla_layout, RoomPatch { room: Room::IntroSpecimenChamber04, patch: PatchKind::CirclePlatform(Vec3Bits { x: 0x421c0000, y: 0xc33a0000, z: 0xc2240000 }) })
    } else if i == 106 {
        (!c.skip_frigate && !c.force_vanilla_layout, RoomPatch { room: Room::IntroSpecimenChamber04, patch: PatchKind::CirclePlatform(Vec3Bits { x: 0x42100000, y: 0xc3350000, z: 0xc21c0000 }) })
    } else if i == 107 {
        (!c.skip_frigate && !c.force_vanilla_layout, RoomPatch { room: Room::IntroSpecimenChamber04, patch: PatchKind::CirclePlatform(Vec3Bits { x: 0x42100000, y: 0xc3400000, z: 0xc21c0000 }) })
    } else if i == 108 {
        (!c.force_vanilla_layout && (!c.starts_at_landing_site || c.qol_cutscenes == CutsceneMode::Major), RoomPatch { room: Room::OverMainplaza01, patch: PatchKind::LandingSiteCutsceneTriggers })
    } else if i == 109 {
        (v == Version::NtscU0_00, RoomPatch { room: Room::Crater03f, patch: PatchKind::EssenceCinematicSkipWhitescreen })
    } else if i == 110 {
        ((v == Version::NtscU0_00 || v == Version::NtscU0_02 || v == Version::Pal), RoomPatch { room: Room::Crater03f, patch: PatchKind::EssenceCinematicSkipNomusic })
    } else if i == 111 {
        (c.qol_game_breaking, RoomPatch { room: Room::MinesConnect00j, patch: PatchKind::FixCentralDynamoCrash })
    } else if i == 112 {
        (c.qol_game_breaking, RoomPatch { room: Room::MinesConnect00p, patch: PatchKind::FixPcaCrash })
    } else if i == 113 {
        (c.qol_game_breaking, RoomPatch { room: Room::Morphballtunnel1a, patch: PatchKind::SpawnPointPosition { position: Vec3Bits { x: 0x42f90f5c, y: 0xc29f8f5c, z: 0x41b6b852 }, relative: false, force_default: false } })
    } else if i == 114 {
        (c.qol_game_breaking, RoomPatch { room: Room::Bathhall05, patch: PatchKind::SpawnPointPosition { position: Vec3Bits { x: 0x43528312, y: 0xc2a4d917, z: 0x4199bd3c }, relative: false, force_default: false } })
    } else if i == 115 {
        (c.qol_game_breaking, RoomPatch { room: Room::MinesSavestationB00, patch: PatchKind::SpawnPointPosition { position: Vec3Bits { x: 0x4358b979, y: 0x408cf27c, z: 0xc30be326 }, relative: false, force_default: true } })
    } else if i == 116 {
        (c.qol_game_breaking, RoomPatch { room: Room::MinesSavestationB00, patch: PatchKind::SpawnPointPosition { position: Vec3Bits { x: 0x4358b979, y: 0x408cf27c, z: 0xc30be326 }, relative: false, force_default: true } })
    } else if i == 117 {
        (c.qol_game_breaking, RoomPatch { room: Room::IntroVentshaft08b, patch: PatchKind::RemoveTwoIds(0x0013001A, 0x0013001C) })
    } else if i == 118 {
        (c.qol_game_breaking && c.small_samus, RoomPatch { room: Room::OverMainplaza01, patch: PatchKind::SpawnPointPosition { position: Vec3Bits { x: 0, y: 0, z: 0x3f000000 }, relative: true, force_default: false } })
    } else if i == 119 {
        (c.qol_game_breaking && c.small_samus, RoomPatch { room: Room::ElevLavaB0, patch: PatchKind::SpawnPointPosition { position: Vec3Bits { x: 0, y: 0, z: 0x3f333333 }, relative: true, force_default: false } })
    } else if i == 120 {
        (c.qol_game_breaking, RoomPatch { room: Room::MinesEliteboss12, patch: PatchKind::CutsceneForcePhazonSuit })
    } else if i == 121 {
        (c.qol_game_breaking && !c.force_vanilla_layout && v == Version::NtscU0_00, RoomPatch { room: Room::IceConnect00n, patch: PatchKind::ResearchCoreAccessSoftLock })
    } else if i == 122 {
        (c.qol_game_breaking && !c.force_vanilla_layout && v != Version::NtscU0_00, RoomPatch { room: Room::Courtyard08, patch: PatchKind::ArboretumInvisibleWall })
    } else if i == 123 {
        (c.qol_game_breaking && !c.force_vanilla_layout && v != Version::NtscU0_00 && v != Version::NtscU0_01, RoomPatch { room: Room::IceShorelines05, patch: PatchKind::RuinedCourtyardThermalConduits })
    } else if i == 124 {
        (c.qol_game_breaking && !c.force_vanilla_layout && v == Version::NtscU0_02, RoomPatch { room: Room::MinesMainplaza01, patch: PatchKind::MainQuarryDoorLock0_02 })
    } else if i == 125 {
        (c.qol_game_breaking && !c.force_vanilla_layout && v == Version::NtscU0_02, RoomPatch { room: Room::OverBurningeffigy13, patch: PatchKind::GeothermalCoreDoorLock0_02 })
    } else if i == 126 {
        (c.qol_game_breaking && !c.force_vanilla_layout && v == Version::NtscU0_02, RoomPatch { room: Room::HiveTotem19, patch: PatchKind::HiveTotemBossTrigger0_02 })
    } else if i == 127 {
        (c.qol_game_breaking && !c.force_vanilla_layout && v == Version::NtscU0_02, RoomPatch { room: Room::MinesPillar04, patch: PatchKind::OreProcessingDoorLock0_02 })
    } else if i == 128 {
        (c.qol_game_breaking && !c.force_vanilla_layout && (v == Version::Pal || v == Version::NtscJ || v == Version::NtscUTrilogy || v == Version::NtscJTrilogy || v == Version::PalTrilogy), RoomPatch { room: Room::MinesPillar04, patch: PatchKind::OreProcessingDestructibleRockPal })
    } else if i == 129 {
        (c.qol_game_breaking && !c.force_vanilla_layout && (v == Version::Pal || v == Version::NtscJ || v == Version::NtscUTrilogy || v == Version::NtscJTrilogy || v == Version::PalTrilogy), RoomPatch { room: Room::OverBurningeffigy13, patch: PatchKind::GeothermalCoreDestructibleRockPal })
    } else if i == 130 {
        (c.qol_game_breaking && !c.force_vanilla_layout && v == Version::Pal, RoomPatch { room: Room::MinesMainplaza01, patch: PatchKind::MainQuarryDoorLockPal })
    } else if i == 131 {
        (c.qol_game_breaking && !c.force_vanilla_layout, RoomPatch { room: Room::Flaahgra22, patch: PatchKind::SunchamberPreventWildBeforeFlaahgra })
    } else if i == 132 {
        (c.qol_game_breaking && !c.force_vanilla_layout, RoomPatch { room: Room::ConnectTunnel0v, patch: PatchKind::SunTowerPreventWildBeforeFlaahgra })
    } else if i == 133 {
        (c.qol_game_breaking && !c.force_vanilla_layout, RoomPatch { room: Room::IceVault13, patch: PatchKind::ResearchLabAetherExplodingWall })
    } else if i == 134 {
        (c.qol_game_breaking && !c.force_vanilla_layout, RoomPatch { room: Room::IceResearchB12, patch: PatchKind::ResearchLabAetherExplodingWall2 })
    } else if i == 135 {
        (c.qol_game_breaking && !c.force_vanilla_layout, RoomPatch { room: Room::IceObservatory11, patch: PatchKind::Observatory2ndPassSolvability })
    } else if i == 136 {
        (c.qol_game_breaking && !c.force_vanilla_layout, RoomPatch { room: Room::IceObservatory11, patch: PatchKind::Observatory1stPassSoftlock })
    } else if i == 137 {
        (c.qol_game_breaking && !c.force_vanilla_layout, RoomPatch { room: Room::MinesShotemup02, patch: PatchKind::MinesSecurityStationSoftLock })
    } else if i == 138 {
        (c.qol_game_breaking && !c.force_vanilla_layout, RoomPatch { room: Room::IceGravityChamber18, patch: PatchKind::GravityChamberStalactiteGrapplePoint })
    } else if i == 139 {
        (c.qol_game_breaking && !c.force_vanilla_layout, RoomPatch { room: Room::HiveTotem19, patch: PatchKind::HiveTotemSoftlock })
    } else if i == 140 {
        (c.qol_game_breaking && c.boss_permadeath, RoomPatch { room: Room::Crater03a, patch: PatchKind::FinalBossPermadeath })
    } else if i == 141 {
        (c.qol_game_breaking && c.boss_permadeath, RoomPatch { room: Room::Crater03b, patch: PatchKind::FinalBossPermadeath })
    } else if i == 142 {
        (c.qol_game_breaking && c.boss_permadeath, RoomPatch { room: Room::Crater03c, patch: PatchKind::FinalBossPermadeath })
    } else if i == 143 {
        (c.qol_game_breaking && c.boss_permadeath, RoomPatch { room: Room::Crater03d, patch: PatchKind::FinalBossPermadeath })
    } else if i == 144 {
        (c.qol_game_breaking && c.boss_permadeath, RoomPatch { room: Room::Crater03e, patch: PatchKind::FinalBossPermadeath })
    } else if i == 145 {
        (c.qol_game_breaking && c.boss_permadeath, RoomPatch { room: Room::Crater03f, patch: PatchKind::FinalBossPermadeath })
    } else if i == 146 {
        (c.qol_game_breaking && c.boss_permadeath, RoomPatch { room: Room::FCrater03e, patch: PatchKind::SubchamberFiveNintendontFix })
    } else if i == 147 {
        (c.qol_game_breaking && c.boss_permadeath, RoomPatch { room: Room::FCrater03e, patch: PatchKind::RemoveCutscenes { ids: 0, use_timers: true } })
    } else if i == 148 {
        (c.qol_game_breaking && c.boss_permadeath, RoomPatch { room: Room::Crater03f, patch: PatchKind::DockTeleport { source_position: Vec3Bits { x: 0x422bd208, y: 0xc38f9619, z: 0xc38b0acc }, source_scale: Vec3Bits { x: 0x42960000, y: 0x42960000, z: 0x42480000 }, destination_dock: 0, spawn_position: Some(Vec3Bits { x: 0x42262560, y: 0xc38fedd6, z: 0xc38e4d1f }) } })
    } else if i == 149 {
        (true, RoomPatch { room: Room::MinesConnect00i, patch: PatchKind::SpawnPointPosition { position: Vec3Bits { x: 0, y: 0, z: 0 }, relative: true, force_default: false } })
    } else if i == 150 {
        (!c.force_vanilla_layout && c.main_plaza_door, RoomPatch { room: Room::Mainplaza01, patch: PatchKind::MainPlazaLockedDoorTwoWays })
    } else if i == 151 {
        (!c.force_vanilla_layout && c.phazon_elite_without_dynamo, RoomPatch { room: Room::Mines03, patch: PatchKind::EliteResearchFightLayers })
    } else if i == 152 {
        (!c.force_vanilla_layout && c.phazon_elite_without_dynamo, RoomPatch { room: Room::MinesElectric07, patch: PatchKind::EliteResearchFightCentralDynamo })
    } else if i == 153 {
        (!c.force_vanilla_layout && c.backwards_frigate, RoomPatch { room: Room::UnderIntroVentshaft08b, patch: PatchKind::MainVentilationShaftSectionBDoor })
    } else if i == 154 {
        (!c.force_vanilla_layout && c.backwards_labs, RoomPatch { room: Room::IceResearchA10, patch: PatchKind::ResearchLabHydraBarrier })
    } else if i == 155 {
        (!c.force_vanilla_layout && c.backwards_upper_mines, RoomPatch { room: Room::MinesMainplaza01, patch: PatchKind::MainQuarryBarrier })
    } else if i == 156 {
        (!c.force_vanilla_layout && c.backwards_lower_mines, RoomPatch { room: Room::MinesConnect00p, patch: PatchKind::BackwardsLowerMinesPca })
    } else if i == 157 {
        (!c.force_vanilla_layout && c.backwards_lower_mines, RoomPatch { room: Room::MinesConnect00o, patch: PatchKind::BackwardsLowerMinesEqa })
    } else if i == 158 {
        (!c.force_vanilla_layout && c.backwards_lower_mines, RoomPatch { room: Room::Mines11, patch: PatchKind::BackwardsLowerMinesMqb })
    } else if i == 159 {
        (!c.force_vanilla_layout && c.backwards_lower_mines, RoomPatch { room: Room::Mines08, patch: PatchKind::BackwardsLowerMinesMqa })
    } else {
        (!c.force_vanilla_layout && c.backwards_lower_mines, RoomPatch { room: Room::MinesForcefields05, patch: PatchKind::BackwardsLowerMinesEliteControl })
    }
}

/// How many room patches the patcher knows.
pub const PLAN_ENTRY_COUNT: usize = 161;

/// Every room patch the patcher knows, in the order it applies them, each with the condition
/// under which it applies.
pub open spec fn plan_entries(c: PatchPlanInput, v: Version) -> Seq<(bool, RoomPatch)> {
    Seq::new(PLAN_ENTRY_COUNT as nat, |i: int| plan_entry(c, v, i))
}

/// The patches of `entries` whose condition holds, in order.
pub open spec fn selected(entries: Seq<(bool, RoomPatch)>) -> Seq<RoomPatch>
    decreases entries.len(),
{
    if entries.len() == 0 {
        Seq::empty()
    } else if entries.last().0 {
        selected(entries.drop_last()).push(entries.last().1)
    } else {
        selected(entries.drop_last())
    }
}

/// The room patches that apply for configuration `c` and version `v`, in order.
pub open spec fn room_patch_plan(c: PatchPlanInput, v: Version) -> Seq<RoomPatch> {
    selected(plan_entries(c, v))
}

/// The room patch at place `i` of the list, with its condition.
fn plan_entry_at(c: &PatchPlanInput, v: Version, i: usize) -> (r: (bool, RoomPatch))
    requires
        i < PLAN_ENTRY_COUNT,
    ensures
        r == plan_entry(*c, v, i as int),
{
    match i {
        0 => (c.qol_cutscenes == CutsceneMode::Competitive, RoomPatch { room: Room::MinesMainplaza01, patch: PatchKind::RemoveCutscenes { ids: 1, use_timers: false } }),
        1 => (c.qol_cutscenes == CutsceneMode::Competitive, RoomPatch { room: Room::Courtyard08, patch: PatchKind::RemoveCutscenes { ids: 2, use_timers: false } }),
        2 => (c.qol_cutscenes == CutsceneMode::Competitive, RoomPatch { room: Room::Over1alavaarea10, patch: PatchKind::RemoveCutscenes { ids: 3, use_timers: false } }),
        3 => (c.qol_cutscenes == CutsceneMode::Competitive, RoomPatch { room: Room::OverXray05, patch: PatchKind::RemoveCutscenes { ids: 4, use_timers: true } }),
        4 => (c.qol_cutscenes == CutsceneMode::Competitive, RoomPatch { room: Room::IceResearchB12, patch: PatchKind::LabAetherCutsceneTrigger }),
        5 => (c.qol_cutscenes == CutsceneMode::Competitive, RoomPatch { room: Room::OverHall00j, patch: PatchKind::RemoveCutscenes { ids: 0, use_timers: true } }),
        6 => (c.qol_cutscenes == CutsceneMode::Competitive, RoomPatch { room: Room::IceCaveA15, patch: PatchKind::RemoveCutscenes { ids: 5, use_timers: false } }),
        7 => (c.qol_cutscenes == CutsceneMode::Competitive, RoomPatch { room: Room::Energycores15, patch: PatchKind::RemoveCutscenes { ids: 6, use_timers: false } }),
        8 => (c.qol_cutscenes == CutsceneMode::Competitive, RoomPatch { room: Room::UnderIntroReactor07, patch: PatchKind::RemoveCutscenes { ids: 0, use_timers: false } }),
        9 => (c.qol_cutscenes == CutsceneMode::Competitive, RoomPatch { room: Room::UnderIntroFreight06, patch: PatchKind::RemoveCutscenes { ids: 7, use_timers: false } }),
        10 => (c.qol_cutscenes == CutsceneMode::Competitive, RoomPatch { room: Room::UnderIntroZoo05, patch: PatchKind::RemoveCutscenes { ids: 8, use_timers: false } }),
        11 => (c.qol_cutscenes == CutsceneMode::Competitive, RoomPatch { room: Room::UnderIntroSpecimenChamber05, patch: PatchKind::RemoveCutscenes { ids: 9, use_timers: false } }),
        12 => (c.qol_cutscenes == CutsceneMode::Competitive, RoomPatch { room: Room::MaproomD04, patch: PatchKind::RemoveCutscenes { ids: 0, use_timers: false } }),
        13 => (c.qol_cutscenes == CutsceneMode::Competitive, RoomPatch { room: Room::ConnectTunnel0v, patch: PatchKind::RemoveCutscenes { ids: 10, use_timers: false } }),
        14 => (c.qol_cutscenes == CutsceneMode::Competitive, RoomPatch { room: Room::Ruinedroof07, patch: PatchKind::RemoveCutscenes { ids: 11, use_timers: true } }),
        15 => (c.qol_cutscenes == CutsceneMode::Competitive, RoomPatch { room: Room::Wateryhall11, patch: PatchKind::RemoveCutscenes { ids: 12, use_timers: false } }),
        16 => (c.qol_cutscenes == CutsceneMode::Competitive, RoomPatch { room: Room::Halfpipe18, patch: PatchKind::RemoveCutscenes { ids: 0, use_timers: false } }),
        17 => (c.qol_cutscenes == CutsceneMode::Competitive, RoomPatch { room: Room::OverBurningeffigy13, patch: PatchKind::RemoveCutscenes { ids: 13, use_timers: false } }),
        18 => (c.qol_cutscenes == CutsceneMode::Competitive, RoomPatch { room: Room::IceTemple06, patch: PatchKind::RemoveCutscenes { ids: 14, use_timers: false } }),
        19 => (c.qol_cutscenes == CutsceneMode::Competitive, RoomPatch { room: Room::IceBoostCanyon04, patch: PatchKind::RemoveCutscenes { ids: 0, use_timers: false } }),
        20 => (c.qol_cutscenes == CutsceneMode::Competitive, RoomPatch { room: Room::IceShorelines05, patch: PatchKind::RemoveCutscenes { ids: 0, use_timers: false } }),
        21 => (c.qol_cutscenes == CutsceneMode::Competitive, RoomPatch { room: Room::IceVault13, patch: PatchKind::RemoveCutscenes { ids: 0, use_timers: false } }),
        22 => (c.qol_cutscenes == CutsceneMode::Competitive, RoomPatch { room: Room::Mines03, patch: PatchKind::RemoveCutscenes { ids: 15, use_timers: true } }),
        23 => (c.qol_cutscenes == CutsceneMode::Competitive, RoomPatch { room: Room::MinesShotemup02, patch: PatchKind::RemoveCutscenes { ids: 16, use_timers: true } }),
        24 => ((c.qol_cutscenes == CutsceneMode::Minor || c.qol_cutscenes == CutsceneMode::Major), RoomPatch { room: Room::Courtyard08, patch: PatchKind::RemoveCutscenes { ids: 2, use_timers: false } }),
        25 => ((c.qol_cutscenes == CutsceneMode::Minor || c.qol_cutscenes == CutsceneMode::Major), RoomPatch { room: Room::Mines08, patch: PatchKind::RemoveCutscenes { ids: 17, use_timers: false } }),
        26 => ((c.qol_cutscenes == CutsceneMode::Minor || c.qol_cutscenes == CutsceneMode::Major), RoomPatch { room: Room::IceResearchB12, patch: PatchKind::LabAetherCutsceneTrigger }),
        27 => ((c.qol_cutscenes == CutsceneMode::Minor || c.qol_cutscenes == CutsceneMode::Major), RoomPatch { room: Room::OverHall00j, patch: PatchKind::RemoveCutscenes { ids: 0, use_timers: true } }),
        28 => ((c.qol_cutscenes == CutsceneMode::Minor || c.qol_cutscenes == CutsceneMode::Major), RoomPatch { room: Room::IceCaveA15, patch: PatchKind::RemoveCutscenes { ids: 5, use_timers: false } }),
        29 => ((c.qol_cutscenes == CutsceneMode::Minor || c.qol_cutscenes == CutsceneMode::Major), RoomPatch { room: Room::Energycores15, patch: PatchKind::RemoveCutscenes { ids: 6, use_timers: false } }),
        30 => ((c.qol_cutscenes == CutsceneMode::Minor || c.qol_cutscenes == CutsceneMode::Major), RoomPatch { room: Room::Over1alavaarea10, patch: PatchKind::RemoveCutscenes { ids: 3, use_timers: false } }),
        31 => ((c.qol_cutscenes == CutsceneMode::Minor || c.qol_cutscenes == CutsceneMode::Major), RoomPatch { room: Room::UnderIntroReactor07, patch: PatchKind::RemoveCutscenes { ids: 0, use_timers: false } }),
        32 => ((c.qol_cutscenes == CutsceneMode::Minor || c.qol_cutscenes == CutsceneMode::Major), RoomPatch { room: Room::UnderIntroFreight06, patch: PatchKind::RemoveCutscenes { ids: 7, use_timers: false } }),
        33 => ((c.qol_cutscenes == CutsceneMode::Minor || c.qol_cutscenes == CutsceneMode::Major), RoomPatch { room: Room::UnderIntroZoo05, patch: PatchKind::RemoveCutscenes { ids: 8, use_timers: false } }),
        34 => ((c.qol_cutscenes == CutsceneMode::Minor || c.qol_cutscenes == CutsceneMode::Major), RoomPatch { room: Room::UnderIntroSpecimenChamber05, patch: PatchKind::RemoveCutscenes { ids: 9, use_timers: false } }),
        35 => ((c.qol_cutscenes == CutsceneMode::Minor || c.qol_cutscenes == CutsceneMode::Major), RoomPatch { room: Room::OverXray05, patch: PatchKind::RemoveCutscenes { ids: 0, use_timers: true } }),
        36 => ((c.qol_cutscenes == CutsceneMode::Minor || c.qol_cutscenes == CutsceneMode::Major), RoomPatch { room: Room::Mainplaza01, patch: PatchKind::RemoveCutscenes { ids: 0, use_timers: false } }),
        37 => ((c.qol_cutscenes == CutsceneMode::Minor || c.qol_cutscenes == CutsceneMode::Major), RoomPatch { room: Room::MinesMainplaza01, patch: PatchKind::RemoveCutscenes { ids: 18, use_timers: false } }),
        38 => ((c.qol_cutscenes == CutsceneMode::Minor || c.qol_cutscenes == CutsceneMode::Major), RoomPatch { room: Room::OverMuddywatersB11, patch: PatchKind::RemoveCutscenes { ids: 0, use_timers: false } }),
        39 => ((c.qol_cutscenes == CutsceneMode::Minor || c.qol_cutscenes == CutsceneMode::Major), RoomPatch { room: Room::MaproomD04, patch: PatchKind::RemoveCutscenes { ids: 0, use_timers: false } }),
        40 => ((c.qol_cutscenes == CutsceneMode::Minor || c.qol_cutscenes == CutsceneMode::Major), RoomPatch { room: Room::ConnectTunnel0v, patch: PatchKind::RemoveCutscenes { ids: 10, use_timers: false } }),
        41 => ((c.qol_cutscenes == CutsceneMode::Minor || c.qol_cutscenes == CutsceneMode::Major), RoomPatch { room: Room::Ruinedroof07, patch: PatchKind::RemoveCutscenes { ids: 11, use_timers: true } }),
        42 => ((c.qol_cutscenes == CutsceneMode::Minor || c.qol_cutscenes == CutsceneMode::Major), RoomPatch { room: Room::Wateryhall11, patch: PatchKind::RemoveCutscenes { ids: 12, use_timers: false } }),
        43 => ((c.qol_cutscenes == CutsceneMode::Minor || c.qol_cutscenes == CutsceneMode::Major), RoomPatch { room: Room::Halfpipe18, patch: PatchKind::RemoveCutscenes { ids: 0, use_timers: false } }),
        44 => ((c.qol_cutscenes == CutsceneMode::Minor || c.qol_cutscenes == CutsceneMode::Major), RoomPatch { room: Room::ChozoBowling17, patch: PatchKind::RemoveCutscenes { ids: 19, use_timers: false } }),
        45 => ((c.qol_cutscenes == CutsceneMode::Minor || c.qol_cutscenes == CutsceneMode::Major), RoomPatch { room: Room::OverBurningeffigy13, patch: PatchKind::RemoveCutscenes { ids: 13, use_timers: false } }),
        46 => ((c.qol_cutscenes == CutsceneMode::Minor || c.qol_cutscenes == CutsceneMode::Major), RoomPatch { room: Room::MinesConnect00h, patch: PatchKind::RemoveCutscenes { ids: 20, use_timers: true } }),
        47 => ((c.qol_cutscenes == CutsceneMode::Minor || c.qol_cutscenes == CutsceneMode::Major), RoomPatch { room: Room::IceTemple06, patch: PatchKind::RemoveCutscenes { ids: 14, use_timers: false } }),
        48 => ((c.qol_cutscenes == CutsceneMode::Minor || c.qol_cutscenes == CutsceneMode::Major), RoomPatch { room: Room::IceBoostCanyon04, patch: PatchKind::RemoveCutscenes { ids: 0, use_timers: false } }),
        49 => ((c.qol_cutscenes == CutsceneMode::Minor || c.qol_cutscenes == CutsceneMode::Major), RoomPatch { room: Room::IceShorelines05, patch: PatchKind::RemoveCutscenes { ids: 0, use_timers: false } }),
        50 => ((c.qol_cutscenes == CutsceneMode::Minor || c.qol_cutscenes == CutsceneMode::Major), RoomPatch { room: Room::IceObservatory11, patch: PatchKind::RemoveCutscenes { ids: 21, use_timers: false } }),
        51 => ((c.qol_cutscenes == CutsceneMode::Minor || c.qol_cutscenes == CutsceneMode::Major), RoomPatch { room: Room::IceRidley08, patch: PatchKind::RemoveCutscenes { ids: 22, use_timers: false } }),
        52 => ((c.qol_cutscenes == CutsceneMode::Minor || c.qol_cutscenes == CutsceneMode::Major), RoomPatch { room: Room::IceVault13, patch: PatchKind::RemoveCutscenes { ids: 0, use_timers: false } }),
        53 => ((c.qol_cutscenes == CutsceneMode::Minor || c.qol_cutscenes == CutsceneMode::Major), RoomPatch { room: Room::Mines03, patch: PatchKind::RemoveCutscenes { ids: 15, use_timers: true } }),
        54 => ((c.qol_cutscenes == CutsceneMode::Minor || c.qol_cutscenes == CutsceneMode::Major), RoomPatch { room: Room::MinesElitebustout06, patch: PatchKind::RemoveCutscenes { ids: 0, use_timers: true } }),
        55 => ((c.qol_cutscenes == CutsceneMode::Minor || c.qol_cutscenes == CutsceneMode::Major), RoomPatch { room: Room::MinesElectric07, patch: PatchKind::RemoveCutscenes { ids: 23, use_timers: true } }),
        56 => ((c.qol_cutscenes == CutsceneMode::Minor || c.qol_cutscenes == CutsceneMode::Major), RoomPatch { room: Room::MinesShotemup02, patch: PatchKind::RemoveCutscenes { ids: 16, use_timers: true } }),
        57 => ((c.qol_cutscenes == CutsceneMode::Minor || c.qol_cutscenes == CutsceneMode::Major), RoomPatch { room: Room::IcePlaza01, patch: PatchKind::RemoveCutscenes { ids: 24, use_timers: true } }),
        58 => (c.qol_cutscenes == CutsceneMode::Major, RoomPatch { room: Room::Courtyard08, patch: PatchKind::RemoveCutscenes { ids: 2, use_timers: false } }),
        59 => (c.qol_cutscenes == CutsceneMode::Major, RoomPatch { room: Room::Endcinema01, patch: PatchKind::RemoveCutscenes { ids: 0, use_timers: true } }),
        60 => (c.qol_cutscenes == CutsceneMode::Major, RoomPatch { room: Room::ChozoBowling17, patch: PatchKind::RemoveCutscenes { ids: 25, use_timers: false } }),
        61 => (c.qol_cutscenes == CutsceneMode::Major, RoomPatch { room: Room::IcePlaza01, patch: PatchKind::RemoveCutscenes { ids: 26, use_timers: false } }),
        62 => (c.qol_cutscenes == CutsceneMode::Major, RoomPatch { room: Room::Stonehenge07, patch: PatchKind::RemoveCutscenes { ids: 27, use_timers: true } }),
        63 => (c.qol_cutscenes == CutsceneMode::Major, RoomPatch { room: Room::Mines03, patch: PatchKind::RemoveCutscenes { ids: 28, use_timers: true } }),
        64 => (c.qol_cutscenes == CutsceneMode::Major, RoomPatch { room: Room::HiveTotem19, patch: PatchKind::RemoveCutscenes { ids: 0, use_timers: false } }),
        65 => (c.qol_cutscenes == CutsceneMode::Major, RoomPatch { room: Room::MorphballShrine1a, patch: PatchKind::RemoveCutscenes { ids: 0, use_timers: true } }),
        66 => (c.qol_cutscenes == CutsceneMode::Major, RoomPatch { room: Room::MonkeyLower03, patch: PatchKind::RemoveCutscenes { ids: 29, use_timers: true } }),
        67 => (c.qol_cutscenes == CutsceneMode::Major, RoomPatch { room: Room::Flaahgra22, patch: PatchKind::RemoveCutscenes { ids: 30, use_timers: false } }),
        68 => (c.qol_cutscenes == CutsceneMode::Major, RoomPatch { room: Room::IceLobby09, patch: PatchKind::RemoveCutscenes { ids: 31, use_timers: false } }),
        69 => (c.qol_cutscenes == CutsceneMode::Major, RoomPatch { room: Room::IceThardus19, patch: PatchKind::RemoveCutscenes { ids: 0, use_timers: true } }),
        70 => (c.qol_cutscenes == CutsceneMode::Major, RoomPatch { room: Room::MinesForcefields05, patch: PatchKind::RemoveCutscenes { ids: 0, use_timers: true } }),
        71 => (c.qol_cutscenes == CutsceneMode::Major, RoomPatch { room: Room::Mines08, patch: PatchKind::RemoveCutscenes { ids: 32, use_timers: false } }),
        72 => (c.qol_cutscenes == CutsceneMode::Major, RoomPatch { room: Room::MinesEliteboss12, patch: PatchKind::RemoveCutscenes { ids: 33, use_timers: true } }),
        73 => (c.qol_cutscenes == CutsceneMode::Major, RoomPatch { room: Room::Crater03a, patch: PatchKind::RemoveCutscenes { ids: 34, use_timers: false } }),
        74 => (c.qol_cutscenes == CutsceneMode::Major, RoomPatch { room: Room::Crater03b, patch: PatchKind::RemoveCutscenes { ids: 0, use_timers: false } }),
        75 => (c.qol_cutscenes == CutsceneMode::Major, RoomPatch { room: Room::Crater03c, patch: PatchKind::RemoveCutscenes { ids: 0, use_timers: false } }),
        76 => (c.qol_cutscenes == CutsceneMode::Major, RoomPatch { room: Room::Crater03d, patch: PatchKind::RemoveCutscenes { ids: 0, use_timers: false } }),
        77 => (c.qol_cutscenes == CutsceneMode::Major, RoomPatch { room: Room::Crater03e, patch: PatchKind::RemoveCutscenes { ids: 0, use_timers: true } }),
        78 => (c.qol_cutscenes == CutsceneMode::Major, RoomPatch { room: Room::Crater03f, patch: PatchKind::RemoveCutscenes { ids: 35, use_timers: true } }),
        79 => (c.qol_cutscenes == CutsceneMode::Major && !c.shuffle_pickup_position, RoomPatch { room: Room::IceChapel07, patch: PatchKind::RemoveCutscenes { ids: 36, use_timers: true } }),
        80 => (!c.force_vanilla_layout, RoomPatch { room: Room::Stonehenge07, patch: PatchKind::TournamentWinners }),
        81 => (true, RoomPatch { room: Room::Stonehenge07, patch: PatchKind::FixArtifactOfTruthRequirements }),
        82 => (true, RoomPatch { room: Room::Stonehenge07, patch: PatchKind::ArtifactHintAvailability }),
        83 => (c.patch_power_conduits, RoomPatch { room: Room::IceShorelines05, patch: PatchKind::ThermalConduitsDamageVulnerabilities }),
        84 => (c.patch_power_conduits, RoomPatch { room: Room::IceVault13, patch: PatchKind::ThermalConduitsDamageVulnerabilities }),
        85 => (c.patch_power_conduits, RoomPatch { room: Room::UnderIntroVentshaft08b, patch: PatchKind::ThermalConduitsDamageVulnerabilities }),
        86 => (c.patch_power_conduits, RoomPatch { room: Room::UnderIntroReactor07, patch: PatchKind::ThermalConduitsDamageVulnerabilities }),
        87 => (c.patch_power_conduits, RoomPatch { room: Room::UnderIntroToReactor06, patch: PatchKind::ThermalConduitsDamageVulnerabilities }),
        88 => (c.patch_power_conduits, RoomPatch { room: Room::UnderIntroFreight06, patch: PatchKind::ThermalConduitsDamageVulnerabilities }),
        89 => (c.patch_power_conduits, RoomPatch { room: Room::UnderIntroZoo05, patch: PatchKind::ThermalConduitsDamageVulnerabilities }),
        90 => (c.patch_power_conduits, RoomPatch { room: Room::UnderIntroSpecimenChamber05, patch: PatchKind::ThermalConduitsDamageVulnerabilities }),
        91 => (c.patch_power_conduits, RoomPatch { room: Room::MinesMainplaza01, patch: PatchKind::ThermalConduitsDamageVulnerabilities }),
        92 => (c.patch_power_conduits, RoomPatch { room: Room::Over1alavaarea10, patch: PatchKind::ThermalConduitsDamageVulnerabilities }),
        93 => (c.remove_mine_security_station_locks, RoomPatch { room: Room::MinesShotemup02, patch: PatchKind::RemoveDoorLocks }),
        94 => (c.remove_hive_mecha, RoomPatch { room: Room::HiveTotem19, patch: PatchKind::HiveMechaFirstPassLayer }),
        95 => (c.remove_hive_mecha, RoomPatch { room: Room::HiveTotem19, patch: PatchKind::HiveMechaAutoStartRelay }),
        96 => (c.power_bomb_arboretum_sandstone, RoomPatch { room: Room::Courtyard08, patch: PatchKind::ArboretumSandstone }),
        97 => (!c.skip_frigate && c.disable_item_loss, RoomPatch { room: Room::IntroElevator02, patch: PatchKind::DisableItemLoss }),
        98 => (!c.skip_frigate && !c.force_vanilla_layout, RoomPatch { room: Room::IntroHangerConnect01, patch: PatchKind::PostPqFrigate }),
        99 => (!c.skip_frigate && !c.force_vanilla_layout, RoomPatch { room: Room::IntroMechshaft00h, patch: PatchKind::PostPqFrigate }),
        100 => (!c.skip_frigate && !c.force_vanilla_layout, RoomPatch { room: Room::IntroSpecimenChamber04, patch: PatchKind::PostPqFrigate }),
        101 => (!c.skip_frigate && !c.force_vanilla_layout, RoomPatch { room: Room::IntroFreightLifts06, patch: PatchKind::PostPqFrigate }),
        102 => (!c.skip_frigate && !c.force_vanilla_layout, RoomPatch { room: Room::IntroToReactor06, patch: PatchKind::PostPqFrigate }),
        103 => (!c.skip_frigate && !c.force_vanilla_layout, RoomPatch { room: Room::IntroElevator02, patch: PatchKind::PostPqFrigate }),
        104 => (!c.skip_frigate && !c.force_vanilla_layout, RoomPatch { room: Room::IntroSpecimenChamber04, patch: PatchKind::CirclePlatform(Vec3Bits { x: 0x422c0000, y: 0xc3420000, z: 0xc2300000 }) }),
        105 => (!c.skip_frigate && !c.force_vanilla_layout, RoomPatch { room: Room::IntroSpecimenChamber04, patch: PatchKind::CirclePlatform(Vec3Bits { x: 0x421c0000, y: 0xc33a0000, z: 0xc2240000 }) }),
        106 => (!c.skip_frigate && !c.force_vanilla_layout, RoomPatch { room: Room::IntroSpecimenChamber04, patch: PatchKind::CirclePlatform(Vec3Bits { x: 0x42100000, y: 0xc3350000, z: 0xc21c0000 }) }),
        107 => (!c.skip_frigate && !c.force_vanilla_layout, RoomPatch { room: Room::IntroSpecimenChamber04, patch: PatchKind::CirclePlatform(Vec3Bits { x: 0x42100000, y: 0xc3400000, z: 0xc21c0000 }) }),
        108 => (!c.force_vanilla_layout && (!c.starts_at_landing_site || c.qol_cutscenes == CutsceneMode::Major), RoomPatch { room: Room::OverMainplaza01, patch: PatchKind::LandingSiteCutsceneTriggers }),
        109 => (v == Version::NtscU0_00, RoomPatch { room: Room::Crater03f, patch: PatchKind::EssenceCinematicSkipWhitescreen }),
        110 => ((v == Version::NtscU0_00 || v == Version::NtscU0_02 || v == Version::Pal), RoomPatch { room: Room::Crater03f, patch: PatchKind::EssenceCinematicSkipNomusic }),
        111 => (c.qol_game_breaking, RoomPatch { room: Room::MinesConnect00j, patch: PatchKind::FixCentralDynamoCrash }),
        112 => (c.qol_game_breaking, RoomPatch { room: Room::MinesConnect00p, patch: PatchKind::FixPcaCrash }),
        113 => (c.qol_game_breaking, RoomPatch { room: Room::Morphballtunnel1a, patch: PatchKind::SpawnPointPosition { position: Vec3Bits { x: 0x42f90f5c, y: 0xc29f8f5c, z: 0x41b6b852 }, relative: false, force_default: false } }),
        114 => (c.qol_game_breaking, RoomPatch { room: Room::Bathhall05, patch: PatchKind::SpawnPointPosition { position: Vec3Bits { x: 0x43528312, y: 0xc2a4d917, z: 0x4199bd3c }, relative: false, force_default: false } }),
        115 => (c.qol_game_breaking, RoomPatch { room: Room::MinesSavestationB00, patch: PatchKind::SpawnPointPosition { position: Vec3Bits { x: 0x4358b979, y: 0x408cf27c, z: 0xc30be326 }, relative: false, force_default: true } }),
        116 => (c.qol_game_breaking, RoomPatch { room: Room::MinesSavestationB00, patch: PatchKind::SpawnPointPosition { position: Vec3Bits { x: 0x4358b979, y: 0x408cf27c, z: 0xc30be326 }, relative: false, force_default: true } }),
        117 => (c.qol_game_breaking, RoomPatch { room: Room::IntroVentshaft08b, patch: PatchKind::RemoveTwoIds(0x0013001A, 0x0013001C) }),
        118 => (c.qol_game_breaking && c.small_samus, RoomPatch { room: Room::OverMainplaza01, patch: PatchKind::SpawnPointPosition { position: Vec3Bits { x: 0, y: 0, z: 0x3f000000 }, relative: true, force_default: false } }),
        119 => (c.qol_game_breaking && c.small_samus, RoomPatch { room: Room::ElevLavaB0, patch: PatchKind::SpawnPointPosition { position: Vec3Bits { x: 0, y: 0, z: 0x3f333333 }, relative: true, force_default: false } }),
        120 => (c.qol_game_breaking, RoomPatch { room: Room::MinesEliteboss12, patch: PatchKind::CutsceneForcePhazonSuit }),
        121 => (c.qol_game_breaking && !c.force_vanilla_layout && v == Version::NtscU0_00, RoomPatch { room: Room::IceConnect00n, patch: PatchKind::ResearchCoreAccessSoftLock }),
        122 => (c.qol_game_breaking && !c.force_vanilla_layout && v != Version::NtscU0_00, RoomPatch { room: Room::Courtyard08, patch: PatchKind::ArboretumInvisibleWall }),
        123 => (c.qol_game_breaking && !c.force_vanilla_layout && v != Version::NtscU0_00 && v != Version::NtscU0_01, RoomPatch { room: Room::IceShorelines05, patch: PatchKind::RuinedCourtyardThermalConduits }),
        124 => (c.qol_game_breaking && !c.force_vanilla_layout && v == Version::NtscU0_02, RoomPatch { room: Room::MinesMainplaza01, patch: PatchKind::MainQuarryDoorLock0_02 }),
        125 => (c.qol_game_breaking && !c.force_vanilla_layout && v == Version::NtscU0_02, RoomPatch { room: Room::OverBurningeffigy13, patch: PatchKind::GeothermalCoreDoorLock0_02 }),
        126 => (c.qol_game_breaking && !c.force_vanilla_layout && v == Version::NtscU0_02, RoomPatch { room: Room::HiveTotem19, patch: PatchKind::HiveTotemBossTrigger0_02 }),
        127 => (c.qol_game_breaking && !c.force_vanilla_layout && v == Version::NtscU0_02, RoomPatch { room: Room::MinesPillar04, patch: PatchKind::OreProcessingDoorLock0_02 }),
        128 => (c.qol_game_breaking && !c.force_vanilla_layout && (v == Version::Pal || v == Version::NtscJ || v == Version::NtscUTrilogy || v == Version::NtscJTrilogy || v == Version::PalTrilogy), RoomPatch { room: Room::MinesPillar04, patch: PatchKind::OreProcessingDestructibleRockPal }),
        129 => (c.qol_game_breaking && !c.force_vanilla_layout && (v == Version::Pal || v == Version::NtscJ || v == Version::NtscUTrilogy || v == Version::NtscJTrilogy || v == Version::PalTrilogy), RoomPatch { room: Room::OverBurningeffigy13, patch: PatchKind::GeothermalCoreDestructibleRockPal }),
        130 => (c.qol_game_breaking && !c.force_vanilla_layout && v == Version::Pal, RoomPatch { room: Room::MinesMainplaza01, patch: PatchKind::MainQuarryDoorLockPal }),
        131 => (c.qol_game_breaking && !c.force_vanilla_layout, RoomPatch { room: Room::Flaahgra22, patch: PatchKind::SunchamberPreventWildBeforeFlaahgra }),
        132 => (c.qol_game_breaking && !c.force_vanilla_layout, RoomPatch { room: Room::ConnectTunnel0v, patch: PatchKind::SunTowerPreventWildBeforeFlaahgra }),
        133 => (c.qol_game_breaking && !c.force_vanilla_layout, RoomPatch { room: Room::IceVault13, patch: PatchKind::ResearchLabAetherExplodingWall }),
        134 => (c.qol_game_breaking && !c.force_vanilla_layout, RoomPatch { room: Room::IceResearchB12, patch: PatchKind::ResearchLabAetherExplodingWall2 }),
        135 => (c.qol_game_breaking && !c.force_vanilla_layout, RoomPatch { room: Room::IceObservatory11, patch: PatchKind::Observatory2ndPassSolvability }),
        136 => (c.qol_game_breaking && !c.force_vanilla_layout, RoomPatch { room: Room::IceObservatory11, patch: PatchKind::Observatory1stPassSoftlock }),
        137 => (c.qol_game_breaking && !c.force_vanilla_layout, RoomPatch { room: Room::MinesShotemup02, patch: PatchKind::MinesSecurityStationSoftLock }),
        138 => (c.qol_game_breaking && !c.force_vanilla_layout, RoomPatch { room: Room::IceGravityChamber18, patch: PatchKind::GravityChamberStalactiteGrapplePoint }),
        139 => (c.qol_game_breaking && !c.force_vanilla_layout, RoomPatch { room: Room::HiveTotem19, patch: PatchKind::HiveTotemSoftlock }),
        140 => (c.qol_game_breaking && c.boss_permadeath, RoomPatch { room: Room::Crater03a, patch: PatchKind::FinalBossPermadeath }),
        141 => (c.qol_game_breaking && c.boss_permadeath, RoomPatch { room: Room::Crater03b, patch: PatchKind::FinalBossPermadeath }),
        142 => (c.qol_game_breaking && c.boss_permadeath, RoomPatch { room: Room::Crater03c, patch: PatchKind::FinalBossPermadeath }),
        143 => (c.qol_game_breaking && c.boss_permadeath, RoomPatch { room: Room::Crater03d, patch: PatchKind::FinalBossPermadeath }),
        144 => (c.qol_game_breaking && c.boss_permadeath, RoomPatch { room: Room::Crater03e, patch: PatchKind::FinalBossPermadeath }),
        145 => (c.qol_game_breaking && c.boss_permadeath, RoomPatch { room: Room::Crater03f, patch: PatchKind::FinalBossPermadeath }),
        146 => (c.qol_game_breaking && c.boss_permadeath, RoomPatch { room: Room::FCrater03e, patch: PatchKind::SubchamberFiveNintendontFix }),
        147 => (c.qol_game_breaking && c.boss_permadeath, RoomPatch { room: Room::FCrater03e, patch: PatchKind::RemoveCutscenes { ids: 0, use_timers: true } }),
        148 => (c.qol_game_breaking && c.boss_permadeath, RoomPatch { room: Room::Crater03f, patch: PatchKind::DockTeleport { source_position: Vec3Bits { x: 0x422bd208, y: 0xc38f9619, z: 0xc38b0acc }, source_scale: Vec3Bits { x: 0x42960000, y: 0x42960000, z: 0x42480000 }, destination_dock: 0, spawn_position: Some(Vec3Bits { x: 0x42262560, y: 0xc38fedd6, z: 0xc38e4d1f }) } }),
        149 => (true, RoomPatch { room: Room::MinesConnect00i, patch: PatchKind::SpawnPointPosition { position: Vec3Bits { x: 0, y: 0, z: 0 }, relative: true, force_default: false } }),
        150 => (!c.force_vanilla_layout && c.main_plaza_door, RoomPatch { room: Room::Mainplaza01, patch: PatchKind::MainPlazaLockedDoorTwoWays }),
        151 => (!c.force_vanilla_layout && c.phazon_elite_without_dynamo, RoomPatch { room: Room::Mines03, patch: PatchKind::EliteResearchFightLayers }),
        152 => (!c.force_vanilla_layout && c.phazon_elite_without_dynamo, RoomPatch { room: Room::MinesElectric07, patch: PatchKind::EliteResearchFightCentralDynamo }),
        153 => (!c.force_vanilla_layout && c.backwards_frigate, RoomPatch { room: Room::UnderIntroVentshaft08b, patch: PatchKind::MainVentilationShaftSectionBDoor }),
        154 => (!c.force_vanilla_layout && c.backwards_labs, RoomPatch { room: Room::IceResearchA10, patch: PatchKind::ResearchLabHydraBarrier }),
        155 => (!c.force_vanilla_layout && c.backwards_upper_mines, RoomPatch { room: Room::MinesMainplaza01, patch: PatchKind::MainQuarryBarrier }),
        156 => (!c.force_vanilla_layout && c.backwards_lower_mines, RoomPatch { room: Room::MinesConnect00p, patch: PatchKind::BackwardsLowerMinesPca }),
        157 => (!c.force_vanilla_layout && c.backwards_lower_mines, RoomPatch { room: Room::MinesConnect00o, patch: PatchKind::BackwardsLowerMinesEqa }),
        158 => (!c.force_vanilla_layout && c.backwards_lower_mines, RoomPatch { room: Room::Mines11, patch: PatchKind::BackwardsLowerMinesMqb }),
        159 => (!c.force_vanilla_layout && c.backwards_lower_mines, RoomPatch { room: Room::Mines08, patch: PatchKind::BackwardsLowerMinesMqa }),
        _ => (!c.force_vanilla_layout && c.backwards_lower_mines, RoomPatch { room: Room::MinesForcefields05, patch: PatchKind::BackwardsLowerMinesEliteControl }),
    }
}

/// The table of every room patch with its condition.
fn plan_table(c: &PatchPlanInput, v: Version) -> (r: Vec<(bool, RoomPatch)>)
    ensures
        r@ == plan_entries(*c, v),
{
    let mut r: Vec<(bool, RoomPatch)> = Vec::new();
    let mut i: usize = 0;
    while i < PLAN_ENTRY_COUNT
        invariant
            i <= PLAN_ENTRY_COUNT,
            r@.len() == i,
            forall|k: int| 0 <= k < i ==> #[trigger] r@[k] == plan_entry(*c, v, k),
        decreases PLAN_ENTRY_COUNT - i,
    {
        r.push(plan_entry_at(c, v, i));
        i = i + 1;
    }
    assert(r@ =~= plan_entries(*c, v));
    r
}

/// The room patches that apply for a configuration and a version, in the order the patcher
/// applies them.
pub fn plan_room_patches(config: &PatchPlanInput, version: Version) -> (r: Vec<RoomPatch>)
    ensures
        r@ == room_patch_plan(*config, version),
{
    let table = plan_table(config, version);
    let mut r: Vec<RoomPatch> = Vec::new();
    let mut i: usize = 0;
    assert(table@.take(0) =~= Seq::<(bool, RoomPatch)>::empty());
    while i < table.len()
        invariant
            i <= table@.len(),
            r@ == selected(table@.take(i as int)),
        decreases table.len() - i,
    {
        let (apply, p) = table[i];
        proof {
            assert(table@.take(i + 1).drop_last() =~= table@.take(i as int));
            assert(table@.take(i + 1).last() == table@[i as int]);
        }
        if apply {
            r.push(p);
        }
        i = i + 1;
    }
    assert(table@.take(i as int) =~= table@);
    r
}

/// Beating the Essence leads somewhere other than the credits: the layout names a destination
/// for the Essence's death cutscene, and once trimmed and lowercased it is not "credits".
pub fn essence_leads_elsewhere(destination: Option<&str>) -> (r: bool)
    ensures
        r == match destination {
            Some(d) => lowercase(trim_spec(d@)) != "credits"@,
            None => false,
        },
{
    match destination {
        Some(d) => {
            let l = to_lowercase(trim(d));
            !str_equal(l.as_str(), "credits")
        },
        None => false,
    }
}


/// A patch is selected exactly when some entry holds it and its condition.
pub proof fn lemma_selected_contains(entries: Seq<(bool, RoomPatch)>, p: RoomPatch)
    ensures
        selected(entries).contains(p) <==> exists|i: int| 0 <= i < entries.len() && (#[trigger] entries[i]).0 && entries[i].1 == p,
    decreases entries.len(),
{
    if entries.len() > 0 {
        let rest = entries.drop_last();
        let x = entries.last();
        let sr = selected(rest);
        let sel = selected(entries);
        lemma_selected_contains(rest, p);
        if sel.contains(p) {
            let j = choose|j: int| 0 <= j < sel.len() && sel[j] == p;
            if x.0 && j == sr.len() {
                assert(entries[entries.len() - 1] == x);
            } else {
                assert(sr[j] == p);
                let i = choose|i: int| 0 <= i < rest.len() && (#[trigger] rest[i]).0 && rest[i].1 == p;
                assert(entries[i] == rest[i]);
            }
        }
        if exists|i: int| 0 <= i < entries.len() && (#[trigger] entries[i]).0 && entries[i].1 == p {
            let i = choose|i: int| 0 <= i < entries.len() && (#[trigger] entries[i]).0 && entries[i].1 == p;
            if i == entries.len() - 1 {
                assert(sel[sr.len() as int] == p);
            } else {
                assert(rest[i] == entries[i]);
                assert(sr.contains(p));
                let j = choose|j: int| 0 <= j < sr.len() && sr[j] == p;
                assert(sel[j] == p);
            }
        }
    }
}


/// The first place in the list of every room patch that holds `p`, or -1.
pub open spec fn plan_index(p: RoomPatch) -> int {
    if p == (RoomPatch { room: Room::MinesMainplaza01, patch: PatchKind::RemoveCutscenes { ids: 1, use_timers: false } }) {
        0
    } else if p == (RoomPatch { room: Room::Courtyard08, patch: PatchKind::RemoveCutscenes { ids: 2, use_timers: false } }) {
        1
    } else if p == (RoomPatch { room: Room::Over1alavaarea10, patch: PatchKind::RemoveCutscenes { ids: 3, use_timers: false } }) {
        2
    } else if p == (RoomPatch { room: Room::OverXray05, patch: PatchKind::RemoveCutscenes { ids: 4, use_timers: true } }) {
        3
    } else if p == (RoomPatch { room: Room::IceResearchB12, patch: PatchKind::LabAetherCutsceneTrigger }) {
        4
    } else if p == (RoomPatch { room: Room::OverHall00j, patch: PatchKind::RemoveCutscenes { ids: 0, use_timers: true } }) {
        5
    } else if p == (RoomPatch { room: Room::IceCaveA15, patch: PatchKind::RemoveCutscenes { ids: 5, use_timers: false } }) {
        6
    } else if p == (RoomPatch { room: Room::Energycores15, patch: PatchKind::RemoveCutscenes { ids: 6, use_timers: false } }) {
        7
    } else if p == (RoomPatch { room: Room::UnderIntroReactor07, patch: PatchKind::RemoveCutscenes { ids: 0, use_timers: false } }) {
        8
    } else if p == (RoomPatch { room: Room::UnderIntroFreight06, patch: PatchKind::RemoveCutscenes { ids: 7, use_timers: false } }) {
        9
    } else if p == (RoomPatch { room: Room::UnderIntroZoo05, patch: PatchKind::RemoveCutscenes { ids: 8, use_timers: false } }) {
        10
    } else if p == (RoomPatch { room: Room::UnderIntroSpecimenChamber05, patch: PatchKind::RemoveCutscenes { ids: 9, use_timers: false } }) {
        11
    } else if p == (RoomPatch { room: Room::MaproomD04, patch: PatchKind::RemoveCutscenes { ids: 0, use_timers: false } }) {
        12
    } else if p == (RoomPatch { room: Room::ConnectTunnel0v, patch: PatchKind::RemoveCutscenes { ids: 10, use_timers: false } }) {
        13
    } else if p == (RoomPatch { room: Room::Ruinedroof07, patch: PatchKind::RemoveCutscenes { ids: 11, use_timers: true } }) {
        14
    } else if p == (RoomPatch { room: Room::Wateryhall11, patch: PatchKind::RemoveCutscenes { ids: 12, use_timers: false } }) {
        15
    } else if p == (RoomPatch { room: Room::Halfpipe18, patch: PatchKind::RemoveCutscenes { ids: 0, use_timers: false } }) {
        16
    } else if p == (RoomPatch { room: Room::OverBurningeffigy13, patch: PatchKind::RemoveCutscenes { ids: 13, use_timers: false } }) {
        17
    } else if p == (RoomPatch { room: Room::IceTemple06, patch: PatchKind::RemoveCutscenes { ids: 14, use_timers: false } }) {
        18
    } else if p == (RoomPatch { room: Room::IceBoostCanyon04, patch: PatchKind::RemoveCutscenes { ids: 0, use_timers: false } }) {
        19
    } else if p == (RoomPatch { room: Room::IceShorelines05, patch: PatchKind::RemoveCutscenes { ids: 0, use_timers: false } }) {
        20
    } else if p == (RoomPatch { room: Room::IceVault13, patch: PatchKind::RemoveCutscenes { ids: 0, use_timers: false } }) {
        21
    } else if p == (RoomPatch { room: Room::Mines03, patch: PatchKind::RemoveCutscenes { ids: 15, use_timers: true } }) {
        22
    } else if p == (RoomPatch { room: Room::MinesShotemup02, patch: PatchKind::RemoveCutscenes { ids: 16, use_timers: true } }) {
        23
    } else if p == (RoomPatch { room: Room::Mines08, patch: PatchKind::RemoveCutscenes { ids: 17, use_timers: false } }) {
        25
    } else if p == (RoomPatch { room: Room::OverXray05, patch: PatchKind::RemoveCutscenes { ids: 0, use_timers: true } }) {
        35
    } else if p == (RoomPatch { room: Room::Mainplaza01, patch: PatchKind::RemoveCutscenes { ids: 0, use_timers: false } }) {
        36
    } else if p == (RoomPatch { room: Room::MinesMainplaza01, patch: PatchKind::RemoveCutscenes { ids: 18, use_timers: false } }) {
        37
    } else if p == (RoomPatch { room: Room::OverMuddywatersB11, patch: PatchKind::RemoveCutscenes { ids: 0, use_timers: false } }) {
        38
    } else if p == (RoomPatch { room: Room::ChozoBowling17, patch: PatchKind::RemoveCutscenes { ids: 19, use_timers: false } }) {
        44
    } else if p == (RoomPatch { room: Room::MinesConnect00h, patch: PatchKind::RemoveCutscenes { ids: 20, use_timers: true } }) {
        46
    } else if p == (RoomPatch { room: Room::IceObservatory11, patch: PatchKind::RemoveCutscenes { ids: 21, use_timers: false } }) {
        50
    } else if p == (RoomPatch { room: Room::IceRidley08, patch: PatchKind::RemoveCutscenes { ids: 22, use_timers: false } }) {
        51
    } else if p == (RoomPatch { room: Room::MinesElitebustout06, patch: PatchKind::RemoveCutscenes { ids: 0, use_timers: true } }) {
        54
    } else if p == (RoomPatch { room: Room::MinesElectric07, patch: PatchKind::RemoveCutscenes { ids: 23, use_timers: true } }) {
        55
    } else if p == (RoomPatch { room: Room::IcePlaza01, patch: PatchKind::RemoveCutscenes { ids: 24, use_timers: true } }) {
        57
    } else if p == (RoomPatch { room: Room::Endcinema01, patch: PatchKind::RemoveCutscenes { ids: 0, use_timers: true } }) {
        59
    } else if p == (RoomPatch { room: Room::ChozoBowling17, patch: PatchKind::RemoveCutscenes { ids: 25, use_timers: false } }) {
        60
    } else if p == (RoomPatch { room: Room::IcePlaza01, patch: PatchKind::RemoveCutscenes { ids: 26, use_timers: false } }) {
        61
    } else if p == (RoomPatch { room: Room::Stonehenge07, patch: PatchKind::RemoveCutscenes { ids: 27, use_timers: true } }) {
        62
    } else if p == (RoomPatch { room: Room::Mines03, patch: PatchKind::RemoveCutscenes { ids: 28, use_timers: true } }) {
        63
    } else if p == (RoomPatch { room: Room::HiveTotem19, patch: PatchKind::RemoveCutscenes { ids: 0, use_timers: false } }) {
        64
    } else if p == (RoomPatch { room: Room::MorphballShrine1a, patch: PatchKind::RemoveCutscenes { ids: 0, use_timers: true } }) {
        65
    } else if p == (RoomPatch { room: Room::MonkeyLower03, patch: PatchKind::RemoveCutscenes { ids: 29, use_timers: true } }) {
        66
    } else if p == (RoomPatch { room: Room::Flaahgra22, patch: PatchKind::RemoveCutscenes { ids: 30, use_timers: false } }) {
        67
    } else if p == (RoomPatch { room: Room::IceLobby09, patch: PatchKind::RemoveCutscenes { ids: 31, use_timers: false } }) {
        68
    } else if p == (RoomPatch { room: Room::IceThardus19, patch: PatchKind::RemoveCutscenes { ids: 0, use_timers: true } }) {
        69
    } else if p == (RoomPatch { room: Room::MinesForcefields05, patch: PatchKind::RemoveCutscenes { ids: 0, use_timers: true } }) {
        70
    } else if p == (RoomPatch { room: Room::Mines08, patch: PatchKind::RemoveCutscenes { ids: 32, use_timers: false } }) {
        71
    } else if p == (RoomPatch { room: Room::MinesEliteboss12, patch: PatchKind::RemoveCutscenes { ids: 33, use_timers: true } }) {
        72
    } else if p == (RoomPatch { room: Room::Crater03a, patch: PatchKind::RemoveCutscenes { ids: 34, use_timers: false } }) {
        73
    } else if p == (RoomPatch { room: Room::Crater03b, patch: PatchKind::RemoveCutscenes { ids: 0, use_timers: false } }) {
        74
    } else if p == (RoomPatch { room: Room::Crater03c, patch: PatchKind::RemoveCutscenes { ids: 0, use_timers: false } }) {
        75
    } else if p == (RoomPatch { room: Room::Crater03d, patch: PatchKind::RemoveCutscenes { ids: 0, use_timers: false } }) {
        76
    } else if p == (RoomPatch { room: Room::Crater03e, patch: PatchKind::RemoveCutscenes { ids: 0, use_timers: true } }) {
        77
    } else if p == (RoomPatch { room: Room::Crater03f, patch: PatchKind::RemoveCutscenes { ids: 35, use_timers: true } }) {
        78
    } else if p == (RoomPatch { room: Room::IceChapel07, patch: PatchKind::RemoveCutscenes { ids: 36, use_timers: true } }) {
        79
    } else if p == (RoomPatch { room: Room::Stonehenge07, patch: PatchKind::TournamentWinners }) {
        80
    } else if p == (RoomPatch { room: Room::Stonehenge07, patch: PatchKind::FixArtifactOfTruthRequirements }) {
        81
    } else if p == (RoomPatch { room: Room::Stonehenge07, patch: PatchKind::ArtifactHintAvailability }) {
        82
    } else if p == (RoomPatch { room: Room::IceShorelines05, patch: PatchKind::ThermalConduitsDamageVulnerabilities }) {
        83
    } else if p == (RoomPatch { room: Room::IceVault13, patch: PatchKind::ThermalConduitsDamageVulnerabilities }) {
        84
    } else if p == (RoomPatch { room: Room::UnderIntroVentshaft08b, patch: PatchKind::ThermalConduitsDamageVulnerabilities }) {
        85
    } else if p == (RoomPatch { room: Room::UnderIntroReactor07, patch: PatchKind::ThermalConduitsDamageVulnerabilities }) {
        86
    } else if p == (RoomPatch { room: Room::UnderIntroToReactor06, patch: PatchKind::ThermalConduitsDamageVulnerabilities }) {
        87
    } else if p == (RoomPatch { room: Room::UnderIntroFreight06, patch: PatchKind::ThermalConduitsDamageVulnerabilities }) {
        88
    } else if p == (RoomPatch { room: Room::UnderIntroZoo05, patch: PatchKind::ThermalConduitsDamageVulnerabilities }) {
        89
    } else if p == (RoomPatch { room: Room::UnderIntroSpecimenChamber05, patch: PatchKind::ThermalConduitsDamageVulnerabilities }) {
        90
    } else if p == (RoomPatch { room: Room::MinesMainplaza01, patch: PatchKind::ThermalConduitsDamageVulnerabilities }) {
        91
    } else if p == (RoomPatch { room: Room::Over1alavaarea10, patch: PatchKind::ThermalConduitsDamageVulnerabilities }) {
        92
    } else if p == (RoomPatch { room: Room::MinesShotemup02, patch: PatchKind::RemoveDoorLocks }) {
        93
    } else if p == (RoomPatch { room: Room::HiveTotem19, patch: PatchKind::HiveMechaFirstPassLayer }) {
        94
    } else if p == (RoomPatch { room: Room::HiveTotem19, patch: PatchKind::HiveMechaAutoStartRelay }) {
        95
    } else if p == (RoomPatch { room: Room::Courtyard08, patch: PatchKind::ArboretumSandstone }) {
        96
    } else if p == (RoomPatch { room: Room::IntroElevator02, patch: PatchKind::DisableItemLoss }) {
        97
    } else if p == (RoomPatch { room: Room::IntroHangerConnect01, patch: PatchKind::PostPqFrigate }) {
        98
    } else if p == (RoomPatch { room: Room::IntroMechshaft00h, patch: PatchKind::PostPqFrigate }) {
        99
    } else if p == (RoomPatch { room: Room::IntroSpecimenChamber04, patch: PatchKind::PostPqFrigate }) {
        100
    } else if p == (RoomPatch { room: Room::IntroFreightLifts06, patch: PatchKind::PostPqFrigate }) {
        101
    } else if p == (RoomPatch { room: Room::IntroToReactor06, patch: PatchKind::PostPqFrigate }) {
        102
    } else if p == (RoomPatch { room: Room::IntroElevator02, patch: PatchKind::PostPqFrigate }) {
        103
    } else if p == (RoomPatch { room: Room::IntroSpecimenChamber04, patch: PatchKind::CirclePlatform(Vec3Bits { x: 0x422c0000, y: 0xc3420000, z: 0xc2300000 }) }) {
        104
    } else if p == (RoomPatch { room: Room::IntroSpecimenChamber04, patch: PatchKind::CirclePlatform(Vec3Bits { x: 0x421c0000, y: 0xc33a0000, z: 0xc2240000 }) }) {
        105
    } else if p == (RoomPatch { room: Room::IntroSpecimenChamber04, patch: PatchKind::CirclePlatform(Vec3Bits { x: 0x42100000, y: 0xc3350000, z: 0xc21c0000 }) }) {
        106
    } else if p == (RoomPatch { room: Room::IntroSpecimenChamber04, patch: PatchKind::CirclePlatform(Vec3Bits { x: 0x42100000, y: 0xc3400000, z: 0xc21c0000 }) }) {
        107
    } else if p == (RoomPatch { room: Room::OverMainplaza01, patch: PatchKind::LandingSiteCutsceneTriggers }) {
        108
    } else if p == (RoomPatch { room: Room::Crater03f, patch: PatchKind::EssenceCinematicSkipWhitescreen }) {
        109
    } else if p == (RoomPatch { room: Room::Crater03f, patch: PatchKind::EssenceCinematicSkipNomusic }) {
        110
    } else if p == (RoomPatch { room: Room::MinesConnect00j, patch: PatchKind::FixCentralDynamoCrash }) {
        111
    } else if p == (RoomPatch { room: Room::MinesConnect00p, patch: PatchKind::FixPcaCrash }) {
        112
    } else if p == (RoomPatch { room: Room::Morphballtunnel1a, patch: PatchKind::SpawnPointPosition { position: Vec3Bits { x: 0x42f90f5c, y: 0xc29f8f5c, z: 0x41b6b852 }, relative: false, force_default: false } }) {
        113
    } else if p == (RoomPatch { room: Room::Bathhall05, patch: PatchKind::SpawnPointPosition { position: Vec3Bits { x: 0x43528312, y: 0xc2a4d917, z: 0x4199bd3c }, relative: false, force_default: false } }) {
        114
    } else if p == (RoomPatch { room: Room::MinesSavestationB00, patch: PatchKind::SpawnPointPosition { position: Vec3Bits { x: 0x4358b979, y: 0x408cf27c, z: 0xc30be326 }, relative: false, force_default: true } }) {
        115
    } else if p == (RoomPatch { room: Room::IntroVentshaft08b, patch: PatchKind::RemoveTwoIds(0x0013001A, 0x0013001C) }) {
        117
    } else if p == (RoomPatch { room: Room::OverMainplaza01, patch: PatchKind::SpawnPointPosition { position: Vec3Bits { x: 0, y: 0, z: 0x3f000000 }, relative: true, force_default: false } }) {
        118
    } else if p == (RoomPatch { room: Room::ElevLavaB0, patch: PatchKind::SpawnPointPosition { position: Vec3Bits { x: 0, y: 0, z: 0x3f333333 }, relative: true, force_default: false } }) {
        119
    } else if p == (RoomPatch { room: Room::MinesEliteboss12, patch: PatchKind::CutsceneForcePhazonSuit }) {
        120
    } else if p == (RoomPatch { room: Room::IceConnect00n, patch: PatchKind::ResearchCoreAccessSoftLock }) {
        121
    } else if p == (RoomPatch { room: Room::Courtyard08, patch: PatchKind::ArboretumInvisibleWall }) {
        122
    } else if p == (RoomPatch { room: Room::IceShorelines05, patch: PatchKind::RuinedCourtyardThermalConduits }) {
        123
    } else if p == (RoomPatch { room: Room::MinesMainplaza01, patch: PatchKind::MainQuarryDoorLock0_02 }) {
        124
    } else if p == (RoomPatch { room: Room::OverBurningeffigy13, patch: PatchKind::GeothermalCoreDoorLock0_02 }) {
        125
    } else if p == (RoomPatch { room: Room::HiveTotem19, patch: PatchKind::HiveTotemBossTrigger0_02 }) {
        126
    } else if p == (RoomPatch { room: Room::MinesPillar04, patch: PatchKind::OreProcessingDoorLock0_02 }) {
        127
    } else if p == (RoomPatch { room: Room::MinesPillar04, patch: PatchKind::OreProcessingDestructibleRockPal }) {
        128
    } else if p == (RoomPatch { room: Room::OverBurningeffigy13, patch: PatchKind::GeothermalCoreDestructibleRockPal }) {
        129
    } else if p == (RoomPatch { room: Room::MinesMainplaza01, patch: PatchKind::MainQuarryDoorLockPal }) {
        130
    } else if p == (RoomPatch { room: Room::Flaahgra22, patch: PatchKind::SunchamberPreventWildBeforeFlaahgra }) {
        131
    } else if p == (RoomPatch { room: Room::ConnectTunnel0v, patch: PatchKind::SunTowerPreventWildBeforeFlaahgra }) {
        132
    } else if p == (RoomPatch { room: Room::IceVault13, patch: PatchKind::ResearchLabAetherExplodingWall }) {
        133
    } else if p == (RoomPatch { room: Room::IceResearchB12, patch: PatchKind::ResearchLabAetherExplodingWall2 }) {
        134
    } else if p == (RoomPatch { room: Room::IceObservatory11, patch: PatchKind::Observatory2ndPassSolvability }) {
        135
    } else if p == (RoomPatch { room: Room::IceObservatory11, patch: PatchKind::Observatory1stPassSoftlock }) {
        136
    } else if p == (RoomPatch { room: Room::MinesShotemup02, patch: PatchKind::MinesSecurityStationSoftLock }) {
        137
    } else if p == (RoomPatch { room: Room::IceGravityChamber18, patch: PatchKind::GravityChamberStalactiteGrapplePoint }) {
        138
    } else if p == (RoomPatch { room: Room::HiveTotem19, patch: PatchKind::HiveTotemSoftlock }) {
        139
    } else if p == (RoomPatch { room: Room::Crater03a, patch: PatchKind::FinalBossPermadeath }) {
        140
    } else if p == (RoomPatch { room: Room::Crater03b, patch: PatchKind::FinalBossPermadeath }) {
        141
    } else if p == (RoomPatch { room: Room::Crater03c, patch: PatchKind::FinalBossPermadeath }) {
        142
    } else if p == (RoomPatch { room: Room::Crater03d, patch: PatchKind::FinalBossPermadeath }) {
        143
    } else if p == (RoomPatch { room: Room::Crater03e, patch: PatchKind::FinalBossPermadeath }) {
        144
    } else if p == (RoomPatch { room: Room::Crater03f, patch: PatchKind::FinalBossPermadeath }) {
        145
    } else if p == (RoomPatch { room: Room::FCrater03e, patch: PatchKind::SubchamberFiveNintendontFix }) {
        146
    } else if p == (RoomPatch { room: Room::FCrater03e, patch: PatchKind::RemoveCutscenes { ids: 0, use_timers: true } }) {
        147
    } else if p == (RoomPatch { room: Room::Crater03f, patch: PatchKind::DockTeleport { source_position: Vec3Bits { x: 0x422bd208, y: 0xc38f9619, z: 0xc38b0acc }, source_scale: Vec3Bits { x: 0x42960000, y: 0x42960000, z: 0x42480000 }, destination_dock: 0, spawn_position: Some(Vec3Bits { x: 0x42262560, y: 0xc38fedd6, z: 0xc38e4d1f }) } }) {
        148
    } else if p == (RoomPatch { room: Room::MinesConnect00i, patch: PatchKind::SpawnPointPosition { position: Vec3Bits { x: 0, y: 0, z: 0 }, relative: true, force_default: false } }) {
        149
    } else if p == (RoomPatch { room: Room::Mainplaza01, patch: PatchKind::MainPlazaLockedDoorTwoWays }) {
        150
    } else if p == (RoomPatch { room: Room::Mines03, patch: PatchKind::EliteResearchFightLayers }) {
        151
    } else if p == (RoomPatch { room: Room::MinesElectric07, patch: PatchKind::EliteResearchFightCentralDynamo }) {
        152
    } else if p == (RoomPatch { room: Room::UnderIntroVentshaft08b, patch: PatchKind::MainVentilationShaftSectionBDoor }) {
        153
    } else if p == (RoomPatch { room: Room::IceResearchA10, patch: PatchKind::ResearchLabHydraBarrier }) {
        154
    } else if p == (RoomPatch { room: Room::MinesMainplaza01, patch: PatchKind::MainQuarryBarrier }) {
        155
    } else if p == (RoomPatch { room: Room::MinesConnect00p, patch: PatchKind::BackwardsLowerMinesPca }) {
        156
    } else if p == (RoomPatch { room: Room::MinesConnect00o, patch: PatchKind::BackwardsLowerMinesEqa }) {
        157
    } else if p == (RoomPatch { room: Room::Mines11, patch: PatchKind::BackwardsLowerMinesMqb }) {
        158
    } else if p == (RoomPatch { room: Room::Mines08, patch: PatchKind::BackwardsLowerMinesMqa }) {
        159
    } else if p == (RoomPatch { room: Room::MinesForcefields05, patch: PatchKind::BackwardsLowerMinesEliteControl }) {
        160
    } else {
        -1
    }
}

/// Each place of the list is the first that holds its patch, but for the patches listed twice.
#[verifier::rlimit(100)]
proof fn lemma_plan_index(c: PatchPlanInput, v: Version)
    ensures
        forall|i: int| 0 <= i < PLAN_ENTRY_COUNT ==> plan_index(#[trigger] plan_entry(c, v, i).1) == i || (i == 24 && plan_index(plan_entry(c, v, i).1) == 1) || (i == 26 && plan_index(plan_entry(c, v, i).1) == 4) || (i == 27 && plan_index(plan_entry(c, v, i).1) == 5) || (i == 28 && plan_index(plan_entry(c, v, i).1) == 6) || (i == 29 && plan_index(plan_entry(c, v, i).1) == 7) || (i == 30 && plan_index(plan_entry(c, v, i).1) == 2) || (i == 31 && plan_index(plan_entry(c, v, i).1) == 8) || (i == 32 && plan_index(plan_entry(c, v, i).1) == 9) || (i == 33 && plan_index(plan_entry(c, v, i).1) == 10) || (i == 34 && plan_index(plan_entry(c, v, i).1) == 11) || (i == 39 && plan_index(plan_entry(c, v, i).1) == 12) || (i == 40 && plan_index(plan_entry(c, v, i).1) == 13) || (i == 41 && plan_index(plan_entry(c, v, i).1) == 14) || (i == 42 && plan_index(plan_entry(c, v, i).1) == 15) || (i == 43 && plan_index(plan_entry(c, v, i).1) == 16) || (i == 45 && plan_index(plan_entry(c, v, i).1) == 17) || (i == 47 && plan_index(plan_entry(c, v, i).1) == 18) || (i == 48 && plan_index(plan_entry(c, v, i).1) == 19) || (i == 49 && plan_index(plan_entry(c, v, i).1) == 20) || (i == 52 && plan_index(plan_entry(c, v, i).1) == 21) || (i == 53 && plan_index(plan_entry(c, v, i).1) == 22) || (i == 56 && plan_index(plan_entry(c, v, i).1) == 23) || (i == 58 && plan_index(plan_entry(c, v, i).1) == 1) || (i == 116 && plan_index(plan_entry(c, v, i).1) == 115),
{
}

/// Whether the patch `p` applies under configuration `c` and version `v`.
pub open spec fn applies(c: PatchPlanInput, v: Version, p: RoomPatch) -> bool {
    room_patch_plan(c, v).contains(p)
}

/// A patch applies exactly when an entry of the table that holds it is selected.
proof fn lemma_applies(c: PatchPlanInput, v: Version, p: RoomPatch)
    ensures
        applies(c, v, p) <==> exists|i: int| 0 <= i < PLAN_ENTRY_COUNT && (#[trigger] plan_entry(c, v, i)).0 && plan_entry(c, v, i).1 == p,
{
    let e = plan_entries(c, v);
    lemma_selected_contains(e, p);
    if applies(c, v, p) {
        let i = choose|i: int| 0 <= i < e.len() && (#[trigger] e[i]).0 && e[i].1 == p;
        assert(plan_entry(c, v, i) == e[i]);
    }
    if exists|i: int| 0 <= i < PLAN_ENTRY_COUNT && (#[trigger] plan_entry(c, v, i)).0 && plan_entry(c, v, i).1 == p {
        let i = choose|i: int| 0 <= i < PLAN_ENTRY_COUNT && (#[trigger] plan_entry(c, v, i)).0 && plan_entry(c, v, i).1 == p;
        assert(e[i] == plan_entry(c, v, i));
    }
}

/// The room patches that apply in competitive cutscene mode: each applies exactly then, whatever the other
/// choices.
#[verifier::rlimit(100)]
pub proof fn lemma_plan_competitive_cutscenes(c: PatchPlanInput, v: Version)
    ensures
        applies(c, v, RoomPatch { room: Room::MinesMainplaza01, patch: PatchKind::RemoveCutscenes { ids: 1, use_timers: false } }) <==> (c.qol_cutscenes == CutsceneMode::Competitive),
        applies(c, v, RoomPatch { room: Room::OverXray05, patch: PatchKind::RemoveCutscenes { ids: 4, use_timers: true } }) <==> (c.qol_cutscenes == CutsceneMode::Competitive),
{
    lemma_plan_index(c, v);
    lemma_applies(c, v, RoomPatch { room: Room::MinesMainplaza01, patch: PatchKind::RemoveCutscenes { ids: 1, use_timers: false } });
    assert(plan_entry(c, v, 0).1 == RoomPatch { room: Room::MinesMainplaza01, patch: PatchKind::RemoveCutscenes { ids: 1, use_timers: false } });
    assert(plan_index(RoomPatch { room: Room::MinesMainplaza01, patch: PatchKind::RemoveCutscenes { ids: 1, use_timers: false } }) == 0);
    lemma_applies(c, v, RoomPatch { room: Room::OverXray05, patch: PatchKind::RemoveCutscenes { ids: 4, use_timers: true } });
    assert(plan_entry(c, v, 3).1 == RoomPatch { room: Room::OverXray05, patch: PatchKind::RemoveCutscenes { ids: 4, use_timers: true } });
    assert(plan_index(RoomPatch { room: Room::OverXray05, patch: PatchKind::RemoveCutscenes { ids: 4, use_timers: true } }) == 3);
}

/// The room patches that apply whenever cutscenes are skipped at all: each applies exactly then, whatever the other
/// choices.
#[verifier::rlimit(100)]
pub proof fn lemma_plan_cutscenes_skipped_in_every_mode(c: PatchPlanInput, v: Version)
    ensures
        applies(c, v, RoomPatch { room: Room::Courtyard08, patch: PatchKind::RemoveCutscenes { ids: 2, use_timers: false } }) <==> (c.qol_cutscenes != CutsceneMode::Original),
        applies(c, v, RoomPatch { room: Room::Over1alavaarea10, patch: PatchKind::RemoveCutscenes { ids: 3, use_timers: false } }) <==> (c.qol_cutscenes != CutsceneMode::Original),
        applies(c, v, RoomPatch { room: Room::IceResearchB12, patch: PatchKind::LabAetherCutsceneTrigger }) <==> (c.qol_cutscenes != CutsceneMode::Original),
        applies(c, v, RoomPatch { room: Room::OverHall00j, patch: PatchKind::RemoveCutscenes { ids: 0, use_timers: true } }) <==> (c.qol_cutscenes != CutsceneMode::Original),
        applies(c, v, RoomPatch { room: Room::IceCaveA15, patch: PatchKind::RemoveCutscenes { ids: 5, use_timers: false } }) <==> (c.qol_cutscenes != CutsceneMode::Original),
        applies(c, v, RoomPatch { room: Room::Energycores15, patch: PatchKind::RemoveCutscenes { ids: 6, use_timers: false } }) <==> (c.qol_cutscenes != CutsceneMode::Original),
        applies(c, v, RoomPatch { room: Room::UnderIntroReactor07, patch: PatchKind::RemoveCutscenes { ids: 0, use_timers: false } }) <==> (c.qol_cutscenes != CutsceneMode::Original),
        applies(c, v, RoomPatch { room: Room::UnderIntroFreight06, patch: PatchKind::RemoveCutscenes { ids: 7, use_timers: false } }) <==> (c.qol_cutscenes != CutsceneMode::Original),
        applies(c, v, RoomPatch { room: Room::UnderIntroZoo05, patch: PatchKind::RemoveCutscenes { ids: 8, use_timers: false } }) <==> (c.qol_cutscenes != CutsceneMode::Original),
        applies(c, v, RoomPatch { room: Room::UnderIntroSpecimenChamber05, patch: PatchKind::RemoveCutscenes { ids: 9, use_timers: false } }) <==> (c.qol_cutscenes != CutsceneMode::Original),
        applies(c, v, RoomPatch { room: Room::MaproomD04, patch: PatchKind::RemoveCutscenes { ids: 0, use_timers: false } }) <==> (c.qol_cutscenes != CutsceneMode::Original),
        applies(c, v, RoomPatch { room: Room::ConnectTunnel0v, patch: PatchKind::RemoveCutscenes { ids: 10, use_timers: false } }) <==> (c.qol_cutscenes != CutsceneMode::Original),
        applies(c, v, RoomPatch { room: Room::Ruinedroof07, patch: PatchKind::RemoveCutscenes { ids: 11, use_timers: true } }) <==> (c.qol_cutscenes != CutsceneMode::Original),
        applies(c, v, RoomPatch { room: Room::Wateryhall11, patch: PatchKind::RemoveCutscenes { ids: 12, use_timers: false } }) <==> (c.qol_cutscenes != CutsceneMode::Original),
        applies(c, v, RoomPatch { room: Room::Halfpipe18, patch: PatchKind::RemoveCutscenes { ids: 0, use_timers: false } }) <==> (c.qol_cutscenes != CutsceneMode::Original),
        applies(c, v, RoomPatch { room: Room::OverBurningeffigy13, patch: PatchKind::RemoveCutscenes { ids: 13, use_timers: false } }) <==> (c.qol_cutscenes != CutsceneMode::Original),
        applies(c, v, RoomPatch { room: Room::IceTemple06, patch: PatchKind::RemoveCutscenes { ids: 14, use_timers: false } }) <==> (c.qol_cutscenes != CutsceneMode::Original),
        applies(c, v, RoomPatch { room: Room::IceBoostCanyon04, patch: PatchKind::RemoveCutscenes { ids: 0, use_timers: false } }) <==> (c.qol_cutscenes != CutsceneMode::Original),
        applies(c, v, RoomPatch { room: Room::IceShorelines05, patch: PatchKind::RemoveCutscenes { ids: 0, use_timers: false } }) <==> (c.qol_cutscenes != CutsceneMode::Original),
        applies(c, v, RoomPatch { room: Room::IceVault13, patch: PatchKind::RemoveCutscenes { ids: 0, use_timers: false } }) <==> (c.qol_cutscenes != CutsceneMode::Original),
        applies(c, v, RoomPatch { room: Room::Mines03, patch: PatchKind::RemoveCutscenes { ids: 15, use_timers: true } }) <==> (c.qol_cutscenes != CutsceneMode::Original),
        applies(c, v, RoomPatch { room: Room::MinesShotemup02, patch: PatchKind::RemoveCutscenes { ids: 16, use_timers: true } }) <==> (c.qol_cutscenes != CutsceneMode::Original),
{
    lemma_plan_index(c, v);
    lemma_applies(c, v, RoomPatch { room: Room::Courtyard08, patch: PatchKind::RemoveCutscenes { ids: 2, use_timers: false } });
    assert(plan_entry(c, v, 1).1 == RoomPatch { room: Room::Courtyard08, patch: PatchKind::RemoveCutscenes { ids: 2, use_timers: false } });
    assert(plan_entry(c, v, 24).1 == RoomPatch { room: Room::Courtyard08, patch: PatchKind::RemoveCutscenes { ids: 2, use_timers: false } });
    assert(plan_entry(c, v, 58).1 == RoomPatch { room: Room::Courtyard08, patch: PatchKind::RemoveCutscenes { ids: 2, use_timers: false } });
    assert(plan_index(RoomPatch { room: Room::Courtyard08, patch: PatchKind::RemoveCutscenes { ids: 2, use_timers: false } }) == 1);
    lemma_applies(c, v, RoomPatch { room: Room::Over1alavaarea10, patch: PatchKind::RemoveCutscenes { ids: 3, use_timers: false } });
    assert(plan_entry(c, v, 2).1 == RoomPatch { room: Room::Over1alavaarea10, patch: PatchKind::RemoveCutscenes { ids: 3, use_timers: false } });
    assert(plan_entry(c, v, 30).1 == RoomPatch { room: Room::Over1alavaarea10, patch: PatchKind::RemoveCutscenes { ids: 3, use_timers: false } });
    assert(plan_index(RoomPatch { room: Room::Over1alavaarea10, patch: PatchKind::RemoveCutscenes { ids: 3, use_timers: false } }) == 2);
    lemma_applies(c, v, RoomPatch { room: Room::IceResearchB12, patch: PatchKind::LabAetherCutsceneTrigger });
    assert(plan_entry(c, v, 4).1 == RoomPatch { room: Room::IceResearchB12, patch: PatchKind::LabAetherCutsceneTrigger });
    assert(plan_entry(c, v, 26).1 == RoomPatch { room: Room::IceResearchB12, patch: PatchKind::LabAetherCutsceneTrigger });
    assert(plan_index(RoomPatch { room: Room::IceResearchB12, patch: PatchKind::LabAetherCutsceneTrigger }) == 4);
    lemma_applies(c, v, RoomPatch { room: Room::OverHall00j, patch: PatchKind::RemoveCutscenes { ids: 0, use_timers: true } });
    assert(plan_entry(c, v, 5).1 == RoomPatch { room: Room::OverHall00j, patch: PatchKind::RemoveCutscenes { ids: 0, use_timers: true } });
    assert(plan_entry(c, v, 27).1 == RoomPatch { room: Room::OverHall00j, patch: PatchKind::RemoveCutscenes { ids: 0, use_timers: true } });
    assert(plan_index(RoomPatch { room: Room::OverHall00j, patch: PatchKind::RemoveCutscenes { ids: 0, use_timers: true } }) == 5);
    lemma_applies(c, v, RoomPatch { room: Room::IceCaveA15, patch: PatchKind::RemoveCutscenes { ids: 5, use_timers: false } });
    assert(plan_entry(c, v, 6).1 == RoomPatch { room: Room::IceCaveA15, patch: PatchKind::RemoveCutscenes { ids: 5, use_timers: false } });
    assert(plan_entry(c, v, 28).1 == RoomPatch { room: Room::IceCaveA15, patch: PatchKind::RemoveCutscenes { ids: 5, use_timers: false } });
    assert(plan_index(RoomPatch { room: Room::IceCaveA15, patch: PatchKind::RemoveCutscenes { ids: 5, use_timers: false } }) == 6);
    lemma_applies(c, v, RoomPatch { room: Room::Energycores15, patch: PatchKind::RemoveCutscenes { ids: 6, use_timers: false } });
    assert(plan_entry(c, v, 7).1 == RoomPatch { room: Room::Energycores15, patch: PatchKind::RemoveCutscenes { ids: 6, use_timers: false } });
    assert(plan_entry(c, v, 29).1 == RoomPatch { room: Room::Energycores15, patch: PatchKind::RemoveCutscenes { ids: 6, use_timers: false } });
    assert(plan_index(RoomPatch { room: Room::Energycores15, patch: PatchKind::RemoveCutscenes { ids: 6, use_timers: false } }) == 7);
    lemma_applies(c, v, RoomPatch { room: Room::UnderIntroReactor07, patch: PatchKind::RemoveCutscenes { ids: 0, use_timers: false } });
    assert(plan_entry(c, v, 8).1 == RoomPatch { room: Room::UnderIntroReactor07, patch: PatchKind::RemoveCutscenes { ids: 0, use_timers: false } });
    assert(plan_entry(c, v, 31).1 == RoomPatch { room: Room::UnderIntroReactor07, patch: PatchKind::RemoveCutscenes { ids: 0, use_timers: false } });
    assert(plan_index(RoomPatch { room: Room::UnderIntroReactor07, patch: PatchKind::RemoveCutscenes { ids: 0, use_timers: false } }) == 8);
    lemma_applies(c, v, RoomPatch { room: Room::UnderIntroFreight06, patch: PatchKind::RemoveCutscenes { ids: 7, use_timers: false } });
    assert(plan_entry(c, v, 9).1 == RoomPatch { room: Room::UnderIntroFreight06, patch: PatchKind::RemoveCutscenes { ids: 7, use_timers: false } });
    assert(plan_entry(c, v, 32).1 == RoomPatch { room: Room::UnderIntroFreight06, patch: PatchKind::RemoveCutscenes { ids: 7, use_timers: false } });
    assert(plan_index(RoomPatch { room: Room::UnderIntroFreight06, patch: PatchKind::RemoveCutscenes { ids: 7, use_timers: false } }) == 9);
    lemma_applies(c, v, RoomPatch { room: Room::UnderIntroZoo05, patch: PatchKind::RemoveCutscenes { ids: 8, use_timers: false } });
    assert(plan_entry(c, v, 10).1 == RoomPatch { room: Room::UnderIntroZoo05, patch: PatchKind::RemoveCutscenes { ids: 8, use_timers: false } });
    assert(plan_entry(c, v, 33).1 == RoomPatch { room: Room::UnderIntroZoo05, patch: PatchKind::RemoveCutscenes { ids: 8, use_timers: false } });
    assert(plan_index(RoomPatch { room: Room::UnderIntroZoo05, patch: PatchKind::RemoveCutscenes { ids: 8, use_timers: false } }) == 10);
    lemma_applies(c, v, RoomPatch { room: Room::UnderIntroSpecimenChamber05, patch: PatchKind::RemoveCutscenes { ids: 9, use_timers: false } });
    assert(plan_entry(c, v, 11).1 == RoomPatch { room: Room::UnderIntroSpecimenChamber05, patch: PatchKind::RemoveCutscenes { ids: 9, use_timers: false } });
    assert(plan_entry(c, v, 34).1 == RoomPatch { room: Room::UnderIntroSpecimenChamber05, patch: PatchKind::RemoveCutscenes { ids: 9, use_timers: false } });
    assert(plan_index(RoomPatch { room: Room::UnderIntroSpecimenChamber05, patch: PatchKind::RemoveCutscenes { ids: 9, use_timers: false } }) == 11);
    lemma_applies(c, v, RoomPatch { room: Room::MaproomD04, patch: PatchKind::RemoveCutscenes { ids: 0, use_timers: false } });
    assert(plan_entry(c, v, 12).1 == RoomPatch { room: Room::MaproomD04, patch: PatchKind::RemoveCutscenes { ids: 0, use_timers: false } });
    assert(plan_entry(c, v, 39).1 == RoomPatch { room: Room::MaproomD04, patch: PatchKind::RemoveCutscenes { ids: 0, use_timers: false } });
    assert(plan_index(RoomPatch { room: Room::MaproomD04, patch: PatchKind::RemoveCutscenes { ids: 0, use_timers: false } }) == 12);
    lemma_applies(c, v, RoomPatch { room: Room::ConnectTunnel0v, patch: PatchKind::RemoveCutscenes { ids: 10, use_timers: false } });
    assert(plan_entry(c, v, 13).1 == RoomPatch { room: Room::ConnectTunnel0v, patch: PatchKind::RemoveCutscenes { ids: 10, use_timers: false } });
    assert(plan_entry(c, v, 40).1 == RoomPatch { room: Room::ConnectTunnel0v, patch: PatchKind::RemoveCutscenes { ids: 10, use_timers: false } });
    assert(plan_index(RoomPatch { room: Room::ConnectTunnel0v, patch: PatchKind::RemoveCutscenes { ids: 10, use_timers: false } }) == 13);
    lemma_applies(c, v, RoomPatch { room: Room::Ruinedroof07, patch: PatchKind::RemoveCutscenes { ids: 11, use_timers: true } });
    assert(plan_entry(c, v, 14).1 == RoomPatch { room: Room::Ruinedroof07, patch: PatchKind::RemoveCutscenes { ids: 11, use_timers: true } });
    assert(plan_entry(c, v, 41).1 == RoomPatch { room: Room::Ruinedroof07, patch: PatchKind::RemoveCutscenes { ids: 11, use_timers: true } });
    assert(plan_index(RoomPatch { room: Room::Ruinedroof07, patch: PatchKind::RemoveCutscenes { ids: 11, use_timers: true } }) == 14);
    lemma_applies(c, v, RoomPatch { room: Room::Wateryhall11, patch: PatchKind::RemoveCutscenes { ids: 12, use_timers: false } });
    assert(plan_entry(c, v, 15).1 == RoomPatch { room: Room::Wateryhall11, patch: PatchKind::RemoveCutscenes { ids: 12, use_timers: false } });
    assert(plan_entry(c, v, 42).1 == RoomPatch { room: Room::Wateryhall11, patch: PatchKind::RemoveCutscenes { ids: 12, use_timers: false } });
    assert(plan_index(RoomPatch { room: Room::Wateryhall11, patch: PatchKind::RemoveCutscenes { ids: 12, use_timers: false } }) == 15);
    lemma_applies(c, v, RoomPatch { room: Room::Halfpipe18, patch: PatchKind::RemoveCutscenes { ids: 0, use_timers: false } });
    assert(plan_entry(c, v, 16).1 == RoomPatch { room: Room::Halfpipe18, patch: PatchKind::RemoveCutscenes { ids: 0, use_timers: false } });
    assert(plan_entry(c, v, 43).1 == RoomPatch { room: Room::Halfpipe18, patch: PatchKind::RemoveCutscenes { ids: 0, use_timers: false } });
    assert(plan_index(RoomPatch { room: Room::Halfpipe18, patch: PatchKind::RemoveCutscenes { ids: 0, use_timers: false } }) == 16);
    lemma_applies(c, v, RoomPatch { room: Room::OverBurningeffigy13, patch: PatchKind::RemoveCutscenes { ids: 13, use_timers: false } });
    assert(plan_entry(c, v, 17).1 == RoomPatch { room: Room::OverBurningeffigy13, patch: PatchKind::RemoveCutscenes { ids: 13, use_timers: false } });
    assert(plan_entry(c, v, 45).1 == RoomPatch { room: Room::OverBurningeffigy13, patch: PatchKind::RemoveCutscenes { ids: 13, use_timers: false } });
    assert(plan_index(RoomPatch { room: Room::OverBurningeffigy13, patch: PatchKind::RemoveCutscenes { ids: 13, use_timers: false } }) == 17);
    lemma_applies(c, v, RoomPatch { room: Room::IceTemple06, patch: PatchKind::RemoveCutscenes { ids: 14, use_timers: false } });
    assert(plan_entry(c, v, 18).1 == RoomPatch { room: Room::IceTemple06, patch: PatchKind::RemoveCutscenes { ids: 14, use_timers: false } });
    assert(plan_entry(c, v, 47).1 == RoomPatch { room: Room::IceTemple06, patch: PatchKind::RemoveCutscenes { ids: 14, use_timers: false } });
    assert(plan_index(RoomPatch { room: Room::IceTemple06, patch: PatchKind::RemoveCutscenes { ids: 14, use_timers: false } }) == 18);
    lemma_applies(c, v, RoomPatch { room: Room::IceBoostCanyon04, patch: PatchKind::RemoveCutscenes { ids: 0, use_timers: false } });
    assert(plan_entry(c, v, 19).1 == RoomPatch { room: Room::IceBoostCanyon04, patch: PatchKind::RemoveCutscenes { ids: 0, use_timers: false } });
    assert(plan_entry(c, v, 48).1 == RoomPatch { room: Room::IceBoostCanyon04, patch: PatchKind::RemoveCutscenes { ids: 0, use_timers: false } });
    assert(plan_index(RoomPatch { room: Room::IceBoostCanyon04, patch: PatchKind::RemoveCutscenes { ids: 0, use_timers: false } }) == 19);
    lemma_applies(c, v, RoomPatch { room: Room::IceShorelines05, patch: PatchKind::RemoveCutscenes { ids: 0, use_timers: false } });
    assert(plan_entry(c, v, 20).1 == RoomPatch { room: Room::IceShorelines05, patch: PatchKind::RemoveCutscenes { ids: 0, use_timers: false } });
    assert(plan_entry(c, v, 49).1 == RoomPatch { room: Room::IceShorelines05, patch: PatchKind::RemoveCutscenes { ids: 0, use_timers: false } });
    assert(plan_index(RoomPatch { room: Room::IceShorelines05, patch: PatchKind::RemoveCutscenes { ids: 0, use_timers: false } }) == 20);
    lemma_applies(c, v, RoomPatch { room: Room::IceVault13, patch: PatchKind::RemoveCutscenes { ids: 0, use_timers: false } });
    assert(plan_entry(c, v, 21).1 == RoomPatch { room: Room::IceVault13, patch: PatchKind::RemoveCutscenes { ids: 0, use_timers: false } });
    assert(plan_entry(c, v, 52).1 == RoomPatch { room: Room::IceVault13, patch: PatchKind::RemoveCutscenes { ids: 0, use_timers: false } });
    assert(plan_index(RoomPatch { room: Room::IceVault13, patch: PatchKind::RemoveCutscenes { ids: 0, use_timers: false } }) == 21);
    lemma_applies(c, v, RoomPatch { room: Room::Mines03, patch: PatchKind::RemoveCutscenes { ids: 15, use_timers: true } });
    assert(plan_entry(c, v, 22).1 == RoomPatch { room: Room::Mines03, patch: PatchKind::RemoveCutscenes { ids: 15, use_timers: true } });
    assert(plan_entry(c, v, 53).1 == RoomPatch { room: Room::Mines03, patch: PatchKind::RemoveCutscenes { ids: 15, use_timers: true } });
    assert(plan_index(RoomPatch { room: Room::Mines03, patch: PatchKind::RemoveCutscenes { ids: 15, use_timers: true } }) == 22);
    lemma_applies(c, v, RoomPatch { room: Room::MinesShotemup02, patch: PatchKind::RemoveCutscenes { ids: 16, use_timers: true } });
    assert(plan_entry(c, v, 23).1 == RoomPatch { room: Room::MinesShotemup02, patch: PatchKind::RemoveCutscenes { ids: 16, use_timers: true } });
    assert(plan_entry(c, v, 56).1 == RoomPatch { room: Room::MinesShotemup02, patch: PatchKind::RemoveCutscenes { ids: 16, use_timers: true } });
    assert(plan_index(RoomPatch { room: Room::MinesShotemup02, patch: PatchKind::RemoveCutscenes { ids: 16, use_timers: true } }) == 23);
}

/// The room patches that apply when the minor cutscenes are skipped: each applies exactly then, whatever the other
/// choices.
#[verifier::rlimit(100)]
pub proof fn lemma_plan_minor_cutscenes(c: PatchPlanInput, v: Version)
    ensures
        applies(c, v, RoomPatch { room: Room::Mines08, patch: PatchKind::RemoveCutscenes { ids: 17, use_timers: false } }) <==> (c.qol_cutscenes == CutsceneMode::Minor || c.qol_cutscenes == CutsceneMode::Major),
        applies(c, v, RoomPatch { room: Room::OverXray05, patch: PatchKind::RemoveCutscenes { ids: 0, use_timers: true } }) <==> (c.qol_cutscenes == CutsceneMode::Minor || c.qol_cutscenes == CutsceneMode::Major),
        applies(c, v, RoomPatch { room: Room::Mainplaza01, patch: PatchKind::RemoveCutscenes { ids: 0, use_timers: false } }) <==> (c.qol_cutscenes == CutsceneMode::Minor || c.qol_cutscenes == CutsceneMode::Major),
        applies(c, v, RoomPatch { room: Room::MinesMainplaza01, patch: PatchKind::RemoveCutscenes { ids: 18, use_timers: false } }) <==> (c.qol_cutscenes == CutsceneMode::Minor || c.qol_cutscenes == CutsceneMode::Major),
        applies(c, v, RoomPatch { room: Room::OverMuddywatersB11, patch: PatchKind::RemoveCutscenes { ids: 0, use_timers: false } }) <==> (c.qol_cutscenes == CutsceneMode::Minor || c.qol_cutscenes == CutsceneMode::Major),
        applies(c, v, RoomPatch { room: Room::ChozoBowling17, patch: PatchKind::RemoveCutscenes { ids: 19, use_timers: false } }) <==> (c.qol_cutscenes == CutsceneMode::Minor || c.qol_cutscenes == CutsceneMode::Major),
        applies(c, v, RoomPatch { room: Room::MinesConnect00h, patch: PatchKind::RemoveCutscenes { ids: 20, use_timers: true } }) <==> (c.qol_cutscenes == CutsceneMode::Minor || c.qol_cutscenes == CutsceneMode::Major),
        applies(c, v, RoomPatch { room: Room::IceObservatory11, patch: PatchKind::RemoveCutscenes { ids: 21, use_timers: false } }) <==> (c.qol_cutscenes == CutsceneMode::Minor || c.qol_cutscenes == CutsceneMode::Major),
        applies(c, v, RoomPatch { room: Room::IceRidley08, patch: PatchKind::RemoveCutscenes { ids: 22, use_timers: false } }) <==> (c.qol_cutscenes == CutsceneMode::Minor || c.qol_cutscenes == CutsceneMode::Major),
        applies(c, v, RoomPatch { room: Room::MinesElitebustout06, patch: PatchKind::RemoveCutscenes { ids: 0, use_timers: true } }) <==> (c.qol_cutscenes == CutsceneMode::Minor || c.qol_cutscenes == CutsceneMode::Major),
        applies(c, v, RoomPatch { room: Room::MinesElectric07, patch: PatchKind::RemoveCutscenes { ids: 23, use_timers: true } }) <==> (c.qol_cutscenes == CutsceneMode::Minor || c.qol_cutscenes == CutsceneMode::Major),
        applies(c, v, RoomPatch { room: Room::IcePlaza01, patch: PatchKind::RemoveCutscenes { ids: 24, use_timers: true } }) <==> (c.qol_cutscenes == CutsceneMode::Minor || c.qol_cutscenes == CutsceneMode::Major),
{
    lemma_plan_index(c, v);
    lemma_applies(c, v, RoomPatch { room: Room::Mines08, patch: PatchKind::RemoveCutscenes { ids: 17, use_timers: false } });
    assert(plan_entry(c, v, 25).1 == RoomPatch { room: Room::Mines08, patch: PatchKind::RemoveCutscenes { ids: 17, use_timers: false } });
    assert(plan_index(RoomPatch { room: Room::Mines08, patch: PatchKind::RemoveCutscenes { ids: 17, use_timers: false } }) == 25);
    lemma_applies(c, v, RoomPatch { room: Room::OverXray05, patch: PatchKind::RemoveCutscenes { ids: 0, use_timers: true } });
    assert(plan_entry(c, v, 35).1 == RoomPatch { room: Room::OverXray05, patch: PatchKind::RemoveCutscenes { ids: 0, use_timers: true } });
    assert(plan_index(RoomPatch { room: Room::OverXray05, patch: PatchKind::RemoveCutscenes { ids: 0, use_timers: true } }) == 35);
    lemma_applies(c, v, RoomPatch { room: Room::Mainplaza01, patch: PatchKind::RemoveCutscenes { ids: 0, use_timers: false } });
    assert(plan_entry(c, v, 36).1 == RoomPatch { room: Room::Mainplaza01, patch: PatchKind::RemoveCutscenes { ids: 0, use_timers: false } });
    assert(plan_index(RoomPatch { room: Room::Mainplaza01, patch: PatchKind::RemoveCutscenes { ids: 0, use_timers: false } }) == 36);
    lemma_applies(c, v, RoomPatch { room: Room::MinesMainplaza01, patch: PatchKind::RemoveCutscenes { ids: 18, use_timers: false } });
    assert(plan_entry(c, v, 37).1 == RoomPatch { room: Room::MinesMainplaza01, patch: PatchKind::RemoveCutscenes { ids: 18, use_timers: false } });
    assert(plan_index(RoomPatch { room: Room::MinesMainplaza01, patch: PatchKind::RemoveCutscenes { ids: 18, use_timers: false } }) == 37);
    lemma_applies(c, v, RoomPatch { room: Room::OverMuddywatersB11, patch: PatchKind::RemoveCutscenes { ids: 0, use_timers: false } });
    assert(plan_entry(c, v, 38).1 == RoomPatch { room: Room::OverMuddywatersB11, patch: PatchKind::RemoveCutscenes { ids: 0, use_timers: false } });
    assert(plan_index(RoomPatch { room: Room::OverMuddywatersB11, patch: PatchKind::RemoveCutscenes { ids: 0, use_timers: false } }) == 38);
    lemma_applies(c, v, RoomPatch { room: Room::ChozoBowling17, patch: PatchKind::RemoveCutscenes { ids: 19, use_timers: false } });
    assert(plan_entry(c, v, 44).1 == RoomPatch { room: Room::ChozoBowling17, patch: PatchKind::RemoveCutscenes { ids: 19, use_timers: false } });
    assert(plan_index(RoomPatch { room: Room::ChozoBowling17, patch: PatchKind::RemoveCutscenes { ids: 19, use_timers: false } }) == 44);
    lemma_applies(c, v, RoomPatch { room: Room::MinesConnect00h, patch: PatchKind::RemoveCutscenes { ids: 20, use_timers: true } });
    assert(plan_entry(c, v, 46).1 == RoomPatch { room: Room::MinesConnect00h, patch: PatchKind::RemoveCutscenes { ids: 20, use_timers: true } });
    assert(plan_index(RoomPatch { room: Room::MinesConnect00h, patch: PatchKind::RemoveCutscenes { ids: 20, use_timers: true } }) == 46);
    lemma_applies(c, v, RoomPatch { room: Room::IceObservatory11, patch: PatchKind::RemoveCutscenes { ids: 21, use_timers: false } });
    assert(plan_entry(c, v, 50).1 == RoomPatch { room: Room::IceObservatory11, patch: PatchKind::RemoveCutscenes { ids: 21, use_timers: false } });
    assert(plan_index(RoomPatch { room: Room::IceObservatory11, patch: PatchKind::RemoveCutscenes { ids: 21, use_timers: false } }) == 50);
    lemma_applies(c, v, RoomPatch { room: Room::IceRidley08, patch: PatchKind::RemoveCutscenes { ids: 22, use_timers: false } });
    assert(plan_entry(c, v, 51).1 == RoomPatch { room: Room::IceRidley08, patch: PatchKind::RemoveCutscenes { ids: 22, use_timers: false } });
    assert(plan_index(RoomPatch { room: Room::IceRidley08, patch: PatchKind::RemoveCutscenes { ids: 22, use_timers: false } }) == 51);
    lemma_applies(c, v, RoomPatch { room: Room::MinesElitebustout06, patch: PatchKind::RemoveCutscenes { ids: 0, use_timers: true } });
    assert(plan_entry(c, v, 54).1 == RoomPatch { room: Room::MinesElitebustout06, patch: PatchKind::RemoveCutscenes { ids: 0, use_timers: true } });
    assert(plan_index(RoomPatch { room: Room::MinesElitebustout06, patch: PatchKind::RemoveCutscenes { ids: 0, use_timers: true } }) == 54);
    lemma_applies(c, v, RoomPatch { room: Room::MinesElectric07, patch: PatchKind::RemoveCutscenes { ids: 23, use_timers: true } });
    assert(plan_entry(c, v, 55).1 == RoomPatch { room: Room::MinesElectric07, patch: PatchKind::RemoveCutscenes { ids: 23, use_timers: true } });
    assert(plan_index(RoomPatch { room: Room::MinesElectric07, patch: PatchKind::RemoveCutscenes { ids: 23, use_timers: true } }) == 55);
    lemma_applies(c, v, RoomPatch { room: Room::IcePlaza01, patch: PatchKind::RemoveCutscenes { ids: 24, use_timers: true } });
    assert(plan_entry(c, v, 57).1 == RoomPatch { room: Room::IcePlaza01, patch: PatchKind::RemoveCutscenes { ids: 24, use_timers: true } });
    assert(plan_index(RoomPatch { room: Room::IcePlaza01, patch: PatchKind::RemoveCutscenes { ids: 24, use_timers: true } }) == 57);
}

/// The room patches that apply when the major cutscenes are skipped: each applies exactly then, whatever the other
/// choices.
#[verifier::rlimit(100)]
pub proof fn lemma_plan_major_cutscenes(c: PatchPlanInput, v: Version)
    ensures
        applies(c, v, RoomPatch { room: Room::Endcinema01, patch: PatchKind::RemoveCutscenes { ids: 0, use_timers: true } }) <==> (c.qol_cutscenes == CutsceneMode::Major),
        applies(c, v, RoomPatch { room: Room::ChozoBowling17, patch: PatchKind::RemoveCutscenes { ids: 25, use_timers: false } }) <==> (c.qol_cutscenes == CutsceneMode::Major),
        applies(c, v, RoomPatch { room: Room::IcePlaza01, patch: PatchKind::RemoveCutscenes { ids: 26, use_timers: false } }) <==> (c.qol_cutscenes == CutsceneMode::Major),
        applies(c, v, RoomPatch { room: Room::Stonehenge07, patch: PatchKind::RemoveCutscenes { ids: 27, use_timers: true } }) <==> (c.qol_cutscenes == CutsceneMode::Major),
        applies(c, v, RoomPatch { room: Room::Mines03, patch: PatchKind::RemoveCutscenes { ids: 28, use_timers: true } }) <==> (c.qol_cutscenes == CutsceneMode::Major),
        applies(c, v, RoomPatch { room: Room::HiveTotem19, patch: PatchKind::RemoveCutscenes { ids: 0, use_timers: false } }) <==> (c.qol_cutscenes == CutsceneMode::Major),
        applies(c, v, RoomPatch { room: Room::MorphballShrine1a, patch: PatchKind::RemoveCutscenes { ids: 0, use_timers: true } }) <==> (c.qol_cutscenes == CutsceneMode::Major),
        applies(c, v, RoomPatch { room: Room::MonkeyLower03, patch: PatchKind::RemoveCutscenes { ids: 29, use_timers: true } }) <==> (c.qol_cutscenes == CutsceneMode::Major),
        applies(c, v, RoomPatch { room: Room::Flaahgra22, patch: PatchKind::RemoveCutscenes { ids: 30, use_timers: false } }) <==> (c.qol_cutscenes == CutsceneMode::Major),
        applies(c, v, RoomPatch { room: Room::IceLobby09, patch: PatchKind::RemoveCutscenes { ids: 31, use_timers: false } }) <==> (c.qol_cutscenes == CutsceneMode::Major),
        applies(c, v, RoomPatch { room: Room::IceThardus19, patch: PatchKind::RemoveCutscenes { ids: 0, use_timers: true } }) <==> (c.qol_cutscenes == CutsceneMode::Major),
        applies(c, v, RoomPatch { room: Room::MinesForcefields05, patch: PatchKind::RemoveCutscenes { ids: 0, use_timers: true } }) <==> (c.qol_cutscenes == CutsceneMode::Major),
        applies(c, v, RoomPatch { room: Room::Mines08, patch: PatchKind::RemoveCutscenes { ids: 32, use_timers: false } }) <==> (c.qol_cutscenes == CutsceneMode::Major),
        applies(c, v, RoomPatch { room: Room::MinesEliteboss12, patch: PatchKind::RemoveCutscenes { ids: 33, use_timers: true } }) <==> (c.qol_cutscenes == CutsceneMode::Major),
        applies(c, v, RoomPatch { room: Room::Crater03a, patch: PatchKind::RemoveCutscenes { ids: 34, use_timers: false } }) <==> (c.qol_cutscenes == CutsceneMode::Major),
        applies(c, v, RoomPatch { room: Room::Crater03b, patch: PatchKind::RemoveCutscenes { ids: 0, use_timers: false } }) <==> (c.qol_cutscenes == CutsceneMode::Major),
        applies(c, v, RoomPatch { room: Room::Crater03c, patch: PatchKind::RemoveCutscenes { ids: 0, use_timers: false } }) <==> (c.qol_cutscenes == CutsceneMode::Major),
        applies(c, v, RoomPatch { room: Room::Crater03d, patch: PatchKind::RemoveCutscenes { ids: 0, use_timers: false } }) <==> (c.qol_cutscenes == CutsceneMode::Major),
        applies(c, v, RoomPatch { room: Room::Crater03e, patch: PatchKind::RemoveCutscenes { ids: 0, use_timers: true } }) <==> (c.qol_cutscenes == CutsceneMode::Major),
        applies(c, v, RoomPatch { room: Room::Crater03f, patch: PatchKind::RemoveCutscenes { ids: 35, use_timers: true } }) <==> (c.qol_cutscenes == CutsceneMode::Major),
{
    lemma_plan_index(c, v);
    lemma_applies(c, v, RoomPatch { room: Room::Endcinema01, patch: PatchKind::RemoveCutscenes { ids: 0, use_timers: true } });
    assert(plan_entry(c, v, 59).1 == RoomPatch { room: Room::Endcinema01, patch: PatchKind::RemoveCutscenes { ids: 0, use_timers: true } });
    assert(plan_index(RoomPatch { room: Room::Endcinema01, patch: PatchKind::RemoveCutscenes { ids: 0, use_timers: true } }) == 59);
    lemma_applies(c, v, RoomPatch { room: Room::ChozoBowling17, patch: PatchKind::RemoveCutscenes { ids: 25, use_timers: false } });
    assert(plan_entry(c, v, 60).1 == RoomPatch { room: Room::ChozoBowling17, patch: PatchKind::RemoveCutscenes { ids: 25, use_timers: false } });
    assert(plan_index(RoomPatch { room: Room::ChozoBowling17, patch: PatchKind::RemoveCutscenes { ids: 25, use_timers: false } }) == 60);
    lemma_applies(c, v, RoomPatch { room: Room::IcePlaza01, patch: PatchKind::RemoveCutscenes { ids: 26, use_timers: false } });
    assert(plan_entry(c, v, 61).1 == RoomPatch { room: Room::IcePlaza01, patch: PatchKind::RemoveCutscenes { ids: 26, use_timers: false } });
    assert(plan_index(RoomPatch { room: Room::IcePlaza01, patch: PatchKind::RemoveCutscenes { ids: 26, use_timers: false } }) == 61);
    lemma_applies(c, v, RoomPatch { room: Room::Stonehenge07, patch: PatchKind::RemoveCutscenes { ids: 27, use_timers: true } });
    assert(plan_entry(c, v, 62).1 == RoomPatch { room: Room::Stonehenge07, patch: PatchKind::RemoveCutscenes { ids: 27, use_timers: true } });
    assert(plan_index(RoomPatch { room: Room::Stonehenge07, patch: PatchKind::RemoveCutscenes { ids: 27, use_timers: true } }) == 62);
    lemma_applies(c, v, RoomPatch { room: Room::Mines03, patch: PatchKind::RemoveCutscenes { ids: 28, use_timers: true } });
    assert(plan_entry(c, v, 63).1 == RoomPatch { room: Room::Mines03, patch: PatchKind::RemoveCutscenes { ids: 28, use_timers: true } });
    assert(plan_index(RoomPatch { room: Room::Mines03, patch: PatchKind::RemoveCutscenes { ids: 28, use_timers: true } }) == 63);
    lemma_applies(c, v, RoomPatch { room: Room::HiveTotem19, patch: PatchKind::RemoveCutscenes { ids: 0, use_timers: false } });
    assert(plan_entry(c, v, 64).1 == RoomPatch { room: Room::HiveTotem19, patch: PatchKind::RemoveCutscenes { ids: 0, use_timers: false } });
    assert(plan_index(RoomPatch { room: Room::HiveTotem19, patch: PatchKind::RemoveCutscenes { ids: 0, use_timers: false } }) == 64);
    lemma_applies(c, v, RoomPatch { room: Room::MorphballShrine1a, patch: PatchKind::RemoveCutscenes { ids: 0, use_timers: true } });
    assert(plan_entry(c, v, 65).1 == RoomPatch { room: Room::MorphballShrine1a, patch: PatchKind::RemoveCutscenes { ids: 0, use_timers: true } });
    assert(plan_index(RoomPatch { room: Room::MorphballShrine1a, patch: PatchKind::RemoveCutscenes { ids: 0, use_timers: true } }) == 65);
    lemma_applies(c, v, RoomPatch { room: Room::MonkeyLower03, patch: PatchKind::RemoveCutscenes { ids: 29, use_timers: true } });
    assert(plan_entry(c, v, 66).1 == RoomPatch { room: Room::MonkeyLower03, patch: PatchKind::RemoveCutscenes { ids: 29, use_timers: true } });
    assert(plan_index(RoomPatch { room: Room::MonkeyLower03, patch: PatchKind::RemoveCutscenes { ids: 29, use_timers: true } }) == 66);
    lemma_applies(c, v, RoomPatch { room: Room::Flaahgra22, patch: PatchKind::RemoveCutscenes { ids: 30, use_timers: false } });
    assert(plan_entry(c, v, 67).1 == RoomPatch { room: Room::Flaahgra22, patch: PatchKind::RemoveCutscenes { ids: 30, use_timers: false } });
    assert(plan_index(RoomPatch { room: Room::Flaahgra22, patch: PatchKind::RemoveCutscenes { ids: 30, use_timers: false } }) == 67);
    lemma_applies(c, v, RoomPatch { room: Room::IceLobby09, patch: PatchKind::RemoveCutscenes { ids: 31, use_timers: false } });
    assert(plan_entry(c, v, 68).1 == RoomPatch { room: Room::IceLobby09, patch: PatchKind::RemoveCutscenes { ids: 31, use_timers: false } });
    assert(plan_index(RoomPatch { room: Room::IceLobby09, patch: PatchKind::RemoveCutscenes { ids: 31, use_timers: false } }) == 68);
    lemma_applies(c, v, RoomPatch { room: Room::IceThardus19, patch: PatchKind::RemoveCutscenes { ids: 0, use_timers: true } });
    assert(plan_entry(c, v, 69).1 == RoomPatch { room: Room::IceThardus19, patch: PatchKind::RemoveCutscenes { ids: 0, use_timers: true } });
    assert(plan_index(RoomPatch { room: Room::IceThardus19, patch: PatchKind::RemoveCutscenes { ids: 0, use_timers: true } }) == 69);
    lemma_applies(c, v, RoomPatch { room: Room::MinesForcefields05, patch: PatchKind::RemoveCutscenes { ids: 0, use_timers: true } });
    assert(plan_entry(c, v, 70).1 == RoomPatch { room: Room::MinesForcefields05, patch: PatchKind::RemoveCutscenes { ids: 0, use_timers: true } });
    assert(plan_index(RoomPatch { room: Room::MinesForcefields05, patch: PatchKind::RemoveCutscenes { ids: 0, use_timers: true } }) == 70);
    lemma_applies(c, v, RoomPatch { room: Room::Mines08, patch: PatchKind::RemoveCutscenes { ids: 32, use_timers: false } });
    assert(plan_entry(c, v, 71).1 == RoomPatch { room: Room::Mines08, patch: PatchKind::RemoveCutscenes { ids: 32, use_timers: false } });
    assert(plan_index(RoomPatch { room: Room::Mines08, patch: PatchKind::RemoveCutscenes { ids: 32, use_timers: false } }) == 71);
    lemma_applies(c, v, RoomPatch { room: Room::MinesEliteboss12, patch: PatchKind::RemoveCutscenes { ids: 33, use_timers: true } });
    assert(plan_entry(c, v, 72).1 == RoomPatch { room: Room::MinesEliteboss12, patch: PatchKind::RemoveCutscenes { ids: 33, use_timers: true } });
    assert(plan_index(RoomPatch { room: Room::MinesEliteboss12, patch: PatchKind::RemoveCutscenes { ids: 33, use_timers: true } }) == 72);
    lemma_applies(c, v, RoomPatch { room: Room::Crater03a, patch: PatchKind::RemoveCutscenes { ids: 34, use_timers: false } });
    assert(plan_entry(c, v, 73).1 == RoomPatch { room: Room::Crater03a, patch: PatchKind::RemoveCutscenes { ids: 34, use_timers: false } });
    assert(plan_index(RoomPatch { room: Room::Crater03a, patch: PatchKind::RemoveCutscenes { ids: 34, use_timers: false } }) == 73);
    lemma_applies(c, v, RoomPatch { room: Room::Crater03b, patch: PatchKind::RemoveCutscenes { ids: 0, use_timers: false } });
    assert(plan_entry(c, v, 74).1 == RoomPatch { room: Room::Crater03b, patch: PatchKind::RemoveCutscenes { ids: 0, use_timers: false } });
    assert(plan_index(RoomPatch { room: Room::Crater03b, patch: PatchKind::RemoveCutscenes { ids: 0, use_timers: false } }) == 74);
    lemma_applies(c, v, RoomPatch { room: Room::Crater03c, patch: PatchKind::RemoveCutscenes { ids: 0, use_timers: false } });
    assert(plan_entry(c, v, 75).1 == RoomPatch { room: Room::Crater03c, patch: PatchKind::RemoveCutscenes { ids: 0, use_timers: false } });
    assert(plan_index(RoomPatch { room: Room::Crater03c, patch: PatchKind::RemoveCutscenes { ids: 0, use_timers: false } }) == 75);
    lemma_applies(c, v, RoomPatch { room: Room::Crater03d, patch: PatchKind::RemoveCutscenes { ids: 0, use_timers: false } });
    assert(plan_entry(c, v, 76).1 == RoomPatch { room: Room::Crater03d, patch: PatchKind::RemoveCutscenes { ids: 0, use_timers: false } });
    assert(plan_index(RoomPatch { room: Room::Crater03d, patch: PatchKind::RemoveCutscenes { ids: 0, use_timers: false } }) == 76);
    lemma_applies(c, v, RoomPatch { room: Room::Crater03e, patch: PatchKind::RemoveCutscenes { ids: 0, use_timers: true } });
    assert(plan_entry(c, v, 77).1 == RoomPatch { room: Room::Crater03e, patch: PatchKind::RemoveCutscenes { ids: 0, use_timers: true } });
    assert(plan_index(RoomPatch { room: Room::Crater03e, patch: PatchKind::RemoveCutscenes { ids: 0, use_timers: true } }) == 77);
    lemma_applies(c, v, RoomPatch { room: Room::Crater03f, patch: PatchKind::RemoveCutscenes { ids: 35, use_timers: true } });
    assert(plan_entry(c, v, 78).1 == RoomPatch { room: Room::Crater03f, patch: PatchKind::RemoveCutscenes { ids: 35, use_timers: true } });
    assert(plan_index(RoomPatch { room: Room::Crater03f, patch: PatchKind::RemoveCutscenes { ids: 35, use_timers: true } }) == 78);
}

/// The room patches that apply when the major cutscenes are skipped and pickups keep their positions: each applies exactly then, whatever the other
/// choices.
#[verifier::rlimit(100)]
pub proof fn lemma_plan_chapel_cutscenes(c: PatchPlanInput, v: Version)
    ensures
        applies(c, v, RoomPatch { room: Room::IceChapel07, patch: PatchKind::RemoveCutscenes { ids: 36, use_timers: true } }) <==> (c.qol_cutscenes == CutsceneMode::Major && !c.shuffle_pickup_position),
{
    lemma_plan_index(c, v);
    lemma_applies(c, v, RoomPatch { room: Room::IceChapel07, patch: PatchKind::RemoveCutscenes { ids: 36, use_timers: true } });
    assert(plan_entry(c, v, 79).1 == RoomPatch { room: Room::IceChapel07, patch: PatchKind::RemoveCutscenes { ids: 36, use_timers: true } });
    assert(plan_index(RoomPatch { room: Room::IceChapel07, patch: PatchKind::RemoveCutscenes { ids: 36, use_timers: true } }) == 79);
}

/// The room patches that apply unless the layout is vanilla: each applies exactly then, whatever the other
/// choices.
#[verifier::rlimit(100)]
pub proof fn lemma_plan_tournament_winners(c: PatchPlanInput, v: Version)
    ensures
        applies(c, v, RoomPatch { room: Room::Stonehenge07, patch: PatchKind::TournamentWinners }) <==> (!c.force_vanilla_layout),
{
    lemma_plan_index(c, v);
    lemma_applies(c, v, RoomPatch { room: Room::Stonehenge07, patch: PatchKind::TournamentWinners });
    assert(plan_entry(c, v, 80).1 == RoomPatch { room: Room::Stonehenge07, patch: PatchKind::TournamentWinners });
    assert(plan_index(RoomPatch { room: Room::Stonehenge07, patch: PatchKind::TournamentWinners }) == 80);
}

/// The room patches that apply always: each applies exactly then, whatever the other
/// choices.
#[verifier::rlimit(100)]
pub proof fn lemma_plan_always(c: PatchPlanInput, v: Version)
    ensures
        applies(c, v, RoomPatch { room: Room::Stonehenge07, patch: PatchKind::FixArtifactOfTruthRequirements }) <==> (true),
        applies(c, v, RoomPatch { room: Room::Stonehenge07, patch: PatchKind::ArtifactHintAvailability }) <==> (true),
        applies(c, v, RoomPatch { room: Room::MinesConnect00i, patch: PatchKind::SpawnPointPosition { position: Vec3Bits { x: 0, y: 0, z: 0 }, relative: true, force_default: false } }) <==> (true),
{
    lemma_plan_index(c, v);
    lemma_applies(c, v, RoomPatch { room: Room::Stonehenge07, patch: PatchKind::FixArtifactOfTruthRequirements });
    assert(plan_entry(c, v, 81).1 == RoomPatch { room: Room::Stonehenge07, patch: PatchKind::FixArtifactOfTruthRequirements });
    assert(plan_index(RoomPatch { room: Room::Stonehenge07, patch: PatchKind::FixArtifactOfTruthRequirements }) == 81);
    lemma_applies(c, v, RoomPatch { room: Room::Stonehenge07, patch: PatchKind::ArtifactHintAvailability });
    assert(plan_entry(c, v, 82).1 == RoomPatch { room: Room::Stonehenge07, patch: PatchKind::ArtifactHintAvailability });
    assert(plan_index(RoomPatch { room: Room::Stonehenge07, patch: PatchKind::ArtifactHintAvailability }) == 82);
    lemma_applies(c, v, RoomPatch { room: Room::MinesConnect00i, patch: PatchKind::SpawnPointPosition { position: Vec3Bits { x: 0, y: 0, z: 0 }, relative: true, force_default: false } });
    assert(plan_entry(c, v, 149).1 == RoomPatch { room: Room::MinesConnect00i, patch: PatchKind::SpawnPointPosition { position: Vec3Bits { x: 0, y: 0, z: 0 }, relative: true, force_default: false } });
    assert(plan_index(RoomPatch { room: Room::MinesConnect00i, patch: PatchKind::SpawnPointPosition { position: Vec3Bits { x: 0, y: 0, z: 0 }, relative: true, force_default: false } }) == 149);
}

/// The room patches that apply when the power conduits are patched: each applies exactly then, whatever the other
/// choices.
#[verifier::rlimit(100)]
pub proof fn lemma_plan_power_conduits(c: PatchPlanInput, v: Version)
    ensures
        applies(c, v, RoomPatch { room: Room::IceShorelines05, patch: PatchKind::ThermalConduitsDamageVulnerabilities }) <==> (c.patch_power_conduits),
        applies(c, v, RoomPatch { room: Room::IceVault13, patch: PatchKind::ThermalConduitsDamageVulnerabilities }) <==> (c.patch_power_conduits),
        applies(c, v, RoomPatch { room: Room::UnderIntroVentshaft08b, patch: PatchKind::ThermalConduitsDamageVulnerabilities }) <==> (c.patch_power_conduits),
        applies(c, v, RoomPatch { room: Room::UnderIntroReactor07, patch: PatchKind::ThermalConduitsDamageVulnerabilities }) <==> (c.patch_power_conduits),
        applies(c, v, RoomPatch { room: Room::UnderIntroToReactor06, patch: PatchKind::ThermalConduitsDamageVulnerabilities }) <==> (c.patch_power_conduits),
        applies(c, v, RoomPatch { room: Room::UnderIntroFreight06, patch: PatchKind::ThermalConduitsDamageVulnerabilities }) <==> (c.patch_power_conduits),
        applies(c, v, RoomPatch { room: Room::UnderIntroZoo05, patch: PatchKind::ThermalConduitsDamageVulnerabilities }) <==> (c.patch_power_conduits),
        applies(c, v, RoomPatch { room: Room::UnderIntroSpecimenChamber05, patch: PatchKind::ThermalConduitsDamageVulnerabilities }) <==> (c.patch_power_conduits),
        applies(c, v, RoomPatch { room: Room::MinesMainplaza01, patch: PatchKind::ThermalConduitsDamageVulnerabilities }) <==> (c.patch_power_conduits),
        applies(c, v, RoomPatch { room: Room::Over1alavaarea10, patch: PatchKind::ThermalConduitsDamageVulnerabilities }) <==> (c.patch_power_conduits),
{
    lemma_plan_index(c, v);
    lemma_applies(c, v, RoomPatch { room: Room::IceShorelines05, patch: PatchKind::ThermalConduitsDamageVulnerabilities });
    assert(plan_entry(c, v, 83).1 == RoomPatch { room: Room::IceShorelines05, patch: PatchKind::ThermalConduitsDamageVulnerabilities });
    assert(plan_index(RoomPatch { room: Room::IceShorelines05, patch: PatchKind::ThermalConduitsDamageVulnerabilities }) == 83);
    lemma_applies(c, v, RoomPatch { room: Room::IceVault13, patch: PatchKind::ThermalConduitsDamageVulnerabilities });
    assert(plan_entry(c, v, 84).1 == RoomPatch { room: Room::IceVault13, patch: PatchKind::ThermalConduitsDamageVulnerabilities });
    assert(plan_index(RoomPatch { room: Room::IceVault13, patch: PatchKind::ThermalConduitsDamageVulnerabilities }) == 84);
    lemma_applies(c, v, RoomPatch { room: Room::UnderIntroVentshaft08b, patch: PatchKind::ThermalConduitsDamageVulnerabilities });
    assert(plan_entry(c, v, 85).1 == RoomPatch { room: Room::UnderIntroVentshaft08b, patch: PatchKind::ThermalConduitsDamageVulnerabilities });
    assert(plan_index(RoomPatch { room: Room::UnderIntroVentshaft08b, patch: PatchKind::ThermalConduitsDamageVulnerabilities }) == 85);
    lemma_applies(c, v, RoomPatch { room: Room::UnderIntroReactor07, patch: PatchKind::ThermalConduitsDamageVulnerabilities });
    assert(plan_entry(c, v, 86).1 == RoomPatch { room: Room::UnderIntroReactor07, patch: PatchKind::ThermalConduitsDamageVulnerabilities });
    assert(plan_index(RoomPatch { room: Room::UnderIntroReactor07, patch: PatchKind::ThermalConduitsDamageVulnerabilities }) == 86);
    lemma_applies(c, v, RoomPatch { room: Room::UnderIntroToReactor06, patch: PatchKind::ThermalConduitsDamageVulnerabilities });
    assert(plan_entry(c, v, 87).1 == RoomPatch { room: Room::UnderIntroToReactor06, patch: PatchKind::ThermalConduitsDamageVulnerabilities });
    assert(plan_index(RoomPatch { room: Room::UnderIntroToReactor06, patch: PatchKind::ThermalConduitsDamageVulnerabilities }) == 87);
    lemma_applies(c, v, RoomPatch { room: Room::UnderIntroFreight06, patch: PatchKind::ThermalConduitsDamageVulnerabilities });
    assert(plan_entry(c, v, 88).1 == RoomPatch { room: Room::UnderIntroFreight06, patch: PatchKind::ThermalConduitsDamageVulnerabilities });
    assert(plan_index(RoomPatch { room: Room::UnderIntroFreight06, patch: PatchKind::ThermalConduitsDamageVulnerabilities }) == 88);
    lemma_applies(c, v, RoomPatch { room: Room::UnderIntroZoo05, patch: PatchKind::ThermalConduitsDamageVulnerabilities });
    assert(plan_entry(c, v, 89).1 == RoomPatch { room: Room::UnderIntroZoo05, patch: PatchKind::ThermalConduitsDamageVulnerabilities });
    assert(plan_index(RoomPatch { room: Room::UnderIntroZoo05, patch: PatchKind::ThermalConduitsDamageVulnerabilities }) == 89);
    lemma_applies(c, v, RoomPatch { room: Room::UnderIntroSpecimenChamber05, patch: PatchKind::ThermalConduitsDamageVulnerabilities });
    assert(plan_entry(c, v, 90).1 == RoomPatch { room: Room::UnderIntroSpecimenChamber05, patch: PatchKind::ThermalConduitsDamageVulnerabilities });
    assert(plan_index(RoomPatch { room: Room::UnderIntroSpecimenChamber05, patch: PatchKind::ThermalConduitsDamageVulnerabilities }) == 90);
    lemma_applies(c, v, RoomPatch { room: Room::MinesMainplaza01, patch: PatchKind::ThermalConduitsDamageVulnerabilities });
    assert(plan_entry(c, v, 91).1 == RoomPatch { room: Room::MinesMainplaza01, patch: PatchKind::ThermalConduitsDamageVulnerabilities });
    assert(plan_index(RoomPatch { room: Room::MinesMainplaza01, patch: PatchKind::ThermalConduitsDamageVulnerabilities }) == 91);
    lemma_applies(c, v, RoomPatch { room: Room::Over1alavaarea10, patch: PatchKind::ThermalConduitsDamageVulnerabilities });
    assert(plan_entry(c, v, 92).1 == RoomPatch { room: Room::Over1alavaarea10, patch: PatchKind::ThermalConduitsDamageVulnerabilities });
    assert(plan_index(RoomPatch { room: Room::Over1alavaarea10, patch: PatchKind::ThermalConduitsDamageVulnerabilities }) == 92);
}

/// The room patches that apply when the mine security station's locks are removed: each applies exactly then, whatever the other
/// choices.
#[verifier::rlimit(100)]
pub proof fn lemma_plan_mine_security_station_locks(c: PatchPlanInput, v: Version)
    ensures
        applies(c, v, RoomPatch { room: Room::MinesShotemup02, patch: PatchKind::RemoveDoorLocks }) <==> (c.remove_mine_security_station_locks),
{
    lemma_plan_index(c, v);
    lemma_applies(c, v, RoomPatch { room: Room::MinesShotemup02, patch: PatchKind::RemoveDoorLocks });
    assert(plan_entry(c, v, 93).1 == RoomPatch { room: Room::MinesShotemup02, patch: PatchKind::RemoveDoorLocks });
    assert(plan_index(RoomPatch { room: Room::MinesShotemup02, patch: PatchKind::RemoveDoorLocks }) == 93);
}

/// The room patches that apply when the hive mecha is removed: each applies exactly then, whatever the other
/// choices.
#[verifier::rlimit(100)]
pub proof fn lemma_plan_hive_mecha(c: PatchPlanInput, v: Version)
    ensures
        applies(c, v, RoomPatch { room: Room::HiveTotem19, patch: PatchKind::HiveMechaFirstPassLayer }) <==> (c.remove_hive_mecha),
        applies(c, v, RoomPatch { room: Room::HiveTotem19, patch: PatchKind::HiveMechaAutoStartRelay }) <==> (c.remove_hive_mecha),
{
    lemma_plan_index(c, v);
    lemma_applies(c, v, RoomPatch { room: Room::HiveTotem19, patch: PatchKind::HiveMechaFirstPassLayer });
    assert(plan_entry(c, v, 94).1 == RoomPatch { room: Room::HiveTotem19, patch: PatchKind::HiveMechaFirstPassLayer });
    assert(plan_index(RoomPatch { room: Room::HiveTotem19, patch: PatchKind::HiveMechaFirstPassLayer }) == 94);
    lemma_applies(c, v, RoomPatch { room: Room::HiveTotem19, patch: PatchKind::HiveMechaAutoStartRelay });
    assert(plan_entry(c, v, 95).1 == RoomPatch { room: Room::HiveTotem19, patch: PatchKind::HiveMechaAutoStartRelay });
    assert(plan_index(RoomPatch { room: Room::HiveTotem19, patch: PatchKind::HiveMechaAutoStartRelay }) == 95);
}

/// The room patches that apply when power bombs break the arboretum sandstone: each applies exactly then, whatever the other
/// choices.
#[verifier::rlimit(100)]
pub proof fn lemma_plan_arboretum_sandstone(c: PatchPlanInput, v: Version)
    ensures
        applies(c, v, RoomPatch { room: Room::Courtyard08, patch: PatchKind::ArboretumSandstone }) <==> (c.power_bomb_arboretum_sandstone),
{
    lemma_plan_index(c, v);
    lemma_applies(c, v, RoomPatch { room: Room::Courtyard08, patch: PatchKind::ArboretumSandstone });
    assert(plan_entry(c, v, 96).1 == RoomPatch { room: Room::Courtyard08, patch: PatchKind::ArboretumSandstone });
    assert(plan_index(RoomPatch { room: Room::Courtyard08, patch: PatchKind::ArboretumSandstone }) == 96);
}

/// The room patches that apply when the frigate is played and item loss is disabled: each applies exactly then, whatever the other
/// choices.
#[verifier::rlimit(100)]
pub proof fn lemma_plan_item_loss(c: PatchPlanInput, v: Version)
    ensures
        applies(c, v, RoomPatch { room: Room::IntroElevator02, patch: PatchKind::DisableItemLoss }) <==> (!c.skip_frigate && c.disable_item_loss),
{
    lemma_plan_index(c, v);
    lemma_applies(c, v, RoomPatch { room: Room::IntroElevator02, patch: PatchKind::DisableItemLoss });
    assert(plan_entry(c, v, 97).1 == RoomPatch { room: Room::IntroElevator02, patch: PatchKind::DisableItemLoss });
    assert(plan_index(RoomPatch { room: Room::IntroElevator02, patch: PatchKind::DisableItemLoss }) == 97);
}

/// The room patches that apply when the frigate is played and the layout is not vanilla: each applies exactly then, whatever the other
/// choices.
#[verifier::rlimit(100)]
pub proof fn lemma_plan_frigate_exploration(c: PatchPlanInput, v: Version)
    ensures
        applies(c, v, RoomPatch { room: Room::IntroHangerConnect01, patch: PatchKind::PostPqFrigate }) <==> (!c.skip_frigate && !c.force_vanilla_layout),
        applies(c, v, RoomPatch { room: Room::IntroMechshaft00h, patch: PatchKind::PostPqFrigate }) <==> (!c.skip_frigate && !c.force_vanilla_layout),
        applies(c, v, RoomPatch { room: Room::IntroSpecimenChamber04, patch: PatchKind::PostPqFrigate }) <==> (!c.skip_frigate && !c.force_vanilla_layout),
        applies(c, v, RoomPatch { room: Room::IntroFreightLifts06, patch: PatchKind::PostPqFrigate }) <==> (!c.skip_frigate && !c.force_vanilla_layout),
        applies(c, v, RoomPatch { room: Room::IntroToReactor06, patch: PatchKind::PostPqFrigate }) <==> (!c.skip_frigate && !c.force_vanilla_layout),
        applies(c, v, RoomPatch { room: Room::IntroElevator02, patch: PatchKind::PostPqFrigate }) <==> (!c.skip_frigate && !c.force_vanilla_layout),
        applies(c, v, RoomPatch { room: Room::IntroSpecimenChamber04, patch: PatchKind::CirclePlatform(Vec3Bits { x: 0x422c0000, y: 0xc3420000, z: 0xc2300000 }) }) <==> (!c.skip_frigate && !c.force_vanilla_layout),
        applies(c, v, RoomPatch { room: Room::IntroSpecimenChamber04, patch: PatchKind::CirclePlatform(Vec3Bits { x: 0x421c0000, y: 0xc33a0000, z: 0xc2240000 }) }) <==> (!c.skip_frigate && !c.force_vanilla_layout),
        applies(c, v, RoomPatch { room: Room::IntroSpecimenChamber04, patch: PatchKind::CirclePlatform(Vec3Bits { x: 0x42100000, y: 0xc3350000, z: 0xc21c0000 }) }) <==> (!c.skip_frigate && !c.force_vanilla_layout),
        applies(c, v, RoomPatch { room: Room::IntroSpecimenChamber04, patch: PatchKind::CirclePlatform(Vec3Bits { x: 0x42100000, y: 0xc3400000, z: 0xc21c0000 }) }) <==> (!c.skip_frigate && !c.force_vanilla_layout),
{
    lemma_plan_index(c, v);
    lemma_applies(c, v, RoomPatch { room: Room::IntroHangerConnect01, patch: PatchKind::PostPqFrigate });
    assert(plan_entry(c, v, 98).1 == RoomPatch { room: Room::IntroHangerConnect01, patch: PatchKind::PostPqFrigate });
    assert(plan_index(RoomPatch { room: Room::IntroHangerConnect01, patch: PatchKind::PostPqFrigate }) == 98);
    lemma_applies(c, v, RoomPatch { room: Room::IntroMechshaft00h, patch: PatchKind::PostPqFrigate });
    assert(plan_entry(c, v, 99).1 == RoomPatch { room: Room::IntroMechshaft00h, patch: PatchKind::PostPqFrigate });
    assert(plan_index(RoomPatch { room: Room::IntroMechshaft00h, patch: PatchKind::PostPqFrigate }) == 99);
    lemma_applies(c, v, RoomPatch { room: Room::IntroSpecimenChamber04, patch: PatchKind::PostPqFrigate });
    assert(plan_entry(c, v, 100).1 == RoomPatch { room: Room::IntroSpecimenChamber04, patch: PatchKind::PostPqFrigate });
    assert(plan_index(RoomPatch { room: Room::IntroSpecimenChamber04, patch: PatchKind::PostPqFrigate }) == 100);
    lemma_applies(c, v, RoomPatch { room: Room::IntroFreightLifts06, patch: PatchKind::PostPqFrigate });
    assert(plan_entry(c, v, 101).1 == RoomPatch { room: Room::IntroFreightLifts06, patch: PatchKind::PostPqFrigate });
    assert(plan_index(RoomPatch { room: Room::IntroFreightLifts06, patch: PatchKind::PostPqFrigate }) == 101);
    lemma_applies(c, v, RoomPatch { room: Room::IntroToReactor06, patch: PatchKind::PostPqFrigate });
    assert(plan_entry(c, v, 102).1 == RoomPatch { room: Room::IntroToReactor06, patch: PatchKind::PostPqFrigate });
    assert(plan_index(RoomPatch { room: Room::IntroToReactor06, patch: PatchKind::PostPqFrigate }) == 102);
    lemma_applies(c, v, RoomPatch { room: Room::IntroElevator02, patch: PatchKind::PostPqFrigate });
    assert(plan_entry(c, v, 103).1 == RoomPatch { room: Room::IntroElevator02, patch: PatchKind::PostPqFrigate });
    assert(plan_index(RoomPatch { room: Room::IntroElevator02, patch: PatchKind::PostPqFrigate }) == 103);
    lemma_applies(c, v, RoomPatch { room: Room::IntroSpecimenChamber04, patch: PatchKind::CirclePlatform(Vec3Bits { x: 0x422c0000, y: 0xc3420000, z: 0xc2300000 }) });
    assert(plan_entry(c, v, 104).1 == RoomPatch { room: Room::IntroSpecimenChamber04, patch: PatchKind::CirclePlatform(Vec3Bits { x: 0x422c0000, y: 0xc3420000, z: 0xc2300000 }) });
    assert(plan_index(RoomPatch { room: Room::IntroSpecimenChamber04, patch: PatchKind::CirclePlatform(Vec3Bits { x: 0x422c0000, y: 0xc3420000, z: 0xc2300000 }) }) == 104);
    lemma_applies(c, v, RoomPatch { room: Room::IntroSpecimenChamber04, patch: PatchKind::CirclePlatform(Vec3Bits { x: 0x421c0000, y: 0xc33a0000, z: 0xc2240000 }) });
    assert(plan_entry(c, v, 105).1 == RoomPatch { room: Room::IntroSpecimenChamber04, patch: PatchKind::CirclePlatform(Vec3Bits { x: 0x421c0000, y: 0xc33a0000, z: 0xc2240000 }) });
    assert(plan_index(RoomPatch { room: Room::IntroSpecimenChamber04, patch: PatchKind::CirclePlatform(Vec3Bits { x: 0x421c0000, y: 0xc33a0000, z: 0xc2240000 }) }) == 105);
    lemma_applies(c, v, RoomPatch { room: Room::IntroSpecimenChamber04, patch: PatchKind::CirclePlatform(Vec3Bits { x: 0x42100000, y: 0xc3350000, z: 0xc21c0000 }) });
    assert(plan_entry(c, v, 106).1 == RoomPatch { room: Room::IntroSpecimenChamber04, patch: PatchKind::CirclePlatform(Vec3Bits { x: 0x42100000, y: 0xc3350000, z: 0xc21c0000 }) });
    assert(plan_index(RoomPatch { room: Room::IntroSpecimenChamber04, patch: PatchKind::CirclePlatform(Vec3Bits { x: 0x42100000, y: 0xc3350000, z: 0xc21c0000 }) }) == 106);
    lemma_applies(c, v, RoomPatch { room: Room::IntroSpecimenChamber04, patch: PatchKind::CirclePlatform(Vec3Bits { x: 0x42100000, y: 0xc3400000, z: 0xc21c0000 }) });
    assert(plan_entry(c, v, 107).1 == RoomPatch { room: Room::IntroSpecimenChamber04, patch: PatchKind::CirclePlatform(Vec3Bits { x: 0x42100000, y: 0xc3400000, z: 0xc21c0000 }) });
    assert(plan_index(RoomPatch { room: Room::IntroSpecimenChamber04, patch: PatchKind::CirclePlatform(Vec3Bits { x: 0x42100000, y: 0xc3400000, z: 0xc21c0000 }) }) == 107);
}

/// The room patches that apply when the layout is not vanilla and the game starts elsewhere or skips the major cutscenes: each applies exactly then, whatever the other
/// choices.
#[verifier::rlimit(100)]
pub proof fn lemma_plan_landing_site_triggers(c: PatchPlanInput, v: Version)
    ensures
        applies(c, v, RoomPatch { room: Room::OverMainplaza01, patch: PatchKind::LandingSiteCutsceneTriggers }) <==> (!c.force_vanilla_layout && (!c.starts_at_landing_site || c.qol_cutscenes == CutsceneMode::Major)),
{
    lemma_plan_index(c, v);
    lemma_applies(c, v, RoomPatch { room: Room::OverMainplaza01, patch: PatchKind::LandingSiteCutsceneTriggers });
    assert(plan_entry(c, v, 108).1 == RoomPatch { room: Room::OverMainplaza01, patch: PatchKind::LandingSiteCutsceneTriggers });
    assert(plan_index(RoomPatch { room: Room::OverMainplaza01, patch: PatchKind::LandingSiteCutsceneTriggers }) == 108);
}

/// The room patches that apply on version 0-00: each applies exactly then, whatever the other
/// choices.
#[verifier::rlimit(100)]
pub proof fn lemma_plan_essence_whitescreen(c: PatchPlanInput, v: Version)
    ensures
        applies(c, v, RoomPatch { room: Room::Crater03f, patch: PatchKind::EssenceCinematicSkipWhitescreen }) <==> (v == Version::NtscU0_00),
{
    lemma_plan_index(c, v);
    lemma_applies(c, v, RoomPatch { room: Room::Crater03f, patch: PatchKind::EssenceCinematicSkipWhitescreen });
    assert(plan_entry(c, v, 109).1 == RoomPatch { room: Room::Crater03f, patch: PatchKind::EssenceCinematicSkipWhitescreen });
    assert(plan_index(RoomPatch { room: Room::Crater03f, patch: PatchKind::EssenceCinematicSkipWhitescreen }) == 109);
}

/// The room patches that apply on versions 0-00, 0-02 and PAL: each applies exactly then, whatever the other
/// choices.
#[verifier::rlimit(100)]
pub proof fn lemma_plan_essence_nomusic(c: PatchPlanInput, v: Version)
    ensures
        applies(c, v, RoomPatch { room: Room::Crater03f, patch: PatchKind::EssenceCinematicSkipNomusic }) <==> ((v == Version::NtscU0_00 || v == Version::NtscU0_02 || v == Version::Pal)),
{
    lemma_plan_index(c, v);
    lemma_applies(c, v, RoomPatch { room: Room::Crater03f, patch: PatchKind::EssenceCinematicSkipNomusic });
    assert(plan_entry(c, v, 110).1 == RoomPatch { room: Room::Crater03f, patch: PatchKind::EssenceCinematicSkipNomusic });
    assert(plan_index(RoomPatch { room: Room::Crater03f, patch: PatchKind::EssenceCinematicSkipNomusic }) == 110);
}

/// The room patches that apply when game-breaking bugs are fixed: each applies exactly then, whatever the other
/// choices.
#[verifier::rlimit(100)]
pub proof fn lemma_plan_game_breaking_fixes(c: PatchPlanInput, v: Version)
    ensures
        applies(c, v, RoomPatch { room: Room::MinesConnect00j, patch: PatchKind::FixCentralDynamoCrash }) <==> (c.qol_game_breaking),
        applies(c, v, RoomPatch { room: Room::MinesConnect00p, patch: PatchKind::FixPcaCrash }) <==> (c.qol_game_breaking),
        applies(c, v, RoomPatch { room: Room::Morphballtunnel1a, patch: PatchKind::SpawnPointPosition { position: Vec3Bits { x: 0x42f90f5c, y: 0xc29f8f5c, z: 0x41b6b852 }, relative: false, force_default: false } }) <==> (c.qol_game_breaking),
        applies(c, v, RoomPatch { room: Room::Bathhall05, patch: PatchKind::SpawnPointPosition { position: Vec3Bits { x: 0x43528312, y: 0xc2a4d917, z: 0x4199bd3c }, relative: false, force_default: false } }) <==> (c.qol_game_breaking),
        applies(c, v, RoomPatch { room: Room::MinesSavestationB00, patch: PatchKind::SpawnPointPosition { position: Vec3Bits { x: 0x4358b979, y: 0x408cf27c, z: 0xc30be326 }, relative: false, force_default: true } }) <==> (c.qol_game_breaking),
        applies(c, v, RoomPatch { room: Room::IntroVentshaft08b, patch: PatchKind::RemoveTwoIds(0x0013001A, 0x0013001C) }) <==> (c.qol_game_breaking),
        applies(c, v, RoomPatch { room: Room::MinesEliteboss12, patch: PatchKind::CutsceneForcePhazonSuit }) <==> (c.qol_game_breaking),
{
    lemma_plan_index(c, v);
    lemma_applies(c, v, RoomPatch { room: Room::MinesConnect00j, patch: PatchKind::FixCentralDynamoCrash });
    assert(plan_entry(c, v, 111).1 == RoomPatch { room: Room::MinesConnect00j, patch: PatchKind::FixCentralDynamoCrash });
    assert(plan_index(RoomPatch { room: Room::MinesConnect00j, patch: PatchKind::FixCentralDynamoCrash }) == 111);
    lemma_applies(c, v, RoomPatch { room: Room::MinesConnect00p, patch: PatchKind::FixPcaCrash });
    assert(plan_entry(c, v, 112).1 == RoomPatch { room: Room::MinesConnect00p, patch: PatchKind::FixPcaCrash });
    assert(plan_index(RoomPatch { room: Room::MinesConnect00p, patch: PatchKind::FixPcaCrash }) == 112);
    lemma_applies(c, v, RoomPatch { room: Room::Morphballtunnel1a, patch: PatchKind::SpawnPointPosition { position: Vec3Bits { x: 0x42f90f5c, y: 0xc29f8f5c, z: 0x41b6b852 }, relative: false, force_default: false } });
    assert(plan_entry(c, v, 113).1 == RoomPatch { room: Room::Morphballtunnel1a, patch: PatchKind::SpawnPointPosition { position: Vec3Bits { x: 0x42f90f5c, y: 0xc29f8f5c, z: 0x41b6b852 }, relative: false, force_default: false } });
    assert(plan_index(RoomPatch { room: Room::Morphballtunnel1a, patch: PatchKind::SpawnPointPosition { position: Vec3Bits { x: 0x42f90f5c, y: 0xc29f8f5c, z: 0x41b6b852 }, relative: false, force_default: false } }) == 113);
    lemma_applies(c, v, RoomPatch { room: Room::Bathhall05, patch: PatchKind::SpawnPointPosition { position: Vec3Bits { x: 0x43528312, y: 0xc2a4d917, z: 0x4199bd3c }, relative: false, force_default: false } });
    assert(plan_entry(c, v, 114).1 == RoomPatch { room: Room::Bathhall05, patch: PatchKind::SpawnPointPosition { position: Vec3Bits { x: 0x43528312, y: 0xc2a4d917, z: 0x4199bd3c }, relative: false, force_default: false } });
    assert(plan_index(RoomPatch { room: Room::Bathhall05, patch: PatchKind::SpawnPointPosition { position: Vec3Bits { x: 0x43528312, y: 0xc2a4d917, z: 0x4199bd3c }, relative: false, force_default: false } }) == 114);
    lemma_applies(c, v, RoomPatch { room: Room::MinesSavestationB00, patch: PatchKind::SpawnPointPosition { position: Vec3Bits { x: 0x4358b979, y: 0x408cf27c, z: 0xc30be326 }, relative: false, force_default: true } });
    assert(plan_entry(c, v, 115).1 == RoomPatch { room: Room::MinesSavestationB00, patch: PatchKind::SpawnPointPosition { position: Vec3Bits { x: 0x4358b979, y: 0x408cf27c, z: 0xc30be326 }, relative: false, force_default: true } });
    assert(plan_entry(c, v, 116).1 == RoomPatch { room: Room::MinesSavestationB00, patch: PatchKind::SpawnPointPosition { position: Vec3Bits { x: 0x4358b979, y: 0x408cf27c, z: 0xc30be326 }, relative: false, force_default: true } });
    assert(plan_index(RoomPatch { room: Room::MinesSavestationB00, patch: PatchKind::SpawnPointPosition { position: Vec3Bits { x: 0x4358b979, y: 0x408cf27c, z: 0xc30be326 }, relative: false, force_default: true } }) == 115);
    lemma_applies(c, v, RoomPatch { room: Room::IntroVentshaft08b, patch: PatchKind::RemoveTwoIds(0x0013001A, 0x0013001C) });
    assert(plan_entry(c, v, 117).1 == RoomPatch { room: Room::IntroVentshaft08b, patch: PatchKind::RemoveTwoIds(0x0013001A, 0x0013001C) });
    assert(plan_index(RoomPatch { room: Room::IntroVentshaft08b, patch: PatchKind::RemoveTwoIds(0x0013001A, 0x0013001C) }) == 117);
    lemma_applies(c, v, RoomPatch { room: Room::MinesEliteboss12, patch: PatchKind::CutsceneForcePhazonSuit });
    assert(plan_entry(c, v, 120).1 == RoomPatch { room: Room::MinesEliteboss12, patch: PatchKind::CutsceneForcePhazonSuit });
    assert(plan_index(RoomPatch { room: Room::MinesEliteboss12, patch: PatchKind::CutsceneForcePhazonSuit }) == 120);
}

/// The room patches that apply when game-breaking bugs are fixed and Samus is small: each applies exactly then, whatever the other
/// choices.
#[verifier::rlimit(100)]
pub proof fn lemma_plan_small_samus_spawns(c: PatchPlanInput, v: Version)
    ensures
        applies(c, v, RoomPatch { room: Room::OverMainplaza01, patch: PatchKind::SpawnPointPosition { position: Vec3Bits { x: 0, y: 0, z: 0x3f000000 }, relative: true, force_default: false } }) <==> (c.qol_game_breaking && c.small_samus),
        applies(c, v, RoomPatch { room: Room::ElevLavaB0, patch: PatchKind::SpawnPointPosition { position: Vec3Bits { x: 0, y: 0, z: 0x3f333333 }, relative: true, force_default: false } }) <==> (c.qol_game_breaking && c.small_samus),
{
    lemma_plan_index(c, v);
    lemma_applies(c, v, RoomPatch { room: Room::OverMainplaza01, patch: PatchKind::SpawnPointPosition { position: Vec3Bits { x: 0, y: 0, z: 0x3f000000 }, relative: true, force_default: false } });
    assert(plan_entry(c, v, 118).1 == RoomPatch { room: Room::OverMainplaza01, patch: PatchKind::SpawnPointPosition { position: Vec3Bits { x: 0, y: 0, z: 0x3f000000 }, relative: true, force_default: false } });
    assert(plan_index(RoomPatch { room: Room::OverMainplaza01, patch: PatchKind::SpawnPointPosition { position: Vec3Bits { x: 0, y: 0, z: 0x3f000000 }, relative: true, force_default: false } }) == 118);
    lemma_applies(c, v, RoomPatch { room: Room::ElevLavaB0, patch: PatchKind::SpawnPointPosition { position: Vec3Bits { x: 0, y: 0, z: 0x3f333333 }, relative: true, force_default: false } });
    assert(plan_entry(c, v, 119).1 == RoomPatch { room: Room::ElevLavaB0, patch: PatchKind::SpawnPointPosition { position: Vec3Bits { x: 0, y: 0, z: 0x3f333333 }, relative: true, force_default: false } });
    assert(plan_index(RoomPatch { room: Room::ElevLavaB0, patch: PatchKind::SpawnPointPosition { position: Vec3Bits { x: 0, y: 0, z: 0x3f333333 }, relative: true, force_default: false } }) == 119);
}

/// The room patches that apply with game-breaking fixes, a non-vanilla layout and version 0-00: each applies exactly then, whatever the other
/// choices.
#[verifier::rlimit(100)]
pub proof fn lemma_plan_research_core_access(c: PatchPlanInput, v: Version)
    ensures
        applies(c, v, RoomPatch { room: Room::IceConnect00n, patch: PatchKind::ResearchCoreAccessSoftLock }) <==> (c.qol_game_breaking && !c.force_vanilla_layout && v == Version::NtscU0_00),
{
    lemma_plan_index(c, v);
    lemma_applies(c, v, RoomPatch { room: Room::IceConnect00n, patch: PatchKind::ResearchCoreAccessSoftLock });
    assert(plan_entry(c, v, 121).1 == RoomPatch { room: Room::IceConnect00n, patch: PatchKind::ResearchCoreAccessSoftLock });
    assert(plan_index(RoomPatch { room: Room::IceConnect00n, patch: PatchKind::ResearchCoreAccessSoftLock }) == 121);
}

/// The room patches that apply with game-breaking fixes, a non-vanilla layout and a version other than 0-00: each applies exactly then, whatever the other
/// choices.
#[verifier::rlimit(100)]
pub proof fn lemma_plan_arboretum_invisible_wall(c: PatchPlanInput, v: Version)
    ensures
        applies(c, v, RoomPatch { room: Room::Courtyard08, patch: PatchKind::ArboretumInvisibleWall }) <==> (c.qol_game_breaking && !c.force_vanilla_layout && v != Version::NtscU0_00),
{
    lemma_plan_index(c, v);
    lemma_applies(c, v, RoomPatch { room: Room::Courtyard08, patch: PatchKind::ArboretumInvisibleWall });
    assert(plan_entry(c, v, 122).1 == RoomPatch { room: Room::Courtyard08, patch: PatchKind::ArboretumInvisibleWall });
    assert(plan_index(RoomPatch { room: Room::Courtyard08, patch: PatchKind::ArboretumInvisibleWall }) == 122);
}

/// The room patches that apply with game-breaking fixes, a non-vanilla layout and a version after 0-01: each applies exactly then, whatever the other
/// choices.
#[verifier::rlimit(100)]
pub proof fn lemma_plan_ruined_courtyard_conduits(c: PatchPlanInput, v: Version)
    ensures
        applies(c, v, RoomPatch { room: Room::IceShorelines05, patch: PatchKind::RuinedCourtyardThermalConduits }) <==> (c.qol_game_breaking && !c.force_vanilla_layout && v != Version::NtscU0_00 && v != Version::NtscU0_01),
{
    lemma_plan_index(c, v);
    lemma_applies(c, v, RoomPatch { room: Room::IceShorelines05, patch: PatchKind::RuinedCourtyardThermalConduits });
    assert(plan_entry(c, v, 123).1 == RoomPatch { room: Room::IceShorelines05, patch: PatchKind::RuinedCourtyardThermalConduits });
    assert(plan_index(RoomPatch { room: Room::IceShorelines05, patch: PatchKind::RuinedCourtyardThermalConduits }) == 123);
}

/// The room patches that apply with game-breaking fixes, a non-vanilla layout and version 0-02: each applies exactly then, whatever the other
/// choices.
#[verifier::rlimit(100)]
pub proof fn lemma_plan_door_locks_0_02(c: PatchPlanInput, v: Version)
    ensures
        applies(c, v, RoomPatch { room: Room::MinesMainplaza01, patch: PatchKind::MainQuarryDoorLock0_02 }) <==> (c.qol_game_breaking && !c.force_vanilla_layout && v == Version::NtscU0_02),
        applies(c, v, RoomPatch { room: Room::OverBurningeffigy13, patch: PatchKind::GeothermalCoreDoorLock0_02 }) <==> (c.qol_game_breaking && !c.force_vanilla_layout && v == Version::NtscU0_02),
        applies(c, v, RoomPatch { room: Room::HiveTotem19, patch: PatchKind::HiveTotemBossTrigger0_02 }) <==> (c.qol_game_breaking && !c.force_vanilla_layout && v == Version::NtscU0_02),
        applies(c, v, RoomPatch { room: Room::MinesPillar04, patch: PatchKind::OreProcessingDoorLock0_02 }) <==> (c.qol_game_breaking && !c.force_vanilla_layout && v == Version::NtscU0_02),
{
    lemma_plan_index(c, v);
    lemma_applies(c, v, RoomPatch { room: Room::MinesMainplaza01, patch: PatchKind::MainQuarryDoorLock0_02 });
    assert(plan_entry(c, v, 124).1 == RoomPatch { room: Room::MinesMainplaza01, patch: PatchKind::MainQuarryDoorLock0_02 });
    assert(plan_index(RoomPatch { room: Room::MinesMainplaza01, patch: PatchKind::MainQuarryDoorLock0_02 }) == 124);
    lemma_applies(c, v, RoomPatch { room: Room::OverBurningeffigy13, patch: PatchKind::GeothermalCoreDoorLock0_02 });
    assert(plan_entry(c, v, 125).1 == RoomPatch { room: Room::OverBurningeffigy13, patch: PatchKind::GeothermalCoreDoorLock0_02 });
    assert(plan_index(RoomPatch { room: Room::OverBurningeffigy13, patch: PatchKind::GeothermalCoreDoorLock0_02 }) == 125);
    lemma_applies(c, v, RoomPatch { room: Room::HiveTotem19, patch: PatchKind::HiveTotemBossTrigger0_02 });
    assert(plan_entry(c, v, 126).1 == RoomPatch { room: Room::HiveTotem19, patch: PatchKind::HiveTotemBossTrigger0_02 });
    assert(plan_index(RoomPatch { room: Room::HiveTotem19, patch: PatchKind::HiveTotemBossTrigger0_02 }) == 126);
    lemma_applies(c, v, RoomPatch { room: Room::MinesPillar04, patch: PatchKind::OreProcessingDoorLock0_02 });
    assert(plan_entry(c, v, 127).1 == RoomPatch { room: Room::MinesPillar04, patch: PatchKind::OreProcessingDoorLock0_02 });
    assert(plan_index(RoomPatch { room: Room::MinesPillar04, patch: PatchKind::OreProcessingDoorLock0_02 }) == 127);
}

/// The room patches that apply with game-breaking fixes, a non-vanilla layout and a PAL, Japanese or Trilogy version: each applies exactly then, whatever the other
/// choices.
#[verifier::rlimit(100)]
pub proof fn lemma_plan_destructible_rocks_pal(c: PatchPlanInput, v: Version)
    ensures
        applies(c, v, RoomPatch { room: Room::MinesPillar04, patch: PatchKind::OreProcessingDestructibleRockPal }) <==> (c.qol_game_breaking && !c.force_vanilla_layout && (v == Version::Pal || v == Version::NtscJ || v == Version::NtscUTrilogy || v == Version::NtscJTrilogy || v == Version::PalTrilogy)),
        applies(c, v, RoomPatch { room: Room::OverBurningeffigy13, patch: PatchKind::GeothermalCoreDestructibleRockPal }) <==> (c.qol_game_breaking && !c.force_vanilla_layout && (v == Version::Pal || v == Version::NtscJ || v == Version::NtscUTrilogy || v == Version::NtscJTrilogy || v == Version::PalTrilogy)),
{
    lemma_plan_index(c, v);
    lemma_applies(c, v, RoomPatch { room: Room::MinesPillar04, patch: PatchKind::OreProcessingDestructibleRockPal });
    assert(plan_entry(c, v, 128).1 == RoomPatch { room: Room::MinesPillar04, patch: PatchKind::OreProcessingDestructibleRockPal });
    assert(plan_index(RoomPatch { room: Room::MinesPillar04, patch: PatchKind::OreProcessingDestructibleRockPal }) == 128);
    lemma_applies(c, v, RoomPatch { room: Room::OverBurningeffigy13, patch: PatchKind::GeothermalCoreDestructibleRockPal });
    assert(plan_entry(c, v, 129).1 == RoomPatch { room: Room::OverBurningeffigy13, patch: PatchKind::GeothermalCoreDestructibleRockPal });
    assert(plan_index(RoomPatch { room: Room::OverBurningeffigy13, patch: PatchKind::GeothermalCoreDestructibleRockPal }) == 129);
}

/// The room patches that apply with game-breaking fixes, a non-vanilla layout and the PAL version: each applies exactly then, whatever the other
/// choices.
#[verifier::rlimit(100)]
pub proof fn lemma_plan_main_quarry_door_lock_pal(c: PatchPlanInput, v: Version)
    ensures
        applies(c, v, RoomPatch { room: Room::MinesMainplaza01, patch: PatchKind::MainQuarryDoorLockPal }) <==> (c.qol_game_breaking && !c.force_vanilla_layout && v == Version::Pal),
{
    lemma_plan_index(c, v);
    lemma_applies(c, v, RoomPatch { room: Room::MinesMainplaza01, patch: PatchKind::MainQuarryDoorLockPal });
    assert(plan_entry(c, v, 130).1 == RoomPatch { room: Room::MinesMainplaza01, patch: PatchKind::MainQuarryDoorLockPal });
    assert(plan_index(RoomPatch { room: Room::MinesMainplaza01, patch: PatchKind::MainQuarryDoorLockPal }) == 130);
}

/// The room patches that apply with game-breaking fixes and a non-vanilla layout: each applies exactly then, whatever the other
/// choices.
#[verifier::rlimit(100)]
pub proof fn lemma_plan_softlocks(c: PatchPlanInput, v: Version)
    ensures
        applies(c, v, RoomPatch { room: Room::Flaahgra22, patch: PatchKind::SunchamberPreventWildBeforeFlaahgra }) <==> (c.qol_game_breaking && !c.force_vanilla_layout),
        applies(c, v, RoomPatch { room: Room::ConnectTunnel0v, patch: PatchKind::SunTowerPreventWildBeforeFlaahgra }) <==> (c.qol_game_breaking && !c.force_vanilla_layout),
        applies(c, v, RoomPatch { room: Room::IceVault13, patch: PatchKind::ResearchLabAetherExplodingWall }) <==> (c.qol_game_breaking && !c.force_vanilla_layout),
        applies(c, v, RoomPatch { room: Room::IceResearchB12, patch: PatchKind::ResearchLabAetherExplodingWall2 }) <==> (c.qol_game_breaking && !c.force_vanilla_layout),
        applies(c, v, RoomPatch { room: Room::IceObservatory11, patch: PatchKind::Observatory2ndPassSolvability }) <==> (c.qol_game_breaking && !c.force_vanilla_layout),
        applies(c, v, RoomPatch { room: Room::IceObservatory11, patch: PatchKind::Observatory1stPassSoftlock }) <==> (c.qol_game_breaking && !c.force_vanilla_layout),
        applies(c, v, RoomPatch { room: Room::MinesShotemup02, patch: PatchKind::MinesSecurityStationSoftLock }) <==> (c.qol_game_breaking && !c.force_vanilla_layout),
        applies(c, v, RoomPatch { room: Room::IceGravityChamber18, patch: PatchKind::GravityChamberStalactiteGrapplePoint }) <==> (c.qol_game_breaking && !c.force_vanilla_layout),
        applies(c, v, RoomPatch { room: Room::HiveTotem19, patch: PatchKind::HiveTotemSoftlock }) <==> (c.qol_game_breaking && !c.force_vanilla_layout),
{
    lemma_plan_index(c, v);
    lemma_applies(c, v, RoomPatch { room: Room::Flaahgra22, patch: PatchKind::SunchamberPreventWildBeforeFlaahgra });
    assert(plan_entry(c, v, 131).1 == RoomPatch { room: Room::Flaahgra22, patch: PatchKind::SunchamberPreventWildBeforeFlaahgra });
    assert(plan_index(RoomPatch { room: Room::Flaahgra22, patch: PatchKind::SunchamberPreventWildBeforeFlaahgra }) == 131);
    lemma_applies(c, v, RoomPatch { room: Room::ConnectTunnel0v, patch: PatchKind::SunTowerPreventWildBeforeFlaahgra });
    assert(plan_entry(c, v, 132).1 == RoomPatch { room: Room::ConnectTunnel0v, patch: PatchKind::SunTowerPreventWildBeforeFlaahgra });
    assert(plan_index(RoomPatch { room: Room::ConnectTunnel0v, patch: PatchKind::SunTowerPreventWildBeforeFlaahgra }) == 132);
    lemma_applies(c, v, RoomPatch { room: Room::IceVault13, patch: PatchKind::ResearchLabAetherExplodingWall });
    assert(plan_entry(c, v, 133).1 == RoomPatch { room: Room::IceVault13, patch: PatchKind::ResearchLabAetherExplodingWall });
    assert(plan_index(RoomPatch { room: Room::IceVault13, patch: PatchKind::ResearchLabAetherExplodingWall }) == 133);
    lemma_applies(c, v, RoomPatch { room: Room::IceResearchB12, patch: PatchKind::ResearchLabAetherExplodingWall2 });
    assert(plan_entry(c, v, 134).1 == RoomPatch { room: Room::IceResearchB12, patch: PatchKind::ResearchLabAetherExplodingWall2 });
    assert(plan_index(RoomPatch { room: Room::IceResearchB12, patch: PatchKind::ResearchLabAetherExplodingWall2 }) == 134);
    lemma_applies(c, v, RoomPatch { room: Room::IceObservatory11, patch: PatchKind::Observatory2ndPassSolvability });
    assert(plan_entry(c, v, 135).1 == RoomPatch { room: Room::IceObservatory11, patch: PatchKind::Observatory2ndPassSolvability });
    assert(plan_index(RoomPatch { room: Room::IceObservatory11, patch: PatchKind::Observatory2ndPassSolvability }) == 135);
    lemma_applies(c, v, RoomPatch { room: Room::IceObservatory11, patch: PatchKind::Observatory1stPassSoftlock });
    assert(plan_entry(c, v, 136).1 == RoomPatch { room: Room::IceObservatory11, patch: PatchKind::Observatory1stPassSoftlock });
    assert(plan_index(RoomPatch { room: Room::IceObservatory11, patch: PatchKind::Observatory1stPassSoftlock }) == 136);
    lemma_applies(c, v, RoomPatch { room: Room::MinesShotemup02, patch: PatchKind::MinesSecurityStationSoftLock });
    assert(plan_entry(c, v, 137).1 == RoomPatch { room: Room::MinesShotemup02, patch: PatchKind::MinesSecurityStationSoftLock });
    assert(plan_index(RoomPatch { room: Room::MinesShotemup02, patch: PatchKind::MinesSecurityStationSoftLock }) == 137);
    lemma_applies(c, v, RoomPatch { room: Room::IceGravityChamber18, patch: PatchKind::GravityChamberStalactiteGrapplePoint });
    assert(plan_entry(c, v, 138).1 == RoomPatch { room: Room::IceGravityChamber18, patch: PatchKind::GravityChamberStalactiteGrapplePoint });
    assert(plan_index(RoomPatch { room: Room::IceGravityChamber18, patch: PatchKind::GravityChamberStalactiteGrapplePoint }) == 138);
    lemma_applies(c, v, RoomPatch { room: Room::HiveTotem19, patch: PatchKind::HiveTotemSoftlock });
    assert(plan_entry(c, v, 139).1 == RoomPatch { room: Room::HiveTotem19, patch: PatchKind::HiveTotemSoftlock });
    assert(plan_index(RoomPatch { room: Room::HiveTotem19, patch: PatchKind::HiveTotemSoftlock }) == 139);
}

/// The room patches that apply with game-breaking fixes when beating the Essence leads elsewhere: each applies exactly then, whatever the other
/// choices.
#[verifier::rlimit(100)]
pub proof fn lemma_plan_boss_permadeath(c: PatchPlanInput, v: Version)
    ensures
        applies(c, v, RoomPatch { room: Room::Crater03a, patch: PatchKind::FinalBossPermadeath }) <==> (c.qol_game_breaking && c.boss_permadeath),
        applies(c, v, RoomPatch { room: Room::Crater03b, patch: PatchKind::FinalBossPermadeath }) <==> (c.qol_game_breaking && c.boss_permadeath),
        applies(c, v, RoomPatch { room: Room::Crater03c, patch: PatchKind::FinalBossPermadeath }) <==> (c.qol_game_breaking && c.boss_permadeath),
        applies(c, v, RoomPatch { room: Room::Crater03d, patch: PatchKind::FinalBossPermadeath }) <==> (c.qol_game_breaking && c.boss_permadeath),
        applies(c, v, RoomPatch { room: Room::Crater03e, patch: PatchKind::FinalBossPermadeath }) <==> (c.qol_game_breaking && c.boss_permadeath),
        applies(c, v, RoomPatch { room: Room::Crater03f, patch: PatchKind::FinalBossPermadeath }) <==> (c.qol_game_breaking && c.boss_permadeath),
        applies(c, v, RoomPatch { room: Room::FCrater03e, patch: PatchKind::SubchamberFiveNintendontFix }) <==> (c.qol_game_breaking && c.boss_permadeath),
        applies(c, v, RoomPatch { room: Room::FCrater03e, patch: PatchKind::RemoveCutscenes { ids: 0, use_timers: true } }) <==> (c.qol_game_breaking && c.boss_permadeath),
        applies(c, v, RoomPatch { room: Room::Crater03f, patch: PatchKind::DockTeleport { source_position: Vec3Bits { x: 0x422bd208, y: 0xc38f9619, z: 0xc38b0acc }, source_scale: Vec3Bits { x: 0x42960000, y: 0x42960000, z: 0x42480000 }, destination_dock: 0, spawn_position: Some(Vec3Bits { x: 0x42262560, y: 0xc38fedd6, z: 0xc38e4d1f }) } }) <==> (c.qol_game_breaking && c.boss_permadeath),
{
    lemma_plan_index(c, v);
    lemma_applies(c, v, RoomPatch { room: Room::Crater03a, patch: PatchKind::FinalBossPermadeath });
    assert(plan_entry(c, v, 140).1 == RoomPatch { room: Room::Crater03a, patch: PatchKind::FinalBossPermadeath });
    assert(plan_index(RoomPatch { room: Room::Crater03a, patch: PatchKind::FinalBossPermadeath }) == 140);
    lemma_applies(c, v, RoomPatch { room: Room::Crater03b, patch: PatchKind::FinalBossPermadeath });
    assert(plan_entry(c, v, 141).1 == RoomPatch { room: Room::Crater03b, patch: PatchKind::FinalBossPermadeath });
    assert(plan_index(RoomPatch { room: Room::Crater03b, patch: PatchKind::FinalBossPermadeath }) == 141);
    lemma_applies(c, v, RoomPatch { room: Room::Crater03c, patch: PatchKind::FinalBossPermadeath });
    assert(plan_entry(c, v, 142).1 == RoomPatch { room: Room::Crater03c, patch: PatchKind::FinalBossPermadeath });
    assert(plan_index(RoomPatch { room: Room::Crater03c, patch: PatchKind::FinalBossPermadeath }) == 142);
    lemma_applies(c, v, RoomPatch { room: Room::Crater03d, patch: PatchKind::FinalBossPermadeath });
    assert(plan_entry(c, v, 143).1 == RoomPatch { room: Room::Crater03d, patch: PatchKind::FinalBossPermadeath });
    assert(plan_index(RoomPatch { room: Room::Crater03d, patch: PatchKind::FinalBossPermadeath }) == 143);
    lemma_applies(c, v, RoomPatch { room: Room::Crater03e, patch: PatchKind::FinalBossPermadeath });
    assert(plan_entry(c, v, 144).1 == RoomPatch { room: Room::Crater03e, patch: PatchKind::FinalBossPermadeath });
    assert(plan_index(RoomPatch { room: Room::Crater03e, patch: PatchKind::FinalBossPermadeath }) == 144);
    lemma_applies(c, v, RoomPatch { room: Room::Crater03f, patch: PatchKind::FinalBossPermadeath });
    assert(plan_entry(c, v, 145).1 == RoomPatch { room: Room::Crater03f, patch: PatchKind::FinalBossPermadeath });
    assert(plan_index(RoomPatch { room: Room::Crater03f, patch: PatchKind::FinalBossPermadeath }) == 145);
    lemma_applies(c, v, RoomPatch { room: Room::FCrater03e, patch: PatchKind::SubchamberFiveNintendontFix });
    assert(plan_entry(c, v, 146).1 == RoomPatch { room: Room::FCrater03e, patch: PatchKind::SubchamberFiveNintendontFix });
    assert(plan_index(RoomPatch { room: Room::FCrater03e, patch: PatchKind::SubchamberFiveNintendontFix }) == 146);
    lemma_applies(c, v, RoomPatch { room: Room::FCrater03e, patch: PatchKind::RemoveCutscenes { ids: 0, use_timers: true } });
    assert(plan_entry(c, v, 147).1 == RoomPatch { room: Room::FCrater03e, patch: PatchKind::RemoveCutscenes { ids: 0, use_timers: true } });
    assert(plan_index(RoomPatch { room: Room::FCrater03e, patch: PatchKind::RemoveCutscenes { ids: 0, use_timers: true } }) == 147);
    lemma_applies(c, v, RoomPatch { room: Room::Crater03f, patch: PatchKind::DockTeleport { source_position: Vec3Bits { x: 0x422bd208, y: 0xc38f9619, z: 0xc38b0acc }, source_scale: Vec3Bits { x: 0x42960000, y: 0x42960000, z: 0x42480000 }, destination_dock: 0, spawn_position: Some(Vec3Bits { x: 0x42262560, y: 0xc38fedd6, z: 0xc38e4d1f }) } });
    assert(plan_entry(c, v, 148).1 == RoomPatch { room: Room::Crater03f, patch: PatchKind::DockTeleport { source_position: Vec3Bits { x: 0x422bd208, y: 0xc38f9619, z: 0xc38b0acc }, source_scale: Vec3Bits { x: 0x42960000, y: 0x42960000, z: 0x42480000 }, destination_dock: 0, spawn_position: Some(Vec3Bits { x: 0x42262560, y: 0xc38fedd6, z: 0xc38e4d1f }) } });
    assert(plan_index(RoomPatch { room: Room::Crater03f, patch: PatchKind::DockTeleport { source_position: Vec3Bits { x: 0x422bd208, y: 0xc38f9619, z: 0xc38b0acc }, source_scale: Vec3Bits { x: 0x42960000, y: 0x42960000, z: 0x42480000 }, destination_dock: 0, spawn_position: Some(Vec3Bits { x: 0x42262560, y: 0xc38fedd6, z: 0xc38e4d1f }) } }) == 148);
}

/// The room patches that apply with a non-vanilla layout and the main plaza door made two-way: each applies exactly then, whatever the other
/// choices.
#[verifier::rlimit(100)]
pub proof fn lemma_plan_main_plaza_door(c: PatchPlanInput, v: Version)
    ensures
        applies(c, v, RoomPatch { room: Room::Mainplaza01, patch: PatchKind::MainPlazaLockedDoorTwoWays }) <==> (!c.force_vanilla_layout && c.main_plaza_door),
{
    lemma_plan_index(c, v);
    lemma_applies(c, v, RoomPatch { room: Room::Mainplaza01, patch: PatchKind::MainPlazaLockedDoorTwoWays });
    assert(plan_entry(c, v, 150).1 == RoomPatch { room: Room::Mainplaza01, patch: PatchKind::MainPlazaLockedDoorTwoWays });
    assert(plan_index(RoomPatch { room: Room::Mainplaza01, patch: PatchKind::MainPlazaLockedDoorTwoWays }) == 150);
}

/// The room patches that apply with a non-vanilla layout and the phazon elite fought without the dynamo: each applies exactly then, whatever the other
/// choices.
#[verifier::rlimit(100)]
pub proof fn lemma_plan_phazon_elite(c: PatchPlanInput, v: Version)
    ensures
        applies(c, v, RoomPatch { room: Room::Mines03, patch: PatchKind::EliteResearchFightLayers }) <==> (!c.force_vanilla_layout && c.phazon_elite_without_dynamo),
        applies(c, v, RoomPatch { room: Room::MinesElectric07, patch: PatchKind::EliteResearchFightCentralDynamo }) <==> (!c.force_vanilla_layout && c.phazon_elite_without_dynamo),
{
    lemma_plan_index(c, v);
    lemma_applies(c, v, RoomPatch { room: Room::Mines03, patch: PatchKind::EliteResearchFightLayers });
    assert(plan_entry(c, v, 151).1 == RoomPatch { room: Room::Mines03, patch: PatchKind::EliteResearchFightLayers });
    assert(plan_index(RoomPatch { room: Room::Mines03, patch: PatchKind::EliteResearchFightLayers }) == 151);
    lemma_applies(c, v, RoomPatch { room: Room::MinesElectric07, patch: PatchKind::EliteResearchFightCentralDynamo });
    assert(plan_entry(c, v, 152).1 == RoomPatch { room: Room::MinesElectric07, patch: PatchKind::EliteResearchFightCentralDynamo });
    assert(plan_index(RoomPatch { room: Room::MinesElectric07, patch: PatchKind::EliteResearchFightCentralDynamo }) == 152);
}

/// The room patches that apply with a non-vanilla layout and the frigate played backwards: each applies exactly then, whatever the other
/// choices.
#[verifier::rlimit(100)]
pub proof fn lemma_plan_backwards_frigate(c: PatchPlanInput, v: Version)
    ensures
        applies(c, v, RoomPatch { room: Room::UnderIntroVentshaft08b, patch: PatchKind::MainVentilationShaftSectionBDoor }) <==> (!c.force_vanilla_layout && c.backwards_frigate),
{
    lemma_plan_index(c, v);
    lemma_applies(c, v, RoomPatch { room: Room::UnderIntroVentshaft08b, patch: PatchKind::MainVentilationShaftSectionBDoor });
    assert(plan_entry(c, v, 153).1 == RoomPatch { room: Room::UnderIntroVentshaft08b, patch: PatchKind::MainVentilationShaftSectionBDoor });
    assert(plan_index(RoomPatch { room: Room::UnderIntroVentshaft08b, patch: PatchKind::MainVentilationShaftSectionBDoor }) == 153);
}

/// The room patches that apply with a non-vanilla layout and the labs played backwards: each applies exactly then, whatever the other
/// choices.
#[verifier::rlimit(100)]
pub proof fn lemma_plan_backwards_labs(c: PatchPlanInput, v: Version)
    ensures
        applies(c, v, RoomPatch { room: Room::IceResearchA10, patch: PatchKind::ResearchLabHydraBarrier }) <==> (!c.force_vanilla_layout && c.backwards_labs),
{
    lemma_plan_index(c, v);
    lemma_applies(c, v, RoomPatch { room: Room::IceResearchA10, patch: PatchKind::ResearchLabHydraBarrier });
    assert(plan_entry(c, v, 154).1 == RoomPatch { room: Room::IceResearchA10, patch: PatchKind::ResearchLabHydraBarrier });
    assert(plan_index(RoomPatch { room: Room::IceResearchA10, patch: PatchKind::ResearchLabHydraBarrier }) == 154);
}

/// The room patches that apply with a non-vanilla layout and the upper mines played backwards: each applies exactly then, whatever the other
/// choices.
#[verifier::rlimit(100)]
pub proof fn lemma_plan_backwards_upper_mines(c: PatchPlanInput, v: Version)
    ensures
        applies(c, v, RoomPatch { room: Room::MinesMainplaza01, patch: PatchKind::MainQuarryBarrier }) <==> (!c.force_vanilla_layout && c.backwards_upper_mines),
{
    lemma_plan_index(c, v);
    lemma_applies(c, v, RoomPatch { room: Room::MinesMainplaza01, patch: PatchKind::MainQuarryBarrier });
    assert(plan_entry(c, v, 155).1 == RoomPatch { room: Room::MinesMainplaza01, patch: PatchKind::MainQuarryBarrier });
    assert(plan_index(RoomPatch { room: Room::MinesMainplaza01, patch: PatchKind::MainQuarryBarrier }) == 155);
}

/// The room patches that apply with a non-vanilla layout and the lower mines played backwards: each applies exactly then, whatever the other
/// choices.
#[verifier::rlimit(100)]
pub proof fn lemma_plan_backwards_lower_mines(c: PatchPlanInput, v: Version)
    ensures
        applies(c, v, RoomPatch { room: Room::MinesConnect00p, patch: PatchKind::BackwardsLowerMinesPca }) <==> (!c.force_vanilla_layout && c.backwards_lower_mines),
        applies(c, v, RoomPatch { room: Room::MinesConnect00o, patch: PatchKind::BackwardsLowerMinesEqa }) <==> (!c.force_vanilla_layout && c.backwards_lower_mines),
        applies(c, v, RoomPatch { room: Room::Mines11, patch: PatchKind::BackwardsLowerMinesMqb }) <==> (!c.force_vanilla_layout && c.backwards_lower_mines),
        applies(c, v, RoomPatch { room: Room::Mines08, patch: PatchKind::BackwardsLowerMinesMqa }) <==> (!c.force_vanilla_layout && c.backwards_lower_mines),
        applies(c, v, RoomPatch { room: Room::MinesForcefields05, patch: PatchKind::BackwardsLowerMinesEliteControl }) <==> (!c.force_vanilla_layout && c.backwards_lower_mines),
{
    lemma_plan_index(c, v);
    lemma_applies(c, v, RoomPatch { room: Room::MinesConnect00p, patch: PatchKind::BackwardsLowerMinesPca });
    assert(plan_entry(c, v, 156).1 == RoomPatch { room: Room::MinesConnect00p, patch: PatchKind::BackwardsLowerMinesPca });
    assert(plan_index(RoomPatch { room: Room::MinesConnect00p, patch: PatchKind::BackwardsLowerMinesPca }) == 156);
    lemma_applies(c, v, RoomPatch { room: Room::MinesConnect00o, patch: PatchKind::BackwardsLowerMinesEqa });
    assert(plan_entry(c, v, 157).1 == RoomPatch { room: Room::MinesConnect00o, patch: PatchKind::BackwardsLowerMinesEqa });
    assert(plan_index(RoomPatch { room: Room::MinesConnect00o, patch: PatchKind::BackwardsLowerMinesEqa }) == 157);
    lemma_applies(c, v, RoomPatch { room: Room::Mines11, patch: PatchKind::BackwardsLowerMinesMqb });
    assert(plan_entry(c, v, 158).1 == RoomPatch { room: Room::Mines11, patch: PatchKind::BackwardsLowerMinesMqb });
    assert(plan_index(RoomPatch { room: Room::Mines11, patch: PatchKind::BackwardsLowerMinesMqb }) == 158);
    lemma_applies(c, v, RoomPatch { room: Room::Mines08, patch: PatchKind::BackwardsLowerMinesMqa });
    assert(plan_entry(c, v, 159).1 == RoomPatch { room: Room::Mines08, patch: PatchKind::BackwardsLowerMinesMqa });
    assert(plan_index(RoomPatch { room: Room::Mines08, patch: PatchKind::BackwardsLowerMinesMqa }) == 159);
    lemma_applies(c, v, RoomPatch { room: Room::MinesForcefields05, patch: PatchKind::BackwardsLowerMinesEliteControl });
    assert(plan_entry(c, v, 160).1 == RoomPatch { room: Room::MinesForcefields05, patch: PatchKind::BackwardsLowerMinesEliteControl });
    assert(plan_index(RoomPatch { room: Room::MinesForcefields05, patch: PatchKind::BackwardsLowerMinesEliteControl }) == 160);
}

} // verus!
