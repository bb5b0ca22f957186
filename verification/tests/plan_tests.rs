use randomprime::patches::Version;
use randomprime::plan::{
    cutscene_ids, CutsceneMode,
    essence_leads_elsewhere, plan_room_patches, PatchKind, PatchPlanInput, Room, RoomPatch, Vec3Bits,
};

fn config() -> PatchPlanInput {
    PatchPlanInput {
        force_vanilla_layout: false,
        patch_power_conduits: false,
        remove_mine_security_station_locks: false,
        remove_hive_mecha: false,
        power_bomb_arboretum_sandstone: false,
        skip_frigate: true,
        disable_item_loss: false,
        starts_at_landing_site: true,
        qol_cutscenes: CutsceneMode::Original,
        shuffle_pickup_position: false,
        qol_game_breaking: false,
        small_samus: false,
        boss_permadeath: false,
        main_plaza_door: false,
        phazon_elite_without_dynamo: false,
        backwards_frigate: false,
        backwards_labs: false,
        backwards_upper_mines: false,
        backwards_lower_mines: false,
    }
}

fn rp(room: Room, patch: PatchKind) -> RoomPatch {
    RoomPatch { room, patch }
}

#[test]
fn plan_without_options() {
    let plan = plan_room_patches(&config(), Version::NtscU0_00);
    let dynamo_spawn = PatchKind::SpawnPointPosition {
        position: Vec3Bits { x: 0, y: 0, z: 0 },
        relative: true,
        force_default: false,
    };
    assert_eq!(plan, vec![
        rp(Room::Stonehenge07, PatchKind::TournamentWinners),
        rp(Room::Stonehenge07, PatchKind::FixArtifactOfTruthRequirements),
        rp(Room::Stonehenge07, PatchKind::ArtifactHintAvailability),
        rp(Room::Crater03f, PatchKind::EssenceCinematicSkipWhitescreen),
        rp(Room::Crater03f, PatchKind::EssenceCinematicSkipNomusic),
        rp(Room::MinesConnect00i, dynamo_spawn),
    ]);
    assert_eq!(Room::Crater03f.file_name(), "03f_crater.MREA");
}

#[test]
fn plan_for_vanilla_layout_pal() {
    let mut c = config();
    c.force_vanilla_layout = true;
    c.qol_game_breaking = true;
    c.backwards_lower_mines = true;
    let plan = plan_room_patches(&c, Version::Pal);
    assert!(!plan.contains(&rp(Room::Stonehenge07, PatchKind::TournamentWinners)));
    assert!(plan.contains(&rp(Room::MinesConnect00j, PatchKind::FixCentralDynamoCrash)));
    assert!(!plan.contains(&rp(Room::MinesPillar04, PatchKind::OreProcessingDestructibleRockPal)));
    assert!(!plan.iter().any(|p| p.patch == PatchKind::BackwardsLowerMinesPca));
    assert!(plan.contains(&rp(Room::Crater03f, PatchKind::EssenceCinematicSkipNomusic)));
    assert!(!plan.contains(&rp(Room::Crater03f, PatchKind::EssenceCinematicSkipWhitescreen)));
}

#[test]
fn plan_with_game_breaking_fixes_on_pal() {
    let mut c = config();
    c.qol_game_breaking = true;
    c.boss_permadeath = true;
    c.small_samus = true;
    c.skip_frigate = false;
    c.disable_item_loss = true;
    let plan = plan_room_patches(&c, Version::Pal);
    assert!(plan.contains(&rp(Room::MinesPillar04, PatchKind::OreProcessingDestructibleRockPal)));
    assert!(plan.contains(&rp(Room::MinesMainplaza01, PatchKind::MainQuarryDoorLockPal)));
    assert!(plan.contains(&rp(Room::Courtyard08, PatchKind::ArboretumInvisibleWall)));
    assert!(plan.contains(&rp(Room::IceShorelines05, PatchKind::RuinedCourtyardThermalConduits)));
    assert!(!plan.contains(&rp(Room::IceConnect00n, PatchKind::ResearchCoreAccessSoftLock)));
    assert_eq!(plan.iter().filter(|p| p.patch == PatchKind::FinalBossPermadeath).count(), 6);
    assert_eq!(plan.iter().filter(|p| p.patch == PatchKind::PostPqFrigate).count(), 6);
    assert!(plan.contains(&rp(Room::IntroElevator02, PatchKind::DisableItemLoss)));
    let tunnel = plan.iter().find(|p| p.room == Room::Morphballtunnel1a).unwrap();
    match tunnel.patch {
        PatchKind::SpawnPointPosition { position, relative, force_default } => {
            assert_eq!(f32::from_bits(position.x), 124.53f32);
            assert_eq!(f32::from_bits(position.y), -79.78f32);
            assert_eq!(f32::from_bits(position.z), 22.84f32);
            assert!(!relative && !force_default);
        }
        _ => panic!("not a spawn point patch"),
    }
    let small = plan.iter().find(|p| p.room == Room::ElevLavaB0).unwrap();
    assert_eq!(small.patch, PatchKind::SpawnPointPosition {
        position: Vec3Bits { x: 0, y: 0, z: 0.7f32.to_bits() },
        relative: true,
        force_default: false,
    });
    let teleport = plan.iter().find(|p| matches!(p.patch, PatchKind::DockTeleport { .. })).unwrap();
    assert_eq!(teleport.room, Room::Crater03f);
    match teleport.patch {
        PatchKind::DockTeleport { source_position, spawn_position, .. } => {
            assert_eq!(f32::from_bits(source_position.x), 42.955109f32);
            assert_eq!(f32::from_bits(spawn_position.unwrap().z), -284.6025f32);
        }
        _ => unreachable!(),
    }
}

#[test]
fn essence_destination() {
    assert!(!essence_leads_elsewhere(None));
    assert!(!essence_leads_elsewhere(Some("  Credits ")));
    assert!(essence_leads_elsewhere(Some("Landing Site")));
}

#[test]
fn major_cutscene_plan() {
    let mut c = config();
    c.qol_cutscenes = CutsceneMode::Major;
    let plan = plan_room_patches(&c, Version::NtscU0_02);
    let chapel = plan.iter().find(|p| p.room == Room::IceChapel07).unwrap();
    match chapel.patch {
        PatchKind::RemoveCutscenes { ids, use_timers } => {
            assert!(use_timers);
            assert_eq!(cutscene_ids(ids), (vec![0x000E0057], vec![0x000E019D, 0x000E019B]));
        }
        _ => panic!("not a cutscene patch"),
    }
    // the minor table comes before the major one
    let lab = plan.iter().position(|p| p.patch == PatchKind::LabAetherCutsceneTrigger).unwrap();
    let chapel_at = plan.iter().position(|p| p.room == Room::IceChapel07).unwrap();
    assert!(lab < chapel_at);
    assert!(plan.contains(&rp(Room::OverMainplaza01, PatchKind::LandingSiteCutsceneTriggers)));
    c.shuffle_pickup_position = true;
    let plan = plan_room_patches(&c, Version::NtscU0_02);
    assert!(!plan.iter().any(|p| p.room == Room::IceChapel07));
}

#[test]
fn competitive_cutscene_plan() {
    let mut c = config();
    c.qol_cutscenes = CutsceneMode::Competitive;
    let plan = plan_room_patches(&c, Version::NtscU0_00);
    let first = plan[0];
    assert_eq!(first.room, Room::MinesMainplaza01);
    match first.patch {
        PatchKind::RemoveCutscenes { ids, use_timers } => {
            assert!(!use_timers);
            let (timers, spared) = cutscene_ids(ids);
            assert!(timers.is_empty());
            assert_eq!(spared.len(), 8);
            assert_eq!(spared[7], 0x0002043D);
        }
        _ => panic!("not a cutscene patch"),
    }
    assert_eq!(Room::MinesMainplaza01.file_name(), "01_mines_mainplaza.MREA");
}
