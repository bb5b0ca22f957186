use randomprime::patches::{
    is_blast_shield, is_door_lock, is_underwater_sound, is_water, patch_arboretum_invisible_wall,
    patch_arboretum_vines, patch_artifact_hint_availability, patch_artifact_totem_scan_strg,
    patch_backwards_lower_mines_eqa, patch_backwards_lower_mines_mqa, patch_backwards_lower_mines_pca,
    patch_bnr_text, patch_cutscene_force_phazon_suit, patch_deheat_room, patch_disable_item_loss,
    patch_elite_research_fight_layers, patch_essence_cinematic_skip_whitescreen,
    patch_fix_central_dynamo_crash, patch_fix_pca_crash, patch_geothermal_core_destructible_rock_pal,
    patch_lab_aether_cutscene_trigger, patch_main_quarry_door_lock_pal, patch_maze_seeds,
    patch_ore_processing_door_lock_0_02, patch_remove_blast_shields, patch_remove_control_disabler,
    patch_remove_ids, patch_remove_water, patch_research_core_access_soft_lock,
    patch_research_lab_hydra_barrier, patch_ruined_courtyard_thermal_conduits,
    patch_sun_tower_prevent_wild_before_flaahgra, remove_door_locks, write_encoded_str,
    ArtifactHintBehavior, BannerError, BannerFields, Dumb, GameBanner, StringTable, Strg, Version,
    WaterType,
};
use randomprime::pickup_meta::PickupType;
use randomprime::scly::{
    Actor, Connection, Dependency, MlvlArea, PlayerActor, PlayerHint, PointOfInterest, Platform,
    SclyLayer, SclyObject, SclyProperty, Sound, SpecialFunction, Trigger, DamageableTrigger,
};

fn obj(id: u32, p: SclyProperty) -> SclyObject {
    SclyObject { instance_id: id, connections: Vec::new(), property_data: p }
}

fn actor(id: u32, cmdl: u32) -> SclyObject {
    obj(id, SclyProperty::Actor(Actor { cmdl, active: 1, target_passthrough: 0 }))
}

fn area(layers: Vec<Vec<SclyObject>>) -> MlvlArea {
    MlvlArea {
        mrea_id: 0x1234,
        layers: layers.into_iter().map(|objects| SclyLayer { objects }).collect(),
        layer_flags: 0,
        dependencies: Vec::new(),
    }
}

fn ids(a: &MlvlArea, layer: usize) -> Vec<u32> {
    a.layers[layer].objects.iter().map(|o| o.instance_id).collect()
}

#[test]
fn door_locks_are_removed_from_the_first_layer() {
    let mut a = area(vec![
        vec![actor(1, 0x5391EDB6), actor(2, 0x1111), actor(3, 0x6E5D6796), obj(4, SclyProperty::Water)],
        vec![actor(5, 0x5391EDB6)],
    ]);
    assert!(is_door_lock(&a.layers[0].objects[0]));
    assert!(!is_door_lock(&a.layers[0].objects[3]));
    remove_door_locks(&mut a).unwrap();
    assert_eq!(ids(&a, 0), vec![2, 4]);
    assert_eq!(ids(&a, 1), vec![5]);
}

#[test]
fn deheat_removes_area_damage_everywhere() {
    let sf = |id, t| obj(id, SclyProperty::SpecialFunction(SpecialFunction { type_: t, layer_change_room_id: 0, layer_change_layer_id: 0 }));
    let mut a = area(vec![vec![sf(1, 18), sf(2, 17)], vec![sf(3, 18), actor(4, 0)]]);
    patch_deheat_room(&mut a).unwrap();
    assert_eq!(ids(&a, 0), vec![2]);
    assert_eq!(ids(&a, 1), vec![4]);
}

#[test]
fn remove_water_and_underwater_sounds() {
    let sound = |id, name: &str| obj(id, SclyProperty::Sound(Sound { name: name.to_string() }));
    let mut a = area(vec![
        vec![obj(1, SclyProperty::Water), sound(2, "Sound - UnderWater Loop"), sound(3, "Sound - Wind")],
        vec![sound(4, "underwater")],
    ]);
    assert!(is_water(&a.layers[0].objects[0]));
    assert!(is_underwater_sound(&a.layers[0].objects[1]));
    assert!(!is_underwater_sound(&a.layers[0].objects[2]));
    patch_remove_water(&mut a).unwrap();
    assert_eq!(ids(&a, 0), vec![3]);
    assert_eq!(ids(&a, 1), Vec::<u32>::new());
}

#[test]
fn remove_ids_uses_id_without_layer_byte() {
    let mut a = area(vec![vec![actor(0x0410_0001, 0), actor(0x0000_0002, 0)], vec![actor(0x0800_0003, 0)]]);
    patch_remove_ids(&mut a, vec![0x10_0001, 3]).unwrap();
    assert_eq!(ids(&a, 0), vec![2]);
    assert_eq!(ids(&a, 1), Vec::<u32>::new());
    // removing again changes nothing
    patch_remove_ids(&mut a, vec![0x10_0001, 3]).unwrap();
    assert_eq!(ids(&a, 0), vec![2]);
}

#[test]
fn single_object_removals() {
    let mut a = area(vec![vec![actor(0x1302AA, 0), actor(7, 0)]]);
    patch_arboretum_invisible_wall(&mut a).unwrap();
    assert_eq!(ids(&a, 0), vec![7]);
    let mut b = area(vec![vec![actor(0x6036A, 0), actor(0x6036C, 0), actor(0x60368, 0), actor(9, 0)]]);
    patch_ore_processing_door_lock_0_02(&mut b).unwrap();
    assert_eq!(ids(&b, 0), vec![9]);
}

#[test]
fn central_dynamo_drops_type_0x45() {
    let mut a = area(vec![vec![obj(1, SclyProperty::Other(0x45)), obj(2, SclyProperty::Other(0x44)), actor(3, 0)]]);
    patch_fix_central_dynamo_crash(&mut a).unwrap();
    assert_eq!(ids(&a, 0), vec![2, 3]);
}

#[test]
fn blast_shields_removed() {
    let poi = |id, scan| obj(id, SclyProperty::PointOfInterest(PointOfInterest { active: 1, scan }));
    let mut a = area(vec![vec![actor(1, 0xEFDFFB8C), poi(2, 0x05f56f9d), poi(3, 0x1), actor(4, 0x2)]]);
    assert!(is_blast_shield(&a.layers[0].objects[0]));
    patch_remove_blast_shields(&mut a).unwrap();
    assert_eq!(ids(&a, 0), vec![3, 4]);
}

#[test]
fn backwards_mines_platforms_and_dependencies() {
    let plat = |id| obj(id, SclyProperty::Platform(Platform { active: 1 }));
    let mut a = area(vec![vec![plat(1), actor(2, 0)], vec![plat(3)]]);
    a.dependencies = vec![
        vec![Dependency { asset_id: 0x744572a0, asset_type: 1 }, Dependency { asset_id: 5, asset_type: 1 }],
        vec![Dependency { asset_id: 0xEFE6629B, asset_type: 2 }],
    ];
    patch_backwards_lower_mines_pca(&mut a).unwrap();
    assert_eq!(ids(&a, 0), vec![2]);
    assert_eq!(ids(&a, 1), Vec::<u32>::new());
    assert_eq!(a.dependencies[0], vec![Dependency { asset_id: 5, asset_type: 1 }]);
    assert!(a.dependencies[1].is_empty());
    let mut b = area(vec![vec![plat(1), actor(2, 0)]]);
    patch_backwards_lower_mines_eqa(&mut b).unwrap();
    assert_eq!(ids(&b, 0), vec![2]);
}

#[test]
fn hydra_barrier_lets_shots_through() {
    let mut a = area(vec![vec![], vec![], vec![], vec![actor(5, 0), actor(202965810, 0), actor(202965810, 0)]]);
    patch_research_lab_hydra_barrier(&mut a).unwrap();
    let tp = |o: &SclyObject| match &o.property_data {
        SclyProperty::Actor(a) => a.target_passthrough,
        _ => 99,
    };
    assert_eq!(tp(&a.layers[3].objects[0]), 0);
    assert_eq!(tp(&a.layers[3].objects[1]), 1);
    assert_eq!(tp(&a.layers[3].objects[2]), 0);
}

#[test]
fn main_quarry_door_lock_pal_deactivated() {
    let mut layers: Vec<Vec<SclyObject>> = (0..8).map(|_| Vec::new()).collect();
    layers[7].push(actor(0x1c0205db, 0));
    let mut a = area(layers);
    patch_main_quarry_door_lock_pal(&mut a).unwrap();
    match &a.layers[7].objects[0].property_data {
        SclyProperty::Actor(actor) => assert_eq!(actor.active, 0),
        _ => panic!("not an actor"),
    }
}

fn trigger(id: u32, name: &str, active: u8) -> SclyObject {
    obj(id, SclyProperty::Trigger(Trigger { name: name.to_string(), active }))
}

fn trigger_active(o: &SclyObject) -> u8 {
    match &o.property_data {
        SclyProperty::Trigger(t) => t.active,
        _ => 99,
    }
}

#[test]
fn lab_aether_trigger_layer_depends_on_version() {
    let mut layers: Vec<Vec<SclyObject>> = (0..6).map(|_| Vec::new()).collect();
    layers[4].push(trigger(0x330317 + (4 << 26), "cutscene", 1));
    layers[5].push(trigger(0x330317 + (5 << 26), "cutscene", 1));
    let mut pal = area(layers);
    patch_lab_aether_cutscene_trigger(&mut pal, Version::Pal).unwrap();
    assert_eq!(trigger_active(&pal.layers[4].objects[0]), 0);
    assert_eq!(trigger_active(&pal.layers[5].objects[0]), 1);
    patch_lab_aether_cutscene_trigger(&mut pal, Version::NtscU0_00).unwrap();
    assert_eq!(trigger_active(&pal.layers[5].objects[0]), 0);
}

#[test]
fn pca_crash_enables_elite_boss_triggers() {
    let mut a = area(vec![
        vec![trigger(1, "Trigger eliteboss load", 0), trigger(2, "Trigger other", 0)],
        vec![trigger(3, "xelitebossx", 0), actor(4, 0)],
    ]);
    patch_fix_pca_crash(&mut a).unwrap();
    assert_eq!(trigger_active(&a.layers[0].objects[0]), 1);
    assert_eq!(trigger_active(&a.layers[0].objects[1]), 0);
    assert_eq!(trigger_active(&a.layers[1].objects[0]), 1);
}

#[test]
fn geothermal_rock_disabled() {
    let mut a = area(vec![vec![
        obj(0x1403AE, SclyProperty::Platform(Platform { active: 1 })),
        obj(0x1403B4, SclyProperty::PointOfInterest(PointOfInterest { active: 1, scan: 0 })),
        actor(0x1403B5, 0),
        actor(0x99, 0),
    ]]);
    patch_geothermal_core_destructible_rock_pal(&mut a).unwrap();
    let objs = &a.layers[0].objects;
    assert!(matches!(objs[0].property_data, SclyProperty::Platform(Platform { active: 0 })));
    assert!(matches!(objs[1].property_data, SclyProperty::PointOfInterest(PointOfInterest { active: 0, .. })));
    assert!(matches!(objs[2].property_data, SclyProperty::Actor(Actor { active: 0, .. })));
    assert!(matches!(objs[3].property_data, SclyProperty::Actor(Actor { active: 1, .. })));
}

#[test]
fn connections_are_appended() {
    let mut a = area(vec![vec![actor(0x0420_0214, 0)]]);
    patch_backwards_lower_mines_mqa(&mut a).unwrap();
    assert_eq!(
        a.layers[0].objects[0].connections,
        vec![Connection { state: 3, message: 13, target_object_id: 0x00200464 }]
    );
    let mut b = area(vec![vec![actor(0xB01DC, 0)]]);
    patch_essence_cinematic_skip_whitescreen(&mut b).unwrap();
    assert_eq!(b.layers[0].objects[0].connections.len(), 3);
    assert_eq!(b.layers[0].objects[0].connections[1], Connection { state: 9, message: 5, target_object_id: 0xB011B });
}

#[test]
fn research_core_access_soft_lock() {
    let lock = |t| Connection { state: 3, message: 1, target_object_id: t };
    let mut alert = actor(0x082C00CD, 0);
    alert.connections = vec![lock(0x082C00CF), lock(0x1), lock(0x082C010E)];
    let mut a = area(vec![vec![], vec![], vec![alert, actor(0x082C006C, 0), actor(0x082C0124, 0)]]);
    patch_research_core_access_soft_lock(&mut a).unwrap();
    let objs = &a.layers[2].objects;
    assert_eq!(objs[0].connections, vec![lock(0x1)]);
    assert_eq!(objs[1].connections.len(), 2);
    assert_eq!(objs[2].connections[1], Connection { state: 9, message: 13, target_object_id: 0x082C010E });
}

#[test]
fn ruined_courtyard_conduits_by_version() {
    let make = || {
        area(vec![vec![
            obj(0xF01C8, SclyProperty::DamageableTrigger(DamageableTrigger { name: "conduit".to_string(), active: 0, power_bomb_vulnerability: 2 })),
            actor(0xF01C7, 0),
            actor(0xF01DD, 0),
        ]])
    };
    let mut a = make();
    patch_ruined_courtyard_thermal_conduits(&mut a, Version::NtscU0_02).unwrap();
    assert!(matches!(a.layers[0].objects[0].property_data, SclyProperty::DamageableTrigger(DamageableTrigger { active: 1, .. })));
    assert!(matches!(a.layers[0].objects[1].property_data, SclyProperty::Actor(Actor { active: 1, .. })));
    assert_eq!(a.layer_flags, 0);
    let mut b = make();
    patch_ruined_courtyard_thermal_conduits(&mut b, Version::Pal).unwrap();
    assert_eq!(b.layer_flags, 1 << 6);
    assert_eq!(b.layers[0].objects[2].connections, vec![Connection { state: 9, message: 4, target_object_id: 0xF01D9 }]);
    let mut c = make();
    patch_ruined_courtyard_thermal_conduits(&mut c, Version::NtscU0_00).unwrap();
    assert_eq!(c.layer_flags, 0);
    assert!(c.layers[0].objects[2].connections.is_empty());
}

#[test]
fn arboretum_vines_move_to_first_layer() {
    let mut weeds = actor(0x0413_0135, 0x77);
    weeds.connections = vec![Connection { state: 1, message: 2, target_object_id: 3 }];
    let mut a = area(vec![vec![actor(1, 0)], vec![weeds, actor(2, 0), actor(0x0813_0135, 0)]]);
    patch_arboretum_vines(&mut a).unwrap();
    assert_eq!(ids(&a, 0), vec![1, 0x0413_0135]);
    assert_eq!(a.layers[0].objects[1].connections.len(), 1);
    assert_eq!(ids(&a, 1), vec![2]);
}

#[test]
fn sun_tower_trigger_moves() {
    let mut a = area(vec![vec![actor(1, 0), actor(0x001d015b, 0), actor(2, 0)], vec![actor(3, 0), actor(4, 0)]]);
    patch_sun_tower_prevent_wild_before_flaahgra(&mut a).unwrap();
    assert_eq!(ids(&a, 0), vec![1, 2]);
    assert_eq!(ids(&a, 1), vec![0x001d015b]);
}

#[test]
fn phazon_suit_forced_where_present() {
    let pa = |id| obj(id, SclyProperty::PlayerActor(PlayerActor { unknown0: 5 }));
    let mut a = area(vec![vec![], vec![pa(0x041A02AF)]]);
    patch_cutscene_force_phazon_suit(&mut a).unwrap();
    assert!(matches!(a.layers[1].objects[0].property_data, SclyProperty::PlayerActor(PlayerActor { unknown0: 0 })));
    let mut b = area(vec![vec![], vec![pa(7)]]);
    patch_cutscene_force_phazon_suit(&mut b).unwrap();
    assert!(matches!(b.layers[1].objects[0].property_data, SclyProperty::PlayerActor(PlayerActor { unknown0: 5 })));
}

#[test]
fn control_disabler_flags_cleared() {
    let mut a = area(vec![vec![obj(1, SclyProperty::PlayerHint(PlayerHint { unknowns: [1; 15] }))]]);
    patch_remove_control_disabler(&mut a).unwrap();
    match &a.layers[0].objects[0].property_data {
        SclyProperty::PlayerHint(h) => {
            assert_eq!(h.unknowns, [1, 1, 1, 1, 1, 0, 0, 0, 0, 1, 1, 1, 1, 1, 1]);
        },
        _ => panic!("not a hint"),
    }
}

#[test]
fn item_loss_reset_becomes_set_to_zero() {
    let mut camera = actor(0x0005_0115, 0);
    camera.connections = vec![
        Connection { state: 9, message: 10, target_object_id: 1 },
        Connection { state: 9, message: 1, target_object_id: 2 },
    ];
    let mut a = area(vec![vec![camera]]);
    patch_disable_item_loss(&mut a).unwrap();
    assert_eq!(a.layers[0].objects[0].connections[0].message, 13);
    assert_eq!(a.layers[0].objects[0].connections[1].message, 1);
}

#[test]
fn artifact_hints() {
    let mut a = area(vec![vec![actor(1048956, 0)], vec![actor(68157732, 0), actor(5, 0), actor(68157765, 0)]]);
    patch_artifact_hint_availability(&mut a, ArtifactHintBehavior::Default).unwrap();
    assert_eq!(ids(&a, 1).len(), 3);
    patch_artifact_hint_availability(&mut a, ArtifactHintBehavior::All).unwrap();
    assert_eq!(a.layers[0].objects[0].connections.len(), 12);
    assert_eq!(a.layers[0].objects[0].connections[11].target_object_id, 68157765);
    patch_artifact_hint_availability(&mut a, ArtifactHintBehavior::NoHints).unwrap();
    assert_eq!(ids(&a, 1), vec![5]);
}

#[test]
fn elite_research_layers() {
    let mut a = area(vec![vec![]]);
    a.layer_flags = 0b10_0001;
    patch_elite_research_fight_layers(&mut a).unwrap();
    assert_eq!(a.layer_flags, 0b00_0011);
}

#[test]
fn maze_seeds_cycle() {
    let mut res = Some(Dumb { data: vec![0; 310] });
    patch_maze_seeds(&mut res, vec![7, 8, 9]).unwrap();
    let data = &res.as_ref().unwrap().data;
    assert_eq!(data[0], 7);
    assert_eq!(data[1], 8);
    assert_eq!(data[2], 9);
    assert_eq!(data[3], 7);
    assert_eq!(data[299], 9);
    assert_eq!(data[300], 0);
    let mut none: Option<Dumb> = None;
    patch_maze_seeds(&mut none, Vec::new()).unwrap();
    assert!(none.is_none());
}

#[test]
fn totem_scan_text() {
    let mut strg = Strg {
        string_tables: vec![
            StringTable { lang: 0x454E474C, strings: vec!["a".to_string(), "b".to_string()] },
            StringTable { lang: 0x4A41504E, strings: vec!["c".to_string()] },
        ],
    };
    patch_artifact_totem_scan_strg(&mut strg, "hint\0").unwrap();
    assert_eq!(strg.string_tables[0].strings, vec!["a".to_string(), "hint\0".to_string()]);
    assert_eq!(strg.string_tables[1].strings, vec!["hint\0".to_string()]);
}

#[test]
fn banner_field_encoding() {
    let mut field = vec![0xFFu8; 9];
    write_encoded_str("game_name", &Some("Métroid".to_string()), &mut field).unwrap();
    assert_eq!(field, vec![b'M', 0xE9, b't', b'r', b'o', b'i', b'd', 0, 0]);
    // a text one byte short of the field still leaves no room: it is refused
    let mut tight = vec![0xFFu8; 8];
    assert!(write_encoded_str("game_name", &Some("Métroid".to_string()), &mut tight).is_err());
    let mut euro = vec![1u8; 4];
    write_encoded_str("developer", &Some("€".to_string()), &mut euro).unwrap();
    assert_eq!(euro, vec![0x80, 0, 0, 0]);
    let mut unchanged = vec![3u8; 4];
    write_encoded_str("developer", &None, &mut unchanged).unwrap();
    assert_eq!(unchanged, vec![3, 3, 3, 3]);
}

#[test]
fn banner_field_errors() {
    let mut field = vec![0u8; 4];
    match write_encoded_str("game_name", &Some("abc".to_string()), &mut field) {
        Err(BannerError::TooLong { field: f, expected, got }) => {
            assert_eq!(f, "game_name");
            assert_eq!(expected, 3);
            assert_eq!(got, 3);
        },
        _ => panic!("expected a length error"),
    }
    assert_eq!(field, vec![0, 0, 0, 0]);
    match write_encoded_str("description", &Some("中".to_string()), &mut field) {
        Err(BannerError::Encoding { field: f, .. }) => assert_eq!(f, "description"),
        _ => panic!("expected an encoding error"),
    }
}

#[test]
fn banner_text_patch() {
    let mut fields = BannerFields {
        game_name: vec![0; 0x20],
        developer: vec![0; 0x20],
        game_name_full: vec![0; 0x40],
        developer_full: vec![0; 0x40],
        description: vec![0; 0x80],
    };
    let banner = GameBanner {
        game_name: Some("Metroid Prime".to_string()),
        developer: None,
        game_name_full: None,
        developer_full: Some("x".repeat(0x40)),
        description: Some("d".to_string()),
    };
    assert!(patch_bnr_text(&mut fields, &banner).is_err());
    assert_eq!(&fields.game_name[..13], b"Metroid Prime");
    // the description comes after the failing field and is not written
    assert_eq!(fields.description[0], 0);
}

#[test]
fn versions_and_water_types() {
    assert_eq!(Version::NtscU0_02.as_str(), "1.02");
    assert_eq!(Version::PalTrilogy.as_str(), "trilogy_pal");
    assert_eq!(WaterType::iter(), vec![WaterType::Normal, WaterType::Poision, WaterType::Lava]);
}

fn txtr(id: u32) -> Dependency {
    Dependency { asset_id: id, asset_type: 0x5458_5452 }
}

#[test]
fn water_dependencies_keep_named_textures() {
    assert_eq!(WaterType::Normal.asset_slots().len(), 12);
    assert_eq!(
        WaterType::Normal.dependencies(),
        vec![txtr(2003342689), txtr(4059883471), txtr(351283582), txtr(1899158552)]
    );
    assert_eq!(
        WaterType::Poision.dependencies(),
        vec![txtr(2671389366), txtr(430856216), txtr(1337209902), txtr(1899158552)]
    );
    assert_eq!(
        WaterType::Lava.dependencies(),
        vec![txtr(117134624), txtr(2154768270), txtr(3598011320), txtr(1249771730)]
    );
}

#[test]
fn liquid_names_in_any_case() {
    assert_eq!(WaterType::from_liquid_name("Water"), Some(WaterType::Normal));
    assert_eq!(WaterType::from_liquid_name("normal"), Some(WaterType::Normal));
    assert_eq!(WaterType::from_liquid_name("ACID"), Some(WaterType::Poision));
    assert_eq!(WaterType::from_liquid_name("poison"), Some(WaterType::Poision));
    assert_eq!(WaterType::from_liquid_name("Magma"), Some(WaterType::Lava));
    assert_eq!(WaterType::from_liquid_name("lava"), Some(WaterType::Lava));
    assert_eq!(WaterType::from_liquid_name("mud"), None);
}

fn layer_change_of(o: &SclyObject) -> (u32, u32, u32) {
    match &o.property_data {
        SclyProperty::SpecialFunction(f) => (f.type_, f.layer_change_room_id, f.layer_change_layer_id),
        _ => panic!("not a special function"),
    }
}

#[test]
fn artifact_layer_changes_follow_the_artifact() {
    let truth = randomprime::patches::artifact_layer_change_template(0xDEEF0001, 29);
    assert_eq!(truth.instance_id, 0xDEEF0001);
    assert!(truth.connections.is_empty());
    assert_eq!(layer_change_of(&truth), (16, 0xCD2B0EA2, 24));
    let strength = randomprime::patches::artifact_layer_change_template(7, 30);
    assert_eq!(layer_change_of(&strength), (16, 0xCD2B0EA2, 2));
    let newborn = randomprime::patches::artifact_layer_change_template(7, 40);
    assert_eq!(layer_change_of(&newborn), (16, 0xCD2B0EA2, 12));
}

#[test]
fn post_pickup_relay_passes_messages_on() {
    let conns = [Connection { state: 9, message: 13, target_object_id: 0x42 }];
    let relay = randomprime::patches::post_pickup_relay_template(0x99, &conns);
    assert_eq!(relay.instance_id, 0x99);
    assert_eq!(relay.connections, conns.to_vec());
    match relay.property_data {
        SclyProperty::Relay(r) => {
            assert_eq!(r.active, 1);
            assert_eq!(r.name, "Randomizer Post Pickup Relay");
        }
        _ => panic!("not a relay"),
    }
}

#[test]
fn observatory_pirates_count_their_deaths() {
    let mut a = area(vec![vec![], vec![], vec![actor(0x81E0460, 0), actor(0x1E02EA, 0), actor(0x81E0461, 0)]]);
    randomprime::patches::patch_observatory_2nd_pass_solvablility(&mut a).unwrap();
    let c = Connection { state: 20, message: 7, target_object_id: 0x1E02EA };
    assert_eq!(a.layers[2].objects[0].connections, vec![c]);
    assert!(a.layers[2].objects[1].connections.is_empty());
    assert_eq!(a.layers[2].objects[2].connections, vec![c]);
}

#[test]
fn sunchamber_layer_change_waits_for_flaahgra() {
    let mut ps = randomprime::patches::PatcherState { next_fresh_id: 0xDEEF0000 };
    let mut a = area(vec![vec![], vec![actor(0x42500D4, 0), actor(5, 0)]]);
    randomprime::patches::patch_sunchamber_prevent_wild_before_flaahgra(&mut ps, &mut a).unwrap();
    assert_eq!(ps.next_fresh_id, 0xDEEF0001);
    assert_eq!(ids(&a, 1), vec![0x42500D4, 5, 0xDEEF0000]);
    assert_eq!(layer_change_of(&a.layers[1].objects[2]), (16, 0xcf4c7aa5, 1));
    assert_eq!(
        a.layers[1].objects[0].connections,
        vec![Connection { state: 9, message: 7, target_object_id: 0xDEEF0000 }]
    );
}

#[test]
fn research_core_removes_the_exploding_wall() {
    let mut ps = randomprime::patches::PatcherState { next_fresh_id: 100 };
    let mut a = area(vec![vec![actor(3, 0), actor(2622568, 0)]]);
    randomprime::patches::patch_research_lab_aether_exploding_wall(&mut ps, &mut a).unwrap();
    assert_eq!(ps.next_fresh_id, 101);
    assert_eq!(ids(&a, 0), vec![3, 2622568, 100]);
    assert_eq!(layer_change_of(&a.layers[0].objects[2]), (16, 0x354889CE, 3));
    assert_eq!(
        a.layers[0].objects[1].connections,
        vec![Connection { state: 9, message: 5, target_object_id: 100 }]
    );
}

const ENGL: u32 = 0x454E474C;
const JAPN: u32 = 0x4A41504E;

fn table(lang: u32, strings: &[&str]) -> StringTable {
    StringTable { lang, strings: strings.iter().map(|s| s.to_string()).collect() }
}

#[test]
fn memorycard_question_tells_how_to_warp() {
    let mut strg = Strg {
        string_tables: vec![
            table(JAPN, &["j"; 9]),
            table(ENGL, &["Yes\0", "Save progress to Memory Card in Slot A?\0", "No\0"]),
        ],
    };
    randomprime::patches::patch_memorycard_strg(&mut strg, Version::NtscU0_00).unwrap();
    assert_eq!(strg.string_tables[1].strings[0], "Yes\0");
    assert!(strg.string_tables[1].strings[1].starts_with("Save progress to Memory Card in Slot A?\nHold &image=SI"));
    assert!(strg.string_tables[1].strings[1].ends_with("while choosing No to warp to starting room.\0"));
    assert_eq!(strg.string_tables[0].strings[8], "j");

    randomprime::patches::patch_memorycard_strg(&mut strg, Version::NtscJ).unwrap();
    assert!(strg.string_tables[0].strings[8].starts_with("スロットA"));
    assert_eq!(strg.string_tables[0].strings[7], "j");
}

#[test]
fn main_menu_gains_extras() {
    let mut strg = Strg {
        string_tables: vec![
            table(ENGL, &["Start\0", "Metroid Fusion Connection Bonuses\0", "Metroid Fusion Connection Bonuses\0"]),
            table(JAPN, &["j"; 40]),
        ],
    };
    randomprime::patches::patch_main_strg(&mut strg, Version::NtscJ, "Seed 42").unwrap();
    let en = &strg.string_tables[0].strings;
    assert_eq!(en, &vec![
        "Start\0".to_string(),
        "Extras\0".to_string(),
        "Metroid Fusion Connection Bonuses\0".to_string(),
        "Seed 42\0".to_string(),
    ]);
    let jp = &strg.string_tables[1].strings;
    assert_eq!(jp.len(), 41);
    assert_eq!(jp[37], "&main-color=#FFFFFF;エクストラ\0");
    assert_eq!(jp[40], "Seed 42\0");
}

#[test]
fn credits_list_major_item_rooms() {
    let pickups = vec![
        ("Main Plaza".to_string(), PickupType::MorphBall),
        ("Hive Totem".to_string(), PickupType::Missile),
        ("Ruined Fountain".to_string(), PickupType::MorphBall),
        ("Phendrana Shorelines".to_string(), PickupType::PlasmaBeam),
    ];
    let mut strg = Strg { string_tables: vec![table(ENGL, &["a\0"])] };
    randomprime::patches::patch_credits(&mut strg, Version::Pal, None, &pickups).unwrap();
    let text = &strg.string_tables[0].strings[1];
    assert!(text.starts_with("\n\n\n\n\n\n\n&push;&font=C29C51F1;&main-color=#89D6FF;Major Item Locations&pop;\n\nScan Visor: <Not Present>"));
    assert!(text.contains("\n\nMorph Ball: Ruined Fountain\n\n"));
    assert!(text.contains("\n\nPlasma Beam: Phendrana Shorelines\n\n"));
    assert!(!text.contains("\n\nMissile:"));
    assert!(text.contains("\n\nSuper Missile: <Not Present>"));
    assert!(text.ends_with("Phendrana Shorelines\n\n\n\n\n\n\n\n\n\n\n\n\n\n\n\n\0"));
    assert_eq!(text.matches(": ").count(), 21);
}

#[test]
fn credits_use_the_configured_text() {
    let mut strg = Strg { string_tables: vec![table(JAPN, &[]), table(ENGL, &[])] };
    randomprime::patches::patch_credits(&mut strg, Version::NtscJ, Some("Thanks!"), &[]).unwrap();
    let expected = format!("&line-extra-space=16;&font=5D696116;{}Thanks!{}\0", "\n".repeat(7), "\n".repeat(16));
    assert_eq!(strg.string_tables[0].strings, vec![expected.clone()]);
    assert_eq!(strg.string_tables[1].strings, vec![expected]);
}

#[test]
fn savw_tracks_new_scans() {
    let mut savw = randomprime::patches::Savw {
        cinematic_skip_array: vec![1, 2, 3],
        scan_array: vec![
            randomprime::patches::ScannableObject { scan: 10, logbook_category: 4 },
            randomprime::patches::ScannableObject { scan: 11, logbook_category: 5 },
        ],
    };
    let mut categories = std::collections::HashMap::new();
    categories.insert(20u32, 2u32);
    categories.insert(21u32, 3u32);
    randomprime::patches::patch_add_scans_to_savw(&mut savw, &vec![21, 20], &categories, &vec![11, 99]).unwrap();
    assert!(savw.cinematic_skip_array.is_empty());
    let got: Vec<(u32, u32)> = savw.scan_array.iter().map(|e| (e.scan, e.logbook_category)).collect();
    assert_eq!(got, vec![(10, 4), (11, 0), (21, 3), (20, 2)]);
}

#[test]
fn hive_mecha_first_pass_is_off() {
    let mut a = area(vec![vec![]]);
    a.layer_flags = 0b1111;
    randomprime::patches::patch_hive_mecha_first_pass_layer(&mut a).unwrap();
    assert_eq!(a.layer_flags, 0b1101);
}

#[test]
fn artifact_of_truth_gets_a_layer_of_its_own() {
    let mut layers: Vec<Vec<SclyObject>> = (0..14).map(|_| Vec::new()).collect();
    let mut relay = actor(68158836, 0);
    relay.connections = vec![
        Connection { state: 9, message: 13, target_object_id: 1048869 },
        Connection { state: 9, message: 1, target_object_id: 5 },
    ];
    layers[1].push(relay);
    let mut a = area(layers);
    a.dependencies = (0..14).map(|_| Vec::new()).collect();
    a.layer_flags = 1;
    let mut ps = randomprime::patches::PatcherState { next_fresh_id: 0xDEEF0000 };
    let placed = vec![
        PickupType::ArtifactOfTruth,
        PickupType::ArtifactOfWild,
        PickupType::ArtifactOfLifegiver,
        PickupType::Missile,
    ];
    let overrides = vec![("Artifact of Chozo".to_string(), true), ("chozo again".to_string(), false)];
    randomprime::patches::fix_artifact_of_truth_requirements(
        &mut ps,
        &mut a,
        Some(PickupType::ArtifactOfLifegiver),
        &placed,
        &overrides,
    )
    .unwrap();
    let active: Vec<u32> = (0..64).filter(|b| a.layer_flags >> b & 1 == 1).collect();
    assert_eq!(active, vec![0, 2, 3, 5, 6, 8, 9, 10, 11, 12]);
    assert_eq!(a.layers.len(), 15);
    assert_eq!(a.dependencies.len(), 15);
    assert_eq!(ids(&a, 14), vec![0xDEEF0000]);
    assert_eq!(
        a.layers[14].objects[0].connections,
        vec![Connection { state: 9, message: 13, target_object_id: 1048869 }]
    );
    assert_eq!(
        a.layers[1].objects[0].connections,
        vec![
            Connection { state: 9, message: 1, target_object_id: 5 },
            Connection { state: 9, message: 13, target_object_id: 0xDEEF0000 },
        ]
    );
    assert_eq!(ps.next_fresh_id, 0xDEEF0001);
}

#[test]
fn truth_layer_follows_the_artifact_at_the_temple() {
    let mut layers: Vec<Vec<SclyObject>> = (0..20).map(|_| Vec::new()).collect();
    layers[1].push(actor(68158836, 0));
    let mut a = area(layers);
    let mut ps = randomprime::patches::PatcherState { next_fresh_id: 1 };
    randomprime::patches::fix_artifact_of_truth_requirements(
        &mut ps,
        &mut a,
        Some(PickupType::ArtifactOfTruth),
        &[PickupType::ArtifactOfTruth],
        &[],
    )
    .unwrap();
    // the truth layer (20) and every other artifact's layer start active
    let active: Vec<u32> = (0..64).filter(|b| a.layer_flags >> b & 1 == 1).collect();
    assert_eq!(active, vec![2, 3, 4, 5, 6, 7, 8, 9, 10, 11, 12, 20]);
}

fn damageable(id: u32, name: &str) -> SclyObject {
    obj(id, SclyProperty::DamageableTrigger(DamageableTrigger {
        name: name.to_string(),
        active: 1,
        power_bomb_vulnerability: 2,
    }))
}

fn power_bomb_vulnerability(o: &SclyObject) -> u32 {
    match &o.property_data {
        SclyProperty::DamageableTrigger(d) => d.power_bomb_vulnerability,
        _ => panic!("not a damageable trigger"),
    }
}

#[test]
fn sandstone_breaks_with_power_bombs() {
    let mut a = area(vec![
        vec![damageable(1, "DamageableTrigger-component"), damageable(2, "Other"), actor(3, 0)],
        vec![damageable(4, "DamageableTrigger-component")],
    ]);
    randomprime::patches::patch_arboretum_sandstone(&mut a).unwrap();
    assert_eq!(power_bomb_vulnerability(&a.layers[0].objects[0]), 1);
    assert_eq!(power_bomb_vulnerability(&a.layers[0].objects[1]), 2);
    assert_eq!(power_bomb_vulnerability(&a.layers[1].objects[0]), 2);
}
