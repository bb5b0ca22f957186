use randomprime::pickup_meta::{
    pickup_model_for_pickup, pickup_type_for_pickup, Pickup, PickupModel, PickupType, ScriptObjectLocation,
    ObjectsToRemove, NO_MODEL,
};

#[test]
fn pickup_type_names() {
    assert_eq!(PickupType::PowerBeam.name(), "Power Beam");
    assert_eq!(PickupType::XRayVisor.name(), "X-Ray Visor");
    assert_eq!(PickupType::ArtifactOfNewborn.name(), "Artifact Of Newborn");
    assert_eq!(PickupType::FloatyJump.name(), "Floaty Jump");
    assert_eq!(PickupType::IceTrap.name(), "Ice Trap");
}

#[test]
fn pickup_type_iter_lists_every_type_once() {
    let all = PickupType::iter();
    assert_eq!(all.len(), 44);
    assert_eq!(all[0], PickupType::PowerBeam);
    assert_eq!(all[41], PickupType::Nothing);
    assert_eq!(all[42], PickupType::FloatyJump);
    assert_eq!(all[43], PickupType::IceTrap);
    for (i, a) in all.iter().enumerate() {
        for b in all[i + 1..].iter() {
            assert_ne!(a, b);
        }
    }
}

#[test]
fn pickup_type_kinds() {
    assert_eq!(PickupType::PowerBeam.kind(), 0);
    assert_eq!(PickupType::Missile.kind(), 4);
    assert_eq!(PickupType::EnergyTank.kind(), 24);
    assert_eq!(PickupType::ArtifactOfTruth.kind(), 29);
    assert_eq!(PickupType::Nothing.kind(), 41);
    assert_eq!(PickupType::FloatyJump.kind(), 41);
    assert_eq!(PickupType::IceTrap.kind(), 41);
    for (i, t) in PickupType::iter().iter().enumerate().take(42) {
        assert_eq!(t.kind() as usize, i);
    }
}

#[test]
fn pickup_type_asset_indices() {
    assert_eq!(PickupType::Nothing.asset_index(), 41);
    assert_eq!(PickupType::FloatyJump.asset_index(), 42);
    assert_eq!(PickupType::IceTrap.asset_index(), 41);
    assert_eq!(PickupType::Missile.asset_index(), 4);
}

#[test]
fn pickup_type_from_str_reads_names() {
    for t in PickupType::iter() {
        assert_eq!(PickupType::from_str(t.name()), t);
    }
    assert_eq!(PickupType::from_str("  missile "), PickupType::Missile);
    assert_eq!(PickupType::from_str("SPACE JUMP BOOTS"), PickupType::SpaceJumpBoots);
    assert_eq!(PickupType::from_str("x-ray visor"), PickupType::XRayVisor);
}

#[test]
fn pickup_type_from_str_short_names() {
    assert_eq!(PickupType::from_str("combat"), PickupType::CombatVisor);
    assert_eq!(PickupType::from_str("Scan"), PickupType::ScanVisor);
    assert_eq!(PickupType::from_str("thermal"), PickupType::ThermalVisor);
    assert_eq!(PickupType::from_str("x-ray"), PickupType::XRayVisor);
    assert_eq!(PickupType::from_str("xray"), PickupType::XRayVisor);
    assert_eq!(PickupType::from_str("XRay Visor"), PickupType::XRayVisor);
}

#[test]
fn pickup_type_try_from_str_unknown() {
    assert_eq!(PickupType::try_from_str("Screw Attack"), None);
    assert_eq!(PickupType::try_from_str(""), None);
    assert_eq!(PickupType::try_from_str("power bombs"), None);
    assert_eq!(PickupType::try_from_str("Missile"), Some(PickupType::Missile));
}

#[test]
fn pickup_model_names_and_from_str() {
    assert_eq!(PickupModel::Visor.name(), "Visor");
    assert_eq!(PickupModel::ArtifactOfSun.name(), "Artifact of Sun");
    assert_eq!(PickupModel::iter().len(), 43);
    for m in PickupModel::iter() {
        assert_eq!(PickupModel::from_str(m.name()), Some(m));
    }
    assert_eq!(PickupModel::from_str(" SHINY missile"), Some(PickupModel::ShinyMissile));
    assert_eq!(PickupModel::from_str("combat"), Some(PickupModel::CombatVisor));
    assert_eq!(PickupModel::from_str("scan"), Some(PickupModel::Visor));
    assert_eq!(PickupModel::from_str("Scan Visor"), Some(PickupModel::Visor));
    assert_eq!(PickupModel::from_str("thermal"), Some(PickupModel::ThermalVisor));
    assert_eq!(PickupModel::from_str("xray visor"), Some(PickupModel::XRayVisor));
    assert_eq!(PickupModel::from_str("Power Suit"), Some(PickupModel::Nothing));
    assert_eq!(PickupModel::from_str("power beam"), Some(PickupModel::Nothing));
    assert_eq!(PickupModel::from_str("Floaty Jump"), None);
}

#[test]
fn pickup_model_from_type_defaults() {
    assert_eq!(PickupModel::from_type(PickupType::PowerBeam), PickupModel::Nothing);
    assert_eq!(PickupModel::from_type(PickupType::ScanVisor), PickupModel::Visor);
    assert_eq!(PickupModel::from_type(PickupType::PowerSuit), PickupModel::Nothing);
    assert_eq!(PickupModel::from_type(PickupType::UnknownItem1), PickupModel::Nothing);
    assert_eq!(PickupModel::from_type(PickupType::FloatyJump), PickupModel::Nothing);
    assert_eq!(PickupModel::from_type(PickupType::IceTrap), PickupModel::IceTrap);
    assert_eq!(PickupModel::from_type(PickupType::PowerBomb), PickupModel::PowerBomb);
    assert_eq!(PickupModel::from_type(PickupType::ArtifactOfChozo), PickupModel::ArtifactOfChozo);
}

fn pickup(kind: u32, max_increase: i32, curr_increase: i32, cmdl: u32) -> Pickup {
    Pickup { kind, max_increase, curr_increase, cmdl }
}

#[test]
fn pickup_type_for_vanilla_pickups() {
    assert_eq!(pickup_type_for_pickup(&pickup(4, 5, 5, 1)), Some(PickupType::Missile));
    assert_eq!(pickup_type_for_pickup(&pickup(9, 0, 0, 1)), Some(PickupType::ThermalVisor));
    assert_eq!(pickup_type_for_pickup(&pickup(23, 0, 0, 7)), Some(PickupType::PhazonSuit));
    assert_eq!(pickup_type_for_pickup(&pickup(23, 0, 0, NO_MODEL)), None);
    assert_eq!(pickup_type_for_pickup(&pickup(26, 0, 20, 1)), Some(PickupType::HealthRefill));
    assert_eq!(pickup_type_for_pickup(&pickup(26, 0, 10, 1)), None);
    assert_eq!(pickup_type_for_pickup(&pickup(33, 0, 0, 1)), Some(PickupType::ArtifactOfLifegiver));
    assert_eq!(pickup_type_for_pickup(&pickup(0, 0, 0, 1)), None);
    assert_eq!(pickup_type_for_pickup(&pickup(5, 0, 0, 1)), None);
    assert_eq!(pickup_type_for_pickup(&pickup(41, 0, 0, 1)), None);
}

#[test]
fn pickup_model_for_vanilla_pickups() {
    assert_eq!(pickup_model_for_pickup(&pickup(4, 5, 5, 1)), Some(PickupModel::Missile));
    assert_eq!(pickup_model_for_pickup(&pickup(4, 0, 5, 1)), Some(PickupModel::MissileRefill));
    assert_eq!(pickup_model_for_pickup(&pickup(4, -1, 5, 1)), None);
    assert_eq!(pickup_model_for_pickup(&pickup(24, 1, 1, 1)), Some(PickupModel::EnergyTank));
    assert_eq!(pickup_model_for_pickup(&pickup(24, 0, 1, 1)), None);
    assert_eq!(pickup_model_for_pickup(&pickup(13, 0, 0, 1)), Some(PickupModel::Visor));
    assert_eq!(pickup_model_for_pickup(&pickup(7, 1, 1, 1)), Some(PickupModel::PowerBombExpansion));
    assert_eq!(pickup_model_for_pickup(&pickup(7, 4, 4, 1)), Some(PickupModel::PowerBomb));
    assert_eq!(pickup_model_for_pickup(&pickup(7, 0, 4, 1)), Some(PickupModel::PowerBombRefill));
    assert_eq!(pickup_model_for_pickup(&pickup(7, 2, 2, 1)), None);
    assert_eq!(pickup_model_for_pickup(&pickup(26, 0, 20, 1)), Some(PickupModel::HealthRefill));
    assert_eq!(pickup_model_for_pickup(&pickup(36, 0, 0, 1)), Some(PickupModel::ArtifactOfNature));
    assert_eq!(pickup_model_for_pickup(&pickup(17, 0, 0, 1)), None);
}

#[test]
fn script_object_locations() {
    let a = ScriptObjectLocation { layer: 0, instance_id: 0x100 };
    let b = a;
    assert_eq!(a, b);
    assert_ne!(a, ScriptObjectLocation { layer: 1, instance_id: 0x100 });
    let remove = ObjectsToRemove { layer: 2, instance_ids: &[1, 2, 3] };
    assert_eq!(remove.instance_ids.len(), 3);
    assert_eq!(remove.layer, 2);
}

#[test]
fn type_names_parse_to_default_models() {
    for t in PickupType::iter() {
        if t == PickupType::UnknownItem1 || t == PickupType::UnknownItem2 || t == PickupType::FloatyJump {
            assert_eq!(PickupModel::from_type(t), PickupModel::Nothing);
        } else {
            assert_eq!(PickupModel::from_str(t.name()), Some(PickupModel::from_type(t)));
        }
    }
}
