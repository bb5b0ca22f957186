//! Patches to the script layers of particular rooms, and the small data patches around them.

use vstd::prelude::*;
use crate::scly::{
    any_where, area_with_connections_appended, area_with_each_given_connections,
    area_with_first_updated, area_with_layer_objects, area_with_object_added_and_connected,
    area_with_objects_kept, connections_appended, DamageableTrigger, contains_id, first_in_layer, first_index,
    first_where, layer_active, layer_change, lemma_first_exists, lemma_layer_turned_off,
    lemma_layer_turned_on, lemma_update_keeps_first, position_of_id, position_of_masked_id,
    retain_connections_not_to, retain_in_all_layers, retain_objects, set_active, with_active,
    with_id, with_masked_id, Actor, Connection, Dependency, INSTANCE_ID_MASK, MSG_ACTION,
    MSG_DEACTIVATE, MSG_DECREMENT, MSG_INCREMENT, MSG_PLAY, MSG_RESET, MSG_RESET_AND_START,
    MSG_SET_TO_ZERO, MSG_STOP, MlvlArea, PlayerActor, PlayerHint, Relay, STATE_DEATH_RATTLE,
    STATE_ENTERED, STATE_ZERO, SclyObject, SclyProperty, SpecialFunction, Trigger,
};
use crate::pickup_meta::{pickup_type_kind, pickup_type_name, PickupType};
use crate::totem::{last_word, lemma_last_word};
use crate::text::{ascii_lowercase, contains_substring, lowercase, str_contains, str_equal, to_lowercase, views};
use vstd::utf8::is_ascii_chars;
use encoding::all::WINDOWS_1252;
use encoding::{EncoderTrap, Encoding};

verus! {

/// Door locks are actors with one of the two door-lock models (horizontal and vertical).
pub open spec fn is_door_lock_object(o: SclyObject) -> bool {
    match o.property_data {
        SclyProperty::Actor(a) => a.cmdl == 0x5391EDB6 || a.cmdl == 0x6E5D6796,
        _ => false,
    }
}

/// Whether an object is a door lock.
pub fn is_door_lock(obj: &SclyObject) -> (r: bool)
    ensures
        r == is_door_lock_object(*obj),
{
    match &obj.property_data {
        SclyProperty::Actor(actor) => actor.cmdl == 0x5391EDB6 || actor.cmdl == 0x6E5D6796,
        _ => false,
    }
}

/// Removes the door locks from the first layer of a room.
pub fn remove_door_locks(area: &mut MlvlArea) -> (r: Result<(), String>)
    requires
        old(area).layers@.len() > 0,
    ensures
        r is Ok,
        area_with_layer_objects(
            *old(area),
            *final(area),
            0,
            old(area).layers@[0].objects@.filter(|o: SclyObject| !is_door_lock_object(o)),
        ),
{
    let keep = |o: &SclyObject| -> (b: bool)
        ensures
            b == !is_door_lock_object(*o),
        { !is_door_lock(o) };
    retain_objects(&mut area.layers[0].objects, &keep, Ghost(|o: SclyObject| !is_door_lock_object(o)));
    Ok(())
}

/// Area-damage special functions (type 18) make a room superheated.
pub open spec fn is_area_damage_object(o: SclyObject) -> bool {
    match o.property_data {
        SclyProperty::SpecialFunction(f) => f.type_ == 18,
        _ => false,
    }
}

/// Whether an object is an area-damage special function.
pub fn is_area_damage_special_function(obj: &SclyObject) -> (r: bool)
    ensures
        r == is_area_damage_object(*obj),
{
    match &obj.property_data {
        SclyProperty::SpecialFunction(f) => f.type_ == 18,
        _ => false,
    }
}

/// Makes a room stop hurting: removes its area-damage special functions from every layer.
pub fn patch_deheat_room(area: &mut MlvlArea) -> (r: Result<(), String>)
    ensures
        r is Ok,
        area_with_objects_kept(*old(area), *final(area), |o: SclyObject| !is_area_damage_object(o)),
{
    let keep = |o: &SclyObject| -> (b: bool)
        ensures
            b == !is_area_damage_object(*o),
        { !is_area_damage_special_function(o) };
    retain_in_all_layers(area, &keep, Ghost(|o: SclyObject| !is_area_damage_object(o)));
    Ok(())
}

/// Whether the object is water.
pub open spec fn is_water_object(o: SclyObject) -> bool {
    o.property_data is Water
}

/// Underwater sounds are the sounds whose lowercased name contains "underwater".
pub open spec fn is_underwater_sound_object(o: SclyObject) -> bool {
    match o.property_data {
        SclyProperty::Sound(snd) => contains_substring(lowercase(snd.name@), "underwater"@),
        _ => false,
    }
}

/// Whether an object is water.
pub fn is_water(obj: &SclyObject) -> (r: bool)
    ensures
        r == is_water_object(*obj),
{
    match &obj.property_data {
        SclyProperty::Water => true,
        _ => false,
    }
}

/// Whether an object is an underwater sound.
pub fn is_underwater_sound(obj: &SclyObject) -> (r: bool)
    ensures
        r == is_underwater_sound_object(*obj),
{
    match &obj.property_data {
        SclyProperty::Sound(snd) => {
            let lower = to_lowercase(snd.name.as_str());
            str_contains(lower.as_str(), "underwater")
        },
        _ => false,
    }
}

/// Drains a room: removes its water, then its underwater sounds, from every layer.
pub fn patch_remove_water(area: &mut MlvlArea) -> (r: Result<(), String>)
    ensures
        r is Ok,
        final(area).mrea_id == old(area).mrea_id,
        final(area).layer_flags == old(area).layer_flags,
        final(area).dependencies == old(area).dependencies,
        final(area).layers@.len() == old(area).layers@.len(),
        forall|j: int|
            0 <= j < old(area).layers@.len() ==> (#[trigger] final(area).layers@[j]).objects@
                == old(area).layers@[j].objects@.filter(|o: SclyObject| !is_water_object(o)).filter(
                |o: SclyObject| !is_underwater_sound_object(o),
            ),
{
    let not_water = |o: &SclyObject| -> (b: bool)
        ensures
            b == !is_water_object(*o),
        { !is_water(o) };
    let not_underwater_sound = |o: &SclyObject| -> (b: bool)
        ensures
            b == !is_underwater_sound_object(*o),
        { !is_underwater_sound(o) };
    retain_in_all_layers(area, &not_water, Ghost(|o: SclyObject| !is_water_object(o)));
    retain_in_all_layers(area, &not_underwater_sound, Ghost(|o: SclyObject| !is_underwater_sound_object(o)));
    Ok(())
}

/// Removes the invisible wall of the Arboretum.
pub fn patch_arboretum_invisible_wall(area: &mut MlvlArea) -> (r: Result<(), String>)
    requires
        old(area).layers@.len() > 0,
    ensures
        r is Ok,
        area_with_layer_objects(
            *old(area),
            *final(area),
            0,
            old(area).layers@[0].objects@.filter(|o: SclyObject| o.instance_id != 0x1302AA),
        ),
{
    let keep = |o: &SclyObject| -> (b: bool)
        ensures
            b == ((*o).instance_id != 0x1302AA),
        { o.instance_id != 0x1302AA };
    retain_objects(&mut area.layers[0].objects, &keep, Ghost(|o: SclyObject| o.instance_id != 0x1302AA));
    Ok(())
}

/// Removes the Main Quarry door lock of version 1.02.
pub fn patch_main_quarry_door_lock_0_02(area: &mut MlvlArea) -> (r: Result<(), String>)
    requires
        old(area).layers@.len() > 0,
    ensures
        r is Ok,
        area_with_layer_objects(
            *old(area),
            *final(area),
            0,
            old(area).layers@[0].objects@.filter(|o: SclyObject| o.instance_id != 132563),
        ),
{
    let keep = |o: &SclyObject| -> (b: bool)
        ensures
            b == ((*o).instance_id != 132563),
        { o.instance_id != 132563 };
    retain_objects(&mut area.layers[0].objects, &keep, Ghost(|o: SclyObject| o.instance_id != 132563));
    Ok(())
}

/// Removes the Geothermal Core door lock of version 1.02.
pub fn patch_geothermal_core_door_lock_0_02(area: &mut MlvlArea) -> (r: Result<(), String>)
    requires
        old(area).layers@.len() > 0,
    ensures
        r is Ok,
        area_with_layer_objects(
            *old(area),
            *final(area),
            0,
            old(area).layers@[0].objects@.filter(|o: SclyObject| o.instance_id != 1311646),
        ),
{
    let keep = |o: &SclyObject| -> (b: bool)
        ensures
            b == ((*o).instance_id != 1311646),
        { o.instance_id != 1311646 };
    retain_objects(&mut area.layers[0].objects, &keep, Ghost(|o: SclyObject| o.instance_id != 1311646));
    Ok(())
}

/// Keeps the Gravity Chamber stalactites: removes the object that turns their layer off.
pub fn patch_gravity_chamber_stalactite_grapple_point(area: &mut MlvlArea) -> (r: Result<(), String>)
    requires
        old(area).layers@.len() > 0,
    ensures
        r is Ok,
        area_with_layer_objects(
            *old(area),
            *final(area),
            0,
            old(area).layers@[0].objects@.filter(|o: SclyObject| o.instance_id != 3473722),
        ),
{
    let keep = |o: &SclyObject| -> (b: bool)
        ensures
            b == ((*o).instance_id != 3473722),
        { o.instance_id != 3473722 };
    retain_objects(&mut area.layers[0].objects, &keep, Ghost(|o: SclyObject| o.instance_id != 3473722));
    Ok(())
}

/// Removes the Ore Processing door lock of version 1.02 with the power bomb check that drives it.
pub fn patch_ore_processing_door_lock_0_02(area: &mut MlvlArea) -> (r: Result<(), String>)
    requires
        old(area).layers@.len() > 0,
    ensures
        r is Ok,
        area_with_layer_objects(
            *old(area),
            *final(area),
            0,
            old(area).layers@[0].objects@.filter(|o: SclyObject| o.instance_id != 0x6036A && o.instance_id != 0x6036C && o.instance_id != 0x60368),
        ),
{
    let keep = |o: &SclyObject| -> (b: bool)
        ensures
            b == ((*o).instance_id != 0x6036A && (*o).instance_id != 0x6036C && (*o).instance_id != 0x60368),
        { o.instance_id != 0x6036A && o.instance_id != 0x6036C && o.instance_id != 0x60368 };
    retain_objects(&mut area.layers[0].objects, &keep, Ghost(|o: SclyObject| o.instance_id != 0x6036A && o.instance_id != 0x6036C && o.instance_id != 0x60368));
    Ok(())
}

/// Removes, from every layer, the objects whose instance id without its layer byte is listed.
pub fn patch_remove_ids(area: &mut MlvlArea, remove_ids: Vec<u32>) -> (r: Result<(), String>)
    ensures
        r is Ok,
        area_with_objects_kept(
            *old(area),
            *final(area),
            |o: SclyObject| !remove_ids@.contains(o.instance_id & INSTANCE_ID_MASK),
        ),
{
    let ids = remove_ids.as_slice();
    let keep = |o: &SclyObject| -> (b: bool)
        ensures
            b == !ids@.contains(o.instance_id & INSTANCE_ID_MASK),
        { !contains_id(ids, o.instance_id & INSTANCE_ID_MASK) };
    retain_in_all_layers(
        area,
        &keep,
        Ghost(|o: SclyObject| !remove_ids@.contains(o.instance_id & INSTANCE_ID_MASK)),
    );
    Ok(())
}

/// Removes every object of type 0x45 from every layer (they crash the game in this room).
pub fn patch_fix_central_dynamo_crash(area: &mut MlvlArea) -> (r: Result<(), String>)
    ensures
        r is Ok,
        area_with_objects_kept(*old(area), *final(area), |o: SclyObject| crate::scly::object_type_of(o.property_data) != 0x45),
{
    let keep = |o: &SclyObject| -> (b: bool)
        ensures
            b == (crate::scly::object_type_of(o.property_data) != 0x45),
        { o.property_data.object_type() != 0x45 };
    retain_in_all_layers(area, &keep, Ghost(|o: SclyObject| crate::scly::object_type_of(o.property_data) != 0x45));
    Ok(())
}

/// Blast shields are actors with the blast-shield model.
pub open spec fn is_blast_shield_object(o: SclyObject) -> bool {
    match o.property_data {
        SclyProperty::Actor(a) => a.cmdl == 0xEFDFFB8C,
        _ => false,
    }
}

/// Blast-shield scan points are points of interest with the blast-shield scan.
pub open spec fn is_blast_shield_poi_object(o: SclyObject) -> bool {
    match o.property_data {
        SclyProperty::PointOfInterest(p) => p.scan == 0x05f56f9d,
        _ => false,
    }
}

/// Whether an object is a blast shield.
pub fn is_blast_shield(obj: &SclyObject) -> (r: bool)
    ensures
        r == is_blast_shield_object(*obj),
{
    match &obj.property_data {
        SclyProperty::Actor(actor) => actor.cmdl == 0xEFDFFB8C,
        _ => false,
    }
}

/// Whether an object is a blast shield's scan point.
pub fn is_blast_shield_poi(obj: &SclyObject) -> (r: bool)
    ensures
        r == is_blast_shield_poi_object(*obj),
{
    match &obj.property_data {
        SclyProperty::PointOfInterest(poi) => poi.scan == 0x05f56f9d,
        _ => false,
    }
}

/// Removes the blast shields and their scan points from every layer.
pub fn patch_remove_blast_shields(area: &mut MlvlArea) -> (r: Result<(), String>)
    ensures
        r is Ok,
        area_with_objects_kept(
            *old(area),
            *final(area),
            |o: SclyObject| !is_blast_shield_object(o) && !is_blast_shield_poi_object(o),
        ),
{
    let keep = |o: &SclyObject| -> (b: bool)
        ensures
            b == (!is_blast_shield_object(*o) && !is_blast_shield_poi_object(*o)),
        { !is_blast_shield(o) && !is_blast_shield_poi(o) };
    retain_in_all_layers(
        area,
        &keep,
        Ghost(|o: SclyObject| !is_blast_shield_object(o) && !is_blast_shield_poi_object(o)),
    );
    Ok(())
}

/// Whether the object is a platform.
pub open spec fn is_platform_object(o: SclyObject) -> bool {
    o.property_data is Platform
}

fn is_platform(obj: &SclyObject) -> (r: bool)
    ensures
        r == is_platform_object(*obj),
{
    match &obj.property_data {
        SclyProperty::Platform(_) => true,
        _ => false,
    }
}

/// Removes the platforms of Elite Quarters Access, so that the room can be crossed backwards.
pub fn patch_backwards_lower_mines_eqa(area: &mut MlvlArea) -> (r: Result<(), String>)
    ensures
        r is Ok,
        area_with_objects_kept(*old(area), *final(area), |o: SclyObject| !is_platform_object(o)),
{
    let keep = |o: &SclyObject| -> (b: bool)
        ensures
            b == !is_platform_object(*o),
        { !is_platform(o) };
    retain_in_all_layers(area, &keep, Ghost(|o: SclyObject| !is_platform_object(o)));
    Ok(())
}

/// The models, collision meshes and textures of the Phazon Processing Center platforms.
pub open spec fn pca_platform_assets() -> Seq<u32> {
    seq![
        0x744572a0u32, 0xBF19A105, 0x0D3BB9B1, 0x3cfa9c1c, 0x165B2898, 0x122D9D74, 0x245EEA17,
        0x71A63C95, 0x7351A073, 0x8229E1A3, 0xDD3931E2, 0xBA2E99E8, 0xD03D1FF3, 0xE6D3D35E,
        0x4185C16A, 0xEFE6629B,
    ]
}

/// Keeps the dependencies whose asset is not listed in `ids`, in order.
fn retain_dependencies(deps: &mut Vec<Dependency>, ids: &[u32])
    ensures
        final(deps)@ == old(deps)@.filter(|d: Dependency| !ids@.contains(d.asset_id)),
{
    let ghost pred = |d: Dependency| !ids@.contains(d.asset_id);
    let mut rest: Vec<Dependency> = Vec::new();
    std::mem::swap(&mut rest, deps);
    let ghost orig = rest@;
    assert(deps@ + rest@.filter(pred) =~= orig.filter(pred));
    while rest.len() > 0
        invariant
            deps@ + rest@.filter(pred) == orig.filter(pred),
            pred == (|d: Dependency| !ids@.contains(d.asset_id)),
        decreases rest.len(),
    {
        let ghost before = rest@;
        let d = rest.remove(0);
        proof {
            assert(before =~= seq![d] + rest@);
            Seq::filter_distributes_over_add(seq![d], rest@, pred);
            reveal_with_fuel(Seq::filter, 2);
            assert(seq![d].drop_last() =~= Seq::<Dependency>::empty());
        }
        if !contains_id(ids, d.asset_id) {
            let ghost acc = deps@;
            deps.push(d);
            proof {
                assert(seq![d].filter(pred) =~= seq![d]);
                assert(deps@ + rest@.filter(pred) =~= acc + (seq![d].filter(pred) + rest@.filter(pred)));
            }
        } else {
            proof {
                assert(seq![d].filter(pred) =~= Seq::<Dependency>::empty());
                assert(seq![d].filter(pred) + rest@.filter(pred) =~= rest@.filter(pred));
            }
        }
    }
    assert(rest@.filter(pred) =~= Seq::<Dependency>::empty()) by {
        reveal_with_fuel(Seq::filter, 1);
    }
    assert(deps@ =~= orig.filter(pred));
}

/// Removes the platforms of the Phazon Processing Center from every layer, and their assets
/// from the area's dependencies, so that the room can be crossed backwards.
pub fn patch_backwards_lower_mines_pca(area: &mut MlvlArea) -> (r: Result<(), String>)
    ensures
        r is Ok,
        final(area).mrea_id == old(area).mrea_id,
        final(area).layer_flags == old(area).layer_flags,
        final(area).layers@.len() == old(area).layers@.len(),
        forall|j: int|
            0 <= j < old(area).layers@.len() ==> (#[trigger] final(area).layers@[j]).objects@
                == old(area).layers@[j].objects@.filter(|o: SclyObject| !is_platform_object(o)),
        final(area).dependencies@.len() == old(area).dependencies@.len(),
        forall|j: int|
            0 <= j < old(area).dependencies@.len() ==> (#[trigger] final(area).dependencies@[j])@
                == old(area).dependencies@[j]@.filter(
                |d: Dependency| !pca_platform_assets().contains(d.asset_id),
            ),
{
    let keep = |o: &SclyObject| -> (b: bool)
        ensures
            b == !is_platform_object(*o),
        { !is_platform(o) };
    retain_in_all_layers(area, &keep, Ghost(|o: SclyObject| !is_platform_object(o)));

    let deps_to_remove: Vec<u32> = vec![
        0x744572a0, 0xBF19A105, 0x0D3BB9B1, // models
        0x3cfa9c1c, 0x165B2898, // collision
        0x122D9D74, 0x245EEA17, 0x71A63C95, 0x7351A073, 0x8229E1A3, 0xDD3931E2, // textures
        0xBA2E99E8, 0xD03D1FF3, 0xE6D3D35E, 0x4185C16A, 0xEFE6629B, // textures
    ];
    assert(deps_to_remove@ =~= pca_platform_assets());
    let n = area.dependencies.len();
    let ghost mid = area.dependencies@;
    let mut i: usize = 0;
    while i < n
        invariant
            n == area.dependencies@.len(),
            n == mid.len(),
            i <= n,
            deps_to_remove@ == pca_platform_assets(),
            area.mrea_id == old(area).mrea_id,
            area.layer_flags == old(area).layer_flags,
            area.layers@.len() == old(area).layers@.len(),
            forall|j: int|
                0 <= j < old(area).layers@.len() ==> (#[trigger] area.layers@[j]).objects@
                    == old(area).layers@[j].objects@.filter(|o: SclyObject| !is_platform_object(o)),
            mid == old(area).dependencies@,
            forall|j: int|
                0 <= j < i ==> (#[trigger] area.dependencies@[j])@ == mid[j]@.filter(
                    |d: Dependency| !pca_platform_assets().contains(d.asset_id),
                ),
            forall|j: int| i <= j < n ==> #[trigger] area.dependencies@[j] == mid[j],
        decreases n - i,
    {
        retain_dependencies(&mut area.dependencies[i], deps_to_remove.as_slice());
        i = i + 1;
    }
    Ok(())
}

/// The object, if it is an actor, with scans and shots passing through it.
pub open spec fn with_target_passthrough(o: SclyObject) -> SclyObject {
    match o.property_data {
        SclyProperty::Actor(a) => SclyObject {
            property_data: SclyProperty::Actor(Actor { target_passthrough: 1, ..a }),
            ..o
        },
        _ => o,
    }
}

fn set_target_passthrough(obj: &mut SclyObject)
    ensures
        *final(obj) == with_target_passthrough(*old(obj)),
{
    match &mut obj.property_data {
        SclyProperty::Actor(a) => {
            a.target_passthrough = 1;
        },
        _ => {},
    }
}

/// Lets shots pass through the Research Lab Hydra barrier.
pub fn patch_research_lab_hydra_barrier(area: &mut MlvlArea) -> (r: Result<(), String>)
    requires
        first_in_layer(*old(area), 3, with_id(202965810), |o: SclyObject| o.property_data is Actor),
    ensures
        r is Ok,
        area_with_first_updated(*old(area), *final(area), 3, with_id(202965810), |o: SclyObject| with_target_passthrough(o)),
{
    let k = position_of_id(&area.layers[3].objects, 202965810).unwrap();
    set_target_passthrough(&mut area.layers[3].objects[k]);
    Ok(())
}

/// Lets shots pass through the Mine Security Station barrier actor, so that the room can be crossed backwards.
pub fn patch_backwards_lower_mines_mqb(area: &mut MlvlArea) -> (r: Result<(), String>)
    requires
        first_in_layer(*old(area), 2, with_masked_id(0x001F0018), |o: SclyObject| o.property_data is Actor),
    ensures
        r is Ok,
        area_with_first_updated(*old(area), *final(area), 2, with_masked_id(0x001F0018), |o: SclyObject| with_target_passthrough(o)),
{
    let k = position_of_masked_id(&area.layers[2].objects, 0x001F0018).unwrap();
    set_target_passthrough(&mut area.layers[2].objects[k]);
    Ok(())
}

/// Lets shots pass through the Elite Control barrier actor, so that the room can be crossed backwards.
pub fn patch_backwards_lower_mines_elite_control(area: &mut MlvlArea) -> (r: Result<(), String>)
    requires
        first_in_layer(*old(area), 1, with_masked_id(0x00100086), |o: SclyObject| o.property_data is Actor),
    ensures
        r is Ok,
        area_with_first_updated(*old(area), *final(area), 1, with_masked_id(0x00100086), |o: SclyObject| with_target_passthrough(o)),
{
    let k = position_of_masked_id(&area.layers[1].objects, 0x00100086).unwrap();
    set_target_passthrough(&mut area.layers[1].objects[k]);
    Ok(())
}

/// Deactivates the locked-door actor of the Main Quarry (PAL).
pub fn patch_main_quarry_door_lock_pal(area: &mut MlvlArea) -> (r: Result<(), String>)
    requires
        first_in_layer(*old(area), 7, with_id(0x1c0205db), |o: SclyObject| o.property_data is Actor),
    ensures
        r is Ok,
        area_with_first_updated(*old(area), *final(area), 7, with_id(0x1c0205db), |o: SclyObject| with_active(o, 0)),
{
    let k = position_of_id(&area.layers[7].objects, 0x1c0205db).unwrap();
    set_active(&mut area.layers[7].objects[k], 0);
    Ok(())
}

/// The game versions the patcher knows.
#[derive(Copy, Clone, Debug, PartialEq, Eq, Structural)]
pub enum Version {
    NtscU0_00,
    NtscU0_01,
    NtscU0_02,
    NtscK,
    NtscJ,
    Pal,
    NtscUTrilogy,
    NtscJTrilogy,
    PalTrilogy,
}

/// How a version is written.
pub open spec fn version_text(v: Version) -> Seq<char> {
    match v {
        Version::NtscU0_00 => "1.00"@,
        Version::NtscU0_01 => "1.01"@,
        Version::NtscU0_02 => "1.02"@,
        Version::NtscK => "kor"@,
        Version::NtscJ => "jap"@,
        Version::Pal => "pal"@,
        Version::NtscUTrilogy => "trilogy_ntsc_u"@,
        Version::NtscJTrilogy => "trilogy_ntsc_j"@,
        Version::PalTrilogy => "trilogy_pal"@,
    }
}

impl Version {
    /// How this version is written.
    pub fn as_str(&self) -> (r: &'static str)
        ensures
            r@ == version_text(*self),
    {
        match self {
            Version::NtscU0_00 => "1.00",
            Version::NtscU0_01 => "1.01",
            Version::NtscU0_02 => "1.02",
            Version::NtscK => "kor",
            Version::NtscJ => "jap",
            Version::Pal => "pal",
            Version::NtscUTrilogy => "trilogy_ntsc_u",
            Version::NtscJTrilogy => "trilogy_ntsc_j",
            Version::PalTrilogy => "trilogy_pal",
        }
    }
}

/// The layer of the Research Lab Aether cutscene trigger: 4 in the Japanese, PAL and trilogy
/// versions, 5 in the others.
pub open spec fn lab_aether_trigger_layer(v: Version) -> u32 {
    if v == Version::NtscUTrilogy || v == Version::NtscJTrilogy || v == Version::PalTrilogy
        || v == Version::Pal || v == Version::NtscJ {
        4
    } else {
        5
    }
}

/// The instance id of that trigger, whose top byte is its layer.
pub open spec fn lab_aether_trigger_id(v: Version) -> u32 {
    (0x330317 + (lab_aether_trigger_layer(v) << 26u32)) as u32
}

/// Disables the cutscene trigger of Research Lab Aether.
pub fn patch_lab_aether_cutscene_trigger(area: &mut MlvlArea, version: Version) -> (r: Result<(), String>)
    requires
        first_in_layer(
            *old(area),
            lab_aether_trigger_layer(version) as int,
            with_id(lab_aether_trigger_id(version)),
            |o: SclyObject| o.property_data is Trigger,
        ),
    ensures
        r is Ok,
        area_with_first_updated(
            *old(area),
            *final(area),
            lab_aether_trigger_layer(version) as int,
            with_id(lab_aether_trigger_id(version)),
            |o: SclyObject| with_active(o, 0),
        ),
{
    let layer_num: u32 = if version == Version::NtscUTrilogy || version == Version::NtscJTrilogy
        || version == Version::PalTrilogy || version == Version::Pal || version == Version::NtscJ {
        4
    } else {
        5
    };
    assert(0x330317 + (layer_num << 26u32) < 0x1_0000_0000) by (bit_vector)
        requires
            layer_num == 4 || layer_num == 5,
    ;
    let cutscene_trigger_id = 0x330317 + (layer_num << 26);
    let l = layer_num as usize;
    let k = position_of_id(&area.layers[l].objects, cutscene_trigger_id).unwrap();
    set_active(&mut area.layers[l].objects[k], 0);
    Ok(())
}

/// Disables the destructible rock of Geothermal Core (PAL): its platform, scan point and blocking collision.
pub fn patch_geothermal_core_destructible_rock_pal(area: &mut MlvlArea) -> (r: Result<(), String>)
    requires
        first_in_layer(*old(area), 0, with_id(0x1403AE), |o: SclyObject| o.property_data is Platform),
        first_in_layer(*old(area), 0, with_id(0x1403B4), |o: SclyObject| o.property_data is PointOfInterest),
        first_in_layer(*old(area), 0, with_id(0x1403B5), |o: SclyObject| o.property_data is Actor),
    ensures
        r is Ok,
        ({
            let objects = old(area).layers@[0].objects@;
            let kp = first_index(objects, with_id(0x1403AE));
            let ks = first_index(objects, with_id(0x1403B4));
            let ka = first_index(objects, with_id(0x1403B5));
            area_with_layer_objects(
                *old(area),
                *final(area),
                0,
                objects.update(kp, with_active(objects[kp], 0)).update(ks, with_active(objects[ks], 0)).update(
                    ka,
                    with_active(objects[ka], 0),
                ),
            )
        }),
{
    let ghost objects = area.layers@[0].objects@;
    let kp = position_of_id(&area.layers[0].objects, 0x1403AE).unwrap();
    set_active(&mut area.layers[0].objects[kp], 0);
    proof {
        lemma_update_keeps_first(objects, kp as int, with_active(objects[kp as int], 0), with_id(0x1403B4));
        lemma_update_keeps_first(objects, kp as int, with_active(objects[kp as int], 0), with_id(0x1403B5));
    }
    let ghost objects2 = area.layers@[0].objects@;
    let ks = position_of_id(&area.layers[0].objects, 0x1403B4).unwrap();
    set_active(&mut area.layers[0].objects[ks], 0);
    proof {
        lemma_update_keeps_first(objects2, ks as int, with_active(objects2[ks as int], 0), with_id(0x1403B5));
        lemma_first_exists(objects, with_id(0x1403B4));
        lemma_first_exists(objects, with_id(0x1403B5));
    }
    let ka = position_of_id(&area.layers[0].objects, 0x1403B5).unwrap();
    set_active(&mut area.layers[0].objects[ka], 0);
    Ok(())
}

/// Disables the destructible rock of Ore Processing (PAL): its platform, scan point and blocking collision.
pub fn patch_ore_processing_destructible_rock_pal(area: &mut MlvlArea) -> (r: Result<(), String>)
    requires
        first_in_layer(*old(area), 0, with_id(0x60372), |o: SclyObject| o.property_data is Platform),
        first_in_layer(*old(area), 0, with_id(0x60378), |o: SclyObject| o.property_data is PointOfInterest),
        first_in_layer(*old(area), 0, with_id(0x60379), |o: SclyObject| o.property_data is Actor),
    ensures
        r is Ok,
        ({
            let objects = old(area).layers@[0].objects@;
            let kp = first_index(objects, with_id(0x60372));
            let ks = first_index(objects, with_id(0x60378));
            let ka = first_index(objects, with_id(0x60379));
            area_with_layer_objects(
                *old(area),
                *final(area),
                0,
                objects.update(kp, with_active(objects[kp], 0)).update(ks, with_active(objects[ks], 0)).update(
                    ka,
                    with_active(objects[ka], 0),
                ),
            )
        }),
{
    let ghost objects = area.layers@[0].objects@;
    let kp = position_of_id(&area.layers[0].objects, 0x60372).unwrap();
    set_active(&mut area.layers[0].objects[kp], 0);
    proof {
        lemma_update_keeps_first(objects, kp as int, with_active(objects[kp as int], 0), with_id(0x60378));
        lemma_update_keeps_first(objects, kp as int, with_active(objects[kp as int], 0), with_id(0x60379));
    }
    let ghost objects2 = area.layers@[0].objects@;
    let ks = position_of_id(&area.layers[0].objects, 0x60378).unwrap();
    set_active(&mut area.layers[0].objects[ks], 0);
    proof {
        lemma_update_keeps_first(objects2, ks as int, with_active(objects2[ks as int], 0), with_id(0x60379));
        lemma_first_exists(objects, with_id(0x60378));
        lemma_first_exists(objects, with_id(0x60379));
    }
    let ka = position_of_id(&area.layers[0].objects, 0x60379).unwrap();
    set_active(&mut area.layers[0].objects[ka], 0);
    Ok(())
}

/// Makes the Mine Security Station's metroid aggro trigger also reset the one-shot relay, so
/// that the room can be crossed backwards.
pub fn patch_backwards_lower_mines_mqa(area: &mut MlvlArea) -> (r: Result<(), String>)
    requires
        first_in_layer(*old(area), 0, with_masked_id(0x00200214), |o: SclyObject| true),
    ensures
        r is Ok,
        area_with_connections_appended(
            *old(area),
            *final(area),
            0,
            with_masked_id(0x00200214),
            seq![Connection { state: STATE_ENTERED, message: MSG_SET_TO_ZERO, target_object_id: 0x00200464 }],
        ),
{
    let k = position_of_masked_id(&area.layers[0].objects, 0x00200214).unwrap();
    let ghost before = area.layers@[0].objects@[k as int].connections@;
    area.layers[0].objects[k].connections.push(Connection { state: STATE_ENTERED, message: MSG_SET_TO_ZERO, target_object_id: 0x00200464 });
    assert(area.layers@[0].objects@[k as int].connections@ =~= before + seq![Connection { state: STATE_ENTERED, message: MSG_SET_TO_ZERO, target_object_id: 0x00200464 }]);
    Ok(())
}

/// The connections that make skipping the Metroid Prime Essence cinematic stop the flash and its
/// timers.
pub open spec fn essence_whitescreen_connections() -> Seq<Connection> {
    seq![
        Connection { state: STATE_ZERO, message: MSG_STOP, target_object_id: 0xB00E9 },
        Connection { state: STATE_ZERO, message: MSG_DECREMENT, target_object_id: 0xB011B },
        Connection { state: STATE_ZERO, message: MSG_STOP, target_object_id: 0xB011D },
    ]
}

/// Makes skipping the Metroid Prime Essence cinematic stop its white flash.
pub fn patch_essence_cinematic_skip_whitescreen(area: &mut MlvlArea) -> (r: Result<(), String>)
    requires
        first_in_layer(*old(area), 0, with_id(0xB01DC), |o: SclyObject| true),
    ensures
        r is Ok,
        area_with_connections_appended(
            *old(area),
            *final(area),
            0,
            with_id(0xB01DC),
            essence_whitescreen_connections(),
        ),
{
    let k = position_of_id(&area.layers[0].objects, 0xB01DC).unwrap();
    let ghost before = area.layers@[0].objects@[k as int].connections@;
    area.layers[0].objects[k].connections.push(Connection { state: STATE_ZERO, message: MSG_STOP, target_object_id: 0xB00E9 });
    area.layers[0].objects[k].connections.push(Connection { state: STATE_ZERO, message: MSG_DECREMENT, target_object_id: 0xB011B });
    area.layers[0].objects[k].connections.push(Connection { state: STATE_ZERO, message: MSG_STOP, target_object_id: 0xB011D });
    assert(area.layers@[0].objects@[k as int].connections@ =~= before + essence_whitescreen_connections());
    Ok(())
}

/// Makes skipping the Metroid Prime Essence cinematic start the battle music.
pub fn patch_essence_cinematic_skip_nomusic(area: &mut MlvlArea) -> (r: Result<(), String>)
    requires
        first_in_layer(*old(area), 0, with_id(0xB01DC), |o: SclyObject| true),
    ensures
        r is Ok,
        area_with_connections_appended(
            *old(area),
            *final(area),
            0,
            with_id(0xB01DC),
            seq![Connection { state: STATE_ZERO, message: MSG_PLAY, target_object_id: 0xB019E }],
        ),
{
    let k = position_of_id(&area.layers[0].objects, 0xB01DC).unwrap();
    let ghost before = area.layers@[0].objects@[k as int].connections@;
    area.layers[0].objects[k].connections.push(Connection { state: STATE_ZERO, message: MSG_PLAY, target_object_id: 0xB019E });
    assert(area.layers@[0].objects@[k as int].connections@ =~= before + seq![Connection { state: STATE_ZERO, message: MSG_PLAY, target_object_id: 0xB019E }]);
    Ok(())
}

/// The relays that lock the doors of Research Core Access while the drones are alert.
pub open spec fn research_core_lock_relays() -> Seq<u32> {
    seq![0x082C00CFu32, 0x082C010E]
}

/// The connections that make a drone release the door locks of Research Core Access.
pub open spec fn drone_release_connections() -> Seq<Connection> {
    seq![
        Connection { state: STATE_ZERO, message: MSG_SET_TO_ZERO, target_object_id: 0x082C00CF },
        Connection { state: STATE_ZERO, message: MSG_SET_TO_ZERO, target_object_id: 0x082C010E },
    ]
}

/// Prevents a soft lock in Research Core Access: the drone alert no longer locks the doors, and
/// each of the two drones releases the locks when it dies.
pub fn patch_research_core_access_soft_lock(area: &mut MlvlArea) -> (r: Result<(), String>)
    requires
        first_in_layer(*old(area), 2, with_id(0x082C00CD), |o: SclyObject| true),
        first_in_layer(*old(area), 2, with_id(0x082C006C), |o: SclyObject| true),
        first_in_layer(*old(area), 2, with_id(0x082C0124), |o: SclyObject| true),
    ensures
        r is Ok,
        ({
            let objects = old(area).layers@[2].objects@;
            let new_objects = final(area).layers@[2].objects@;
            let kt = first_index(objects, with_id(0x082C00CD));
            let k1 = first_index(objects, with_id(0x082C006C));
            let k2 = first_index(objects, with_id(0x082C0124));
            &&& final(area).mrea_id == old(area).mrea_id
            &&& final(area).layer_flags == old(area).layer_flags
            &&& final(area).dependencies == old(area).dependencies
            &&& final(area).layers@.len() == old(area).layers@.len()
            &&& forall|j: int|
                0 <= j < old(area).layers@.len() && j != 2 ==> #[trigger] final(area).layers@[j]
                    == old(area).layers@[j]
            &&& new_objects.len() == objects.len()
            &&& forall|j: int|
                0 <= j < objects.len() && j != kt && j != k1 && j != k2 ==> #[trigger] new_objects[j]
                    == objects[j]
            &&& new_objects[kt].instance_id == objects[kt].instance_id
            &&& new_objects[kt].property_data == objects[kt].property_data
            &&& new_objects[kt].connections@ == objects[kt].connections@.filter(
                |c: Connection| !research_core_lock_relays().contains(c.target_object_id),
            )
            &&& connections_appended(objects[k1], new_objects[k1], drone_release_connections())
            &&& connections_appended(objects[k2], new_objects[k2], drone_release_connections())
        }),
{
    let relay_enable_lock_ids: [u32; 2] = [0x082C00CF, 0x082C010E];
    assert(relay_enable_lock_ids@ =~= research_core_lock_relays());
    let ghost objects = area.layers@[2].objects@;
    proof {
        lemma_first_exists(objects, with_id(0x082C00CD));
        lemma_first_exists(objects, with_id(0x082C006C));
        lemma_first_exists(objects, with_id(0x082C0124));
    }
    let kt = position_of_id(&area.layers[2].objects, 0x082C00CD).unwrap();
    retain_connections_not_to(&mut area.layers[2].objects[kt].connections, relay_enable_lock_ids.as_slice());
    proof {
        lemma_update_keeps_first(objects, kt as int, area.layers@[2].objects@[kt as int], with_id(0x082C006C));
        lemma_update_keeps_first(objects, kt as int, area.layers@[2].objects@[kt as int], with_id(0x082C0124));
        assert(area.layers@[2].objects@ =~= objects.update(kt as int, area.layers@[2].objects@[kt as int]));
    }
    let ghost objects2 = area.layers@[2].objects@;
    let k1 = position_of_id(&area.layers[2].objects, 0x082C006C).unwrap();
    let ghost before1 = area.layers@[2].objects@[k1 as int].connections@;
    area.layers[2].objects[k1].connections.push(Connection { state: STATE_ZERO, message: MSG_SET_TO_ZERO, target_object_id: 0x082C00CF });
    area.layers[2].objects[k1].connections.push(Connection { state: STATE_ZERO, message: MSG_SET_TO_ZERO, target_object_id: 0x082C010E });
    assert(area.layers@[2].objects@[k1 as int].connections@ =~= before1 + drone_release_connections());
    proof {
        lemma_update_keeps_first(objects2, k1 as int, area.layers@[2].objects@[k1 as int], with_id(0x082C0124));
        assert(area.layers@[2].objects@ =~= objects2.update(k1 as int, area.layers@[2].objects@[k1 as int]));
    }
    let k2 = position_of_id(&area.layers[2].objects, 0x082C0124).unwrap();
    let ghost before2 = area.layers@[2].objects@[k2 as int].connections@;
    area.layers[2].objects[k2].connections.push(Connection { state: STATE_ZERO, message: MSG_SET_TO_ZERO, target_object_id: 0x082C00CF });
    area.layers[2].objects[k2].connections.push(Connection { state: STATE_ZERO, message: MSG_SET_TO_ZERO, target_object_id: 0x082C010E });
    assert(area.layers@[2].objects@[k2 as int].connections@ =~= before2 + drone_release_connections());
    Ok(())
}

/// The object, if it is a trigger whose name contains "eliteboss", activated.
pub open spec fn with_elite_boss_trigger_active(o: SclyObject) -> SclyObject {
    match o.property_data {
        SclyProperty::Trigger(t) => if contains_substring(t.name@, "eliteboss"@) {
            with_active(o, 1)
        } else {
            o
        },
        _ => o,
    }
}

fn activate_elite_boss_trigger(obj: &mut SclyObject)
    ensures
        *final(obj) == with_elite_boss_trigger_active(*old(obj)),
{
    let is_elite_trigger = match &obj.property_data {
        SclyProperty::Trigger(trigger) => str_contains(trigger.name.as_str(), "eliteboss"),
        _ => false,
    };
    if is_elite_trigger {
        set_active(obj, 1);
    }
}

/// Prevents a crash in the Phazon Processing Center: activates, in every layer, the triggers that
/// load the elite boss.
pub fn patch_fix_pca_crash(area: &mut MlvlArea) -> (r: Result<(), String>)
    ensures
        r is Ok,
        final(area).mrea_id == old(area).mrea_id,
        final(area).layer_flags == old(area).layer_flags,
        final(area).dependencies == old(area).dependencies,
        final(area).layers@.len() == old(area).layers@.len(),
        forall|l: int|
            0 <= l < old(area).layers@.len() ==> (#[trigger] final(area).layers@[l]).objects@
                == old(area).layers@[l].objects@.map_values(|o: SclyObject| with_elite_boss_trigger_active(o)),
{
    let n = area.layers.len();
    let mut i: usize = 0;
    while i < n
        invariant
            n == area.layers@.len(),
            n == old(area).layers@.len(),
            i <= n,
            area.mrea_id == old(area).mrea_id,
            area.layer_flags == old(area).layer_flags,
            area.dependencies == old(area).dependencies,
            forall|l: int|
                0 <= l < i ==> (#[trigger] area.layers@[l]).objects@ == old(area).layers@[l].objects@.map_values(
                    |o: SclyObject| with_elite_boss_trigger_active(o),
                ),
            forall|l: int| i <= l < n ==> #[trigger] area.layers@[l] == old(area).layers@[l],
        decreases n - i,
    {
        let m = area.layers[i].objects.len();
        let mut j: usize = 0;
        while j < m
            invariant
                n == area.layers@.len(),
                n == old(area).layers@.len(),
                i < n,
                j <= m,
                m == area.layers@[i as int].objects@.len(),
                m == old(area).layers@[i as int].objects@.len(),
                area.mrea_id == old(area).mrea_id,
                area.layer_flags == old(area).layer_flags,
                area.dependencies == old(area).dependencies,
                forall|l: int|
                    0 <= l < i ==> (#[trigger] area.layers@[l]).objects@ == old(area).layers@[l].objects@.map_values(
                        |o: SclyObject| with_elite_boss_trigger_active(o),
                    ),
                forall|l: int| i < l < n ==> #[trigger] area.layers@[l] == old(area).layers@[l],
                forall|k: int|
                    0 <= k < j ==> #[trigger] area.layers@[i as int].objects@[k] == with_elite_boss_trigger_active(
                        old(area).layers@[i as int].objects@[k],
                    ),
                forall|k: int|
                    j <= k < m ==> #[trigger] area.layers@[i as int].objects@[k] == old(area).layers@[i as int].objects@[k],
            decreases m - j,
        {
            activate_elite_boss_trigger(&mut area.layers[i].objects[j]);
            j = j + 1;
        }
        assert(area.layers@[i as int].objects@ =~= old(area).layers@[i as int].objects@.map_values(
            |o: SclyObject| with_elite_boss_trigger_active(o),
        ));
        i = i + 1;
    }
    Ok(())
}

/// `n` is `o`, except that where `o` is a player hint its flags 5 to 8 (those that disable
/// unmorphing, morphing, the controls and boosting) are cleared.
pub open spec fn controls_enabled(o: SclyObject, n: SclyObject) -> bool {
    match o.property_data {
        SclyProperty::PlayerHint(h) => {
            &&& n.instance_id == o.instance_id
            &&& n.connections == o.connections
            &&& n.property_data matches SclyProperty::PlayerHint(g) && g.unknowns@ == h.unknowns@.update(
                5,
                0,
            ).update(6, 0).update(7, 0).update(8, 0)
        },
        _ => n == o,
    }
}

fn enable_controls(obj: &mut SclyObject)
    ensures
        controls_enabled(*old(obj), *final(obj)),
{
    match &mut obj.property_data {
        SclyProperty::PlayerHint(hint) => {
            hint.unknowns[5] = 0;
            hint.unknowns[6] = 0;
            hint.unknowns[7] = 0;
            hint.unknowns[8] = 0;
        },
        _ => {},
    }
}

/// Keeps player hints from disabling the controls: clears, in every player hint of every layer,
/// the flags that disable unmorphing, morphing, the controls and boosting.
pub fn patch_remove_control_disabler(area: &mut MlvlArea) -> (r: Result<(), String>)
    ensures
        r is Ok,
        final(area).mrea_id == old(area).mrea_id,
        final(area).layer_flags == old(area).layer_flags,
        final(area).dependencies == old(area).dependencies,
        final(area).layers@.len() == old(area).layers@.len(),
        forall|l: int|
            0 <= l < old(area).layers@.len() ==> (#[trigger] final(area).layers@[l]).objects@.len()
                == old(area).layers@[l].objects@.len(),
        forall|l: int, k: int|
            0 <= l < old(area).layers@.len() && 0 <= k < old(area).layers@[l].objects@.len()
                ==> controls_enabled(old(area).layers@[l].objects@[k], #[trigger] final(area).layers@[l].objects@[k]),
{
    let n = area.layers.len();
    let mut i: usize = 0;
    while i < n
        invariant
            n == area.layers@.len(),
            n == old(area).layers@.len(),
            i <= n,
            area.mrea_id == old(area).mrea_id,
            area.layer_flags == old(area).layer_flags,
            area.dependencies == old(area).dependencies,
            forall|l: int|
                0 <= l < n ==> (#[trigger] area.layers@[l]).objects@.len() == old(area).layers@[l].objects@.len(),
            forall|l: int, k: int|
                0 <= l < i && 0 <= k < old(area).layers@[l].objects@.len() ==> controls_enabled(
                    old(area).layers@[l].objects@[k],
                    #[trigger] area.layers@[l].objects@[k],
                ),
            forall|l: int| i <= l < n ==> #[trigger] area.layers@[l] == old(area).layers@[l],
        decreases n - i,
    {
        let m = area.layers[i].objects.len();
        let mut j: usize = 0;
        while j < m
            invariant
                n == area.layers@.len(),
                n == old(area).layers@.len(),
                i < n,
                j <= m,
                m == area.layers@[i as int].objects@.len(),
                m == old(area).layers@[i as int].objects@.len(),
                area.mrea_id == old(area).mrea_id,
                area.layer_flags == old(area).layer_flags,
                area.dependencies == old(area).dependencies,
                forall|l: int|
                    0 <= l < n ==> (#[trigger] area.layers@[l]).objects@.len() == old(area).layers@[l].objects@.len(),
                forall|l: int, k: int|
                    0 <= l < i && 0 <= k < old(area).layers@[l].objects@.len() ==> controls_enabled(
                        old(area).layers@[l].objects@[k],
                        #[trigger] area.layers@[l].objects@[k],
                    ),
                forall|l: int| i < l < n ==> #[trigger] area.layers@[l] == old(area).layers@[l],
                forall|k: int|
                    0 <= k < j ==> controls_enabled(
                        old(area).layers@[i as int].objects@[k],
                        #[trigger] area.layers@[i as int].objects@[k],
                    ),
                forall|k: int|
                    j <= k < m ==> #[trigger] area.layers@[i as int].objects@[k] == old(area).layers@[i as int].objects@[k],
            decreases m - j,
        {
            enable_controls(&mut area.layers[i].objects[j]);
            j = j + 1;
        }
        i = i + 1;
    }
    Ok(())
}

/// The object, if it is a player actor, with the phazon suit forced on (its suit flag cleared).
pub open spec fn with_phazon_suit_forced(o: SclyObject) -> SclyObject {
    match o.property_data {
        SclyProperty::PlayerActor(a) => SclyObject {
            property_data: SclyProperty::PlayerActor(PlayerActor { unknown0: 0 }),
            ..o
        },
        _ => o,
    }
}

/// Makes the player actor of a cutscene wear the phazon suit. The actor is absent where major
/// cutscenes are skipped; the room is then left as it is.
pub fn patch_cutscene_force_phazon_suit(area: &mut MlvlArea) -> (r: Result<(), String>)
    requires
        old(area).layers@.len() > 1,
        any_where(old(area).layers@[1].objects@, with_masked_id(0x001A02AF)) ==> first_in_layer(
            *old(area),
            1,
            with_masked_id(0x001A02AF),
            |o: SclyObject| o.property_data is PlayerActor,
        ),
    ensures
        r is Ok,
        !any_where(old(area).layers@[1].objects@, with_masked_id(0x001A02AF)) ==> *final(area) == *old(area),
        any_where(old(area).layers@[1].objects@, with_masked_id(0x001A02AF)) ==> area_with_first_updated(
            *old(area),
            *final(area),
            1,
            with_masked_id(0x001A02AF),
            |o: SclyObject| with_phazon_suit_forced(o),
        ),
{
    let found = position_of_masked_id(&area.layers[1].objects, 0x001A02AF);
    match found {
        None => Ok(()),
        Some(k) => {
            match &mut area.layers[1].objects[k].property_data {
                SclyProperty::PlayerActor(player_actor) => {
                    player_actor.unknown0 = 0;
                },
                _ => {},
            }
            Ok(())
        },
    }
}

/// The versions in which the Ruined Courtyard thermal conduit is covered by debris.
pub open spec fn has_conduit_debris(v: Version) -> bool {
    v == Version::NtscJ || v == Version::Pal || v == Version::NtscUTrilogy || v == Version::NtscJTrilogy
        || v == Version::PalTrilogy
}

/// Makes the Ruined Courtyard thermal conduit usable: its damageable trigger is activated; in
/// version 1.02 its actor too; where debris covers it, the debris generator deactivates the cover
/// and the "Thermal Target" layer (layer 6) is switched on.
pub fn patch_ruined_courtyard_thermal_conduits(area: &mut MlvlArea, version: Version) -> (r: Result<(), String>)
    requires
        first_in_layer(*old(area), 0, with_id(0xF01C8), |o: SclyObject| o.property_data is DamageableTrigger),
        version == Version::NtscU0_02 ==> first_in_layer(
            *old(area),
            0,
            with_id(0xF01C7),
            |o: SclyObject| o.property_data is Actor,
        ),
        has_conduit_debris(version) ==> first_in_layer(*old(area), 0, with_id(0xF01DD), |o: SclyObject| true),
    ensures
        r is Ok,
        ({
            let objects = old(area).layers@[0].objects@;
            let new_objects = final(area).layers@[0].objects@;
            let kd = first_index(objects, with_id(0xF01C8));
            let ka = first_index(objects, with_id(0xF01C7));
            let kg = first_index(objects, with_id(0xF01DD));
            &&& final(area).mrea_id == old(area).mrea_id
            &&& final(area).dependencies == old(area).dependencies
            &&& final(area).layers@.len() == old(area).layers@.len()
            &&& forall|j: int|
                0 < j < old(area).layers@.len() ==> #[trigger] final(area).layers@[j] == old(area).layers@[j]
            &&& if version == Version::NtscU0_02 {
                &&& final(area).layer_flags == old(area).layer_flags
                &&& new_objects == objects.update(kd, with_active(objects[kd], 1)).update(
                    ka,
                    with_active(objects[ka], 1),
                )
            } else if has_conduit_debris(version) {
                &&& final(area).layer_flags == old(area).layer_flags | (1u64 << 6u64)
                &&& new_objects.len() == objects.len()
                &&& forall|j: int| 0 <= j < objects.len() && j != kd && j != kg ==> #[trigger] new_objects[j] == objects[j]
                &&& new_objects[kd] == with_active(objects[kd], 1)
                &&& connections_appended(
                    objects[kg],
                    new_objects[kg],
                    seq![Connection { state: STATE_ZERO, message: MSG_DEACTIVATE, target_object_id: 0xF01D9 }],
                )
            } else {
                &&& final(area).layer_flags == old(area).layer_flags
                &&& new_objects == objects.update(kd, with_active(objects[kd], 1))
            }
        }),
{
    let ghost objects = area.layers@[0].objects@;
    proof {
        lemma_first_exists(objects, with_id(0xF01C8));
        if version == Version::NtscU0_02 {
            lemma_first_exists(objects, with_id(0xF01C7));
        }
        if has_conduit_debris(version) {
            lemma_first_exists(objects, with_id(0xF01DD));
        }
    }
    let kd = position_of_id(&area.layers[0].objects, 0xF01C8).unwrap();
    set_active(&mut area.layers[0].objects[kd], 1);
    proof {
        lemma_update_keeps_first(objects, kd as int, with_active(objects[kd as int], 1), with_id(0xF01C7));
        lemma_update_keeps_first(objects, kd as int, with_active(objects[kd as int], 1), with_id(0xF01DD));
    }
    if version == Version::NtscU0_02 {
        let ka = position_of_id(&area.layers[0].objects, 0xF01C7).unwrap();
        set_active(&mut area.layers[0].objects[ka], 1);
    } else if version == Version::NtscJ || version == Version::Pal || version == Version::NtscUTrilogy
        || version == Version::NtscJTrilogy || version == Version::PalTrilogy {
        let kg = position_of_id(&area.layers[0].objects, 0xF01DD).unwrap();
        let ghost before = area.layers@[0].objects@[kg as int].connections@;
        let c = Connection { state: STATE_ZERO, message: MSG_DEACTIVATE, target_object_id: 0xF01D9 };
        area.layers[0].objects[kg].connections.push(c);
        assert(area.layers@[0].objects@[kg as int].connections@ =~= before + seq![c]);
        // turn on the "Thermal Target" layer
        area.layer_flags = area.layer_flags | (1 << 6);
    }
    Ok(())
}

/// Moves the Arboretum vines (tangle weed) from the second layer to the first: a copy of the
/// first vine object goes to the end of the first layer, and every object with its id leaves the
/// second.
pub fn patch_arboretum_vines(area: &mut MlvlArea) -> (r: Result<(), String>)
    requires
        first_in_layer(*old(area), 1, with_masked_id(0x00130135), |o: SclyObject| true),
    ensures
        r is Ok,
        ({
            let first = old(area).layers@[0].objects@;
            let second = old(area).layers@[1].objects@;
            let weeds = second[first_index(second, with_masked_id(0x00130135))];
            let new_first = final(area).layers@[0].objects@;
            &&& final(area).mrea_id == old(area).mrea_id
            &&& final(area).layer_flags == old(area).layer_flags
            &&& final(area).dependencies == old(area).dependencies
            &&& final(area).layers@.len() == old(area).layers@.len()
            &&& forall|j: int| 1 < j < old(area).layers@.len() ==> #[trigger] final(area).layers@[j] == old(area).layers@[j]
            &&& new_first.len() == first.len() + 1
            &&& new_first.subrange(0, first.len() as int) == first
            &&& new_first.last().instance_id == weeds.instance_id
            &&& new_first.last().connections@ == weeds.connections@
            &&& new_first.last().property_data == weeds.property_data
            &&& final(area).layers@[1].objects@ == second.filter(
                |o: SclyObject| o.instance_id & INSTANCE_ID_MASK != 0x00130135,
            )
        }),
{
    let k = position_of_masked_id(&area.layers[1].objects, 0x00130135).unwrap();
    let weeds = area.layers[1].objects[k].duplicate();
    let ghost first = area.layers@[0].objects@;
    area.layers[0].objects.push(weeds);
    assert(area.layers@[0].objects@.subrange(0, first.len() as int) =~= first);
    let keep = |o: &SclyObject| -> (b: bool)
        ensures
            b == ((*o).instance_id & INSTANCE_ID_MASK != 0x00130135),
        { o.instance_id & INSTANCE_ID_MASK != 0x00130135 };
    retain_objects(
        &mut area.layers[1].objects,
        &keep,
        Ghost(|o: SclyObject| o.instance_id & INSTANCE_ID_MASK != 0x00130135),
    );
    Ok(())
}

/// Keeps the Sun Tower from changing layers before Flaahgra is beaten: the layer-change trigger
/// leaves the first layer and becomes the only object of the second.
pub fn patch_sun_tower_prevent_wild_before_flaahgra(area: &mut MlvlArea) -> (r: Result<(), String>)
    requires
        old(area).layers@.len() > 1,
        any_where(old(area).layers@[0].objects@, with_id(0x001d015b)),
    ensures
        r is Ok,
        ({
            let first = old(area).layers@[0].objects@;
            let k = first_index(first, with_id(0x001d015b));
            &&& final(area).mrea_id == old(area).mrea_id
            &&& final(area).layer_flags == old(area).layer_flags
            &&& final(area).dependencies == old(area).dependencies
            &&& final(area).layers@.len() == old(area).layers@.len()
            &&& forall|j: int| 1 < j < old(area).layers@.len() ==> #[trigger] final(area).layers@[j] == old(area).layers@[j]
            &&& final(area).layers@[0].objects@ == first.remove(k)
            &&& final(area).layers@[1].objects@ == seq![first[k]]
        }),
{
    let k = position_of_id(&area.layers[0].objects, 0x001d015b).unwrap();
    let trigger = area.layers[0].objects.remove(k);
    let mut objects = Vec::new();
    objects.push(trigger);
    area.layers[1].objects = objects;
    Ok(())
}

/// How the artifact temple gives hints: as in the game, all at once, or not at all.
#[derive(Copy, Clone, Debug, PartialEq, Eq, Structural)]
pub enum ArtifactHintBehavior {
    Default,
    NoHints,
    All,
}

/// The relays that turn on the artifact hints, one per artifact.
pub open spec fn hint_relays() -> Seq<u32> {
    seq![
        68157732u32, 68157735, 68157738, 68157741, 68157744, 68157747, 68157750, 68157753, 68157756,
        68157759, 68157762, 68157765,
    ]
}

/// The connections that turn on every artifact hint relay.
pub open spec fn all_hint_connections() -> Seq<Connection> {
    hint_relays().map_values(
        |id: u32| Connection { state: STATE_ZERO, message: MSG_SET_TO_ZERO, target_object_id: id },
    )
}

/// Sets which artifact hints the Artifact Temple gives: `Default` leaves the room; `All` makes the
/// relay that starts the hints turn on every hint relay; `None` removes the hint relays from the
/// second layer.
pub fn patch_artifact_hint_availability(area: &mut MlvlArea, hint_behavior: ArtifactHintBehavior) -> (r: Result<(), String>)
    requires
        hint_behavior == ArtifactHintBehavior::All ==> first_in_layer(*old(area), 0, with_id(1048956), |o: SclyObject| true),
        hint_behavior == ArtifactHintBehavior::NoHints ==> old(area).layers@.len() > 1,
    ensures
        r is Ok,
        hint_behavior == ArtifactHintBehavior::Default ==> *final(area) == *old(area),
        hint_behavior == ArtifactHintBehavior::All ==> area_with_connections_appended(
            *old(area),
            *final(area),
            0,
            with_id(1048956),
            all_hint_connections(),
        ),
        hint_behavior == ArtifactHintBehavior::NoHints ==> area_with_layer_objects(
            *old(area),
            *final(area),
            1,
            old(area).layers@[1].objects@.filter(|o: SclyObject| !hint_relays().contains(o.instance_id)),
        ),
{
    let hint_relay_objs: [u32; 12] = [
        68157732, 68157735, 68157738, 68157741, 68157744, 68157747, 68157750, 68157753, 68157756,
        68157759, 68157762, 68157765,
    ];
    assert(hint_relay_objs@ =~= hint_relays());
    match hint_behavior {
        ArtifactHintBehavior::Default => {},
        ArtifactHintBehavior::All => {
            // the "Relay One Shot Out" turns the hints on unconditionally
            let k = position_of_id(&area.layers[0].objects, 1048956).unwrap();
            let ghost before = area.layers@[0].objects@[k as int].connections@;
            let mut i: usize = 0;
            while i < 12
                invariant
                    i <= 12,
                    hint_relay_objs@ == hint_relays(),
                    0 < area.layers@.len(),
                    area.layers@.len() == old(area).layers@.len(),
                    k < area.layers@[0].objects@.len(),
                    area.mrea_id == old(area).mrea_id,
                    area.layer_flags == old(area).layer_flags,
                    area.dependencies == old(area).dependencies,
                    forall|j: int| 0 < j < old(area).layers@.len() ==> #[trigger] area.layers@[j] == old(area).layers@[j],
                    area.layers@[0].objects@.len() == old(area).layers@[0].objects@.len(),
                    forall|j: int|
                        0 <= j < old(area).layers@[0].objects@.len() && j != k ==> #[trigger] area.layers@[0].objects@[j]
                            == old(area).layers@[0].objects@[j],
                    area.layers@[0].objects@[k as int].instance_id == old(area).layers@[0].objects@[k as int].instance_id,
                    area.layers@[0].objects@[k as int].property_data == old(area).layers@[0].objects@[k as int].property_data,
                    before == old(area).layers@[0].objects@[k as int].connections@,
                    area.layers@[0].objects@[k as int].connections@ == before + all_hint_connections().subrange(0, i as int),
                decreases 12 - i,
            {
                let c = Connection { state: STATE_ZERO, message: MSG_SET_TO_ZERO, target_object_id: hint_relay_objs[i] };
                area.layers[0].objects[k].connections.push(c);
                assert(all_hint_connections().subrange(0, i + 1) =~= all_hint_connections().subrange(0, i as int).push(c));
                i = i + 1;
            }
            assert(all_hint_connections().subrange(0, 12) =~= all_hint_connections());
        },
        ArtifactHintBehavior::NoHints => {
            let ids = hint_relay_objs.as_slice();
            let keep = |o: &SclyObject| -> (b: bool)
                ensures
                    b == !hint_relays().contains((*o).instance_id),
                { !contains_id(ids, o.instance_id) };
            retain_objects(
                &mut area.layers[1].objects,
                &keep,
                Ghost(|o: SclyObject| !hint_relays().contains(o.instance_id)),
            );
        },
    }
    Ok(())
}

/// The contents of a resource that the game reads as plain words (the maze seeds).
pub struct Dumb {
    pub data: Vec<u32>,
}

/// Writes the maze seeds into the first 300 words of the seed resource, repeating the seeds
/// in order as often as needed; a resource of another kind is left alone.
pub fn patch_maze_seeds(res: &mut Option<Dumb>, seeds: Vec<u32>) -> (r: Result<(), String>)
    requires
        *old(res) matches Some(d) ==> d.data@.len() >= 300 && seeds@.len() > 0,
    ensures
        r is Ok,
        *old(res) is None ==> *final(res) is None,
        *old(res) matches Some(d) ==> *final(res) matches Some(e) && e.data@.len() == d.data@.len() && (forall|i: int|
            0 <= i < 300 ==> #[trigger] e.data@[i] == seeds@[i % seeds@.len() as int]) && (forall|i: int|
            300 <= i < d.data@.len() ==> #[trigger] e.data@[i] == d.data@[i]),
{
    match res {
        Some(dumb) => {
            let n = seeds.len();
            let mut i: usize = 0;
            while i < 300
                invariant
                    n == seeds@.len(),
                    n > 0,
                    i <= 300,
                    dumb.data@.len() == (*old(res))->Some_0.data@.len(),
                    dumb.data@.len() >= 300,
                    forall|j: int| 0 <= j < i ==> #[trigger] dumb.data@[j] == seeds@[j % n as int],
                    forall|j: int| i <= j < dumb.data@.len() ==> #[trigger] dumb.data@[j] == (*old(res))->Some_0.data@[j],
                decreases 300 - i,
            {
                dumb.data[i] = seeds[i % n];
                i = i + 1;
            }
        },
        None => {},
    }
    Ok(())
}

/// One table of strings of a string resource, in the language `lang` (four letters read as a
/// big-endian number).
pub struct StringTable {
    pub lang: u32,
    pub strings: Vec<String>,
}

/// The language of English string tables: the letters `ENGL`.
pub const LANG_ENGL: u32 = 0x454E_474C;

/// The language of Japanese string tables: the letters `JAPN`.
pub const LANG_JAPN: u32 = 0x4A41_504E;

/// A string resource: one table of strings per language.
pub struct Strg {
    pub string_tables: Vec<StringTable>,
}

/// Sets the last string of every table of an Artifact Temple totem's scan text to `text`.
pub fn patch_artifact_totem_scan_strg(strg: &mut Strg, text: &str) -> (r: Result<(), String>)
    requires
        forall|t: int| 0 <= t < old(strg).string_tables@.len() ==> (#[trigger] old(strg).string_tables@[t]).strings@.len() > 0,
    ensures
        r is Ok,
        final(strg).string_tables@.len() == old(strg).string_tables@.len(),
        forall|t: int|
            0 <= t < old(strg).string_tables@.len() ==> {
                let before = old(strg).string_tables@[t].strings@;
                let after = (#[trigger] final(strg).string_tables@[t]).strings@;
                &&& after.len() == before.len()
                &&& after.last()@ == text@
                &&& after.drop_last() == before.drop_last()
            },
{
    let n = strg.string_tables.len();
    let mut t: usize = 0;
    while t < n
        invariant
            n == strg.string_tables@.len(),
            n == old(strg).string_tables@.len(),
            t <= n,
            forall|u: int| t <= u < n ==> #[trigger] strg.string_tables@[u] == old(strg).string_tables@[u],
            forall|u: int| 0 <= u < n ==> (#[trigger] old(strg).string_tables@[u]).strings@.len() > 0,
            forall|u: int|
                0 <= u < t ==> {
                    let before = old(strg).string_tables@[u].strings@;
                    let after = (#[trigger] strg.string_tables@[u]).strings@;
                    &&& after.len() == before.len()
                    &&& after.last()@ == text@
                    &&& after.drop_last() == before.drop_last()
                },
        decreases n - t,
    {
        let last = strg.string_tables[t].strings.len() - 1;
        strg.string_tables[t].strings[last] = text.to_owned();
        assert(strg.string_tables@[t as int].strings@.drop_last() =~= old(strg).string_tables@[t as int].strings@.drop_last());
        t = t + 1;
    }
    Ok(())
}

/// The language of each table.
pub open spec fn table_langs(tables: Seq<StringTable>) -> Seq<u32> {
    tables.map_values(|t: StringTable| t.lang)
}

/// The characters of every string of each table.
pub open spec fn table_views(tables: Seq<StringTable>) -> Seq<Seq<Seq<char>>> {
    tables.map_values(|t: StringTable| views(t.strings@))
}

/// `k` is the position of the first table in language `lang`.
pub open spec fn is_first_table(tables: Seq<StringTable>, lang: u32, k: int) -> bool {
    &&& 0 <= k < tables.len()
    &&& tables[k].lang == lang
    &&& forall|j: int| 0 <= j < k ==> #[trigger] tables[j].lang != lang
}

/// Some table is in language `lang`.
pub open spec fn has_table(tables: Seq<StringTable>, lang: u32) -> bool {
    exists|k: int| 0 <= k < tables.len() && #[trigger] tables[k].lang == lang
}

/// The position of the first table in language `lang`.
pub open spec fn first_table(tables: Seq<StringTable>, lang: u32) -> int {
    choose|k: int| is_first_table(tables, lang, k)
}

/// `i` is the position of the first string whose characters are `text`.
pub open spec fn is_first_string(strings: Seq<String>, text: Seq<char>, i: int) -> bool {
    &&& 0 <= i < strings.len()
    &&& strings[i]@ == text
    &&& forall|j: int| 0 <= j < i ==> #[trigger] strings[j]@ != text
}

/// Some string has the characters `text`.
pub open spec fn has_string(strings: Seq<String>, text: Seq<char>) -> bool {
    exists|i: int| 0 <= i < strings.len() && #[trigger] strings[i]@ == text
}

/// The position of the first string whose characters are `text`.
pub open spec fn first_string(strings: Seq<String>, text: Seq<char>) -> int {
    choose|i: int| is_first_string(strings, text, i)
}

/// When a table is in language `lang`, one of them comes first.
proof fn lemma_first_table_exists(tables: Seq<StringTable>, lang: u32, w: int)
    requires
        0 <= w < tables.len(),
        tables[w].lang == lang,
    ensures
        is_first_table(tables, lang, first_table(tables, lang)),
    decreases w,
{
    if forall|j: int| 0 <= j < w ==> #[trigger] tables[j].lang != lang {
        assert(is_first_table(tables, lang, w));
    } else {
        let j = choose|j: int| 0 <= j < w && #[trigger] tables[j].lang == lang;
        lemma_first_table_exists(tables, lang, j);
    }
}

/// Finds the first table in language `lang`.
fn position_of_table(tables: &Vec<StringTable>, lang: u32) -> (r: Option<usize>)
    ensures
        match r {
            Some(k) => is_first_table(tables@, lang, k as int) && first_table(tables@, lang) == k,
            None => !has_table(tables@, lang),
        },
{
    let mut k: usize = 0;
    while k < tables.len()
        invariant
            k <= tables@.len(),
            forall|j: int| 0 <= j < k ==> #[trigger] tables@[j].lang != lang,
        decreases tables.len() - k,
    {
        if tables[k].lang == lang {
            proof {
                assert(is_first_table(tables@, lang, k as int));
                let c = first_table(tables@, lang);
                if c != k {
                    assert(is_first_table(tables@, lang, c));
                    if c < k {
                        assert(tables@[c].lang != lang);
                    } else {
                        assert(tables@[k as int].lang != lang);
                    }
                }
            }
            return Some(k);
        }
        k = k + 1;
    }
    None
}

/// Finds the first string whose characters are those of `text`.
fn position_of_string(strings: &Vec<String>, text: &str) -> (r: Option<usize>)
    ensures
        match r {
            Some(i) => is_first_string(strings@, text@, i as int) && first_string(strings@, text@) == i,
            None => !has_string(strings@, text@),
        },
{
    let mut i: usize = 0;
    while i < strings.len()
        invariant
            i <= strings@.len(),
            forall|j: int| 0 <= j < i ==> #[trigger] strings@[j]@ != text@,
        decreases strings.len() - i,
    {
        if str_equal(strings[i].as_str(), text) {
            proof {
                assert(is_first_string(strings@, text@, i as int));
                let c = first_string(strings@, text@);
                if c != i {
                    assert(is_first_string(strings@, text@, c));
                    if c < i {
                        assert(strings@[c]@ != text@);
                    } else {
                        assert(strings@[i as int]@ != text@);
                    }
                }
            }
            return Some(i);
        }
        i = i + 1;
    }
    None
}

/// The English question of the memory card screen.
pub open spec fn memorycard_question() -> Seq<char> {
    "Save progress to Memory Card in Slot A?\u{0}"@
}

/// The English question with the instructions to warp to the starting room.
pub open spec fn memorycard_question_with_warp() -> Seq<char> {
    "Save progress to Memory Card in Slot A?\nHold &image=SI,0.70,0.68,46434ED3; + &image=SI,0.70,0.68,08A2E4B9; while choosing No to warp to starting room.\u{0}"@
}

/// The Japanese question with the instructions to warp to the starting room.
pub open spec fn memorycard_question_with_warp_jpn() -> Seq<char> {
    "スロットAのメモリーカードに\nデータをセーブしますか？\n&image=SI,0.70,0.68,46434ED3; + &image=SI,0.70,0.68,08A2E4B9; キーを押したまま、「いいえ」を選択して開始ルームにワープします。\u{0}"@
}

/// Adds to the memory card screen's save question how to warp to the starting room: in the
/// Japanese version the ninth string of the first Japanese table, otherwise the first English
/// string that asks the question.
pub fn patch_memorycard_strg(strg: &mut Strg, version: Version) -> (r: Result<(), String>)
    requires
        version == Version::NtscJ ==> has_table(old(strg).string_tables@, LANG_JAPN)
            && old(strg).string_tables@[first_table(old(strg).string_tables@, LANG_JAPN)].strings@.len() > 8,
        version != Version::NtscJ ==> has_table(old(strg).string_tables@, LANG_ENGL)
            && has_string(old(strg).string_tables@[first_table(old(strg).string_tables@, LANG_ENGL)].strings@, memorycard_question()),
    ensures
        r is Ok,
        table_langs(final(strg).string_tables@) == table_langs(old(strg).string_tables@),
        ({
            let tables = old(strg).string_tables@;
            let tv = table_views(tables);
            table_views(final(strg).string_tables@) == if version == Version::NtscJ {
                let k = first_table(tables, LANG_JAPN);
                tv.update(k, tv[k].update(8, memorycard_question_with_warp_jpn()))
            } else {
                let k = first_table(tables, LANG_ENGL);
                let i = first_string(tables[k].strings@, memorycard_question());
                tv.update(k, tv[k].update(i, memorycard_question_with_warp()))
            }
        }),
{
    let ghost tables = strg.string_tables@;
    let is_jpn = match version {
        Version::NtscJ => true,
        _ => false,
    };
    let (k, i, text) = if is_jpn {
        proof {
            let w = choose|k: int| 0 <= k < tables.len() && #[trigger] tables[k].lang == LANG_JAPN;
            assert(tables[w].lang == LANG_JAPN);
        }
        let k = position_of_table(&strg.string_tables, LANG_JAPN).unwrap();
        (k, 8usize, String::from_str("スロットAのメモリーカードに\nデータをセーブしますか？\n&image=SI,0.70,0.68,46434ED3; + &image=SI,0.70,0.68,08A2E4B9; キーを押したまま、「いいえ」を選択して開始ルームにワープします。\u{0}"))
    } else {
        proof {
            let w = choose|k: int| 0 <= k < tables.len() && #[trigger] tables[k].lang == LANG_ENGL;
            assert(tables[w].lang == LANG_ENGL);
        }
        let k = position_of_table(&strg.string_tables, LANG_ENGL).unwrap();
        proof {
            let strings = tables[k as int].strings@;
            let w = choose|i: int| 0 <= i < strings.len() && #[trigger] strings[i]@ == memorycard_question();
            assert(strings[w]@ == memorycard_question());
        }
        let i = position_of_string(&strg.string_tables[k].strings, "Save progress to Memory Card in Slot A?\u{0}").unwrap();
        (k, i, String::from_str("Save progress to Memory Card in Slot A?\nHold &image=SI,0.70,0.68,46434ED3; + &image=SI,0.70,0.68,08A2E4B9; while choosing No to warp to starting room.\u{0}"))
    };
    strg.string_tables[k].strings[i] = text;
    proof {
        assert(table_langs(strg.string_tables@) =~= table_langs(tables));
        let tv = table_views(tables);
        assert(views(strg.string_tables@[k as int].strings@) =~= tv[k as int].update(i as int, text@));
        assert(table_views(strg.string_tables@) =~= tv.update(k as int, tv[k as int].update(i as int, text@)));
    }
    Ok(())
}

/// The English title of the bonus menu entry that becomes the extras entry.
pub open spec fn fusion_bonuses_title() -> Seq<char> {
    "Metroid Fusion Connection Bonuses\u{0}"@
}

/// The Japanese title of the extras entry.
pub open spec fn extras_title_jpn() -> Seq<char> {
    "&main-color=#FFFFFF;エクストラ\u{0}"@
}

/// Turns the main menu's Metroid Fusion bonus entry into an "Extras" entry and adds `msg`,
/// followed by a NUL, as the last string: in the first English table, where the entry is the
/// first string with the bonus title, and in the Japanese version also in the first Japanese
/// table, where the entry is the 38th string.
pub fn patch_main_strg(strg: &mut Strg, version: Version, msg: &str) -> (r: Result<(), String>)
    requires
        version == Version::NtscJ ==> has_table(old(strg).string_tables@, LANG_JAPN)
            && old(strg).string_tables@[first_table(old(strg).string_tables@, LANG_JAPN)].strings@.len() > 37,
        has_table(old(strg).string_tables@, LANG_ENGL),
        has_string(old(strg).string_tables@[first_table(old(strg).string_tables@, LANG_ENGL)].strings@, fusion_bonuses_title()),
    ensures
        r is Ok,
        table_langs(final(strg).string_tables@) == table_langs(old(strg).string_tables@),
        ({
            let tables = old(strg).string_tables@;
            let tv = table_views(tables);
            let line = msg@ + "\0"@;
            let kj = first_table(tables, LANG_JAPN);
            let ke = first_table(tables, LANG_ENGL);
            let ie = first_string(tables[ke].strings@, fusion_bonuses_title());
            let after_jpn = if version == Version::NtscJ {
                tv.update(kj, tv[kj].update(37, extras_title_jpn()).push(line))
            } else {
                tv
            };
            table_views(final(strg).string_tables@) == after_jpn.update(ke, after_jpn[ke].update(ie, "Extras\0"@).push(line))
        }),
{
    let ghost tables = strg.string_tables@;
    let ghost tv = table_views(tables);
    let ghost line = msg@ + "\0"@;
    let is_jpn = match version {
        Version::NtscJ => true,
        _ => false,
    };
    if is_jpn {
        proof {
            let w = choose|k: int| 0 <= k < tables.len() && #[trigger] tables[k].lang == LANG_JAPN;
            assert(tables[w].lang == LANG_JAPN);
        }
        let kj = position_of_table(&strg.string_tables, LANG_JAPN).unwrap();
        strg.string_tables[kj].strings[37] = String::from_str("&main-color=#FFFFFF;エクストラ\u{0}");
        let mut m = String::from_str(msg);
        m.append("\0");
        strg.string_tables[kj].strings.push(m);
        proof {
            assert(views(strg.string_tables@[kj as int].strings@) =~= tv[kj as int].update(37, extras_title_jpn()).push(line));
            assert(table_views(strg.string_tables@) =~= tv.update(kj as int, tv[kj as int].update(37, extras_title_jpn()).push(line)));
        }
    }
    let ghost mid = strg.string_tables@;
    assert(table_langs(mid) =~= table_langs(tables));
    proof {
        let w = choose|k: int| 0 <= k < tables.len() && #[trigger] tables[k].lang == LANG_ENGL;
        assert(mid[w].lang == LANG_ENGL);
    }
    let ke = position_of_table(&strg.string_tables, LANG_ENGL).unwrap();
    proof {
        let ke0 = first_table(tables, LANG_ENGL);
        let w = choose|k: int| 0 <= k < tables.len() && #[trigger] tables[k].lang == LANG_ENGL;
        lemma_first_table_exists(tables, LANG_ENGL, w);
        assert forall|j: int| 0 <= j < ke0 implies #[trigger] mid[j].lang != LANG_ENGL by {
            assert(table_langs(mid)[j] == table_langs(tables)[j]);
        }
        assert(is_first_table(mid, LANG_ENGL, ke0));
        if ke0 != ke {
            if ke0 < ke {
                assert(mid[ke0].lang != LANG_ENGL);
            } else {
                assert(table_langs(mid)[ke as int] == table_langs(tables)[ke as int]);
            }
        }
        assert(ke == ke0);
        if is_jpn {
            assert(ke != first_table(tables, LANG_JAPN));
        }
        assert(mid[ke as int].strings@ == tables[ke as int].strings@);
        let strings = tables[ke as int].strings@;
        let w = choose|i: int| 0 <= i < strings.len() && #[trigger] strings[i]@ == fusion_bonuses_title();
        assert(strings[w]@ == fusion_bonuses_title());
    }
    let ie = position_of_string(&strg.string_tables[ke].strings, "Metroid Fusion Connection Bonuses\u{0}").unwrap();
    strg.string_tables[ke].strings[ie] = String::from_str("Extras\0");
    let mut m = String::from_str(msg);
    m.append("\0");
    strg.string_tables[ke].strings.push(m);
    proof {
        let mv = table_views(mid);
        assert(views(strg.string_tables@[ke as int].strings@) =~= mv[ke as int].update(ie as int, "Extras\0"@).push(line));
        assert(table_views(strg.string_tables@) =~= mv.update(ke as int, mv[ke as int].update(ie as int, "Extras\0"@).push(line)));
        assert(table_langs(strg.string_tables@) =~= table_langs(tables));
    }
    Ok(())
}

/// The pickups whose locations the credits list, in order.
pub open spec fn credited_pickups() -> Seq<PickupType> {
    seq![
        PickupType::ScanVisor, PickupType::ThermalVisor, PickupType::XRayVisor, PickupType::VariaSuit,
        PickupType::GravitySuit, PickupType::PhazonSuit, PickupType::MorphBall, PickupType::BoostBall,
        PickupType::SpiderBall, PickupType::MorphBallBomb, PickupType::PowerBomb, PickupType::ChargeBeam,
        PickupType::SpaceJumpBoots, PickupType::GrappleBeam, PickupType::SuperMissile, PickupType::Wavebuster,
        PickupType::IceSpreader, PickupType::Flamethrower, PickupType::WaveBeam, PickupType::IceBeam,
        PickupType::PlasmaBeam,
    ]
}

/// The major upgrades: the pickups numbered 1 to 28 by the engine, other than the missile, the
/// combat visor and power suit that Samus starts with, the energy tank, the health refill and
/// the two unknown items.
pub open spec fn is_major_upgrade(t: PickupType) -> bool {
    let k = pickup_type_kind(t);
    &&& 1 <= k <= 28
    &&& k != pickup_type_kind(PickupType::Missile)
    &&& k != pickup_type_kind(PickupType::CombatVisor)
    &&& k != pickup_type_kind(PickupType::PowerSuit)
    &&& k != pickup_type_kind(PickupType::EnergyTank)
    &&& k != pickup_type_kind(PickupType::UnknownItem1)
    &&& k != pickup_type_kind(PickupType::HealthRefill)
    &&& k != pickup_type_kind(PickupType::UnknownItem2)
}

/// The credits name the major upgrades in the order visors, suits, morph ball upgrades, charge
/// beam, space jump boots, grapple beam, the charge combos and then the beams: Scan Visor,
/// Thermal Visor, X-Ray Visor, Varia Suit, Gravity Suit, Phazon Suit, Morph Ball, Boost Ball,
/// Spider Ball, Morph Ball Bomb, Power Bomb, Charge Beam, Space Jump Boots, Grapple Beam, Super
/// Missile, Wavebuster, Ice Spreader, Flamethrower, Wave Beam, Ice Beam, Plasma Beam.
pub proof fn lemma_credits_order()
    ensures
        credited_pickups().len() == 21,
        pickup_type_name(credited_pickups()[0]) == "Scan Visor"@,
        pickup_type_name(credited_pickups()[1]) == "Thermal Visor"@,
        pickup_type_name(credited_pickups()[2]) == "X-Ray Visor"@,
        pickup_type_name(credited_pickups()[3]) == "Varia Suit"@,
        pickup_type_name(credited_pickups()[4]) == "Gravity Suit"@,
        pickup_type_name(credited_pickups()[5]) == "Phazon Suit"@,
        pickup_type_name(credited_pickups()[6]) == "Morph Ball"@,
        pickup_type_name(credited_pickups()[7]) == "Boost Ball"@,
        pickup_type_name(credited_pickups()[8]) == "Spider Ball"@,
        pickup_type_name(credited_pickups()[9]) == "Morph Ball Bomb"@,
        pickup_type_name(credited_pickups()[10]) == "Power Bomb"@,
        pickup_type_name(credited_pickups()[11]) == "Charge Beam"@,
        pickup_type_name(credited_pickups()[12]) == "Space Jump Boots"@,
        pickup_type_name(credited_pickups()[13]) == "Grapple Beam"@,
        pickup_type_name(credited_pickups()[14]) == "Super Missile"@,
        pickup_type_name(credited_pickups()[15]) == "Wavebuster"@,
        pickup_type_name(credited_pickups()[16]) == "Ice Spreader"@,
        pickup_type_name(credited_pickups()[17]) == "Flamethrower"@,
        pickup_type_name(credited_pickups()[18]) == "Wave Beam"@,
        pickup_type_name(credited_pickups()[19]) == "Ice Beam"@,
        pickup_type_name(credited_pickups()[20]) == "Plasma Beam"@,
{
}

/// The credits list every major upgrade once and nothing else.
pub proof fn lemma_credits_list_the_major_upgrades(t: PickupType)
    ensures
        credited_pickups().contains(t) <==> is_major_upgrade(t),
        credited_pickups().no_duplicates(),
        credited_pickups().len() == 21,
{
    let s = credited_pickups();
    if is_major_upgrade(t) {
        assert(s.contains(t)) by {
            match t {
                PickupType::ScanVisor => assert(s[0] == t),
                PickupType::ThermalVisor => assert(s[1] == t),
                PickupType::XRayVisor => assert(s[2] == t),
                PickupType::VariaSuit => assert(s[3] == t),
                PickupType::GravitySuit => assert(s[4] == t),
                PickupType::PhazonSuit => assert(s[5] == t),
                PickupType::MorphBall => assert(s[6] == t),
                PickupType::BoostBall => assert(s[7] == t),
                PickupType::SpiderBall => assert(s[8] == t),
                PickupType::MorphBallBomb => assert(s[9] == t),
                PickupType::PowerBomb => assert(s[10] == t),
                PickupType::ChargeBeam => assert(s[11] == t),
                PickupType::SpaceJumpBoots => assert(s[12] == t),
                PickupType::GrappleBeam => assert(s[13] == t),
                PickupType::SuperMissile => assert(s[14] == t),
                PickupType::Wavebuster => assert(s[15] == t),
                PickupType::IceSpreader => assert(s[16] == t),
                PickupType::Flamethrower => assert(s[17] == t),
                PickupType::WaveBeam => assert(s[18] == t),
                PickupType::IceBeam => assert(s[19] == t),
                PickupType::PlasmaBeam => assert(s[20] == t),
                _ => {},
            }
        }
    }
    assert forall|i: int| 0 <= i < s.len() implies is_major_upgrade(#[trigger] s[i]) by {}
    assert forall|i: int, j: int| 0 <= i < s.len() && 0 <= j < s.len() && i != j implies s[i] != s[j] by {}
}

/// The pickups whose locations the credits list, in order.
fn credited_pickup_list() -> (r: Vec<PickupType>)
    ensures
        r@ == credited_pickups(),
{
    let r = vec![
        PickupType::ScanVisor, PickupType::ThermalVisor, PickupType::XRayVisor, PickupType::VariaSuit,
        PickupType::GravitySuit, PickupType::PhazonSuit, PickupType::MorphBall, PickupType::BoostBall,
        PickupType::SpiderBall, PickupType::MorphBallBomb, PickupType::PowerBomb, PickupType::ChargeBeam,
        PickupType::SpaceJumpBoots, PickupType::GrappleBeam, PickupType::SuperMissile, PickupType::Wavebuster,
        PickupType::IceSpreader, PickupType::Flamethrower, PickupType::WaveBeam, PickupType::IceBeam,
        PickupType::PlasmaBeam,
    ];
    assert(r@ =~= credited_pickups());
    r
}

/// The room of the last pickup of type `t` among `pickups` (room name, pickup type), or
/// nothing when there is none.
pub open spec fn last_room_of(pickups: Seq<(String, PickupType)>, t: PickupType) -> Seq<char>
    decreases pickups.len(),
{
    if pickups.len() == 0 {
        Seq::empty()
    } else if pickups.last().1 == t {
        pickups.last().0@
    } else {
        last_room_of(pickups.drop_last(), t)
    }
}

/// Where the credits say a pickup of type `t` lies.
pub open spec fn credited_room(pickups: Seq<(String, PickupType)>, t: PickupType) -> Seq<char> {
    let room = last_room_of(pickups, t);
    if room.len() == 0 {
        "<Not Present>"@
    } else {
        room
    }
}

/// One line of the credits for each of `types`: a blank line, then the pickup's name and its
/// room.
pub open spec fn credit_lines(pickups: Seq<(String, PickupType)>, types: Seq<PickupType>) -> Seq<char>
    decreases types.len(),
{
    if types.len() == 0 {
        Seq::empty()
    } else {
        credit_lines(pickups, types.drop_last()) + "\n\n"@ + pickup_type_name(types.last()) + ": "@
            + credited_room(pickups, types.last())
    }
}

/// The text that the credits gain: a few blank lines (after a font change in the Japanese
/// version), the configured text or else the list of the major items' rooms, more blank lines
/// and a NUL.
pub open spec fn credits_text(version: Version, credits_string: Option<Seq<char>>, pickups: Seq<(String, PickupType)>) -> Seq<char> {
    let head = if version == Version::NtscJ {
        "&line-extra-space=16;&font=5D696116;"@ + "\n\n\n\n\n\n\n"@
    } else {
        "\n\n\n\n\n\n\n"@
    };
    let body = match credits_string {
        Some(c) => c,
        None => "&push;&font=C29C51F1;&main-color=#89D6FF;Major Item Locations&pop;"@ + credit_lines(pickups, credited_pickups()),
    };
    head + body + "\n\n\n\n\n\n\n\n\n\n\n\n\n\n\n\n\0"@
}

/// The characters of an optional string.
pub open spec fn option_str_view(s: Option<&str>) -> Option<Seq<char>> {
    match s {
        Some(c) => Some(c@),
        None => None,
    }
}

/// The room of the last of `pickups` whose type is `t`, or "<Not Present>".
fn credited_room_of(pickups: &[(String, PickupType)], t: PickupType) -> (r: String)
    ensures
        r@ == credited_room(pickups@, t),
{
    let mut room = String::new();
    let mut j: usize = 0;
    assert(pickups@.take(0) =~= Seq::<(String, PickupType)>::empty());
    while j < pickups.len()
        invariant
            j <= pickups@.len(),
            room@ == last_room_of(pickups@.take(j as int), t),
        decreases pickups.len() - j,
    {
        proof {
            assert(pickups@.take(j + 1).drop_last() =~= pickups@.take(j as int));
            assert(pickups@.take(j + 1).last() == pickups@[j as int]);
        }
        if pickups[j].1 == t {
            room = pickups[j].0.clone();
        }
        j = j + 1;
    }
    assert(pickups@.take(j as int) =~= pickups@);
    if room.as_str().unicode_len() == 0 {
        room = String::from_str("<Not Present>");
    }
    room
}

/// Adds a page to the credits, pushed as the last string of the first English table and, in
/// the Japanese version, of the first Japanese table: the configured credits text or else the
/// room of each major item. `pickups` are the layout's (room name, pickup type) pairs in the
/// order the level data is walked; a pickup found later overrides one found earlier.
pub fn patch_credits(
    strg: &mut Strg,
    version: Version,
    credits_string: Option<&str>,
    pickups: &[(String, PickupType)],
) -> (r: Result<(), String>)
    requires
        version == Version::NtscJ ==> has_table(old(strg).string_tables@, LANG_JAPN),
        has_table(old(strg).string_tables@, LANG_ENGL),
    ensures
        r is Ok,
        table_langs(final(strg).string_tables@) == table_langs(old(strg).string_tables@),
        ({
            let tables = old(strg).string_tables@;
            let tv = table_views(tables);
            let text = credits_text(version, option_str_view(credits_string), pickups@);
            let kj = first_table(tables, LANG_JAPN);
            let ke = first_table(tables, LANG_ENGL);
            let after_jpn = if version == Version::NtscJ {
                tv.update(kj, tv[kj].push(text))
            } else {
                tv
            };
            table_views(final(strg).string_tables@) == after_jpn.update(ke, after_jpn[ke].push(text))
        }),
{
    let is_jpn = match version {
        Version::NtscJ => true,
        _ => false,
    };
    let mut output = String::new();
    if is_jpn {
        output.append("&line-extra-space=16;&font=5D696116;");
    }
    output.append("\n\n\n\n\n\n\n");
    let ghost head = output@;
    assert(head =~= if version == Version::NtscJ {
        "&line-extra-space=16;&font=5D696116;"@ + "\n\n\n\n\n\n\n"@
    } else {
        "\n\n\n\n\n\n\n"@
    });
    match credits_string {
        Some(c) => {
            output.append(c);
        },
        None => {
            output.append("&push;&font=C29C51F1;&main-color=#89D6FF;Major Item Locations&pop;");
            let ghost start = output@;
            let types = credited_pickup_list();
            let mut i: usize = 0;
            assert(types@.take(0) =~= Seq::<PickupType>::empty());
            assert(output@ =~= start + credit_lines(pickups@, types@.take(0)));
            while i < types.len()
                invariant
                    i <= types@.len(),
                    types@ == credited_pickups(),
                    output@ == start + credit_lines(pickups@, types@.take(i as int)),
                decreases types.len() - i,
            {
                let t = types[i];
                let room = credited_room_of(pickups, t);
                let ghost before = output@;
                output.append("\n\n");
                output.append(t.name());
                output.append(": ");
                output.append(room.as_str());
                proof {
                    let prefix = types@.take(i + 1);
                    assert(prefix.drop_last() =~= types@.take(i as int));
                    assert(prefix.last() == t);
                    assert(output@ =~= start + credit_lines(pickups@, prefix));
                }
                i = i + 1;
            }
            assert(types@.take(i as int) =~= types@);
            assert(output@ =~= head + ("&push;&font=C29C51F1;&main-color=#89D6FF;Major Item Locations&pop;"@
                + credit_lines(pickups@, credited_pickups())));
        },
    }
    let ghost with_body = output@;
    output.append("\n\n\n\n\n\n\n\n\n\n\n\n\n\n\n\n\0");
    assert(output@ =~= with_body + "\n\n\n\n\n\n\n\n\n\n\n\n\n\n\n\n\0"@);
    let ghost tables = strg.string_tables@;
    let ghost tv = table_views(tables);
    let ghost text = output@;
    if is_jpn {
        proof {
            let w = choose|k: int| 0 <= k < tables.len() && #[trigger] tables[k].lang == LANG_JAPN;
            assert(tables[w].lang == LANG_JAPN);
        }
        let kj = position_of_table(&strg.string_tables, LANG_JAPN).unwrap();
        strg.string_tables[kj].strings.push(output.clone());
        proof {
            assert(views(strg.string_tables@[kj as int].strings@) =~= tv[kj as int].push(text));
            assert(table_views(strg.string_tables@) =~= tv.update(kj as int, tv[kj as int].push(text)));
        }
    }
    let ghost mid = strg.string_tables@;
    assert(table_langs(mid) =~= table_langs(tables));
    proof {
        let w = choose|k: int| 0 <= k < tables.len() && #[trigger] tables[k].lang == LANG_ENGL;
        assert(mid[w].lang == LANG_ENGL);
        lemma_first_table_exists(tables, LANG_ENGL, w);
    }
    let ke = position_of_table(&strg.string_tables, LANG_ENGL).unwrap();
    proof {
        let ke0 = first_table(tables, LANG_ENGL);
        assert forall|j: int| 0 <= j < ke0 implies #[trigger] mid[j].lang != LANG_ENGL by {
            assert(table_langs(mid)[j] == table_langs(tables)[j]);
        }
        if ke0 != ke {
            if ke0 < ke {
                assert(table_langs(mid)[ke0] == table_langs(tables)[ke0]);
                assert(mid[ke0].lang != LANG_ENGL);
            } else {
                assert(table_langs(mid)[ke as int] == table_langs(tables)[ke as int]);
            }
        }
    }
    strg.string_tables[ke].strings.push(output);
    proof {
        let mv = table_views(mid);
        assert(views(strg.string_tables@[ke as int].strings@) =~= mv[ke as int].push(text));
        assert(table_views(strg.string_tables@) =~= mv.update(ke as int, mv[ke as int].push(text)));
        assert(table_langs(strg.string_tables@) =~= table_langs(tables));
    }
    Ok(())
}

/// A scan that the world's save data tracks, with the logbook category it is listed under
/// (0: none).
#[derive(Copy, Clone, Debug, PartialEq, Eq, Structural)]
pub struct ScannableObject {
    pub scan: u32,
    pub logbook_category: u32,
}

/// A world's save data: the cinematics that can be skipped and the scans it tracks.
pub struct Savw {
    pub cinematic_skip_array: Vec<u32>,
    pub scan_array: Vec<ScannableObject>,
}

/// The entry of a tracked scan once the scans listed in `removed` are taken out of the logbook.
pub open spec fn without_logbook_entry(e: ScannableObject, removed: Seq<u32>) -> ScannableObject {
    if removed.contains(e.scan) {
        ScannableObject { scan: e.scan, logbook_category: 0 }
    } else {
        e
    }
}

/// The entry that tracks scan `id` under the category that `categories` gives it.
pub open spec fn new_logbook_entry(id: u32, categories: Map<u32, u32>) -> ScannableObject {
    ScannableObject { scan: id, logbook_category: categories[id] }
}

/// Lets no cinematic be skipped by the save data, takes the scans of `scan_ids_to_remove` out
/// of the logbook (category 0) and tracks the scans of `savw_scans_to_add`, in order, each
/// under its category in `savw_scan_logbook_category`.
pub fn patch_add_scans_to_savw(
    savw: &mut Savw,
    savw_scans_to_add: &Vec<u32>,
    savw_scan_logbook_category: &std::collections::HashMap<u32, u32>,
    scan_ids_to_remove: &Vec<u32>,
) -> (r: Result<(), String>)
    requires
        forall|i: int| 0 <= i < savw_scans_to_add@.len() ==> savw_scan_logbook_category@.contains_key(
            #[trigger] savw_scans_to_add@[i],
        ),
    ensures
        r is Ok,
        final(savw).cinematic_skip_array@.len() == 0,
        final(savw).scan_array@ == old(savw).scan_array@.map_values(
            |e: ScannableObject| without_logbook_entry(e, scan_ids_to_remove@),
        ) + savw_scans_to_add@.map_values(|id: u32| new_logbook_entry(id, savw_scan_logbook_category@)),
{
    broadcast use vstd::std_specs::hash::group_hash_axioms;
    savw.cinematic_skip_array.clear();
    let n = savw.scan_array.len();
    let mut i: usize = 0;
    while i < n
        invariant
            n == old(savw).scan_array@.len(),
            n == savw.scan_array@.len(),
            i <= n,
            savw.cinematic_skip_array@.len() == 0,
            forall|j: int| 0 <= j < i ==> #[trigger] savw.scan_array@[j] == without_logbook_entry(
                old(savw).scan_array@[j],
                scan_ids_to_remove@,
            ),
            forall|j: int| i <= j < n ==> #[trigger] savw.scan_array@[j] == old(savw).scan_array@[j],
        decreases n - i,
    {
        if contains_id(scan_ids_to_remove.as_slice(), savw.scan_array[i].scan) {
            savw.scan_array[i].logbook_category = 0;
        }
        i = i + 1;
    }
    let ghost kept = savw.scan_array@;
    assert(kept =~= old(savw).scan_array@.map_values(|e: ScannableObject| without_logbook_entry(e, scan_ids_to_remove@)));
    let mut k: usize = 0;
    while k < savw_scans_to_add.len()
        invariant
            k <= savw_scans_to_add@.len(),
            forall|i: int| 0 <= i < savw_scans_to_add@.len() ==> savw_scan_logbook_category@.contains_key(
                #[trigger] savw_scans_to_add@[i],
            ),
            savw.cinematic_skip_array@.len() == 0,
            savw.scan_array@ == kept + savw_scans_to_add@.take(k as int).map_values(
                |id: u32| new_logbook_entry(id, savw_scan_logbook_category@),
            ),
        decreases savw_scans_to_add.len() - k,
    {
        let id = savw_scans_to_add[k];
        assert(savw_scan_logbook_category@.contains_key(savw_scans_to_add@[k as int]));
        let category = *savw_scan_logbook_category.get(&id).unwrap();
        let ghost before = savw.scan_array@;
        savw.scan_array.push(ScannableObject { scan: id, logbook_category: category });
        assert(savw_scans_to_add@.take(k + 1).map_values(|id: u32| new_logbook_entry(id, savw_scan_logbook_category@))
            =~= savw_scans_to_add@.take(k as int).map_values(|id: u32| new_logbook_entry(id, savw_scan_logbook_category@))
                .push(new_logbook_entry(id, savw_scan_logbook_category@)));
        k = k + 1;
    }
    assert(savw_scans_to_add@.take(k as int) =~= savw_scans_to_add@);
    Ok(())
}

/// The bytes of an ASCII text, one per character.
pub open spec fn ascii_bytes(s: Seq<char>) -> Seq<u8> {
    s.map_values(|c: char| c as u8)
}

/// The Windows-1252 encoding of a text, where every character has one.
pub uninterp spec fn windows_1252(s: Seq<char>) -> Option<Seq<u8>>;

/// `encoding`'s Windows-1252 encoder in strict mode (`WINDOWS_1252.encode(s, EncoderTrap::Strict)`).
/// Its result is named `windows_1252`; as its source shows, each character becomes one byte,
/// ASCII characters their own code, and the first character without a code fails the call.
/// Which characters beyond ASCII have a code, and which, is left to the name.
#[verifier::external_body]
fn encode_windows_1252(s: &str) -> (r: Result<Vec<u8>, String>)
    ensures
        r is Ok <==> windows_1252(s@) is Some,
        r matches Ok(b) ==> windows_1252(s@) == Some(b@),
        r matches Ok(b) ==> b@.len() == s@.len(),
        r is Ok || !is_ascii_chars(s@),
        r matches Ok(b) ==> (is_ascii_chars(s@) ==> b@ == ascii_bytes(s@)),
{
    match WINDOWS_1252.encode(s, EncoderTrap::Strict) {
        Ok(bytes) => Ok(bytes),
        Err(cause) => Err(cause.into_owned()),
    }
}

/// Why a banner field could not be written.
#[derive(Debug)]
pub enum BannerError {
    /// The text has a character that Windows-1252 cannot encode.
    Encoding { field: String, cause: String },
    /// The encoded text leaves no room for the terminating zero.
    TooLong { field: String, expected: usize, got: usize },
}

/// The English text fields of the game's banner, each a zero-padded Windows-1252 string of
/// fixed size.
pub struct BannerFields {
    pub game_name: Vec<u8>,
    pub developer: Vec<u8>,
    pub game_name_full: Vec<u8>,
    pub developer_full: Vec<u8>,
    pub description: Vec<u8>,
}

/// The texts to put into the banner; an absent one leaves its field as it is.
pub struct GameBanner {
    pub game_name: Option<String>,
    pub developer: Option<String>,
    pub game_name_full: Option<String>,
    pub developer_full: Option<String>,
    pub description: Option<String>,
}

/// What writing `s` into a banner field of `len` bytes gives: the field unchanged where there is
/// no text, the error where the text cannot be encoded or fills the field, and otherwise the
/// encoded text padded with zeros to the field's size.
pub open spec fn encoded_field(s: Option<String>, old: Seq<u8>) -> Result<Seq<u8>, ()> {
    match s {
        None => Ok(old),
        Some(text) => match windows_1252(text@) {
            None => Err(()),
            Some(b) => if b.len() >= old.len() - 1 {
                Err(())
            } else {
                Ok(b + Seq::new((old.len() - b.len()) as nat, |i: int| 0u8))
            },
        },
    }
}

/// Writes `s`, encoded in Windows-1252 and padded with zeros, into a banner field.
pub fn write_encoded_str(field: &str, s: &Option<String>, slice: &mut Vec<u8>) -> (r: Result<(), BannerError>)
    requires
        old(slice)@.len() >= 1,
    ensures
        match encoded_field(*s, old(slice)@) {
            Ok(b) => r is Ok && final(slice)@ == b,
            Err(_) => r is Err && final(slice)@ == old(slice)@,
        },
        r matches Err(BannerError::Encoding { field: f, cause: _ }) ==> f@ == field@,
        r matches Err(BannerError::TooLong { field: f, expected: e, got: g }) ==> (f@ == field@ && e + 1
            == old(slice)@.len() && g == windows_1252(s->Some_0@)->Some_0.len()),
{
    match s {
        None => Ok(()),
        Some(text) => {
            let bytes = match encode_windows_1252(text.as_str()) {
                Ok(bytes) => bytes,
                Err(cause) => {
                    return Err(BannerError::Encoding { field: field.to_owned(), cause });
                },
            };
            if bytes.len() >= slice.len() - 1 {
                return Err(
                    BannerError::TooLong { field: field.to_owned(), expected: slice.len() - 1, got: bytes.len() },
                );
            }
            let n = slice.len();
            let ghost target = bytes@ + Seq::new((n - bytes@.len()) as nat, |i: int| 0u8);
            let mut i: usize = 0;
            while i < n
                invariant
                    n == slice@.len(),
                    bytes@.len() < n,
                    i <= n,
                    target == bytes@ + Seq::new((n - bytes@.len()) as nat, |i: int| 0u8),
                    forall|j: int| 0 <= j < i ==> #[trigger] slice@[j] == target[j],
                decreases n - i,
            {
                if i < bytes.len() {
                    slice[i] = bytes[i];
                } else {
                    slice[i] = 0;
                }
                i = i + 1;
            }
            assert(slice@ =~= target);
            Ok(())
        },
    }
}

/// A banner field after the writing: the encoded text where the earlier fields were all
/// written and this one can be, and otherwise the field as it was.
pub open spec fn banner_field_after(earlier_written: bool, encoded: Result<Seq<u8>, ()>, old: Seq<u8>) -> Seq<u8> {
    if earlier_written && encoded is Ok {
        encoded->Ok_0
    } else {
        old
    }
}

/// The name of the field that an error is about.
pub open spec fn banner_error_field(e: BannerError) -> Seq<char> {
    match e {
        BannerError::Encoding { field, cause: _ } => field@,
        BannerError::TooLong { field, expected: _, got: _ } => field@,
    }
}

/// Writes the banner texts into the English fields of the game's banner, field by field, and
/// stops at the first field that cannot be written: the fields before it hold their new texts,
/// it and the fields after it are left as they were, and the error names it.
pub fn patch_bnr_text(fields: &mut BannerFields, banner: &GameBanner) -> (r: Result<(), BannerError>)
    requires
        old(fields).game_name@.len() >= 1,
        old(fields).developer@.len() >= 1,
        old(fields).game_name_full@.len() >= 1,
        old(fields).developer_full@.len() >= 1,
        old(fields).description@.len() >= 1,
    ensures
        ({
            let g = encoded_field(banner.game_name, old(fields).game_name@);
            let d = encoded_field(banner.developer, old(fields).developer@);
            let gf = encoded_field(banner.game_name_full, old(fields).game_name_full@);
            let df = encoded_field(banner.developer_full, old(fields).developer_full@);
            let ds = encoded_field(banner.description, old(fields).description@);
            &&& (r is Ok <==> (g is Ok && d is Ok && gf is Ok && df is Ok && ds is Ok))
            &&& final(fields).game_name@ == banner_field_after(true, g, old(fields).game_name@)
            &&& final(fields).developer@ == banner_field_after(g is Ok, d, old(fields).developer@)
            &&& final(fields).game_name_full@ == banner_field_after(g is Ok && d is Ok, gf, old(fields).game_name_full@)
            &&& final(fields).developer_full@ == banner_field_after(
                g is Ok && d is Ok && gf is Ok,
                df,
                old(fields).developer_full@,
            )
            &&& final(fields).description@ == banner_field_after(
                g is Ok && d is Ok && gf is Ok && df is Ok,
                ds,
                old(fields).description@,
            )
            &&& r matches Err(e) ==> banner_error_field(e) == if g is Err {
                "game_name"@
            } else if d is Err {
                "developer"@
            } else if gf is Err {
                "game_name_full"@
            } else if df is Err {
                "developer_full"@
            } else {
                "description"@
            }
        }),
{
    match write_encoded_str("game_name", &banner.game_name, &mut fields.game_name) {
        Err(e) => return Err(e),
        Ok(()) => {},
    }
    match write_encoded_str("developer", &banner.developer, &mut fields.developer) {
        Err(e) => return Err(e),
        Ok(()) => {},
    }
    match write_encoded_str("game_name_full", &banner.game_name_full, &mut fields.game_name_full) {
        Err(e) => return Err(e),
        Ok(()) => {},
    }
    match write_encoded_str("developer_full", &banner.developer_full, &mut fields.developer_full) {
        Err(e) => return Err(e),
        Ok(()) => {},
    }
    match write_encoded_str("description", &banner.description, &mut fields.description) {
        Err(e) => return Err(e),
        Ok(()) => {},
    }
    Ok(())
}

/// The kinds of liquid that a room can be filled with.
#[derive(Copy, Clone, Debug, PartialEq, Eq, Structural)]
pub enum WaterType {
    Normal,
    Poision,
    Lava,
}

impl WaterType {
    /// Every kind of liquid, in order.
    pub fn iter() -> (r: Vec<WaterType>)
        ensures
            r@ == seq![WaterType::Normal, WaterType::Poision, WaterType::Lava],
    {
        let r = vec![WaterType::Normal, WaterType::Poision, WaterType::Lava];
        assert(r@ =~= seq![WaterType::Normal, WaterType::Poision, WaterType::Lava]);
        r
    }

    /// The assets that the liquid's script object names, in the order of its fields: seven
    /// textures (four layers, the reflection map, a sixth layer, the light map), then five
    /// particle effects. An unused slot holds `0xFFFFFFFF`.
    pub fn asset_slots(&self) -> (r: Vec<Dependency>)
        ensures
            r@ == water_asset_slots(*self),
    {
        let none: u32 = 0xFFFF_FFFF;
        let (t1, t2, t3, t4, t6): (u32, u32, u32, u32, u32) = match self {
            WaterType::Normal => (2003342689, 4059883471, 351283582, none, 1899158552),
            WaterType::Poision => (2671389366, 430856216, 1337209902, none, 1899158552),
            WaterType::Lava => (117134624, 2154768270, 3598011320, 1249771730, none),
        };
        let r = vec![
            Dependency { asset_id: t1, asset_type: FOURCC_TXTR },
            Dependency { asset_id: t2, asset_type: FOURCC_TXTR },
            Dependency { asset_id: t3, asset_type: FOURCC_TXTR },
            Dependency { asset_id: t4, asset_type: FOURCC_TXTR },
            Dependency { asset_id: none, asset_type: FOURCC_TXTR },
            Dependency { asset_id: t6, asset_type: FOURCC_TXTR },
            Dependency { asset_id: none, asset_type: FOURCC_TXTR },
            Dependency { asset_id: none, asset_type: FOURCC_PART },
            Dependency { asset_id: none, asset_type: FOURCC_PART },
            Dependency { asset_id: none, asset_type: FOURCC_PART },
            Dependency { asset_id: none, asset_type: FOURCC_PART },
            Dependency { asset_id: none, asset_type: FOURCC_PART },
        ];
        assert(r@ =~= water_asset_slots(*self));
        r
    }

    /// The resources a room needs for this liquid: its asset slots without the unused ones
    /// (id `0` or `0xFFFFFFFF`), in slot order.
    pub fn dependencies(&self) -> (r: Vec<Dependency>)
        ensures
            r@ == water_asset_slots(*self).filter(|d: Dependency| is_named_asset(d)),
    {
        let slots = self.asset_slots();
        let ghost pred = |d: Dependency| is_named_asset(d);
        let mut r: Vec<Dependency> = Vec::new();
        let mut i: usize = 0;
        while i < slots.len()
            invariant
                i <= slots.len(),
                slots@ == water_asset_slots(*self),
                pred == (|d: Dependency| is_named_asset(d)),
                r@ == slots@.take(i as int).filter(pred),
            decreases slots.len() - i,
        {
            let d = slots[i];
            proof {
                assert(slots@.take(i + 1).drop_last() =~= slots@.take(i as int));
                reveal_with_fuel(Seq::filter, 1);
            }
            if d.asset_id != 0 && d.asset_id != 0xFFFF_FFFF {
                r.push(d);
            }
            i = i + 1;
        }
        assert(slots@.take(i as int) =~= slots@);
        r
    }

    /// The liquid that a configuration names, in any case: `water` or `normal`, `poison` or
    /// `acid`, `lava` or `magma`. Any other name gives `None`.
    pub fn from_liquid_name(name: &str) -> (r: Option<WaterType>)
        ensures
            r == water_type_named(lowercase(name@)),
    {
        let lower = to_lowercase(name);
        let l = lower.as_str();
        if str_equal(l, "water") || str_equal(l, "normal") {
            Some(WaterType::Normal)
        } else if str_equal(l, "poison") || str_equal(l, "acid") {
            Some(WaterType::Poision)
        } else if str_equal(l, "lava") || str_equal(l, "magma") {
            Some(WaterType::Lava)
        } else {
            None
        }
    }
}

/// Asset kind of a texture: the letters `TXTR` read as a big-endian number.
pub const FOURCC_TXTR: u32 = 0x5458_5452;

/// Asset kind of a particle effect: the letters `PART` read as a big-endian number.
pub const FOURCC_PART: u32 = 0x5041_5254;

/// A slot that names an asset: neither `0` nor `0xFFFFFFFF`.
pub open spec fn is_named_asset(d: Dependency) -> bool {
    d.asset_id != 0 && d.asset_id != 0xFFFF_FFFF
}

/// A texture slot.
pub open spec fn texture(id: u32) -> Dependency {
    Dependency { asset_id: id, asset_type: FOURCC_TXTR }
}

/// An unused particle slot.
pub open spec fn no_particle() -> Dependency {
    Dependency { asset_id: 0xFFFF_FFFF, asset_type: FOURCC_PART }
}

/// The twelve asset slots of each liquid's script object.
pub open spec fn water_asset_slots(t: WaterType) -> Seq<Dependency> {
    let (t1, t2, t3, t4, t6): (u32, u32, u32, u32, u32) = match t {
        WaterType::Normal => (2003342689, 4059883471, 351283582, 0xFFFF_FFFF, 1899158552),
        WaterType::Poision => (2671389366, 430856216, 1337209902, 0xFFFF_FFFF, 1899158552),
        WaterType::Lava => (117134624, 2154768270, 3598011320, 1249771730, 0xFFFF_FFFF),
    };
    seq![
        texture(t1), texture(t2), texture(t3), texture(t4), texture(0xFFFF_FFFF), texture(t6),
        texture(0xFFFF_FFFF), no_particle(), no_particle(), no_particle(), no_particle(),
        no_particle(),
    ]
}

/// The liquid named by an already lowercased name.
pub open spec fn water_type_named(l: Seq<char>) -> Option<WaterType> {
    if l == "water"@ || l == "normal"@ {
        Some(WaterType::Normal)
    } else if l == "poison"@ || l == "acid"@ {
        Some(WaterType::Poision)
    } else if l == "lava"@ || l == "magma"@ {
        Some(WaterType::Lava)
    } else {
        None
    }
}

/// The connection with a reset message turned into a set-to-zero message.
pub open spec fn reset_as_set_to_zero(c: Connection) -> Connection {
    if c.message == MSG_RESET {
        Connection { message: MSG_SET_TO_ZERO, ..c }
    } else {
        c
    }
}

/// Keeps the item-loss cutscene of the Frigate from resetting the player's items: the camera's
/// reset messages become set-to-zero messages.
pub fn patch_disable_item_loss(area: &mut MlvlArea) -> (r: Result<(), String>)
    requires
        first_in_layer(*old(area), 0, with_masked_id(0x00050115), |o: SclyObject| true),
    ensures
        r is Ok,
        ({
            let objects = old(area).layers@[0].objects@;
            let k = first_index(objects, with_masked_id(0x00050115));
            let camera = final(area).layers@[0].objects@[k];
            &&& final(area).mrea_id == old(area).mrea_id
            &&& final(area).layer_flags == old(area).layer_flags
            &&& final(area).dependencies == old(area).dependencies
            &&& final(area).layers@.len() == old(area).layers@.len()
            &&& forall|j: int| 0 < j < old(area).layers@.len() ==> #[trigger] final(area).layers@[j] == old(area).layers@[j]
            &&& final(area).layers@[0].objects@.len() == objects.len()
            &&& forall|j: int| 0 <= j < objects.len() && j != k ==> #[trigger] final(area).layers@[0].objects@[j] == objects[j]
            &&& camera.instance_id == objects[k].instance_id
            &&& camera.property_data == objects[k].property_data
            &&& camera.connections@ == objects[k].connections@.map_values(|c: Connection| reset_as_set_to_zero(c))
        }),
{
    let k = position_of_masked_id(&area.layers[0].objects, 0x00050115).unwrap();
    let n = area.layers[0].objects[k].connections.len();
    let mut i: usize = 0;
    while i < n
        invariant
            0 < area.layers@.len(),
            area.layers@.len() == old(area).layers@.len(),
            k < old(area).layers@[0].objects@.len(),
            area.mrea_id == old(area).mrea_id,
            area.layer_flags == old(area).layer_flags,
            area.dependencies == old(area).dependencies,
            forall|j: int| 0 < j < old(area).layers@.len() ==> #[trigger] area.layers@[j] == old(area).layers@[j],
            area.layers@[0].objects@.len() == old(area).layers@[0].objects@.len(),
            forall|j: int|
                0 <= j < old(area).layers@[0].objects@.len() && j != k ==> #[trigger] area.layers@[0].objects@[j]
                    == old(area).layers@[0].objects@[j],
            area.layers@[0].objects@[k as int].instance_id == old(area).layers@[0].objects@[k as int].instance_id,
            area.layers@[0].objects@[k as int].property_data == old(area).layers@[0].objects@[k as int].property_data,
            n == old(area).layers@[0].objects@[k as int].connections@.len(),
            n == area.layers@[0].objects@[k as int].connections@.len(),
            i <= n,
            forall|j: int|
                0 <= j < i ==> #[trigger] area.layers@[0].objects@[k as int].connections@[j] == reset_as_set_to_zero(
                    old(area).layers@[0].objects@[k as int].connections@[j],
                ),
            forall|j: int|
                i <= j < n ==> #[trigger] area.layers@[0].objects@[k as int].connections@[j]
                    == old(area).layers@[0].objects@[k as int].connections@[j],
        decreases n - i,
    {
        if area.layers[0].objects[k].connections[i].message == MSG_RESET {
            area.layers[0].objects[k].connections[i].message = MSG_SET_TO_ZERO;
        }
        i = i + 1;
    }
    assert(area.layers@[0].objects@[k as int].connections@ =~= old(area).layers@[0].objects@[k as int].connections@.map_values(
        |c: Connection| reset_as_set_to_zero(c),
    ));
    Ok(())
}

/// Makes the trigger that starts the ending scene go straight to the credits.
pub fn patch_ending_scene_straight_to_credits(area: &mut MlvlArea) -> (r: Result<(), String>)
    requires
        first_in_layer(*old(area), 0, with_id(1103), |o: SclyObject| true),
    ensures
        r is Ok,
        area_with_connections_appended(
            *old(area),
            *final(area),
            0,
            with_id(1103),
            seq![Connection { state: STATE_ENTERED, message: MSG_ACTION, target_object_id: 1241 }],
        ),
{
    let k = position_of_id(&area.layers[0].objects, 1103).unwrap();
    let ghost before = area.layers@[0].objects@[k as int].connections@;
    let c = Connection { state: STATE_ENTERED, message: MSG_ACTION, target_object_id: 1241 };
    area.layers[0].objects[k].connections.push(c);
    assert(area.layers@[0].objects@[k as int].connections@ =~= before + seq![c]);
    Ok(())
}

/// Makes the trigger in the lower part of Research Lab Aether alert the space pirate behind the
/// exploding wall, instead of leaving that to chance.
pub fn patch_research_lab_aether_exploding_wall_2(area: &mut MlvlArea) -> (r: Result<(), String>)
    requires
        first_in_layer(*old(area), 0, with_masked_id(0x003302CE), |o: SclyObject| true),
    ensures
        r is Ok,
        area_with_connections_appended(
            *old(area),
            *final(area),
            0,
            with_masked_id(0x003302CE),
            seq![Connection { state: STATE_ENTERED, message: MSG_RESET_AND_START, target_object_id: 0x003300D7 }],
        ),
{
    let k = position_of_masked_id(&area.layers[0].objects, 0x003302CE).unwrap();
    let ghost before = area.layers@[0].objects@[k as int].connections@;
    let c = Connection { state: STATE_ENTERED, message: MSG_RESET_AND_START, target_object_id: 0x003300D7 };
    area.layers[0].objects[k].connections.push(c);
    assert(area.layers@[0].objects@[k as int].connections@ =~= before + seq![c]);
    Ok(())
}

/// Sets up the elite pirate fight of Elite Research: turns on layer 1 ("3rd pass elite bustout")
/// and turns off layer 5 ("dummy elite").
pub fn patch_elite_research_fight_layers(area: &mut MlvlArea) -> (r: Result<(), String>)
    ensures
        r is Ok,
        final(area).layer_flags == (old(area).layer_flags | (1u64 << 1u64)) & !(1u64 << 5u64),
        final(area).mrea_id == old(area).mrea_id,
        final(area).layers == old(area).layers,
        final(area).dependencies == old(area).dependencies,
{
    area.layer_flags = area.layer_flags | (1 << 1);
    area.layer_flags = area.layer_flags & !(1 << 5);
    Ok(())
}

/// Turns off layer 1 ("1st pass") of the Hive Totem, so that the mecha fight is not replayed.
pub fn patch_hive_mecha_first_pass_layer(area: &mut MlvlArea) -> (r: Result<(), String>)
    ensures
        r is Ok,
        final(area).layer_flags == old(area).layer_flags & !(1u64 << 1u64),
        final(area).mrea_id == old(area).mrea_id,
        final(area).layers == old(area).layers,
        final(area).dependencies == old(area).dependencies,
{
    area.layer_flags = area.layer_flags & !(1 << 1);
    Ok(())
}

/// Removes the two objects of the Central Dynamo that the elite pirate fight must not meet.
pub fn patch_elite_research_fight_central_dynamo(area: &mut MlvlArea) -> (r: Result<(), String>)
    requires
        old(area).layers@.len() > 0,
    ensures
        r is Ok,
        area_with_layer_objects(
            *old(area),
            *final(area),
            0,
            old(area).layers@[0].objects@.filter(|o: SclyObject| o.instance_id != 0x1B0525 && o.instance_id != 0x1B0522),
        ),
{
    let keep = |o: &SclyObject| -> (b: bool)
        ensures
            b == ((*o).instance_id != 0x1B0525 && (*o).instance_id != 0x1B0522),
        { o.instance_id != 0x1B0525 && o.instance_id != 0x1B0522 };
    retain_objects(
        &mut area.layers[0].objects,
        &keep,
        Ghost(|o: SclyObject| o.instance_id != 0x1B0525 && o.instance_id != 0x1B0522),
    );
    Ok(())
}

/// A banner field that a text was written into keeps its size and ends with a zero byte, so the
/// game reads it as a terminated string; an ASCII text is written as its own characters.
pub proof fn lemma_encoded_field_terminated(text: String, old: Seq<u8>)
    requires
        old.len() >= 1,
        encoded_field(Some(text), old) is Ok,
    ensures
        encoded_field(Some(text), old)->Ok_0.len() == old.len(),
        encoded_field(Some(text), old)->Ok_0.last() == 0,
        windows_1252(text@) matches Some(b) && encoded_field(Some(text), old)->Ok_0.subrange(0, b.len() as int) == b,
{
    let b = windows_1252(text@)->Some_0;
    let f = encoded_field(Some(text), old)->Ok_0;
    assert(f.subrange(0, b.len() as int) =~= b);
}

/// The seeds written into the maze resource repeat: each seed slot holds the seed that stands
/// one round of seeds earlier.
pub proof fn lemma_maze_seeds_repeat(data: Seq<u32>, seeds: Seq<u32>, i: int)
    requires
        seeds.len() > 0,
        data.len() >= 300,
        forall|j: int| 0 <= j < 300 ==> #[trigger] data[j] == seeds[j % seeds.len() as int],
        0 <= i,
        i + seeds.len() < 300,
    ensures
        data[i + seeds.len()] == data[i],
{
    let n = seeds.len() as int;
    vstd::arithmetic::div_mod::lemma_mod_add_multiples_vanish(i, n);
    assert(data[i + n] == seeds[(i + n) % n]);
}

/// What the room patches share while the patcher runs: the instance ids that new objects take,
/// handed out in increasing order from `next_fresh_id`.
pub struct PatcherState {
    pub next_fresh_id: u32,
}

impl PatcherState {
    /// The next instance id that no object has yet; the following call gives the one after it.
    pub fn fresh_instance_id(&mut self) -> (r: u32)
        requires
            old(self).next_fresh_id < u32::MAX,
        ensures
            r == old(self).next_fresh_id,
            final(self).next_fresh_id == old(self).next_fresh_id + 1,
    {
        let r = self.next_fresh_id;
        self.next_fresh_id = r + 1;
        r
    }
}

/// The Artifact Temple layer that collecting the Artifact of Truth switches on.
pub const ARTIFACT_OF_TRUTH_REQ_LAYER: u32 = 24;

/// The Artifact Temple layer that collecting the artifact with engine number `kind` switches
/// on: the Artifact of Truth has a layer of its own, the others follow the order of their
/// numbers from layer 2.
pub open spec fn artifact_layer(kind: u32) -> u32 {
    if kind > 29 {
        (kind - 28) as u32
    } else {
        ARTIFACT_OF_TRUTH_REQ_LAYER
    }
}

/// A special function that switches on the Artifact Temple layer of the artifact with engine
/// number `pickup_kind`, with no connections.
pub fn artifact_layer_change_template(instance_id: u32, pickup_kind: u32) -> (r: SclyObject)
    requires
        pickup_kind >= 29,
    ensures
        r.instance_id == instance_id,
        r.connections@.len() == 0,
        r.property_data == SclyProperty::SpecialFunction(layer_change(0xCD2B0EA2, artifact_layer(pickup_kind))),
{
    let layer = if pickup_kind > 29 {
        pickup_kind - 28
    } else {
        ARTIFACT_OF_TRUTH_REQ_LAYER
    };
    SclyObject {
        instance_id,
        connections: Vec::new(),
        property_data: SclyProperty::SpecialFunction(SpecialFunction::layer_change_fn(0xCD2B0EA2, layer)),
    }
}

/// An active relay named "Randomizer Post Pickup Relay" that passes its messages on through
/// `connections`.
pub fn post_pickup_relay_template(instance_id: u32, connections: &[Connection]) -> (r: SclyObject)
    ensures
        r.instance_id == instance_id,
        r.connections@ == connections@,
        r.property_data matches SclyProperty::Relay(relay) && relay.active == 1
            && relay.name@ == "Randomizer Post Pickup Relay"@,
{
    SclyObject {
        instance_id,
        connections: vstd::slice::slice_to_vec(connections),
        property_data: SclyProperty::Relay(Relay {
            name: String::from_str("Randomizer Post Pickup Relay"),
            active: 1,
        }),
    }
}

/// One of the two space pirates of the Observatory's second pass.
pub open spec fn is_observatory_pirate(o: SclyObject) -> bool {
    o.instance_id == 0x81E0460 || o.instance_id == 0x81E0461
}

/// Keeps the second pass of the Observatory solvable: each of its two space pirates (layer 2)
/// counts its death on the counter that activates the panel.
pub fn patch_observatory_2nd_pass_solvablility(area: &mut MlvlArea) -> (r: Result<(), String>)
    requires
        old(area).layers@.len() > 2,
    ensures
        r is Ok,
        area_with_each_given_connections(
            *old(area),
            *final(area),
            2,
            |o: SclyObject| is_observatory_pirate(o),
            seq![Connection { state: STATE_DEATH_RATTLE, message: MSG_INCREMENT, target_object_id: 0x1E02EA }],
        ),
{
    let c = Connection { state: STATE_DEATH_RATTLE, message: MSG_INCREMENT, target_object_id: 0x1E02EA };
    let n = area.layers[2].objects.len();
    let mut i: usize = 0;
    while i < n
        invariant
            2 < area.layers@.len(),
            area.layers@.len() == old(area).layers@.len(),
            area.mrea_id == old(area).mrea_id,
            area.layer_flags == old(area).layer_flags,
            area.dependencies == old(area).dependencies,
            forall|j: int| 0 <= j < old(area).layers@.len() && j != 2 ==> #[trigger] area.layers@[j] == old(area).layers@[j],
            n == old(area).layers@[2].objects@.len(),
            n == area.layers@[2].objects@.len(),
            i <= n,
            forall|j: int| 0 <= j < i ==> if is_observatory_pirate(old(area).layers@[2].objects@[j]) {
                connections_appended(old(area).layers@[2].objects@[j], #[trigger] area.layers@[2].objects@[j], seq![c])
            } else {
                area.layers@[2].objects@[j] == old(area).layers@[2].objects@[j]
            },
            forall|j: int| i <= j < n ==> #[trigger] area.layers@[2].objects@[j] == old(area).layers@[2].objects@[j],
        decreases n - i,
    {
        let id = area.layers[2].objects[i].instance_id;
        if id == 0x81E0460 || id == 0x81E0461 {
            let ghost before = area.layers@[2].objects@[i as int].connections@;
            area.layers[2].objects[i].connections.push(c);
            assert(area.layers@[2].objects@[i as int].connections@ =~= before + seq![c]);
        }
        i = i + 1;
    }
    Ok(())
}

/// Keeps the Artifact of Wild from appearing before Flaahgra is beaten: a new layer change on
/// layer 1 of the Sunchamber turns on the Sun Tower's layer 1, and the relay that reports
/// Flaahgra's death (instance id 0x42500D4) triggers it.
pub fn patch_sunchamber_prevent_wild_before_flaahgra(ps: &mut PatcherState, area: &mut MlvlArea) -> (r: Result<(), String>)
    requires
        old(ps).next_fresh_id < u32::MAX,
        first_in_layer(*old(area), 1, with_id(0x42500D4), |o: SclyObject| true),
    ensures
        r is Ok,
        final(ps).next_fresh_id == old(ps).next_fresh_id + 1,
        area_with_object_added_and_connected(
            *old(area),
            *final(area),
            1,
            with_id(0x42500D4),
            seq![Connection { state: STATE_ZERO, message: MSG_INCREMENT, target_object_id: old(ps).next_fresh_id }],
            old(ps).next_fresh_id,
            SclyProperty::SpecialFunction(layer_change(0xcf4c7aa5, 1)),
        ),
{
    let enable_sun_tower_layer_id = ps.fresh_instance_id();
    let k = position_of_id(&area.layers[1].objects, 0x42500D4).unwrap();
    area.layers[1].objects.push(SclyObject {
        instance_id: enable_sun_tower_layer_id,
        connections: Vec::new(),
        property_data: SclyProperty::SpecialFunction(SpecialFunction::layer_change_fn(0xcf4c7aa5, 1)),
    });
    let ghost before = area.layers@[1].objects@[k as int].connections@;
    let c = Connection { state: STATE_ZERO, message: MSG_INCREMENT, target_object_id: enable_sun_tower_layer_id };
    area.layers[1].objects[k].connections.push(c);
    assert(area.layers@[1].objects@[k as int].connections@ =~= before + seq![c]);
    Ok(())
}

/// Removes the exploding wall of Research Lab Aether once its cause is gone: the object with
/// instance id 2622568 on layer 0 of the Research Core tells a new layer change to turn off
/// layer 3 of Research Lab Aether.
pub fn patch_research_lab_aether_exploding_wall(ps: &mut PatcherState, area: &mut MlvlArea) -> (r: Result<(), String>)
    requires
        old(ps).next_fresh_id < u32::MAX,
        first_in_layer(*old(area), 0, with_id(2622568), |o: SclyObject| true),
    ensures
        r is Ok,
        final(ps).next_fresh_id == old(ps).next_fresh_id + 1,
        area_with_object_added_and_connected(
            *old(area),
            *final(area),
            0,
            with_id(2622568),
            seq![Connection { state: STATE_ZERO, message: MSG_DECREMENT, target_object_id: old(ps).next_fresh_id }],
            old(ps).next_fresh_id,
            SclyProperty::SpecialFunction(layer_change(0x354889CE, 3)),
        ),
{
    let id = ps.fresh_instance_id();
    let k = position_of_id(&area.layers[0].objects, 2622568).unwrap();
    let ghost before = area.layers@[0].objects@[k as int].connections@;
    let c = Connection { state: STATE_ZERO, message: MSG_DECREMENT, target_object_id: id };
    area.layers[0].objects[k].connections.push(c);
    assert(area.layers@[0].objects@[k as int].connections@ =~= before + seq![c]);
    area.layers[0].objects.push(SclyObject {
        instance_id: id,
        connections: Vec::new(),
        property_data: SclyProperty::SpecialFunction(SpecialFunction::layer_change_fn(0x354889CE, 3)),
    });
    Ok(())
}

/// The word by which a layer override of the Artifact Temple names the artifact with engine
/// number `kind`.
pub open spec fn artifact_override_name(kind: u32) -> Seq<char> {
    if kind == 33 {
        "lifegiver"@
    } else if kind == 32 {
        "wild"@
    } else if kind == 38 {
        "world"@
    } else if kind == 37 {
        "sun"@
    } else if kind == 31 {
        "elder"@
    } else if kind == 39 {
        "spirit"@
    } else if kind == 29 {
        "truth"@
    } else if kind == 35 {
        "chozo"@
    } else if kind == 34 {
        "warrior"@
    } else if kind == 40 {
        "newborn"@
    } else if kind == 36 {
        "nature"@
    } else {
        "strength"@
    }
}

/// The word by which a layer override names an artifact is the last word of the artifact's
/// pickup type name, lowercased: an override that names an artifact decides for that artifact's
/// layer alone.
pub proof fn lemma_override_word_is_last_word_of_name(t: PickupType)
    requires
        29 <= pickup_type_kind(t) <= 40,
    ensures
        artifact_override_name(pickup_type_kind(t)) == lowercase(last_word(pickup_type_name(t))),
{
    match t {
        PickupType::ArtifactOfTruth => {
            reveal_strlit("Artifact Of Truth");
            reveal_strlit("truth");
            lemma_last_word(pickup_type_name(t), 12);
            assert(ascii_lowercase(pickup_type_name(t).subrange(12, pickup_type_name(t).len() as int)) =~= "truth"@);
        },
        PickupType::ArtifactOfStrength => {
            reveal_strlit("Artifact Of Strength");
            reveal_strlit("strength");
            lemma_last_word(pickup_type_name(t), 12);
            assert(ascii_lowercase(pickup_type_name(t).subrange(12, pickup_type_name(t).len() as int)) =~= "strength"@);
        },
        PickupType::ArtifactOfElder => {
            reveal_strlit("Artifact Of Elder");
            reveal_strlit("elder");
            lemma_last_word(pickup_type_name(t), 12);
            assert(ascii_lowercase(pickup_type_name(t).subrange(12, pickup_type_name(t).len() as int)) =~= "elder"@);
        },
        PickupType::ArtifactOfWild => {
            reveal_strlit("Artifact Of Wild");
            reveal_strlit("wild");
            lemma_last_word(pickup_type_name(t), 12);
            assert(ascii_lowercase(pickup_type_name(t).subrange(12, pickup_type_name(t).len() as int)) =~= "wild"@);
        },
        PickupType::ArtifactOfLifegiver => {
            reveal_strlit("Artifact Of Lifegiver");
            reveal_strlit("lifegiver");
            lemma_last_word(pickup_type_name(t), 12);
            assert(ascii_lowercase(pickup_type_name(t).subrange(12, pickup_type_name(t).len() as int)) =~= "lifegiver"@);
        },
        PickupType::ArtifactOfWarrior => {
            reveal_strlit("Artifact Of Warrior");
            reveal_strlit("warrior");
            lemma_last_word(pickup_type_name(t), 12);
            assert(ascii_lowercase(pickup_type_name(t).subrange(12, pickup_type_name(t).len() as int)) =~= "warrior"@);
        },
        PickupType::ArtifactOfChozo => {
            reveal_strlit("Artifact Of Chozo");
            reveal_strlit("chozo");
            lemma_last_word(pickup_type_name(t), 12);
            assert(ascii_lowercase(pickup_type_name(t).subrange(12, pickup_type_name(t).len() as int)) =~= "chozo"@);
        },
        PickupType::ArtifactOfNature => {
            reveal_strlit("Artifact Of Nature");
            reveal_strlit("nature");
            lemma_last_word(pickup_type_name(t), 12);
            assert(ascii_lowercase(pickup_type_name(t).subrange(12, pickup_type_name(t).len() as int)) =~= "nature"@);
        },
        PickupType::ArtifactOfSun => {
            reveal_strlit("Artifact Of Sun");
            reveal_strlit("sun");
            lemma_last_word(pickup_type_name(t), 12);
            assert(ascii_lowercase(pickup_type_name(t).subrange(12, pickup_type_name(t).len() as int)) =~= "sun"@);
        },
        PickupType::ArtifactOfWorld => {
            reveal_strlit("Artifact Of World");
            reveal_strlit("world");
            lemma_last_word(pickup_type_name(t), 12);
            assert(ascii_lowercase(pickup_type_name(t).subrange(12, pickup_type_name(t).len() as int)) =~= "world"@);
        },
        PickupType::ArtifactOfSpirit => {
            reveal_strlit("Artifact Of Spirit");
            reveal_strlit("spirit");
            lemma_last_word(pickup_type_name(t), 12);
            assert(ascii_lowercase(pickup_type_name(t).subrange(12, pickup_type_name(t).len() as int)) =~= "spirit"@);
        },
        PickupType::ArtifactOfNewborn => {
            reveal_strlit("Artifact Of Newborn");
            reveal_strlit("newborn");
            lemma_last_word(pickup_type_name(t), 12);
            assert(ascii_lowercase(pickup_type_name(t).subrange(12, pickup_type_name(t).len() as int)) =~= "newborn"@);
        },
        _ => {},
    }
}

/// The word by which a layer override names the artifact with engine number `kind`.
fn artifact_override_word(kind: u32) -> (r: &'static str)
    requires
        29 <= kind <= 40,
    ensures
        r@ == artifact_override_name(kind),
{
    if kind == 33 {
        "lifegiver"
    } else if kind == 32 {
        "wild"
    } else if kind == 38 {
        "world"
    } else if kind == 37 {
        "sun"
    } else if kind == 31 {
        "elder"
    } else if kind == 39 {
        "spirit"
    } else if kind == 29 {
        "truth"
    } else if kind == 35 {
        "chozo"
    } else if kind == 34 {
        "warrior"
    } else if kind == 40 {
        "newborn"
    } else if kind == 36 {
        "nature"
    } else {
        "strength"
    }
}

/// The value of the first override whose key, lowercased, contains `word`.
pub open spec fn first_override(overrides: Seq<(String, bool)>, word: Seq<char>) -> Option<bool>
    decreases overrides.len(),
{
    if overrides.len() == 0 {
        None
    } else if contains_substring(lowercase(overrides[0].0@), word) {
        Some(overrides[0].1)
    } else {
        first_override(overrides.skip(1), word)
    }
}

/// The layout holds the artifact with engine number `kind`: a pickup of its kind is placed, or
/// the first override that names it says so.
pub open spec fn artifact_in_layout(kind: u32, placed: Seq<PickupType>, overrides: Seq<(String, bool)>) -> bool {
    (exists|j: int| 0 <= j < placed.len() && pickup_type_kind(#[trigger] placed[j]) == kind)
        || first_override(overrides, artifact_override_name(kind)) == Some(true)
}

/// The Artifact Temple layer of the artifact with engine number `kind` is active from the start
/// unless the artifact lies in the layout somewhere other than the Artifact Temple, whose pickup
/// has engine number `at_kind`.
pub open spec fn artifact_layer_starts_active(
    kind: u32,
    at_kind: u32,
    placed: Seq<PickupType>,
    overrides: Seq<(String, bool)>,
) -> bool {
    !(artifact_in_layout(kind, placed, overrides) && at_kind != kind)
}

/// Whether the layout holds the artifact with engine number `kind`.
fn artifact_exists(kind: u32, placed: &[PickupType], overrides: &[(String, bool)]) -> (r: bool)
    requires
        29 <= kind <= 40,
    ensures
        r == artifact_in_layout(kind, placed@, overrides@),
{
    let mut found = false;
    let mut j: usize = 0;
    while j < placed.len()
        invariant
            j <= placed@.len(),
            found == (exists|k: int| 0 <= k < j && pickup_type_kind(#[trigger] placed@[k]) == kind),
        decreases placed.len() - j,
    {
        if placed[j].kind() == kind {
            found = true;
        }
        j = j + 1;
    }
    let word = artifact_override_word(kind);
    let ghost placed_found = found;
    let mut o: usize = 0;
    assert(overrides@.skip(0) =~= overrides@);
    while o < overrides.len()
        invariant
            o <= overrides@.len(),
            found == placed_found,
            word@ == artifact_override_name(kind),
            placed_found == (exists|k: int| 0 <= k < placed@.len() && pickup_type_kind(#[trigger] placed@[k]) == kind),
            first_override(overrides@, word@) == first_override(overrides@.skip(o as int), word@),
        decreases overrides.len() - o,
    {
        let key = to_lowercase(overrides[o].0.as_str());
        proof {
            assert(overrides@.skip(o as int)[0] == overrides@[o as int]);
            assert(overrides@.skip(o as int).skip(1) =~= overrides@.skip(o + 1));
        }
        if str_contains(key.as_str(), word) {
            proof {
                let rest = overrides@.skip(o as int);
                assert(contains_substring(lowercase(rest[0].0@), word@));
                assert(first_override(rest, word@) == Some(rest[0].1));
            }
            return found || overrides[o].1;
        }
        o = o + 1;
    }
    found
}

/// Whether layer `b` of the Artifact Temple is active from the start: layers 2 to 12 belong to
/// the artifacts after the Artifact of Truth, in the order of their engine numbers, and the new
/// layer `t` (the former layer count) to the Artifact of Truth; each of them is active unless its
/// artifact lies elsewhere. Any other layer keeps its flag.
pub open spec fn artifact_temple_layer_active(
    old_flags: u64,
    t: u64,
    b: u64,
    at_kind: u32,
    placed: Seq<PickupType>,
    overrides: Seq<(String, bool)>,
) -> bool {
    if 2 <= b <= 12 {
        artifact_layer_starts_active((b + 28) as u32, at_kind, placed, overrides)
    } else if b == t {
        artifact_layer_starts_active(29, at_kind, placed, overrides)
    } else {
        layer_active(old_flags, b)
    }
}

/// The same after the first `i` artifacts have been handled.
spec fn artifact_temple_layer_active_upto(
    old_flags: u64,
    t: u64,
    b: u64,
    i: u32,
    at_kind: u32,
    placed: Seq<PickupType>,
    overrides: Seq<(String, bool)>,
) -> bool {
    if 2 <= b <= 12 && b - 1 < i {
        artifact_layer_starts_active((b + 28) as u32, at_kind, placed, overrides)
    } else if b == t && i > 0 {
        artifact_layer_starts_active(29, at_kind, placed, overrides)
    } else {
        layer_active(old_flags, b)
    }
}

/// Makes the Artifact Temple count the Artifact of Truth like the others: a new layer (named
/// "Randomizer - Got Artifact 1") stands for it, and each artifact's layer is active from the
/// start unless the artifact lies in the layout outside the Artifact Temple. `artifact_temple_pickup`
/// is the first pickup configured for the Artifact Temple, if any; `placed_pickups` are all the
/// layout's pickups; `artifact_temple_layer_overrides` are the configured overrides in the order
/// they are walked: an artifact also counts as in the layout when the first override whose key
/// names it says so. A new relay on the
/// new layer shows the progress, and the relay 68158836 of layer 1 triggers it in place of the
/// old progress relay 1048869.
pub fn fix_artifact_of_truth_requirements(
    ps: &mut PatcherState,
    area: &mut MlvlArea,
    artifact_temple_pickup: Option<PickupType>,
    placed_pickups: &[PickupType],
    artifact_temple_layer_overrides: &[(String, bool)],
) -> (r: Result<(), String>)
    requires
        old(area).layers@.len() < 64,
        old(ps).next_fresh_id < u32::MAX,
        first_in_layer(*old(area), 1, with_id(68158836), |o: SclyObject| true),
    ensures
        r is Ok,
        final(ps).next_fresh_id == old(ps).next_fresh_id + 1,
        ({
            let t = old(area).layers@.len();
            let at_kind = match artifact_temple_pickup {
                Some(p) => pickup_type_kind(p),
                None => 0,
            };
            let relays = old(area).layers@[1].objects@;
            let k = first_index(relays, with_id(68158836));
            let progress = final(area).layers@[t as int].objects@;
            &&& final(area).mrea_id == old(area).mrea_id
            &&& forall|b: u64| b < 64 ==> #[trigger] layer_active(final(area).layer_flags, b)
                == artifact_temple_layer_active(old(area).layer_flags, t as u64, b, at_kind, placed_pickups@,
                artifact_temple_layer_overrides@)
            &&& final(area).layers@.len() == t + 1
            &&& forall|j: int| 0 <= j < t && j != 1 ==> #[trigger] final(area).layers@[j] == old(area).layers@[j]
            &&& final(area).layers@[1].objects@.len() == relays.len()
            &&& forall|j: int| 0 <= j < relays.len() && j != k ==> #[trigger] final(area).layers@[1].objects@[j] == relays[j]
            &&& final(area).layers@[1].objects@[k].instance_id == relays[k].instance_id
            &&& final(area).layers@[1].objects@[k].property_data == relays[k].property_data
            &&& final(area).layers@[1].objects@[k].connections@ == relays[k].connections@.filter(
                |c: Connection| c.target_object_id != 1048869,
            ).push(Connection { state: STATE_ZERO, message: MSG_SET_TO_ZERO, target_object_id: old(ps).next_fresh_id })
            &&& progress.len() == 1
            &&& progress[0].instance_id == old(ps).next_fresh_id
            &&& progress[0].property_data matches SclyProperty::Relay(relay) && relay.active == 1
                && relay.name@ == "Relay Show Progress1"@
            &&& progress[0].connections@ == seq![Connection { state: STATE_ZERO, message: MSG_SET_TO_ZERO, target_object_id: 1048869 }]
            &&& final(area).dependencies@.len() == old(area).dependencies@.len() + 1
            &&& forall|j: int| 0 <= j < old(area).dependencies@.len() ==> #[trigger] final(area).dependencies@[j] == old(area).dependencies@[j]
            &&& final(area).dependencies@[old(area).dependencies@.len() as int]@.len() == 0
        }),
{
    let truth_req_layer_id = area.layers.len() as u64;
    area.add_layer();
    let at_pickup_kind: u32 = match artifact_temple_pickup {
        Some(p) => p.kind(),
        None => 0,
    };
    let ghost flags0 = area.layer_flags;
    let ghost added = *area;
    let mut i: u32 = 0;
    while i < 12
        invariant
            i <= 12,
            area.mrea_id == added.mrea_id,
            area.layers == added.layers,
            area.dependencies == added.dependencies,
            truth_req_layer_id < 64,
            forall|b: u64| b < 64 ==> #[trigger] layer_active(area.layer_flags, b) == artifact_temple_layer_active_upto(
                flags0, truth_req_layer_id, b, i, at_pickup_kind, placed_pickups@, artifact_temple_layer_overrides@,
            ),
        decreases 12 - i,
    {
        let layer_number: u64 = if i == 0 {
            truth_req_layer_id
        } else {
            (i + 1) as u64
        };
        let kind = i + 29;
        let present = artifact_exists(kind, placed_pickups, artifact_temple_layer_overrides);
        let ghost before = area.layer_flags;
        if present && at_pickup_kind != kind {
            area.layer_flags = area.layer_flags & !(1u64 << layer_number);
            proof {
                assert forall|b: u64| b < 64 implies #[trigger] layer_active(area.layer_flags, b)
                    == artifact_temple_layer_active_upto(flags0, truth_req_layer_id, b, (i + 1) as u32, at_pickup_kind,
                    placed_pickups@, artifact_temple_layer_overrides@) by {
                    lemma_layer_turned_off(before, layer_number, b);
                }
            }
        } else {
            area.layer_flags = area.layer_flags | (1u64 << layer_number);
            proof {
                assert forall|b: u64| b < 64 implies #[trigger] layer_active(area.layer_flags, b)
                    == artifact_temple_layer_active_upto(flags0, truth_req_layer_id, b, (i + 1) as u32, at_pickup_kind,
                    placed_pickups@, artifact_temple_layer_overrides@) by {
                    lemma_layer_turned_on(before, layer_number, b);
                }
            }
        }
        i = i + 1;
    }

    // A relay on the new layer shows the progress.
    let new_relay_instance_id = ps.fresh_instance_id();
    let t = truth_req_layer_id as usize;
    area.layers[t].objects.push(SclyObject {
        instance_id: new_relay_instance_id,
        connections: vec![Connection { state: STATE_ZERO, message: MSG_SET_TO_ZERO, target_object_id: 1048869 }],
        property_data: SclyProperty::Relay(Relay { name: String::from_str("Relay Show Progress1"), active: 1 }),
    });

    // The relay that showed the progress before now triggers the new one.
    let k = position_of_id(&area.layers[1].objects, 68158836).unwrap();
    let old_progress = vec![1048869u32];
    retain_connections_not_to(&mut area.layers[1].objects[k].connections, old_progress.as_slice());
    area.layers[1].objects[k].connections.push(
        Connection { state: STATE_ZERO, message: MSG_SET_TO_ZERO, target_object_id: new_relay_instance_id },
    );
    proof {
        assert((|c: Connection| !old_progress@.contains(c.target_object_id)) =~= (|c: Connection| c.target_object_id != 1048869));
    }
    Ok(())
}

/// One of the damageable triggers that make up the Arboretum's sandstone.
pub open spec fn is_sandstone_component(o: SclyObject) -> bool {
    o.property_data matches SclyProperty::DamageableTrigger(d) && d.name@ == "DamageableTrigger-component"@
}

/// The object made vulnerable to power bombs (vulnerability 1), when it is a damageable trigger.
pub open spec fn vulnerable_to_power_bombs(o: SclyObject) -> SclyObject {
    match o.property_data {
        SclyProperty::DamageableTrigger(d) => SclyObject {
            property_data: SclyProperty::DamageableTrigger(DamageableTrigger { power_bomb_vulnerability: 1, ..d }),
            ..o
        },
        _ => o,
    }
}

/// Makes the object vulnerable to power bombs if it is a component of the sandstone.
fn make_sandstone_power_bomb_vulnerable(obj: &mut SclyObject)
    ensures
        *final(obj) == if is_sandstone_component(*old(obj)) {
            vulnerable_to_power_bombs(*old(obj))
        } else {
            *old(obj)
        },
{
    match &mut obj.property_data {
        SclyProperty::DamageableTrigger(d) => {
            if str_equal(d.name.as_str(), "DamageableTrigger-component") {
                d.power_bomb_vulnerability = 1;
            }
        },
        _ => {},
    }
}

/// Lets power bombs break the Arboretum's sandstone: every damageable trigger named
/// "DamageableTrigger-component" on layer 0 becomes vulnerable to them.
pub fn patch_arboretum_sandstone(area: &mut MlvlArea) -> (r: Result<(), String>)
    requires
        old(area).layers@.len() > 0,
    ensures
        r is Ok,
        area_with_layer_objects(
            *old(area),
            *final(area),
            0,
            old(area).layers@[0].objects@.map_values(
                |o: SclyObject| if is_sandstone_component(o) { vulnerable_to_power_bombs(o) } else { o },
            ),
        ),
{
    let n = area.layers[0].objects.len();
    let mut i: usize = 0;
    while i < n
        invariant
            0 < area.layers@.len(),
            area.layers@.len() == old(area).layers@.len(),
            area.mrea_id == old(area).mrea_id,
            area.layer_flags == old(area).layer_flags,
            area.dependencies == old(area).dependencies,
            forall|j: int| 0 < j < old(area).layers@.len() ==> #[trigger] area.layers@[j] == old(area).layers@[j],
            n == old(area).layers@[0].objects@.len(),
            n == area.layers@[0].objects@.len(),
            i <= n,
            forall|j: int| 0 <= j < i ==> #[trigger] area.layers@[0].objects@[j] == if is_sandstone_component(
                old(area).layers@[0].objects@[j],
            ) {
                vulnerable_to_power_bombs(old(area).layers@[0].objects@[j])
            } else {
                old(area).layers@[0].objects@[j]
            },
            forall|j: int| i <= j < n ==> #[trigger] area.layers@[0].objects@[j] == old(area).layers@[0].objects@[j],
        decreases n - i,
    {
        make_sandstone_power_bomb_vulnerable(&mut area.layers[0].objects[i]);
        i = i + 1;
    }
    assert(area.layers@[0].objects@ =~= old(area).layers@[0].objects@.map_values(
        |o: SclyObject| if is_sandstone_component(o) { vulnerable_to_power_bombs(o) } else { o },
    ));
    Ok(())
}

} // verus!
