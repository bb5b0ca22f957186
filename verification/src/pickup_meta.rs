//! What the patcher knows of pickups: the kinds the game engine defines, the models that can
//! be shown for them, and how both are recognised from a pickup's script properties.

use vstd::prelude::*;
use crate::text::{ascii_lowercase, lemma_normalize_plain, normalize, normalized, str_equal};

verus! {

/// Pickup kind as defined by the game engine.
#[derive(Copy, Clone, Debug, PartialEq, Eq, Structural, Hash)]
pub enum PickupType {
    PowerBeam,
    IceBeam,
    WaveBeam,
    PlasmaBeam,
    Missile,
    ScanVisor,
    MorphBallBomb,
    PowerBomb,
    Flamethrower,
    ThermalVisor,
    ChargeBeam,
    SuperMissile,
    GrappleBeam,
    XRayVisor,
    IceSpreader,
    SpaceJumpBoots,
    MorphBall,
    CombatVisor,
    BoostBall,
    SpiderBall,
    PowerSuit,
    GravitySuit,
    VariaSuit,
    PhazonSuit,
    EnergyTank,
    UnknownItem1,
    HealthRefill,
    UnknownItem2,
    Wavebuster,
    ArtifactOfTruth,
    ArtifactOfStrength,
    ArtifactOfElder,
    ArtifactOfWild,
    ArtifactOfLifegiver,
    ArtifactOfWarrior,
    ArtifactOfChozo,
    ArtifactOfNature,
    ArtifactOfSun,
    ArtifactOfWorld,
    ArtifactOfSpirit,
    ArtifactOfNewborn,
    Nothing,
    FloatyJump,
    IceTrap,
}

/// Every pickup type, in the order in which the patcher lists them.
pub open spec fn all_pickup_types() -> Seq<PickupType> {
    seq![
        PickupType::PowerBeam,
        PickupType::IceBeam,
        PickupType::WaveBeam,
        PickupType::PlasmaBeam,
        PickupType::Missile,
        PickupType::ScanVisor,
        PickupType::MorphBallBomb,
        PickupType::PowerBomb,
        PickupType::Flamethrower,
        PickupType::ThermalVisor,
        PickupType::ChargeBeam,
        PickupType::SuperMissile,
        PickupType::GrappleBeam,
        PickupType::XRayVisor,
        PickupType::IceSpreader,
        PickupType::SpaceJumpBoots,
        PickupType::MorphBall,
        PickupType::CombatVisor,
        PickupType::BoostBall,
        PickupType::SpiderBall,
        PickupType::PowerSuit,
        PickupType::GravitySuit,
        PickupType::VariaSuit,
        PickupType::PhazonSuit,
        PickupType::EnergyTank,
        PickupType::UnknownItem1,
        PickupType::HealthRefill,
        PickupType::UnknownItem2,
        PickupType::Wavebuster,
        PickupType::ArtifactOfTruth,
        PickupType::ArtifactOfStrength,
        PickupType::ArtifactOfElder,
        PickupType::ArtifactOfWild,
        PickupType::ArtifactOfLifegiver,
        PickupType::ArtifactOfWarrior,
        PickupType::ArtifactOfChozo,
        PickupType::ArtifactOfNature,
        PickupType::ArtifactOfSun,
        PickupType::ArtifactOfWorld,
        PickupType::ArtifactOfSpirit,
        PickupType::ArtifactOfNewborn,
        PickupType::Nothing,
        PickupType::FloatyJump,
        PickupType::IceTrap,
    ]
}

/// The display name of a pickup type.
pub open spec fn pickup_type_name(t: PickupType) -> Seq<char> {
    match t {
        PickupType::PowerBeam => "Power Beam"@,
        PickupType::IceBeam => "Ice Beam"@,
        PickupType::WaveBeam => "Wave Beam"@,
        PickupType::PlasmaBeam => "Plasma Beam"@,
        PickupType::Missile => "Missile"@,
        PickupType::ScanVisor => "Scan Visor"@,
        PickupType::MorphBallBomb => "Morph Ball Bomb"@,
        PickupType::PowerBomb => "Power Bomb"@,
        PickupType::Flamethrower => "Flamethrower"@,
        PickupType::ThermalVisor => "Thermal Visor"@,
        PickupType::ChargeBeam => "Charge Beam"@,
        PickupType::SuperMissile => "Super Missile"@,
        PickupType::GrappleBeam => "Grapple Beam"@,
        PickupType::XRayVisor => "X-Ray Visor"@,
        PickupType::IceSpreader => "Ice Spreader"@,
        PickupType::SpaceJumpBoots => "Space Jump Boots"@,
        PickupType::MorphBall => "Morph Ball"@,
        PickupType::CombatVisor => "Combat Visor"@,
        PickupType::BoostBall => "Boost Ball"@,
        PickupType::SpiderBall => "Spider Ball"@,
        PickupType::PowerSuit => "Power Suit"@,
        PickupType::GravitySuit => "Gravity Suit"@,
        PickupType::VariaSuit => "Varia Suit"@,
        PickupType::PhazonSuit => "Phazon Suit"@,
        PickupType::EnergyTank => "Energy Tank"@,
        PickupType::UnknownItem1 => "Unknown Item 1"@,
        PickupType::HealthRefill => "Health Refill"@,
        PickupType::UnknownItem2 => "Unknown Item 2"@,
        PickupType::Wavebuster => "Wavebuster"@,
        PickupType::ArtifactOfTruth => "Artifact Of Truth"@,
        PickupType::ArtifactOfStrength => "Artifact Of Strength"@,
        PickupType::ArtifactOfElder => "Artifact Of Elder"@,
        PickupType::ArtifactOfWild => "Artifact Of Wild"@,
        PickupType::ArtifactOfLifegiver => "Artifact Of Lifegiver"@,
        PickupType::ArtifactOfWarrior => "Artifact Of Warrior"@,
        PickupType::ArtifactOfChozo => "Artifact Of Chozo"@,
        PickupType::ArtifactOfNature => "Artifact Of Nature"@,
        PickupType::ArtifactOfSun => "Artifact Of Sun"@,
        PickupType::ArtifactOfWorld => "Artifact Of World"@,
        PickupType::ArtifactOfSpirit => "Artifact Of Spirit"@,
        PickupType::ArtifactOfNewborn => "Artifact Of Newborn"@,
        PickupType::Nothing => "Nothing"@,
        PickupType::FloatyJump => "Floaty Jump"@,
        PickupType::IceTrap => "Ice Trap"@,
    }
}

/// The engine's number for a pickup type: its place in the list; the two patcher-only types
/// (floaty jump and ice trap) use the number of `Nothing`.
pub open spec fn pickup_type_kind(t: PickupType) -> u32 {
    match t {
        PickupType::PowerBeam => 0,
        PickupType::IceBeam => 1,
        PickupType::WaveBeam => 2,
        PickupType::PlasmaBeam => 3,
        PickupType::Missile => 4,
        PickupType::ScanVisor => 5,
        PickupType::MorphBallBomb => 6,
        PickupType::PowerBomb => 7,
        PickupType::Flamethrower => 8,
        PickupType::ThermalVisor => 9,
        PickupType::ChargeBeam => 10,
        PickupType::SuperMissile => 11,
        PickupType::GrappleBeam => 12,
        PickupType::XRayVisor => 13,
        PickupType::IceSpreader => 14,
        PickupType::SpaceJumpBoots => 15,
        PickupType::MorphBall => 16,
        PickupType::CombatVisor => 17,
        PickupType::BoostBall => 18,
        PickupType::SpiderBall => 19,
        PickupType::PowerSuit => 20,
        PickupType::GravitySuit => 21,
        PickupType::VariaSuit => 22,
        PickupType::PhazonSuit => 23,
        PickupType::EnergyTank => 24,
        PickupType::UnknownItem1 => 25,
        PickupType::HealthRefill => 26,
        PickupType::UnknownItem2 => 27,
        PickupType::Wavebuster => 28,
        PickupType::ArtifactOfTruth => 29,
        PickupType::ArtifactOfStrength => 30,
        PickupType::ArtifactOfElder => 31,
        PickupType::ArtifactOfWild => 32,
        PickupType::ArtifactOfLifegiver => 33,
        PickupType::ArtifactOfWarrior => 34,
        PickupType::ArtifactOfChozo => 35,
        PickupType::ArtifactOfNature => 36,
        PickupType::ArtifactOfSun => 37,
        PickupType::ArtifactOfWorld => 38,
        PickupType::ArtifactOfSpirit => 39,
        PickupType::ArtifactOfNewborn => 40,
        PickupType::Nothing => 41,
        PickupType::FloatyJump => 41,
        PickupType::IceTrap => 41,
    }
}

/// The pickup type whose engine number is `k`, among the types the engine defines.
pub open spec fn pickup_type_of_kind(k: u32) -> Option<PickupType> {
    if k <= 41 {
        Some(all_pickup_types()[k as int])
    } else {
        None
    }
}

/// The index of a pickup type's default assets: its kind, except that floaty jump takes the
/// slot after `Nothing`.
pub open spec fn pickup_type_asset_index(t: PickupType) -> u32 {
    if t == PickupType::FloatyJump {
        (pickup_type_kind(t) + 1) as u32
    } else {
        pickup_type_kind(t)
    }
}

/// The first type of `types` whose normalized name is `n`.
pub open spec fn find_type_by_name(types: Seq<PickupType>, n: Seq<char>) -> Option<PickupType>
    decreases types.len(),
{
    if types.len() == 0 {
        None
    } else if normalize(pickup_type_name(types[0])) == n {
        Some(types[0])
    } else {
        find_type_by_name(types.drop_first(), n)
    }
}

/// The pickup type that a configuration string names: the first type whose name matches once
/// both are lowercased and trimmed, else one of the short visor names.
pub open spec fn pickup_type_from_str(s: Seq<char>) -> Option<PickupType> {
    let n = normalize(s);
    match find_type_by_name(all_pickup_types(), n) {
        Some(t) => Some(t),
        None => if n == "combat"@ {
            Some(PickupType::CombatVisor)
        } else if n == "scan"@ {
            Some(PickupType::ScanVisor)
        } else if n == "thermal"@ {
            Some(PickupType::ThermalVisor)
        } else if n == "x-ray"@ || n == "xray"@ || n == "x-ray visor"@ || n == "xray visor"@ {
            Some(PickupType::XRayVisor)
        } else {
            None
        },
    }
}

impl PickupType {
    /// The display name of this type.
    pub fn name(&self) -> (r: &'static str)
        ensures
            r@ == pickup_type_name(*self),
    {
        match self {
            PickupType::PowerBeam => "Power Beam",
            PickupType::IceBeam => "Ice Beam",
            PickupType::WaveBeam => "Wave Beam",
            PickupType::PlasmaBeam => "Plasma Beam",
            PickupType::Missile => "Missile",
            PickupType::ScanVisor => "Scan Visor",
            PickupType::MorphBallBomb => "Morph Ball Bomb",
            PickupType::PowerBomb => "Power Bomb",
            PickupType::Flamethrower => "Flamethrower",
            PickupType::ThermalVisor => "Thermal Visor",
            PickupType::ChargeBeam => "Charge Beam",
            PickupType::SuperMissile => "Super Missile",
            PickupType::GrappleBeam => "Grapple Beam",
            PickupType::XRayVisor => "X-Ray Visor",
            PickupType::IceSpreader => "Ice Spreader",
            PickupType::SpaceJumpBoots => "Space Jump Boots",
            PickupType::MorphBall => "Morph Ball",
            PickupType::CombatVisor => "Combat Visor",
            PickupType::BoostBall => "Boost Ball",
            PickupType::SpiderBall => "Spider Ball",
            PickupType::PowerSuit => "Power Suit",
            PickupType::GravitySuit => "Gravity Suit",
            PickupType::VariaSuit => "Varia Suit",
            PickupType::PhazonSuit => "Phazon Suit",
            PickupType::EnergyTank => "Energy Tank",
            PickupType::UnknownItem1 => "Unknown Item 1",
            PickupType::HealthRefill => "Health Refill",
            PickupType::UnknownItem2 => "Unknown Item 2",
            PickupType::Wavebuster => "Wavebuster",
            PickupType::ArtifactOfTruth => "Artifact Of Truth",
            PickupType::ArtifactOfStrength => "Artifact Of Strength",
            PickupType::ArtifactOfElder => "Artifact Of Elder",
            PickupType::ArtifactOfWild => "Artifact Of Wild",
            PickupType::ArtifactOfLifegiver => "Artifact Of Lifegiver",
            PickupType::ArtifactOfWarrior => "Artifact Of Warrior",
            PickupType::ArtifactOfChozo => "Artifact Of Chozo",
            PickupType::ArtifactOfNature => "Artifact Of Nature",
            PickupType::ArtifactOfSun => "Artifact Of Sun",
            PickupType::ArtifactOfWorld => "Artifact Of World",
            PickupType::ArtifactOfSpirit => "Artifact Of Spirit",
            PickupType::ArtifactOfNewborn => "Artifact Of Newborn",
            PickupType::Nothing => "Nothing",
            PickupType::FloatyJump => "Floaty Jump",
            PickupType::IceTrap => "Ice Trap",
        }
    }

    /// Every pickup type, in order.
    pub fn iter() -> (r: Vec<PickupType>)
        ensures
            r@ == all_pickup_types(),
    {
        let r = vec![
            PickupType::PowerBeam,
            PickupType::IceBeam,
            PickupType::WaveBeam,
            PickupType::PlasmaBeam,
            PickupType::Missile,
            PickupType::ScanVisor,
            PickupType::MorphBallBomb,
            PickupType::PowerBomb,
            PickupType::Flamethrower,
            PickupType::ThermalVisor,
            PickupType::ChargeBeam,
            PickupType::SuperMissile,
            PickupType::GrappleBeam,
            PickupType::XRayVisor,
            PickupType::IceSpreader,
            PickupType::SpaceJumpBoots,
            PickupType::MorphBall,
            PickupType::CombatVisor,
            PickupType::BoostBall,
            PickupType::SpiderBall,
            PickupType::PowerSuit,
            PickupType::GravitySuit,
            PickupType::VariaSuit,
            PickupType::PhazonSuit,
            PickupType::EnergyTank,
            PickupType::UnknownItem1,
            PickupType::HealthRefill,
            PickupType::UnknownItem2,
            PickupType::Wavebuster,
            PickupType::ArtifactOfTruth,
            PickupType::ArtifactOfStrength,
            PickupType::ArtifactOfElder,
            PickupType::ArtifactOfWild,
            PickupType::ArtifactOfLifegiver,
            PickupType::ArtifactOfWarrior,
            PickupType::ArtifactOfChozo,
            PickupType::ArtifactOfNature,
            PickupType::ArtifactOfSun,
            PickupType::ArtifactOfWorld,
            PickupType::ArtifactOfSpirit,
            PickupType::ArtifactOfNewborn,
            PickupType::Nothing,
            PickupType::FloatyJump,
            PickupType::IceTrap,
        ];
        assert(r@ =~= all_pickup_types());
        r
    }

    /// The engine's number for this type.
    pub fn kind(&self) -> (r: u32)
        ensures
            r == pickup_type_kind(*self),
    {
        match self {
            PickupType::PowerBeam => 0,
            PickupType::IceBeam => 1,
            PickupType::WaveBeam => 2,
            PickupType::PlasmaBeam => 3,
            PickupType::Missile => 4,
            PickupType::ScanVisor => 5,
            PickupType::MorphBallBomb => 6,
            PickupType::PowerBomb => 7,
            PickupType::Flamethrower => 8,
            PickupType::ThermalVisor => 9,
            PickupType::ChargeBeam => 10,
            PickupType::SuperMissile => 11,
            PickupType::GrappleBeam => 12,
            PickupType::XRayVisor => 13,
            PickupType::IceSpreader => 14,
            PickupType::SpaceJumpBoots => 15,
            PickupType::MorphBall => 16,
            PickupType::CombatVisor => 17,
            PickupType::BoostBall => 18,
            PickupType::SpiderBall => 19,
            PickupType::PowerSuit => 20,
            PickupType::GravitySuit => 21,
            PickupType::VariaSuit => 22,
            PickupType::PhazonSuit => 23,
            PickupType::EnergyTank => 24,
            PickupType::UnknownItem1 => 25,
            PickupType::HealthRefill => 26,
            PickupType::UnknownItem2 => 27,
            PickupType::Wavebuster => 28,
            PickupType::ArtifactOfTruth => 29,
            PickupType::ArtifactOfStrength => 30,
            PickupType::ArtifactOfElder => 31,
            PickupType::ArtifactOfWild => 32,
            PickupType::ArtifactOfLifegiver => 33,
            PickupType::ArtifactOfWarrior => 34,
            PickupType::ArtifactOfChozo => 35,
            PickupType::ArtifactOfNature => 36,
            PickupType::ArtifactOfSun => 37,
            PickupType::ArtifactOfWorld => 38,
            PickupType::ArtifactOfSpirit => 39,
            PickupType::ArtifactOfNewborn => 40,
            PickupType::Nothing => 41,
            // the patcher-only types are given to the engine as `Nothing`
            PickupType::FloatyJump => 41,
            PickupType::IceTrap => 41,
        }
    }
    /// The pickup type a configuration string names, if it names one.
    pub fn try_from_str(string: &str) -> (r: Option<PickupType>)
        ensures
            r == pickup_type_from_str(string@),
    {
        let lowered = normalized(string);
        let s = lowered.as_str();
        let types = PickupType::iter();
        let n = types.len();
        let mut i: usize = 0;
        assert(all_pickup_types().subrange(0, n as int) =~= all_pickup_types());
        while i < n
            invariant
                types@ == all_pickup_types(),
                n == types@.len(),
                s@ == normalize(string@),
                i <= n,
                find_type_by_name(all_pickup_types(), s@) == find_type_by_name(
                    all_pickup_types().subrange(i as int, n as int),
                    s@,
                ),
            decreases n - i,
        {
            let t = types[i];
            let candidate = normalized(t.name());
            if str_equal(candidate.as_str(), s) {
                return Some(t);
            }
            assert(all_pickup_types().subrange(i as int, n as int).drop_first() =~= all_pickup_types().subrange(
                (i + 1) as int,
                n as int,
            ));
            i = i + 1;
        }
        assert(all_pickup_types().subrange(n as int, n as int) =~= Seq::<PickupType>::empty());
        if str_equal(s, "combat") {
            Some(PickupType::CombatVisor)
        } else if str_equal(s, "scan") {
            Some(PickupType::ScanVisor)
        } else if str_equal(s, "thermal") {
            Some(PickupType::ThermalVisor)
        } else if str_equal(s, "x-ray") || str_equal(s, "xray") || str_equal(s, "x-ray visor")
            || str_equal(s, "xray visor") {
            Some(PickupType::XRayVisor)
        } else {
            None
        }
    }

    /// The pickup type a configuration string names; the string must name one.
    pub fn from_str(string: &str) -> (r: Self)
        requires
            pickup_type_from_str(string@) is Some,
        ensures
            pickup_type_from_str(string@) == Some(r),
    {
        PickupType::try_from_str(string).unwrap()
    }

    /// The index of this type's default assets (scan and memo strings): floaty jump and
    /// `Nothing` share a kind but get separate slots.
    pub fn asset_index(&self) -> (r: u32)
        ensures
            r == pickup_type_asset_index(*self),
    {
        proof {
            reveal_strlit("Floaty Jump");
            reveal_strlit("Nothing");
            reveal_strlit("Ice Trap");
        }
        let kind = self.kind();
        if kind == PickupType::Nothing.kind() && str_equal(self.name(), PickupType::FloatyJump.name()) {
            assert(pickup_type_name(*self).len() == 11);
            kind + 1
        } else {
            kind
        }
    }
}

/// A model of a pickup: the 3D model shown in the game world for it.
#[derive(Copy, Clone, Debug, PartialEq, Eq, Structural, Hash)]
pub enum PickupModel {
    Missile,
    EnergyTank,
    Visor,
    CombatVisor,
    ThermalVisor,
    XRayVisor,
    VariaSuit,
    GravitySuit,
    PhazonSuit,
    MorphBall,
    BoostBall,
    SpiderBall,
    MorphBallBomb,
    PowerBombExpansion,
    PowerBomb,
    ChargeBeam,
    SpaceJumpBoots,
    GrappleBeam,
    SuperMissile,
    Wavebuster,
    IceSpreader,
    Flamethrower,
    WaveBeam,
    IceBeam,
    PlasmaBeam,
    ArtifactOfLifegiver,
    ArtifactOfWild,
    ArtifactOfWorld,
    ArtifactOfSun,
    ArtifactOfElder,
    ArtifactOfSpirit,
    ArtifactOfTruth,
    ArtifactOfChozo,
    ArtifactOfWarrior,
    ArtifactOfNewborn,
    ArtifactOfNature,
    ArtifactOfStrength,
    Nothing,
    HealthRefill,
    MissileRefill,
    PowerBombRefill,
    ShinyMissile,
    IceTrap,
}

/// Every pickup model, in the order in which the patcher lists them.
pub open spec fn all_pickup_models() -> Seq<PickupModel> {
    seq![
        PickupModel::Missile,
        PickupModel::EnergyTank,
        PickupModel::Visor,
        PickupModel::CombatVisor,
        PickupModel::ThermalVisor,
        PickupModel::XRayVisor,
        PickupModel::VariaSuit,
        PickupModel::GravitySuit,
        PickupModel::PhazonSuit,
        PickupModel::MorphBall,
        PickupModel::BoostBall,
        PickupModel::SpiderBall,
        PickupModel::MorphBallBomb,
        PickupModel::PowerBombExpansion,
        PickupModel::PowerBomb,
        PickupModel::ChargeBeam,
        PickupModel::SpaceJumpBoots,
        PickupModel::GrappleBeam,
        PickupModel::SuperMissile,
        PickupModel::Wavebuster,
        PickupModel::IceSpreader,
        PickupModel::Flamethrower,
        PickupModel::WaveBeam,
        PickupModel::IceBeam,
        PickupModel::PlasmaBeam,
        PickupModel::ArtifactOfLifegiver,
        PickupModel::ArtifactOfWild,
        PickupModel::ArtifactOfWorld,
        PickupModel::ArtifactOfSun,
        PickupModel::ArtifactOfElder,
        PickupModel::ArtifactOfSpirit,
        PickupModel::ArtifactOfTruth,
        PickupModel::ArtifactOfChozo,
        PickupModel::ArtifactOfWarrior,
        PickupModel::ArtifactOfNewborn,
        PickupModel::ArtifactOfNature,
        PickupModel::ArtifactOfStrength,
        PickupModel::Nothing,
        PickupModel::HealthRefill,
        PickupModel::MissileRefill,
        PickupModel::PowerBombRefill,
        PickupModel::ShinyMissile,
        PickupModel::IceTrap,
    ]
}

/// The display name of a pickup model.
pub open spec fn pickup_model_name(m: PickupModel) -> Seq<char> {
    match m {
        PickupModel::Missile => "Missile"@,
        PickupModel::EnergyTank => "Energy Tank"@,
        PickupModel::Visor => "Visor"@,
        PickupModel::CombatVisor => "Combat Visor"@,
        PickupModel::ThermalVisor => "Thermal Visor"@,
        PickupModel::XRayVisor => "X-Ray Visor"@,
        PickupModel::VariaSuit => "Varia Suit"@,
        PickupModel::GravitySuit => "Gravity Suit"@,
        PickupModel::PhazonSuit => "Phazon Suit"@,
        PickupModel::MorphBall => "Morph Ball"@,
        PickupModel::BoostBall => "Boost Ball"@,
        PickupModel::SpiderBall => "Spider Ball"@,
        PickupModel::MorphBallBomb => "Morph Ball Bomb"@,
        PickupModel::PowerBombExpansion => "Power Bomb Expansion"@,
        PickupModel::PowerBomb => "Power Bomb"@,
        PickupModel::ChargeBeam => "Charge Beam"@,
        PickupModel::SpaceJumpBoots => "Space Jump Boots"@,
        PickupModel::GrappleBeam => "Grapple Beam"@,
        PickupModel::SuperMissile => "Super Missile"@,
        PickupModel::Wavebuster => "Wavebuster"@,
        PickupModel::IceSpreader => "Ice Spreader"@,
        PickupModel::Flamethrower => "Flamethrower"@,
        PickupModel::WaveBeam => "Wave Beam"@,
        PickupModel::IceBeam => "Ice Beam"@,
        PickupModel::PlasmaBeam => "Plasma Beam"@,
        PickupModel::ArtifactOfLifegiver => "Artifact of Lifegiver"@,
        PickupModel::ArtifactOfWild => "Artifact of Wild"@,
        PickupModel::ArtifactOfWorld => "Artifact of World"@,
        PickupModel::ArtifactOfSun => "Artifact of Sun"@,
        PickupModel::ArtifactOfElder => "Artifact of Elder"@,
        PickupModel::ArtifactOfSpirit => "Artifact of Spirit"@,
        PickupModel::ArtifactOfTruth => "Artifact of Truth"@,
        PickupModel::ArtifactOfChozo => "Artifact of Chozo"@,
        PickupModel::ArtifactOfWarrior => "Artifact of Warrior"@,
        PickupModel::ArtifactOfNewborn => "Artifact of Newborn"@,
        PickupModel::ArtifactOfNature => "Artifact of Nature"@,
        PickupModel::ArtifactOfStrength => "Artifact of Strength"@,
        PickupModel::Nothing => "Nothing"@,
        PickupModel::HealthRefill => "Health Refill"@,
        PickupModel::MissileRefill => "Missile Refill"@,
        PickupModel::PowerBombRefill => "Power Bomb Refill"@,
        PickupModel::ShinyMissile => "Shiny Missile"@,
        PickupModel::IceTrap => "Ice Trap"@,
    }
}

/// The default model of a pickup type: the model of the same name, the visor model for the
/// scan visor, and `Nothing` for the types that have no model of their own.
pub open spec fn pickup_model_for_type(t: PickupType) -> PickupModel {
    match t {
        PickupType::PowerBeam => PickupModel::Nothing,
        PickupType::IceBeam => PickupModel::IceBeam,
        PickupType::WaveBeam => PickupModel::WaveBeam,
        PickupType::PlasmaBeam => PickupModel::PlasmaBeam,
        PickupType::Missile => PickupModel::Missile,
        PickupType::ScanVisor => PickupModel::Visor,
        PickupType::MorphBallBomb => PickupModel::MorphBallBomb,
        PickupType::PowerBomb => PickupModel::PowerBomb,
        PickupType::Flamethrower => PickupModel::Flamethrower,
        PickupType::ThermalVisor => PickupModel::ThermalVisor,
        PickupType::ChargeBeam => PickupModel::ChargeBeam,
        PickupType::SuperMissile => PickupModel::SuperMissile,
        PickupType::GrappleBeam => PickupModel::GrappleBeam,
        PickupType::XRayVisor => PickupModel::XRayVisor,
        PickupType::IceSpreader => PickupModel::IceSpreader,
        PickupType::SpaceJumpBoots => PickupModel::SpaceJumpBoots,
        PickupType::MorphBall => PickupModel::MorphBall,
        PickupType::CombatVisor => PickupModel::CombatVisor,
        PickupType::BoostBall => PickupModel::BoostBall,
        PickupType::SpiderBall => PickupModel::SpiderBall,
        PickupType::PowerSuit => PickupModel::Nothing,
        PickupType::GravitySuit => PickupModel::GravitySuit,
        PickupType::VariaSuit => PickupModel::VariaSuit,
        PickupType::PhazonSuit => PickupModel::PhazonSuit,
        PickupType::EnergyTank => PickupModel::EnergyTank,
        PickupType::UnknownItem1 => PickupModel::Nothing,
        PickupType::HealthRefill => PickupModel::HealthRefill,
        PickupType::UnknownItem2 => PickupModel::Nothing,
        PickupType::Wavebuster => PickupModel::Wavebuster,
        PickupType::ArtifactOfTruth => PickupModel::ArtifactOfTruth,
        PickupType::ArtifactOfStrength => PickupModel::ArtifactOfStrength,
        PickupType::ArtifactOfElder => PickupModel::ArtifactOfElder,
        PickupType::ArtifactOfWild => PickupModel::ArtifactOfWild,
        PickupType::ArtifactOfLifegiver => PickupModel::ArtifactOfLifegiver,
        PickupType::ArtifactOfWarrior => PickupModel::ArtifactOfWarrior,
        PickupType::ArtifactOfChozo => PickupModel::ArtifactOfChozo,
        PickupType::ArtifactOfNature => PickupModel::ArtifactOfNature,
        PickupType::ArtifactOfSun => PickupModel::ArtifactOfSun,
        PickupType::ArtifactOfWorld => PickupModel::ArtifactOfWorld,
        PickupType::ArtifactOfSpirit => PickupModel::ArtifactOfSpirit,
        PickupType::ArtifactOfNewborn => PickupModel::ArtifactOfNewborn,
        PickupType::Nothing => PickupModel::Nothing,
        PickupType::FloatyJump => PickupModel::Nothing,
        PickupType::IceTrap => PickupModel::IceTrap,
    }
}

/// The first model of `models` whose normalized name is `n`.
pub open spec fn find_model_by_name(models: Seq<PickupModel>, n: Seq<char>) -> Option<PickupModel>
    decreases models.len(),
{
    if models.len() == 0 {
        None
    } else if normalize(pickup_model_name(models[0])) == n {
        Some(models[0])
    } else {
        find_model_by_name(models.drop_first(), n)
    }
}

/// The pickup model a configuration string names: the first model whose name matches once both
/// are lowercased and trimmed, else a short visor name, else the placeholder names of the power
/// suit and power beam, which stand for `Nothing`.
pub open spec fn pickup_model_from_str(s: Seq<char>) -> Option<PickupModel> {
    let n = normalize(s);
    match find_model_by_name(all_pickup_models(), n) {
        Some(m) => Some(m),
        None => if n == "combat"@ {
            Some(PickupModel::CombatVisor)
        } else if n == "scan"@ || n == "scan visor"@ {
            Some(PickupModel::Visor)
        } else if n == "thermal"@ {
            Some(PickupModel::ThermalVisor)
        } else if n == "x-ray"@ || n == "xray"@ || n == "x-ray visor"@ || n == "xray visor"@ {
            Some(PickupModel::XRayVisor)
        } else if n == "power suit"@ || n == "power beam"@ {
            Some(PickupModel::Nothing)
        } else {
            None
        },
    }
}

impl PickupModel {
    /// The display name of this model.
    pub fn name(&self) -> (r: &'static str)
        ensures
            r@ == pickup_model_name(*self),
    {
        match self {
            PickupModel::Missile => "Missile",
            PickupModel::EnergyTank => "Energy Tank",
            PickupModel::Visor => "Visor",
            PickupModel::CombatVisor => "Combat Visor",
            PickupModel::ThermalVisor => "Thermal Visor",
            PickupModel::XRayVisor => "X-Ray Visor",
            PickupModel::VariaSuit => "Varia Suit",
            PickupModel::GravitySuit => "Gravity Suit",
            PickupModel::PhazonSuit => "Phazon Suit",
            PickupModel::MorphBall => "Morph Ball",
            PickupModel::BoostBall => "Boost Ball",
            PickupModel::SpiderBall => "Spider Ball",
            PickupModel::MorphBallBomb => "Morph Ball Bomb",
            PickupModel::PowerBombExpansion => "Power Bomb Expansion",
            PickupModel::PowerBomb => "Power Bomb",
            PickupModel::ChargeBeam => "Charge Beam",
            PickupModel::SpaceJumpBoots => "Space Jump Boots",
            PickupModel::GrappleBeam => "Grapple Beam",
            PickupModel::SuperMissile => "Super Missile",
            PickupModel::Wavebuster => "Wavebuster",
            PickupModel::IceSpreader => "Ice Spreader",
            PickupModel::Flamethrower => "Flamethrower",
            PickupModel::WaveBeam => "Wave Beam",
            PickupModel::IceBeam => "Ice Beam",
            PickupModel::PlasmaBeam => "Plasma Beam",
            PickupModel::ArtifactOfLifegiver => "Artifact of Lifegiver",
            PickupModel::ArtifactOfWild => "Artifact of Wild",
            PickupModel::ArtifactOfWorld => "Artifact of World",
            PickupModel::ArtifactOfSun => "Artifact of Sun",
            PickupModel::ArtifactOfElder => "Artifact of Elder",
            PickupModel::ArtifactOfSpirit => "Artifact of Spirit",
            PickupModel::ArtifactOfTruth => "Artifact of Truth",
            PickupModel::ArtifactOfChozo => "Artifact of Chozo",
            PickupModel::ArtifactOfWarrior => "Artifact of Warrior",
            PickupModel::ArtifactOfNewborn => "Artifact of Newborn",
            PickupModel::ArtifactOfNature => "Artifact of Nature",
            PickupModel::ArtifactOfStrength => "Artifact of Strength",
            PickupModel::Nothing => "Nothing",
            PickupModel::HealthRefill => "Health Refill",
            PickupModel::MissileRefill => "Missile Refill",
            PickupModel::PowerBombRefill => "Power Bomb Refill",
            PickupModel::ShinyMissile => "Shiny Missile",
            PickupModel::IceTrap => "Ice Trap",
        }
    }

    /// Every pickup model, in order.
    pub fn iter() -> (r: Vec<PickupModel>)
        ensures
            r@ == all_pickup_models(),
    {
        let r = vec![
            PickupModel::Missile,
            PickupModel::EnergyTank,
            PickupModel::Visor,
            PickupModel::CombatVisor,
            PickupModel::ThermalVisor,
            PickupModel::XRayVisor,
            PickupModel::VariaSuit,
            PickupModel::GravitySuit,
            PickupModel::PhazonSuit,
            PickupModel::MorphBall,
            PickupModel::BoostBall,
            PickupModel::SpiderBall,
            PickupModel::MorphBallBomb,
            PickupModel::PowerBombExpansion,
            PickupModel::PowerBomb,
            PickupModel::ChargeBeam,
            PickupModel::SpaceJumpBoots,
            PickupModel::GrappleBeam,
            PickupModel::SuperMissile,
            PickupModel::Wavebuster,
            PickupModel::IceSpreader,
            PickupModel::Flamethrower,
            PickupModel::WaveBeam,
            PickupModel::IceBeam,
            PickupModel::PlasmaBeam,
            PickupModel::ArtifactOfLifegiver,
            PickupModel::ArtifactOfWild,
            PickupModel::ArtifactOfWorld,
            PickupModel::ArtifactOfSun,
            PickupModel::ArtifactOfElder,
            PickupModel::ArtifactOfSpirit,
            PickupModel::ArtifactOfTruth,
            PickupModel::ArtifactOfChozo,
            PickupModel::ArtifactOfWarrior,
            PickupModel::ArtifactOfNewborn,
            PickupModel::ArtifactOfNature,
            PickupModel::ArtifactOfStrength,
            PickupModel::Nothing,
            PickupModel::HealthRefill,
            PickupModel::MissileRefill,
            PickupModel::PowerBombRefill,
            PickupModel::ShinyMissile,
            PickupModel::IceTrap,
        ];
        assert(r@ =~= all_pickup_models());
        r
    }

    /// The pickup model a configuration string names, if it names one.
    pub fn from_str(string: &str) -> (r: Option<Self>)
        ensures
            r == pickup_model_from_str(string@),
    {
        let lowered = normalized(string);
        let s = lowered.as_str();
        let models = PickupModel::iter();
        let n = models.len();
        let mut i: usize = 0;
        assert(all_pickup_models().subrange(0, n as int) =~= all_pickup_models());
        while i < n
            invariant
                models@ == all_pickup_models(),
                n == models@.len(),
                s@ == normalize(string@),
                i <= n,
                find_model_by_name(all_pickup_models(), s@) == find_model_by_name(
                    all_pickup_models().subrange(i as int, n as int),
                    s@,
                ),
            decreases n - i,
        {
            let m = models[i];
            let candidate = normalized(m.name());
            if str_equal(candidate.as_str(), s) {
                return Some(m);
            }
            assert(all_pickup_models().subrange(i as int, n as int).drop_first() =~= all_pickup_models().subrange(
                (i + 1) as int,
                n as int,
            ));
            i = i + 1;
        }
        assert(all_pickup_models().subrange(n as int, n as int) =~= Seq::<PickupModel>::empty());
        if str_equal(s, "combat") {
            Some(PickupModel::CombatVisor)
        } else if str_equal(s, "scan") || str_equal(s, "scan visor") {
            Some(PickupModel::Visor)
        } else if str_equal(s, "thermal") {
            Some(PickupModel::ThermalVisor)
        } else if str_equal(s, "x-ray") || str_equal(s, "xray") || str_equal(s, "x-ray visor")
            || str_equal(s, "xray visor") {
            Some(PickupModel::XRayVisor)
        } else if str_equal(s, "power suit") || str_equal(s, "power beam") {
            Some(PickupModel::Nothing)
        } else {
            None
        }
    }

    /// The model used for a pickup type when the configuration names none.
    pub fn from_type(pickup_type: PickupType) -> (r: Self)
        ensures
            r == pickup_model_for_type(pickup_type),
    {
        match pickup_type {
            PickupType::PowerBeam => PickupModel::Nothing,
            PickupType::IceBeam => PickupModel::IceBeam,
            PickupType::WaveBeam => PickupModel::WaveBeam,
            PickupType::PlasmaBeam => PickupModel::PlasmaBeam,
            PickupType::Missile => PickupModel::Missile,
            PickupType::ScanVisor => PickupModel::Visor,
            PickupType::MorphBallBomb => PickupModel::MorphBallBomb,
            PickupType::PowerBomb => PickupModel::PowerBomb,
            PickupType::Flamethrower => PickupModel::Flamethrower,
            PickupType::ThermalVisor => PickupModel::ThermalVisor,
            PickupType::ChargeBeam => PickupModel::ChargeBeam,
            PickupType::SuperMissile => PickupModel::SuperMissile,
            PickupType::GrappleBeam => PickupModel::GrappleBeam,
            PickupType::XRayVisor => PickupModel::XRayVisor,
            PickupType::IceSpreader => PickupModel::IceSpreader,
            PickupType::SpaceJumpBoots => PickupModel::SpaceJumpBoots,
            PickupType::MorphBall => PickupModel::MorphBall,
            PickupType::CombatVisor => PickupModel::CombatVisor,
            PickupType::BoostBall => PickupModel::BoostBall,
            PickupType::SpiderBall => PickupModel::SpiderBall,
            PickupType::PowerSuit => PickupModel::Nothing,
            PickupType::GravitySuit => PickupModel::GravitySuit,
            PickupType::VariaSuit => PickupModel::VariaSuit,
            PickupType::PhazonSuit => PickupModel::PhazonSuit,
            PickupType::EnergyTank => PickupModel::EnergyTank,
            PickupType::UnknownItem1 => PickupModel::Nothing,
            PickupType::HealthRefill => PickupModel::HealthRefill,
            PickupType::UnknownItem2 => PickupModel::Nothing,
            PickupType::Wavebuster => PickupModel::Wavebuster,
            PickupType::ArtifactOfTruth => PickupModel::ArtifactOfTruth,
            PickupType::ArtifactOfStrength => PickupModel::ArtifactOfStrength,
            PickupType::ArtifactOfElder => PickupModel::ArtifactOfElder,
            PickupType::ArtifactOfWild => PickupModel::ArtifactOfWild,
            PickupType::ArtifactOfLifegiver => PickupModel::ArtifactOfLifegiver,
            PickupType::ArtifactOfWarrior => PickupModel::ArtifactOfWarrior,
            PickupType::ArtifactOfChozo => PickupModel::ArtifactOfChozo,
            PickupType::ArtifactOfNature => PickupModel::ArtifactOfNature,
            PickupType::ArtifactOfSun => PickupModel::ArtifactOfSun,
            PickupType::ArtifactOfWorld => PickupModel::ArtifactOfWorld,
            PickupType::ArtifactOfSpirit => PickupModel::ArtifactOfSpirit,
            PickupType::ArtifactOfNewborn => PickupModel::ArtifactOfNewborn,
            PickupType::Nothing => PickupModel::Nothing,
            PickupType::FloatyJump => PickupModel::Nothing,
            PickupType::IceTrap => PickupModel::IceTrap,
        }
    }
}

/// The properties of a pickup script object that decide what it gives and how it looks.
#[derive(Copy, Clone, Debug, PartialEq, Eq, Structural)]
pub struct Pickup {
    pub kind: u32,
    pub max_increase: i32,
    pub curr_increase: i32,
    pub cmdl: u32,
}

/// The model id that marks a pickup without a model of its own.
pub const NO_MODEL: u32 = 0xFFFFFFFF;

/// The pickup type that a vanilla pickup object gives, for the objects the patcher replaces:
/// the type of its kind, for every kind but the power beam, scan visor, combat visor, power suit
/// and the two unknown items; a phazon suit only where it has a model, a health refill only where
/// it restores 20 units.
pub open spec fn pickup_type_of_pickup(p: Pickup) -> Option<PickupType> {
    let k = p.kind;
    if 1 <= k && k <= 40 && k != 5 && k != 17 && k != 20 && k != 25 && k != 27 && (k != 23
        || p.cmdl != NO_MODEL) && (k != 26 || p.curr_increase == 20) {
        pickup_type_of_kind(k)
    } else {
        None
    }
}

/// The model that a vanilla pickup object shows: missiles, energy tanks and power bombs are
/// told apart by how much they add to the maximum, both visors show the visor model, and every
/// other recognised pickup shows the default model of its type.
pub open spec fn pickup_model_of_pickup(p: Pickup) -> Option<PickupModel> {
    let k = p.kind;
    let m = p.max_increase;
    if k == 4 {
        if m > 0 {
            Some(PickupModel::Missile)
        } else if m == 0 {
            Some(PickupModel::MissileRefill)
        } else {
            None
        }
    } else if k == 24 {
        if m > 0 {
            Some(PickupModel::EnergyTank)
        } else {
            None
        }
    } else if k == 9 || k == 13 {
        Some(PickupModel::Visor)
    } else if k == 7 {
        if m == 1 {
            Some(PickupModel::PowerBombExpansion)
        } else if m == 4 {
            Some(PickupModel::PowerBomb)
        } else if m == 0 {
            Some(PickupModel::PowerBombRefill)
        } else {
            None
        }
    } else {
        match pickup_type_of_pickup(p) {
            Some(t) => Some(pickup_model_for_type(t)),
            None => None,
        }
    }
}

/// The pickup type that a vanilla pickup object gives, if the patcher recognises it.
pub fn pickup_type_for_pickup(pickup: &Pickup) -> (r: Option<PickupType>)
    ensures
        r == pickup_type_of_pickup(*pickup),
{
    match pickup.kind {
        4 => Some(PickupType::Missile),
        24 => Some(PickupType::EnergyTank),
        9 => Some(PickupType::ThermalVisor),
        13 => Some(PickupType::XRayVisor),
        22 => Some(PickupType::VariaSuit),
        21 => Some(PickupType::GravitySuit),
        // there are two phazon suit objects; the one with a model is the pickup
        23 if pickup.cmdl != NO_MODEL => Some(PickupType::PhazonSuit),
        16 => Some(PickupType::MorphBall),
        18 => Some(PickupType::BoostBall),
        19 => Some(PickupType::SpiderBall),
        6 => Some(PickupType::MorphBallBomb),
        7 => Some(PickupType::PowerBomb),
        10 => Some(PickupType::ChargeBeam),
        15 => Some(PickupType::SpaceJumpBoots),
        12 => Some(PickupType::GrappleBeam),
        11 => Some(PickupType::SuperMissile),
        28 => Some(PickupType::Wavebuster),
        14 => Some(PickupType::IceSpreader),
        8 => Some(PickupType::Flamethrower),
        2 => Some(PickupType::WaveBeam),
        1 => Some(PickupType::IceBeam),
        3 => Some(PickupType::PlasmaBeam),
        33 => Some(PickupType::ArtifactOfLifegiver),
        32 => Some(PickupType::ArtifactOfWild),
        38 => Some(PickupType::ArtifactOfWorld),
        37 => Some(PickupType::ArtifactOfSun),
        31 => Some(PickupType::ArtifactOfElder),
        39 => Some(PickupType::ArtifactOfSpirit),
        29 => Some(PickupType::ArtifactOfTruth),
        35 => Some(PickupType::ArtifactOfChozo),
        34 => Some(PickupType::ArtifactOfWarrior),
        40 => Some(PickupType::ArtifactOfNewborn),
        36 => Some(PickupType::ArtifactOfNature),
        30 => Some(PickupType::ArtifactOfStrength),
        26 if pickup.curr_increase == 20 => Some(PickupType::HealthRefill),
        _ => None,
    }
}

/// The model that a vanilla pickup object shows, if the patcher recognises it.
pub fn pickup_model_for_pickup(pickup: &Pickup) -> (r: Option<PickupModel>)
    ensures
        r == pickup_model_of_pickup(*pickup),
{
    match pickup.kind {
        4 if pickup.max_increase > 0 => Some(PickupModel::Missile),
        4 if pickup.max_increase == 0 => Some(PickupModel::MissileRefill),
        24 if pickup.max_increase > 0 => Some(PickupModel::EnergyTank),
        9 => Some(PickupModel::Visor),
        13 => Some(PickupModel::Visor),
        22 => Some(PickupModel::VariaSuit),
        21 => Some(PickupModel::GravitySuit),
        // there are two phazon suit objects; the one with a model is the pickup
        23 if pickup.cmdl != NO_MODEL => Some(PickupModel::PhazonSuit),
        16 => Some(PickupModel::MorphBall),
        18 => Some(PickupModel::BoostBall),
        19 => Some(PickupModel::SpiderBall),
        6 => Some(PickupModel::MorphBallBomb),
        7 if pickup.max_increase == 1 => Some(PickupModel::PowerBombExpansion),
        7 if pickup.max_increase == 4 => Some(PickupModel::PowerBomb),
        7 if pickup.max_increase == 0 => Some(PickupModel::PowerBombRefill),
        10 => Some(PickupModel::ChargeBeam),
        15 => Some(PickupModel::SpaceJumpBoots),
        12 => Some(PickupModel::GrappleBeam),
        11 => Some(PickupModel::SuperMissile),
        28 => Some(PickupModel::Wavebuster),
        14 => Some(PickupModel::IceSpreader),
        8 => Some(PickupModel::Flamethrower),
        2 => Some(PickupModel::WaveBeam),
        1 => Some(PickupModel::IceBeam),
        3 => Some(PickupModel::PlasmaBeam),
        33 => Some(PickupModel::ArtifactOfLifegiver),
        32 => Some(PickupModel::ArtifactOfWild),
        38 => Some(PickupModel::ArtifactOfWorld),
        37 => Some(PickupModel::ArtifactOfSun),
        31 => Some(PickupModel::ArtifactOfElder),
        39 => Some(PickupModel::ArtifactOfSpirit),
        29 => Some(PickupModel::ArtifactOfTruth),
        35 => Some(PickupModel::ArtifactOfChozo),
        34 => Some(PickupModel::ArtifactOfWarrior),
        40 => Some(PickupModel::ArtifactOfNewborn),
        36 => Some(PickupModel::ArtifactOfNature),
        30 => Some(PickupModel::ArtifactOfStrength),
        26 if pickup.curr_increase == 20 => Some(PickupModel::HealthRefill),
        _ => None,
    }
}

/// Where a script object stands: its layer and its instance id.
#[derive(Copy, Clone, Debug, PartialEq, Eq, Structural, Hash)]
pub struct ScriptObjectLocation {
    pub layer: u32,
    pub instance_id: u32,
}

/// Script objects to remove from one layer of a room.
#[derive(Copy, Clone, Debug)]
pub struct ObjectsToRemove {
    pub layer: u32,
    pub instance_ids: &'static [u32],
}



/// Tells the types apart by their normalized names (lowercase, trimmed): a decision on the
/// length and a few characters of the name.
spec fn pickup_type_of_normal_name(n: Seq<char>) -> Option<PickupType> {
    if n.len() == 7 {
        if n[0] == 'm' {
            Some(PickupType::Missile)
        } else if n[0] == 'n' {
            Some(PickupType::Nothing)
        } else {
            None
        }
    } else if n.len() == 8 {
        if n[4] == 'b' {
            Some(PickupType::IceBeam)
        } else if n[4] == 't' {
            Some(PickupType::IceTrap)
        } else {
            None
        }
    } else if n.len() == 9 {
        Some(PickupType::WaveBeam)
    } else if n.len() == 10 {
        if n[7] == 'e' {
            Some(PickupType::PowerBeam)
        } else if n[7] == 's' {
            Some(PickupType::ScanVisor)
        } else if n[7] == 'o' {
            Some(PickupType::PowerBomb)
        } else if n[7] == 'a' {
            if n[0] == 'm' {
                Some(PickupType::MorphBall)
            } else if n[0] == 'b' {
                Some(PickupType::BoostBall)
            } else {
                None
            }
        } else if n[7] == 'u' {
            if n[0] == 'p' {
                Some(PickupType::PowerSuit)
            } else if n[0] == 'v' {
                Some(PickupType::VariaSuit)
            } else {
                None
            }
        } else if n[7] == 't' {
            Some(PickupType::Wavebuster)
        } else {
            None
        }
    } else if n.len() == 11 {
        if n[0] == 'p' {
            if n[1] == 'l' {
                Some(PickupType::PlasmaBeam)
            } else if n[1] == 'h' {
                Some(PickupType::PhazonSuit)
            } else {
                None
            }
        } else if n[0] == 'c' {
            Some(PickupType::ChargeBeam)
        } else if n[0] == 'x' {
            Some(PickupType::XRayVisor)
        } else if n[0] == 's' {
            Some(PickupType::SpiderBall)
        } else if n[0] == 'e' {
            Some(PickupType::EnergyTank)
        } else if n[0] == 'f' {
            Some(PickupType::FloatyJump)
        } else {
            None
        }
    } else if n.len() == 12 {
        if n[3] == 'm' {
            Some(PickupType::Flamethrower)
        } else if n[3] == 'p' {
            Some(PickupType::GrappleBeam)
        } else if n[3] == ' ' {
            Some(PickupType::IceSpreader)
        } else if n[3] == 'b' {
            Some(PickupType::CombatVisor)
        } else if n[3] == 'v' {
            Some(PickupType::GravitySuit)
        } else {
            None
        }
    } else if n.len() == 13 {
        if n[0] == 't' {
            Some(PickupType::ThermalVisor)
        } else if n[0] == 's' {
            Some(PickupType::SuperMissile)
        } else if n[0] == 'h' {
            Some(PickupType::HealthRefill)
        } else {
            None
        }
    } else if n.len() == 14 {
        if n[13] == '1' {
            Some(PickupType::UnknownItem1)
        } else if n[13] == '2' {
            Some(PickupType::UnknownItem2)
        } else {
            None
        }
    } else if n.len() == 15 {
        if n[0] == 'm' {
            Some(PickupType::MorphBallBomb)
        } else if n[0] == 'a' {
            Some(PickupType::ArtifactOfSun)
        } else {
            None
        }
    } else if n.len() == 16 {
        if n[0] == 's' {
            Some(PickupType::SpaceJumpBoots)
        } else if n[0] == 'a' {
            Some(PickupType::ArtifactOfWild)
        } else {
            None
        }
    } else if n.len() == 17 {
        if n[12] == 't' {
            Some(PickupType::ArtifactOfTruth)
        } else if n[12] == 'e' {
            Some(PickupType::ArtifactOfElder)
        } else if n[12] == 'c' {
            Some(PickupType::ArtifactOfChozo)
        } else if n[12] == 'w' {
            Some(PickupType::ArtifactOfWorld)
        } else {
            None
        }
    } else if n.len() == 18 {
        if n[12] == 'n' {
            Some(PickupType::ArtifactOfNature)
        } else if n[12] == 's' {
            Some(PickupType::ArtifactOfSpirit)
        } else {
            None
        }
    } else if n.len() == 19 {
        if n[12] == 'w' {
            Some(PickupType::ArtifactOfWarrior)
        } else if n[12] == 'n' {
            Some(PickupType::ArtifactOfNewborn)
        } else {
            None
        }
    } else if n.len() == 20 {
        Some(PickupType::ArtifactOfStrength)
    } else if n.len() == 21 {
        Some(PickupType::ArtifactOfLifegiver)
    } else {
        None
    }
}

proof fn lemma_type_name_decodes(t: PickupType)
    ensures
        pickup_type_of_normal_name(normalize(pickup_type_name(t))) == Some(t),
{
    match t {
        PickupType::PowerBeam => {
            reveal_strlit("Power Beam");
            reveal_strlit("Power Bomb");
            lemma_normalize_plain(pickup_type_name(t));
            lemma_normalize_plain(pickup_model_name(PickupModel::PowerBomb));
            assert(normalize(pickup_model_name(PickupModel::PowerBomb))[7] != normalize(pickup_type_name(t))[7]);
            reveal_strlit("combat");
            reveal_strlit("scan");
            reveal_strlit("scan visor");
            reveal_strlit("thermal");
            reveal_strlit("x-ray");
            reveal_strlit("xray");
            reveal_strlit("x-ray visor");
            reveal_strlit("xray visor");
            reveal_strlit("power suit");
            reveal_strlit("power beam");
            assert(normalize(pickup_type_name(t)) =~= "power beam"@);
        },
        PickupType::IceBeam => {
            reveal_strlit("Ice Beam");
            lemma_normalize_plain(pickup_type_name(t));
        },
        PickupType::WaveBeam => {
            reveal_strlit("Wave Beam");
            lemma_normalize_plain(pickup_type_name(t));
        },
        PickupType::PlasmaBeam => {
            reveal_strlit("Plasma Beam");
            lemma_normalize_plain(pickup_type_name(t));
        },
        PickupType::Missile => {
            reveal_strlit("Missile");
            lemma_normalize_plain(pickup_type_name(t));
        },
        PickupType::ScanVisor => {
            reveal_strlit("Scan Visor");
            reveal_strlit("scan");
            reveal_strlit("scan visor");
            reveal_strlit("combat");
            lemma_normalize_plain(pickup_type_name(t));
            assert(normalize(pickup_type_name(t)) =~= "scan visor"@);
        },
        PickupType::MorphBallBomb => {
            reveal_strlit("Morph Ball Bomb");
            lemma_normalize_plain(pickup_type_name(t));
        },
        PickupType::PowerBomb => {
            reveal_strlit("Power Bomb");
            lemma_normalize_plain(pickup_type_name(t));
        },
        PickupType::Flamethrower => {
            reveal_strlit("Flamethrower");
            lemma_normalize_plain(pickup_type_name(t));
        },
        PickupType::ThermalVisor => {
            reveal_strlit("Thermal Visor");
            lemma_normalize_plain(pickup_type_name(t));
        },
        PickupType::ChargeBeam => {
            reveal_strlit("Charge Beam");
            lemma_normalize_plain(pickup_type_name(t));
        },
        PickupType::SuperMissile => {
            reveal_strlit("Super Missile");
            lemma_normalize_plain(pickup_type_name(t));
        },
        PickupType::GrappleBeam => {
            reveal_strlit("Grapple Beam");
            lemma_normalize_plain(pickup_type_name(t));
        },
        PickupType::XRayVisor => {
            reveal_strlit("X-Ray Visor");
            lemma_normalize_plain(pickup_type_name(t));
        },
        PickupType::IceSpreader => {
            reveal_strlit("Ice Spreader");
            lemma_normalize_plain(pickup_type_name(t));
        },
        PickupType::SpaceJumpBoots => {
            reveal_strlit("Space Jump Boots");
            lemma_normalize_plain(pickup_type_name(t));
        },
        PickupType::MorphBall => {
            reveal_strlit("Morph Ball");
            lemma_normalize_plain(pickup_type_name(t));
        },
        PickupType::CombatVisor => {
            reveal_strlit("Combat Visor");
            lemma_normalize_plain(pickup_type_name(t));
        },
        PickupType::BoostBall => {
            reveal_strlit("Boost Ball");
            lemma_normalize_plain(pickup_type_name(t));
        },
        PickupType::SpiderBall => {
            reveal_strlit("Spider Ball");
            lemma_normalize_plain(pickup_type_name(t));
        },
        PickupType::PowerSuit => {
            reveal_strlit("Power Suit");
            reveal_strlit("Power Bomb");
            lemma_normalize_plain(pickup_type_name(t));
            lemma_normalize_plain(pickup_model_name(PickupModel::PowerBomb));
            assert(normalize(pickup_model_name(PickupModel::PowerBomb))[6] != normalize(pickup_type_name(t))[6]);
            reveal_strlit("combat");
            reveal_strlit("scan");
            reveal_strlit("scan visor");
            reveal_strlit("thermal");
            reveal_strlit("x-ray");
            reveal_strlit("xray");
            reveal_strlit("x-ray visor");
            reveal_strlit("xray visor");
            reveal_strlit("power suit");
            reveal_strlit("power beam");
            assert(normalize(pickup_type_name(t)) =~= "power suit"@);
        },
        PickupType::GravitySuit => {
            reveal_strlit("Gravity Suit");
            lemma_normalize_plain(pickup_type_name(t));
        },
        PickupType::VariaSuit => {
            reveal_strlit("Varia Suit");
            lemma_normalize_plain(pickup_type_name(t));
        },
        PickupType::PhazonSuit => {
            reveal_strlit("Phazon Suit");
            lemma_normalize_plain(pickup_type_name(t));
        },
        PickupType::EnergyTank => {
            reveal_strlit("Energy Tank");
            lemma_normalize_plain(pickup_type_name(t));
        },
        PickupType::UnknownItem1 => {
            reveal_strlit("Unknown Item 1");
            lemma_normalize_plain(pickup_type_name(t));
        },
        PickupType::HealthRefill => {
            reveal_strlit("Health Refill");
            lemma_normalize_plain(pickup_type_name(t));
        },
        PickupType::UnknownItem2 => {
            reveal_strlit("Unknown Item 2");
            lemma_normalize_plain(pickup_type_name(t));
        },
        PickupType::Wavebuster => {
            reveal_strlit("Wavebuster");
            lemma_normalize_plain(pickup_type_name(t));
        },
        PickupType::ArtifactOfTruth => {
            reveal_strlit("Artifact Of Truth");
            lemma_normalize_plain(pickup_type_name(t));
        },
        PickupType::ArtifactOfStrength => {
            reveal_strlit("Artifact Of Strength");
            lemma_normalize_plain(pickup_type_name(t));
        },
        PickupType::ArtifactOfElder => {
            reveal_strlit("Artifact Of Elder");
            lemma_normalize_plain(pickup_type_name(t));
        },
        PickupType::ArtifactOfWild => {
            reveal_strlit("Artifact Of Wild");
            lemma_normalize_plain(pickup_type_name(t));
        },
        PickupType::ArtifactOfLifegiver => {
            reveal_strlit("Artifact Of Lifegiver");
            lemma_normalize_plain(pickup_type_name(t));
        },
        PickupType::ArtifactOfWarrior => {
            reveal_strlit("Artifact Of Warrior");
            lemma_normalize_plain(pickup_type_name(t));
        },
        PickupType::ArtifactOfChozo => {
            reveal_strlit("Artifact Of Chozo");
            lemma_normalize_plain(pickup_type_name(t));
        },
        PickupType::ArtifactOfNature => {
            reveal_strlit("Artifact Of Nature");
            lemma_normalize_plain(pickup_type_name(t));
        },
        PickupType::ArtifactOfSun => {
            reveal_strlit("Artifact Of Sun");
            lemma_normalize_plain(pickup_type_name(t));
        },
        PickupType::ArtifactOfWorld => {
            reveal_strlit("Artifact Of World");
            lemma_normalize_plain(pickup_type_name(t));
        },
        PickupType::ArtifactOfSpirit => {
            reveal_strlit("Artifact Of Spirit");
            lemma_normalize_plain(pickup_type_name(t));
        },
        PickupType::ArtifactOfNewborn => {
            reveal_strlit("Artifact Of Newborn");
            lemma_normalize_plain(pickup_type_name(t));
        },
        PickupType::Nothing => {
            reveal_strlit("Nothing");
            lemma_normalize_plain(pickup_type_name(t));
        },
        PickupType::FloatyJump => {
            reveal_strlit("Floaty Jump");
            lemma_normalize_plain(pickup_type_name(t));
        },
        PickupType::IceTrap => {
            reveal_strlit("Ice Trap");
            lemma_normalize_plain(pickup_type_name(t));
        },
    }
}

proof fn lemma_type_listed(t: PickupType)
    ensures
        all_pickup_types().contains(t),
{
    match t {
        PickupType::PowerBeam => {
            assert(all_pickup_types()[0] == t);
        },
        PickupType::IceBeam => {
            assert(all_pickup_types()[1] == t);
        },
        PickupType::WaveBeam => {
            assert(all_pickup_types()[2] == t);
        },
        PickupType::PlasmaBeam => {
            assert(all_pickup_types()[3] == t);
        },
        PickupType::Missile => {
            assert(all_pickup_types()[4] == t);
        },
        PickupType::ScanVisor => {
            assert(all_pickup_types()[5] == t);
        },
        PickupType::MorphBallBomb => {
            assert(all_pickup_types()[6] == t);
        },
        PickupType::PowerBomb => {
            assert(all_pickup_types()[7] == t);
        },
        PickupType::Flamethrower => {
            assert(all_pickup_types()[8] == t);
        },
        PickupType::ThermalVisor => {
            assert(all_pickup_types()[9] == t);
        },
        PickupType::ChargeBeam => {
            assert(all_pickup_types()[10] == t);
        },
        PickupType::SuperMissile => {
            assert(all_pickup_types()[11] == t);
        },
        PickupType::GrappleBeam => {
            assert(all_pickup_types()[12] == t);
        },
        PickupType::XRayVisor => {
            assert(all_pickup_types()[13] == t);
        },
        PickupType::IceSpreader => {
            assert(all_pickup_types()[14] == t);
        },
        PickupType::SpaceJumpBoots => {
            assert(all_pickup_types()[15] == t);
        },
        PickupType::MorphBall => {
            assert(all_pickup_types()[16] == t);
        },
        PickupType::CombatVisor => {
            assert(all_pickup_types()[17] == t);
        },
        PickupType::BoostBall => {
            assert(all_pickup_types()[18] == t);
        },
        PickupType::SpiderBall => {
            assert(all_pickup_types()[19] == t);
        },
        PickupType::PowerSuit => {
            assert(all_pickup_types()[20] == t);
        },
        PickupType::GravitySuit => {
            assert(all_pickup_types()[21] == t);
        },
        PickupType::VariaSuit => {
            assert(all_pickup_types()[22] == t);
        },
        PickupType::PhazonSuit => {
            assert(all_pickup_types()[23] == t);
        },
        PickupType::EnergyTank => {
            assert(all_pickup_types()[24] == t);
        },
        PickupType::UnknownItem1 => {
            assert(all_pickup_types()[25] == t);
        },
        PickupType::HealthRefill => {
            assert(all_pickup_types()[26] == t);
        },
        PickupType::UnknownItem2 => {
            assert(all_pickup_types()[27] == t);
        },
        PickupType::Wavebuster => {
            assert(all_pickup_types()[28] == t);
        },
        PickupType::ArtifactOfTruth => {
            assert(all_pickup_types()[29] == t);
        },
        PickupType::ArtifactOfStrength => {
            assert(all_pickup_types()[30] == t);
        },
        PickupType::ArtifactOfElder => {
            assert(all_pickup_types()[31] == t);
        },
        PickupType::ArtifactOfWild => {
            assert(all_pickup_types()[32] == t);
        },
        PickupType::ArtifactOfLifegiver => {
            assert(all_pickup_types()[33] == t);
        },
        PickupType::ArtifactOfWarrior => {
            assert(all_pickup_types()[34] == t);
        },
        PickupType::ArtifactOfChozo => {
            assert(all_pickup_types()[35] == t);
        },
        PickupType::ArtifactOfNature => {
            assert(all_pickup_types()[36] == t);
        },
        PickupType::ArtifactOfSun => {
            assert(all_pickup_types()[37] == t);
        },
        PickupType::ArtifactOfWorld => {
            assert(all_pickup_types()[38] == t);
        },
        PickupType::ArtifactOfSpirit => {
            assert(all_pickup_types()[39] == t);
        },
        PickupType::ArtifactOfNewborn => {
            assert(all_pickup_types()[40] == t);
        },
        PickupType::Nothing => {
            assert(all_pickup_types()[41] == t);
        },
        PickupType::FloatyJump => {
            assert(all_pickup_types()[42] == t);
        },
        PickupType::IceTrap => {
            assert(all_pickup_types()[43] == t);
        },
    }
}

proof fn lemma_find_type(s: Seq<PickupType>, t: PickupType)
    requires
        s.contains(t),
    ensures
        find_type_by_name(s, normalize(pickup_type_name(t))) == Some(t),
    decreases s.len(),
{
    if s[0] != t {
        lemma_type_name_decodes(s[0]);
        lemma_type_name_decodes(t);
        let i = choose|i: int| 0 <= i < s.len() && s[i] == t;
        assert(s.drop_first()[i - 1] == t);
        lemma_find_type(s.drop_first(), t);
    }
}

/// Every type is recognised by its own name: parsing the name of `t` gives `t`.
pub proof fn lemma_type_name_round_trip(t: PickupType)
    ensures
        pickup_type_from_str(pickup_type_name(t)) == Some(t),
{
    lemma_type_listed(t);
    lemma_find_type(all_pickup_types(), t);
}


/// Tells the models apart by their normalized names (lowercase, trimmed): a decision on the
/// length and a few characters of the name.
spec fn pickup_model_of_normal_name(n: Seq<char>) -> Option<PickupModel> {
    if n.len() == 5 {
        Some(PickupModel::Visor)
    } else if n.len() == 7 {
        if n[0] == 'm' {
            Some(PickupModel::Missile)
        } else if n[0] == 'n' {
            Some(PickupModel::Nothing)
        } else {
            None
        }
    } else if n.len() == 8 {
        if n[4] == 'b' {
            Some(PickupModel::IceBeam)
        } else if n[4] == 't' {
            Some(PickupModel::IceTrap)
        } else {
            None
        }
    } else if n.len() == 9 {
        Some(PickupModel::WaveBeam)
    } else if n.len() == 10 {
        if n[0] == 'v' {
            Some(PickupModel::VariaSuit)
        } else if n[0] == 'm' {
            Some(PickupModel::MorphBall)
        } else if n[0] == 'b' {
            Some(PickupModel::BoostBall)
        } else if n[0] == 'p' {
            Some(PickupModel::PowerBomb)
        } else if n[0] == 'w' {
            Some(PickupModel::Wavebuster)
        } else {
            None
        }
    } else if n.len() == 11 {
        if n[5] == 'y' {
            Some(PickupModel::EnergyTank)
        } else if n[5] == ' ' {
            Some(PickupModel::XRayVisor)
        } else if n[5] == 'n' {
            Some(PickupModel::PhazonSuit)
        } else if n[5] == 'r' {
            Some(PickupModel::SpiderBall)
        } else if n[5] == 'e' {
            Some(PickupModel::ChargeBeam)
        } else if n[5] == 'a' {
            Some(PickupModel::PlasmaBeam)
        } else {
            None
        }
    } else if n.len() == 12 {
        if n[3] == 'b' {
            Some(PickupModel::CombatVisor)
        } else if n[3] == 'v' {
            Some(PickupModel::GravitySuit)
        } else if n[3] == 'p' {
            Some(PickupModel::GrappleBeam)
        } else if n[3] == ' ' {
            Some(PickupModel::IceSpreader)
        } else if n[3] == 'm' {
            Some(PickupModel::Flamethrower)
        } else {
            None
        }
    } else if n.len() == 13 {
        if n[2] == 'e' {
            Some(PickupModel::ThermalVisor)
        } else if n[2] == 'p' {
            Some(PickupModel::SuperMissile)
        } else if n[2] == 'a' {
            Some(PickupModel::HealthRefill)
        } else if n[2] == 'i' {
            Some(PickupModel::ShinyMissile)
        } else {
            None
        }
    } else if n.len() == 14 {
        Some(PickupModel::MissileRefill)
    } else if n.len() == 15 {
        if n[0] == 'm' {
            Some(PickupModel::MorphBallBomb)
        } else if n[0] == 'a' {
            Some(PickupModel::ArtifactOfSun)
        } else {
            None
        }
    } else if n.len() == 16 {
        if n[0] == 's' {
            Some(PickupModel::SpaceJumpBoots)
        } else if n[0] == 'a' {
            Some(PickupModel::ArtifactOfWild)
        } else {
            None
        }
    } else if n.len() == 17 {
        if n[13] == 'o' {
            Some(PickupModel::ArtifactOfWorld)
        } else if n[13] == 'l' {
            Some(PickupModel::ArtifactOfElder)
        } else if n[13] == 'r' {
            Some(PickupModel::ArtifactOfTruth)
        } else if n[13] == 'h' {
            Some(PickupModel::ArtifactOfChozo)
        } else if n[13] == 'f' {
            Some(PickupModel::PowerBombRefill)
        } else {
            None
        }
    } else if n.len() == 18 {
        if n[12] == 's' {
            Some(PickupModel::ArtifactOfSpirit)
        } else if n[12] == 'n' {
            Some(PickupModel::ArtifactOfNature)
        } else {
            None
        }
    } else if n.len() == 19 {
        if n[12] == 'w' {
            Some(PickupModel::ArtifactOfWarrior)
        } else if n[12] == 'n' {
            Some(PickupModel::ArtifactOfNewborn)
        } else {
            None
        }
    } else if n.len() == 20 {
        if n[0] == 'p' {
            Some(PickupModel::PowerBombExpansion)
        } else if n[0] == 'a' {
            Some(PickupModel::ArtifactOfStrength)
        } else {
            None
        }
    } else if n.len() == 21 {
        Some(PickupModel::ArtifactOfLifegiver)
    } else {
        None
    }
}

proof fn lemma_model_name_decodes(t: PickupModel)
    ensures
        pickup_model_of_normal_name(normalize(pickup_model_name(t))) == Some(t),
{
    match t {
        PickupModel::Missile => {
            reveal_strlit("Missile");
            lemma_normalize_plain(pickup_model_name(t));
        },
        PickupModel::EnergyTank => {
            reveal_strlit("Energy Tank");
            lemma_normalize_plain(pickup_model_name(t));
        },
        PickupModel::Visor => {
            reveal_strlit("Visor");
            lemma_normalize_plain(pickup_model_name(t));
        },
        PickupModel::CombatVisor => {
            reveal_strlit("Combat Visor");
            lemma_normalize_plain(pickup_model_name(t));
        },
        PickupModel::ThermalVisor => {
            reveal_strlit("Thermal Visor");
            lemma_normalize_plain(pickup_model_name(t));
        },
        PickupModel::XRayVisor => {
            reveal_strlit("X-Ray Visor");
            lemma_normalize_plain(pickup_model_name(t));
        },
        PickupModel::VariaSuit => {
            reveal_strlit("Varia Suit");
            lemma_normalize_plain(pickup_model_name(t));
        },
        PickupModel::GravitySuit => {
            reveal_strlit("Gravity Suit");
            lemma_normalize_plain(pickup_model_name(t));
        },
        PickupModel::PhazonSuit => {
            reveal_strlit("Phazon Suit");
            lemma_normalize_plain(pickup_model_name(t));
        },
        PickupModel::MorphBall => {
            reveal_strlit("Morph Ball");
            lemma_normalize_plain(pickup_model_name(t));
        },
        PickupModel::BoostBall => {
            reveal_strlit("Boost Ball");
            lemma_normalize_plain(pickup_model_name(t));
        },
        PickupModel::SpiderBall => {
            reveal_strlit("Spider Ball");
            lemma_normalize_plain(pickup_model_name(t));
        },
        PickupModel::MorphBallBomb => {
            reveal_strlit("Morph Ball Bomb");
            lemma_normalize_plain(pickup_model_name(t));
        },
        PickupModel::PowerBombExpansion => {
            reveal_strlit("Power Bomb Expansion");
            lemma_normalize_plain(pickup_model_name(t));
        },
        PickupModel::PowerBomb => {
            reveal_strlit("Power Bomb");
            lemma_normalize_plain(pickup_model_name(t));
        },
        PickupModel::ChargeBeam => {
            reveal_strlit("Charge Beam");
            lemma_normalize_plain(pickup_model_name(t));
        },
        PickupModel::SpaceJumpBoots => {
            reveal_strlit("Space Jump Boots");
            lemma_normalize_plain(pickup_model_name(t));
        },
        PickupModel::GrappleBeam => {
            reveal_strlit("Grapple Beam");
            lemma_normalize_plain(pickup_model_name(t));
        },
        PickupModel::SuperMissile => {
            reveal_strlit("Super Missile");
            lemma_normalize_plain(pickup_model_name(t));
        },
        PickupModel::Wavebuster => {
            reveal_strlit("Wavebuster");
            lemma_normalize_plain(pickup_model_name(t));
        },
        PickupModel::IceSpreader => {
            reveal_strlit("Ice Spreader");
            lemma_normalize_plain(pickup_model_name(t));
        },
        PickupModel::Flamethrower => {
            reveal_strlit("Flamethrower");
            lemma_normalize_plain(pickup_model_name(t));
        },
        PickupModel::WaveBeam => {
            reveal_strlit("Wave Beam");
            lemma_normalize_plain(pickup_model_name(t));
        },
        PickupModel::IceBeam => {
            reveal_strlit("Ice Beam");
            lemma_normalize_plain(pickup_model_name(t));
        },
        PickupModel::PlasmaBeam => {
            reveal_strlit("Plasma Beam");
            lemma_normalize_plain(pickup_model_name(t));
        },
        PickupModel::ArtifactOfLifegiver => {
            reveal_strlit("Artifact of Lifegiver");
            lemma_normalize_plain(pickup_model_name(t));
        },
        PickupModel::ArtifactOfWild => {
            reveal_strlit("Artifact of Wild");
            lemma_normalize_plain(pickup_model_name(t));
        },
        PickupModel::ArtifactOfWorld => {
            reveal_strlit("Artifact of World");
            lemma_normalize_plain(pickup_model_name(t));
        },
        PickupModel::ArtifactOfSun => {
            reveal_strlit("Artifact of Sun");
            lemma_normalize_plain(pickup_model_name(t));
        },
        PickupModel::ArtifactOfElder => {
            reveal_strlit("Artifact of Elder");
            lemma_normalize_plain(pickup_model_name(t));
        },
        PickupModel::ArtifactOfSpirit => {
            reveal_strlit("Artifact of Spirit");
            lemma_normalize_plain(pickup_model_name(t));
        },
        PickupModel::ArtifactOfTruth => {
            reveal_strlit("Artifact of Truth");
            lemma_normalize_plain(pickup_model_name(t));
        },
        PickupModel::ArtifactOfChozo => {
            reveal_strlit("Artifact of Chozo");
            lemma_normalize_plain(pickup_model_name(t));
        },
        PickupModel::ArtifactOfWarrior => {
            reveal_strlit("Artifact of Warrior");
            lemma_normalize_plain(pickup_model_name(t));
        },
        PickupModel::ArtifactOfNewborn => {
            reveal_strlit("Artifact of Newborn");
            lemma_normalize_plain(pickup_model_name(t));
        },
        PickupModel::ArtifactOfNature => {
            reveal_strlit("Artifact of Nature");
            lemma_normalize_plain(pickup_model_name(t));
        },
        PickupModel::ArtifactOfStrength => {
            reveal_strlit("Artifact of Strength");
            lemma_normalize_plain(pickup_model_name(t));
        },
        PickupModel::Nothing => {
            reveal_strlit("Nothing");
            lemma_normalize_plain(pickup_model_name(t));
        },
        PickupModel::HealthRefill => {
            reveal_strlit("Health Refill");
            lemma_normalize_plain(pickup_model_name(t));
        },
        PickupModel::MissileRefill => {
            reveal_strlit("Missile Refill");
            lemma_normalize_plain(pickup_model_name(t));
        },
        PickupModel::PowerBombRefill => {
            reveal_strlit("Power Bomb Refill");
            lemma_normalize_plain(pickup_model_name(t));
        },
        PickupModel::ShinyMissile => {
            reveal_strlit("Shiny Missile");
            lemma_normalize_plain(pickup_model_name(t));
        },
        PickupModel::IceTrap => {
            reveal_strlit("Ice Trap");
            lemma_normalize_plain(pickup_model_name(t));
        },
    }
}

proof fn lemma_model_listed(t: PickupModel)
    ensures
        all_pickup_models().contains(t),
{
    match t {
        PickupModel::Missile => {
            assert(all_pickup_models()[0] == t);
        },
        PickupModel::EnergyTank => {
            assert(all_pickup_models()[1] == t);
        },
        PickupModel::Visor => {
            assert(all_pickup_models()[2] == t);
        },
        PickupModel::CombatVisor => {
            assert(all_pickup_models()[3] == t);
        },
        PickupModel::ThermalVisor => {
            assert(all_pickup_models()[4] == t);
        },
        PickupModel::XRayVisor => {
            assert(all_pickup_models()[5] == t);
        },
        PickupModel::VariaSuit => {
            assert(all_pickup_models()[6] == t);
        },
        PickupModel::GravitySuit => {
            assert(all_pickup_models()[7] == t);
        },
        PickupModel::PhazonSuit => {
            assert(all_pickup_models()[8] == t);
        },
        PickupModel::MorphBall => {
            assert(all_pickup_models()[9] == t);
        },
        PickupModel::BoostBall => {
            assert(all_pickup_models()[10] == t);
        },
        PickupModel::SpiderBall => {
            assert(all_pickup_models()[11] == t);
        },
        PickupModel::MorphBallBomb => {
            assert(all_pickup_models()[12] == t);
        },
        PickupModel::PowerBombExpansion => {
            assert(all_pickup_models()[13] == t);
        },
        PickupModel::PowerBomb => {
            assert(all_pickup_models()[14] == t);
        },
        PickupModel::ChargeBeam => {
            assert(all_pickup_models()[15] == t);
        },
        PickupModel::SpaceJumpBoots => {
            assert(all_pickup_models()[16] == t);
        },
        PickupModel::GrappleBeam => {
            assert(all_pickup_models()[17] == t);
        },
        PickupModel::SuperMissile => {
            assert(all_pickup_models()[18] == t);
        },
        PickupModel::Wavebuster => {
            assert(all_pickup_models()[19] == t);
        },
        PickupModel::IceSpreader => {
            assert(all_pickup_models()[20] == t);
        },
        PickupModel::Flamethrower => {
            assert(all_pickup_models()[21] == t);
        },
        PickupModel::WaveBeam => {
            assert(all_pickup_models()[22] == t);
        },
        PickupModel::IceBeam => {
            assert(all_pickup_models()[23] == t);
        },
        PickupModel::PlasmaBeam => {
            assert(all_pickup_models()[24] == t);
        },
        PickupModel::ArtifactOfLifegiver => {
            assert(all_pickup_models()[25] == t);
        },
        PickupModel::ArtifactOfWild => {
            assert(all_pickup_models()[26] == t);
        },
        PickupModel::ArtifactOfWorld => {
            assert(all_pickup_models()[27] == t);
        },
        PickupModel::ArtifactOfSun => {
            assert(all_pickup_models()[28] == t);
        },
        PickupModel::ArtifactOfElder => {
            assert(all_pickup_models()[29] == t);
        },
        PickupModel::ArtifactOfSpirit => {
            assert(all_pickup_models()[30] == t);
        },
        PickupModel::ArtifactOfTruth => {
            assert(all_pickup_models()[31] == t);
        },
        PickupModel::ArtifactOfChozo => {
            assert(all_pickup_models()[32] == t);
        },
        PickupModel::ArtifactOfWarrior => {
            assert(all_pickup_models()[33] == t);
        },
        PickupModel::ArtifactOfNewborn => {
            assert(all_pickup_models()[34] == t);
        },
        PickupModel::ArtifactOfNature => {
            assert(all_pickup_models()[35] == t);
        },
        PickupModel::ArtifactOfStrength => {
            assert(all_pickup_models()[36] == t);
        },
        PickupModel::Nothing => {
            assert(all_pickup_models()[37] == t);
        },
        PickupModel::HealthRefill => {
            assert(all_pickup_models()[38] == t);
        },
        PickupModel::MissileRefill => {
            assert(all_pickup_models()[39] == t);
        },
        PickupModel::PowerBombRefill => {
            assert(all_pickup_models()[40] == t);
        },
        PickupModel::ShinyMissile => {
            assert(all_pickup_models()[41] == t);
        },
        PickupModel::IceTrap => {
            assert(all_pickup_models()[42] == t);
        },
    }
}

proof fn lemma_find_model(s: Seq<PickupModel>, t: PickupModel)
    requires
        s.contains(t),
    ensures
        find_model_by_name(s, normalize(pickup_model_name(t))) == Some(t),
    decreases s.len(),
{
    if s[0] != t {
        lemma_model_name_decodes(s[0]);
        lemma_model_name_decodes(t);
        let i = choose|i: int| 0 <= i < s.len() && s[i] == t;
        assert(s.drop_first()[i - 1] == t);
        lemma_find_model(s.drop_first(), t);
    }
}

/// Every model is recognised by its own name: parsing the name of `t` gives `t`.
pub proof fn lemma_model_name_round_trip(t: PickupModel)
    ensures
        pickup_model_from_str(pickup_model_name(t)) == Some(t),
{
    lemma_model_listed(t);
    lemma_find_model(all_pickup_models(), t);
}


/// A model named `n` (normalized) decodes to itself from `n`.
proof fn lemma_found_model_named(models: Seq<PickupModel>, n: Seq<char>)
    ensures
        find_model_by_name(models, n) matches Some(m) ==> normalize(pickup_model_name(m)) == n,
    decreases models.len(),
{
    if models.len() > 0 {
        lemma_found_model_named(models.drop_first(), n);
    }
}

/// No model's normalized name is `n` when the decoder of normalized names says none or a model
/// whose name differs.
proof fn lemma_no_model_named(n: Seq<char>)
    requires
        match pickup_model_of_normal_name(n) {
            Some(m) => normalize(pickup_model_name(m)) != n,
            None => true,
        },
    ensures
        find_model_by_name(all_pickup_models(), n) is None,
{
    lemma_found_model_named(all_pickup_models(), n);
    if let Some(m) = find_model_by_name(all_pickup_models(), n) {
        lemma_model_name_decodes(m);
    }
}

/// The default model of a pickup type is the model that the type's name parses to, for every
/// type but the two unknown items and the floaty jump, whose default model is `Nothing`; no type
/// defaults to a power bomb expansion, a refill or a shiny missile.
pub proof fn lemma_type_name_names_default_model(t: PickupType)
    ensures
        t != PickupType::UnknownItem1 && t != PickupType::UnknownItem2 && t != PickupType::FloatyJump
            ==> pickup_model_from_str(pickup_type_name(t)) == Some(pickup_model_for_type(t)),
        t == PickupType::UnknownItem1 || t == PickupType::UnknownItem2 || t == PickupType::FloatyJump
            ==> pickup_model_for_type(t) == PickupModel::Nothing,
        pickup_model_for_type(t) != PickupModel::PowerBombExpansion,
        pickup_model_for_type(t) != PickupModel::MissileRefill,
        pickup_model_for_type(t) != PickupModel::PowerBombRefill,
        pickup_model_for_type(t) != PickupModel::ShinyMissile,
{
    match t {
        PickupType::PowerBeam => {
            reveal_strlit("Power Beam");
            reveal_strlit("Power Bomb");
            lemma_normalize_plain(pickup_type_name(t));
            lemma_normalize_plain(pickup_model_name(PickupModel::PowerBomb));
            assert(normalize(pickup_model_name(PickupModel::PowerBomb))[7] != normalize(pickup_type_name(t))[7]);
            reveal_strlit("combat");
            reveal_strlit("scan");
            reveal_strlit("scan visor");
            reveal_strlit("thermal");
            reveal_strlit("x-ray");
            reveal_strlit("xray");
            reveal_strlit("x-ray visor");
            reveal_strlit("xray visor");
            reveal_strlit("power suit");
            reveal_strlit("power beam");
            assert(normalize(pickup_type_name(t)) =~= "power beam"@);
            lemma_no_model_named(normalize(pickup_type_name(t)));
        },
        PickupType::IceBeam => {
            lemma_model_name_round_trip(PickupModel::IceBeam);
        },
        PickupType::WaveBeam => {
            lemma_model_name_round_trip(PickupModel::WaveBeam);
        },
        PickupType::PlasmaBeam => {
            lemma_model_name_round_trip(PickupModel::PlasmaBeam);
        },
        PickupType::Missile => {
            lemma_model_name_round_trip(PickupModel::Missile);
        },
        PickupType::ScanVisor => {
            reveal_strlit("Scan Visor");
            reveal_strlit("scan");
            reveal_strlit("scan visor");
            reveal_strlit("combat");
            lemma_normalize_plain(pickup_type_name(t));
            assert(normalize(pickup_type_name(t)) =~= "scan visor"@);
            lemma_no_model_named(normalize(pickup_type_name(t)));
        },
        PickupType::MorphBallBomb => {
            lemma_model_name_round_trip(PickupModel::MorphBallBomb);
        },
        PickupType::PowerBomb => {
            lemma_model_name_round_trip(PickupModel::PowerBomb);
        },
        PickupType::Flamethrower => {
            lemma_model_name_round_trip(PickupModel::Flamethrower);
        },
        PickupType::ThermalVisor => {
            lemma_model_name_round_trip(PickupModel::ThermalVisor);
        },
        PickupType::ChargeBeam => {
            lemma_model_name_round_trip(PickupModel::ChargeBeam);
        },
        PickupType::SuperMissile => {
            lemma_model_name_round_trip(PickupModel::SuperMissile);
        },
        PickupType::GrappleBeam => {
            lemma_model_name_round_trip(PickupModel::GrappleBeam);
        },
        PickupType::XRayVisor => {
            lemma_model_name_round_trip(PickupModel::XRayVisor);
        },
        PickupType::IceSpreader => {
            lemma_model_name_round_trip(PickupModel::IceSpreader);
        },
        PickupType::SpaceJumpBoots => {
            lemma_model_name_round_trip(PickupModel::SpaceJumpBoots);
        },
        PickupType::MorphBall => {
            lemma_model_name_round_trip(PickupModel::MorphBall);
        },
        PickupType::CombatVisor => {
            lemma_model_name_round_trip(PickupModel::CombatVisor);
        },
        PickupType::BoostBall => {
            lemma_model_name_round_trip(PickupModel::BoostBall);
        },
        PickupType::SpiderBall => {
            lemma_model_name_round_trip(PickupModel::SpiderBall);
        },
        PickupType::PowerSuit => {
            reveal_strlit("Power Suit");
            reveal_strlit("Power Bomb");
            lemma_normalize_plain(pickup_type_name(t));
            lemma_normalize_plain(pickup_model_name(PickupModel::PowerBomb));
            assert(normalize(pickup_model_name(PickupModel::PowerBomb))[6] != normalize(pickup_type_name(t))[6]);
            reveal_strlit("combat");
            reveal_strlit("scan");
            reveal_strlit("scan visor");
            reveal_strlit("thermal");
            reveal_strlit("x-ray");
            reveal_strlit("xray");
            reveal_strlit("x-ray visor");
            reveal_strlit("xray visor");
            reveal_strlit("power suit");
            reveal_strlit("power beam");
            assert(normalize(pickup_type_name(t)) =~= "power suit"@);
            lemma_no_model_named(normalize(pickup_type_name(t)));
        },
        PickupType::GravitySuit => {
            lemma_model_name_round_trip(PickupModel::GravitySuit);
        },
        PickupType::VariaSuit => {
            lemma_model_name_round_trip(PickupModel::VariaSuit);
        },
        PickupType::PhazonSuit => {
            lemma_model_name_round_trip(PickupModel::PhazonSuit);
        },
        PickupType::EnergyTank => {
            lemma_model_name_round_trip(PickupModel::EnergyTank);
        },
        PickupType::UnknownItem1 => {},
        PickupType::HealthRefill => {
            lemma_model_name_round_trip(PickupModel::HealthRefill);
        },
        PickupType::UnknownItem2 => {},
        PickupType::Wavebuster => {
            lemma_model_name_round_trip(PickupModel::Wavebuster);
        },
        PickupType::ArtifactOfTruth => {
            reveal_strlit("Artifact Of Truth");
            reveal_strlit("Artifact of Truth");
            lemma_normalize_plain(pickup_type_name(t));
            lemma_normalize_plain(pickup_model_name(PickupModel::ArtifactOfTruth));
            assert(ascii_lowercase(pickup_type_name(t)) =~= ascii_lowercase(pickup_model_name(PickupModel::ArtifactOfTruth)));
            lemma_model_name_round_trip(PickupModel::ArtifactOfTruth);
        },
        PickupType::ArtifactOfStrength => {
            reveal_strlit("Artifact Of Strength");
            reveal_strlit("Artifact of Strength");
            lemma_normalize_plain(pickup_type_name(t));
            lemma_normalize_plain(pickup_model_name(PickupModel::ArtifactOfStrength));
            assert(ascii_lowercase(pickup_type_name(t)) =~= ascii_lowercase(pickup_model_name(PickupModel::ArtifactOfStrength)));
            lemma_model_name_round_trip(PickupModel::ArtifactOfStrength);
        },
        PickupType::ArtifactOfElder => {
            reveal_strlit("Artifact Of Elder");
            reveal_strlit("Artifact of Elder");
            lemma_normalize_plain(pickup_type_name(t));
            lemma_normalize_plain(pickup_model_name(PickupModel::ArtifactOfElder));
            assert(ascii_lowercase(pickup_type_name(t)) =~= ascii_lowercase(pickup_model_name(PickupModel::ArtifactOfElder)));
            lemma_model_name_round_trip(PickupModel::ArtifactOfElder);
        },
        PickupType::ArtifactOfWild => {
            reveal_strlit("Artifact Of Wild");
            reveal_strlit("Artifact of Wild");
            lemma_normalize_plain(pickup_type_name(t));
            lemma_normalize_plain(pickup_model_name(PickupModel::ArtifactOfWild));
            assert(ascii_lowercase(pickup_type_name(t)) =~= ascii_lowercase(pickup_model_name(PickupModel::ArtifactOfWild)));
            lemma_model_name_round_trip(PickupModel::ArtifactOfWild);
        },
        PickupType::ArtifactOfLifegiver => {
            reveal_strlit("Artifact Of Lifegiver");
            reveal_strlit("Artifact of Lifegiver");
            lemma_normalize_plain(pickup_type_name(t));
            lemma_normalize_plain(pickup_model_name(PickupModel::ArtifactOfLifegiver));
            assert(ascii_lowercase(pickup_type_name(t)) =~= ascii_lowercase(pickup_model_name(PickupModel::ArtifactOfLifegiver)));
            lemma_model_name_round_trip(PickupModel::ArtifactOfLifegiver);
        },
        PickupType::ArtifactOfWarrior => {
            reveal_strlit("Artifact Of Warrior");
            reveal_strlit("Artifact of Warrior");
            lemma_normalize_plain(pickup_type_name(t));
            lemma_normalize_plain(pickup_model_name(PickupModel::ArtifactOfWarrior));
            assert(ascii_lowercase(pickup_type_name(t)) =~= ascii_lowercase(pickup_model_name(PickupModel::ArtifactOfWarrior)));
            lemma_model_name_round_trip(PickupModel::ArtifactOfWarrior);
        },
        PickupType::ArtifactOfChozo => {
            reveal_strlit("Artifact Of Chozo");
            reveal_strlit("Artifact of Chozo");
            lemma_normalize_plain(pickup_type_name(t));
            lemma_normalize_plain(pickup_model_name(PickupModel::ArtifactOfChozo));
            assert(ascii_lowercase(pickup_type_name(t)) =~= ascii_lowercase(pickup_model_name(PickupModel::ArtifactOfChozo)));
            lemma_model_name_round_trip(PickupModel::ArtifactOfChozo);
        },
        PickupType::ArtifactOfNature => {
            reveal_strlit("Artifact Of Nature");
            reveal_strlit("Artifact of Nature");
            lemma_normalize_plain(pickup_type_name(t));
            lemma_normalize_plain(pickup_model_name(PickupModel::ArtifactOfNature));
            assert(ascii_lowercase(pickup_type_name(t)) =~= ascii_lowercase(pickup_model_name(PickupModel::ArtifactOfNature)));
            lemma_model_name_round_trip(PickupModel::ArtifactOfNature);
        },
        PickupType::ArtifactOfSun => {
            reveal_strlit("Artifact Of Sun");
            reveal_strlit("Artifact of Sun");
            lemma_normalize_plain(pickup_type_name(t));
            lemma_normalize_plain(pickup_model_name(PickupModel::ArtifactOfSun));
            assert(ascii_lowercase(pickup_type_name(t)) =~= ascii_lowercase(pickup_model_name(PickupModel::ArtifactOfSun)));
            lemma_model_name_round_trip(PickupModel::ArtifactOfSun);
        },
        PickupType::ArtifactOfWorld => {
            reveal_strlit("Artifact Of World");
            reveal_strlit("Artifact of World");
            lemma_normalize_plain(pickup_type_name(t));
            lemma_normalize_plain(pickup_model_name(PickupModel::ArtifactOfWorld));
            assert(ascii_lowercase(pickup_type_name(t)) =~= ascii_lowercase(pickup_model_name(PickupModel::ArtifactOfWorld)));
            lemma_model_name_round_trip(PickupModel::ArtifactOfWorld);
        },
        PickupType::ArtifactOfSpirit => {
            reveal_strlit("Artifact Of Spirit");
            reveal_strlit("Artifact of Spirit");
            lemma_normalize_plain(pickup_type_name(t));
            lemma_normalize_plain(pickup_model_name(PickupModel::ArtifactOfSpirit));
            assert(ascii_lowercase(pickup_type_name(t)) =~= ascii_lowercase(pickup_model_name(PickupModel::ArtifactOfSpirit)));
            lemma_model_name_round_trip(PickupModel::ArtifactOfSpirit);
        },
        PickupType::ArtifactOfNewborn => {
            reveal_strlit("Artifact Of Newborn");
            reveal_strlit("Artifact of Newborn");
            lemma_normalize_plain(pickup_type_name(t));
            lemma_normalize_plain(pickup_model_name(PickupModel::ArtifactOfNewborn));
            assert(ascii_lowercase(pickup_type_name(t)) =~= ascii_lowercase(pickup_model_name(PickupModel::ArtifactOfNewborn)));
            lemma_model_name_round_trip(PickupModel::ArtifactOfNewborn);
        },
        PickupType::Nothing => {
            lemma_model_name_round_trip(PickupModel::Nothing);
        },
        PickupType::FloatyJump => {},
        PickupType::IceTrap => {
            lemma_model_name_round_trip(PickupModel::IceTrap);
        },
    }
}

/// The list of pickup types holds every type exactly once.
pub proof fn lemma_pickup_types_listed_once(t: PickupType)
    ensures
        all_pickup_types().contains(t),
        all_pickup_types().no_duplicates(),
{
    lemma_type_listed(t);
    assert forall|i: int, j: int|
        0 <= i < all_pickup_types().len() && 0 <= j < all_pickup_types().len() && i != j implies all_pickup_types()[i]
        != all_pickup_types()[j] by {
        assert(pickup_type_kind(all_pickup_types()[i]) == i || i >= 41);
        assert(pickup_type_kind(all_pickup_types()[j]) == j || j >= 41);
    }
}

/// The engine's number of each type that the engine defines is its place in the list, so the
/// type of that number is the type itself; the two patcher-only types are given to the engine as
/// `Nothing`.
pub proof fn lemma_kind_names_type(t: PickupType)
    ensures
        t != PickupType::FloatyJump && t != PickupType::IceTrap ==> pickup_type_of_kind(pickup_type_kind(t)) == Some(t),
        t == PickupType::FloatyJump || t == PickupType::IceTrap ==> pickup_type_of_kind(pickup_type_kind(t)) == Some(
            PickupType::Nothing,
        ),
{
}

/// Default assets are indexed so that no two types share them, but for the ice trap, which
/// looks like `Nothing`: floaty jump and `Nothing` are told apart.
pub proof fn lemma_asset_indices_distinct(a: PickupType, b: PickupType)
    requires
        a != b,
        pickup_type_asset_index(a) == pickup_type_asset_index(b),
    ensures
        (a == PickupType::Nothing && b == PickupType::IceTrap) || (a == PickupType::IceTrap && b == PickupType::Nothing),
{
    lemma_kind_names_type(a);
    lemma_kind_names_type(b);
}

/// The list of pickup models holds every model exactly once.
pub proof fn lemma_pickup_models_listed_once(m: PickupModel)
    ensures
        all_pickup_models().contains(m),
        all_pickup_models().no_duplicates(),
{
    lemma_model_listed(m);
    assert forall|i: int, j: int|
        0 <= i < all_pickup_models().len() && 0 <= j < all_pickup_models().len() && i != j implies all_pickup_models()[i]
        != all_pickup_models()[j] by {
        lemma_model_name_decodes(all_pickup_models()[i]);
        lemma_model_name_decodes(all_pickup_models()[j]);
        if all_pickup_models()[i] == all_pickup_models()[j] {
            assert(i == j);
        }
    }
}

} // verus!
