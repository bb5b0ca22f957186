//! The scan texts of the twelve artifact totems in the Artifact Temple: where each artifact
//! lies, or the hint that the configuration gives for it.

use vstd::prelude::*;
use vstd::string::{StrSliceExecFns, StringExecFns};
use crate::pickup_meta::{pickup_type_kind, PickupType};
use crate::text::{
    ascii_lowercase, is_white_space, lowercase, replace_all, str_equal, to_lowercase, trim, trim_end_spec,
    trim_spec, trim_start_spec, views,
};
use crate::pickup_meta::pickup_type_name;
use vstd::utf8::is_ascii_chars;
use rand::rngs::StdRng;

verus! {

/// The random number generator that the patcher seeds from the configuration.
#[verifier::external_type_specification]
#[verifier::external_body]
pub struct ExStdRng(StdRng);

/// Reorders `v` with rand's `SliceRandom::shuffle` (a Fisher-Yates shuffle made of swaps).
/// The contract claims only that the result is a reordering of `v`; which one depends on the
/// state of `rng`.
#[verifier::external_body]
fn shuffle<T>(v: &mut Vec<T>, rng: &mut StdRng)
    ensures
        final(v)@.to_multiset() == old(v)@.to_multiset(),
{
    rand::seq::SliceRandom::shuffle(v.as_mut_slice(), rng)
}

/// How many totems the temple holds, one per artifact.
pub const TOTEM_COUNT: usize = 12;

/// The text of a totem whose artifact is nowhere in the layout.
pub open spec fn absent_text() -> Seq<char> {
    "Artifact not present. This layout may not be completable.\0"@
}

/// The characters after the last space of `s`, or all of `s` when it has none: the last piece
/// that splitting at single spaces gives.
pub open spec fn last_word(s: Seq<char>) -> Seq<char>
    decreases s.len(),
{
    if s.len() == 0 {
        s
    } else if s.last() == ' ' {
        Seq::empty()
    } else {
        last_word(s.drop_last()).push(s.last())
    }
}

/// The totem of the artifact whose name ends in `w` (lowercased), in the order of the totems.
pub open spec fn totem_of_word(w: Seq<char>) -> Option<usize> {
    if w == "lifegiver"@ {
        Some(0)
    } else if w == "wild"@ {
        Some(1)
    } else if w == "world"@ {
        Some(2)
    } else if w == "sun"@ {
        Some(3)
    } else if w == "elder"@ {
        Some(4)
    } else if w == "spirit"@ {
        Some(5)
    } else if w == "truth"@ {
        Some(6)
    } else if w == "chozo"@ {
        Some(7)
    } else if w == "warrior"@ {
        Some(8)
    } else if w == "newborn"@ {
        Some(9)
    } else if w == "nature"@ {
        Some(10)
    } else if w == "strength"@ {
        Some(11)
    } else {
        None
    }
}

/// The totem that a hint for the artifact named `name` is written on: the last word of the
/// name, trimmed and lowercased, names the artifact.
pub open spec fn hint_totem(name: Seq<char>) -> Option<usize> {
    totem_of_word(lowercase(trim_spec(last_word(name))))
}

/// The texts once the hints have been written in order, each on its totem, over `texts`;
/// `None` when a hint names no artifact.
pub open spec fn with_hints(texts: Seq<Seq<char>>, hints: Seq<(String, String)>) -> Option<Seq<Seq<char>>>
    decreases hints.len(),
{
    if hints.len() == 0 {
        Some(texts)
    } else {
        let (name, hint) = hints.last();
        match (with_hints(texts, hints.drop_last()), hint_totem(name@)) {
            (Some(t), Some(i)) => Some(t.update(i as int, hint@ + "\0"@)),
            _ => None,
        }
    }
}

/// The twelve totem texts: every totem says its artifact is absent, and the hints, if any, are
/// written over them. `None` when a hint names no artifact.
pub open spec fn totem_texts(artifact_hints: Option<Seq<(String, String)>>) -> Option<Seq<Seq<char>>> {
    let absent = Seq::new(TOTEM_COUNT as nat, |i: int| absent_text());
    match artifact_hints {
        Some(h) => with_hints(absent, h),
        None => Some(absent),
    }
}

/// An artifact's pickup type lies in the range that the patcher takes for artifacts: from the
/// engine number of the Artifact of Lifegiver up to that of the Artifact of Strength.
pub open spec fn in_artifact_range(t: PickupType) -> bool {
    pickup_type_kind(PickupType::ArtifactOfLifegiver) <= pickup_type_kind(t)
        <= pickup_type_kind(PickupType::ArtifactOfStrength)
}

/// The Artifact of Lifegiver comes after the Artifact of Strength among the engine's numbers,
/// so no pickup type lies in the artifact range: no pickup of the layout ever reaches a totem.
pub proof fn lemma_artifact_range_is_empty(t: PickupType)
    ensures
        !in_artifact_range(t),
{
}

/// The characters of each string of a result, if there is one.
pub open spec fn option_views(r: Option<Vec<String>>) -> Option<Seq<Seq<char>>> {
    match r {
        Some(v) => Some(views(v@)),
        None => None,
    }
}

/// The hints as a sequence, if there are any.
pub open spec fn hint_seq(h: Option<Vec<(String, String)>>) -> Option<Seq<(String, String)>> {
    match h {
        Some(v) => Some(v@),
        None => None,
    }
}

/// Once a hint names no artifact, writing more hints after it changes nothing to that.
proof fn lemma_with_hints_stays_none(texts: Seq<Seq<char>>, hints: Seq<(String, String)>, k: int, n: int)
    requires
        0 <= k <= n <= hints.len(),
        with_hints(texts, hints.take(k)) is None,
    ensures
        with_hints(texts, hints.take(n)) is None,
    decreases n - k,
{
    if n > k {
        lemma_with_hints_stays_none(texts, hints, k, n - 1);
        assert(hints.take(n).drop_last() =~= hints.take(n - 1));
    }
}

/// The totem texts of a layout, from its pickups as (room name, pickup type) in the order the
/// level data is walked, the generic and the Artifact Temple templates in their shuffled order,
/// and the hints in the order they are walked. Every pickup is tested against the artifact
/// range, which none lies in, so every totem says its artifact is absent unless a hint is
/// written on it; `None` when a hint names no artifact.
pub fn totem_scan_texts(
    pickups: &[(String, PickupType)],
    generic_templates: &[String],
    specific_templates: Vec<String>,
    artifact_hints: Option<Vec<(String, String)>>,
) -> (r: Option<Vec<String>>)
    ensures
        option_views(r) == totem_texts(hint_seq(artifact_hints)),
{
    // Where are the artifacts?
    let mut locations: Vec<usize> = Vec::new();
    let mut i: usize = 0;
    while i < pickups.len()
        invariant
            i <= pickups.len(),
            locations@.len() == 0,
        decreases pickups.len() - i,
    {
        let k = pickups[i].1.kind();
        if PickupType::ArtifactOfLifegiver.kind() <= k && k <= PickupType::ArtifactOfStrength.kind() {
            proof {
                lemma_artifact_range_is_empty(pickups@[i as int].1);
            }
            locations.push(i);
        }
        i = i + 1;
    }

    let mut scan: Vec<String> = Vec::new();
    let mut t: usize = 0;
    while t < TOTEM_COUNT
        invariant
            t <= TOTEM_COUNT,
            scan@.len() == t,
            forall|j: int| 0 <= j < t ==> #[trigger] scan@[j]@ == Seq::<char>::empty(),
        decreases TOTEM_COUNT - t,
    {
        scan.push(String::new());
        t = t + 1;
    }

    let mut specific = specific_templates;
    let mut next_generic: usize = 0;
    let mut li: usize = 0;
    while li < locations.len()
        invariant
            locations@.len() == 0,
            scan@.len() == TOTEM_COUNT,
            forall|j: int| 0 <= j < TOTEM_COUNT ==> #[trigger] scan@[j]@ == Seq::<char>::empty(),
        decreases locations.len() - li,
    {
        let p = locations[li];
        let room = pickups[p].0.as_str();
        let pt = pickups[p].1;
        let artifact_id = (pt.kind() - PickupType::ArtifactOfLifegiver.kind()) as usize;
        // The first instance of an artifact gives its location.
        if scan[artifact_id].as_str().unicode_len() == 0 {
            // A room with texts of its own uses one of them while they last.
            let template = if str_equal(room, "Artifact Temple") && specific.len() > 0 {
                specific.pop().unwrap()
            } else {
                let g = generic_templates[next_generic].clone();
                next_generic = next_generic + 1;
                g
            };
            let with_room = replace_all(template.as_str(), "{room}", room);
            let text = replace_all(with_room.as_str(), "{pickup}", pt.name());
            scan.set(artifact_id, text);
        }
        li = li + 1;
    }

    // Every artifact that was not found is absent.
    let ghost absent = Seq::new(TOTEM_COUNT as nat, |j: int| absent_text());
    let mut t: usize = 0;
    while t < TOTEM_COUNT
        invariant
            t <= TOTEM_COUNT,
            scan@.len() == TOTEM_COUNT,
            forall|j: int| 0 <= j < t ==> #[trigger] scan@[j]@ == absent_text(),
            forall|j: int| t <= j < TOTEM_COUNT ==> #[trigger] scan@[j]@ == Seq::<char>::empty(),
        decreases TOTEM_COUNT - t,
    {
        if scan[t].as_str().unicode_len() == 0 {
            scan.set(t, String::from_str("Artifact not present. This layout may not be completable.\0"));
        }
        t = t + 1;
    }
    assert(views(scan@) =~= absent);

    match artifact_hints {
        None => Some(scan),
        Some(hints) => {
            let mut h: usize = 0;
            assert(hints@.take(0) =~= Seq::<(String, String)>::empty());
            while h < hints.len()
                invariant
                    h <= hints.len(),
                    scan@.len() == TOTEM_COUNT,
                    absent == Seq::new(TOTEM_COUNT as nat, |j: int| absent_text()),
                    hint_seq(artifact_hints) == Some(hints@),
                    with_hints(absent, hints@.take(h as int)) == Some(views(scan@)),
                decreases hints.len() - h,
            {
                proof {
                    assert(hints@.take(h + 1).drop_last() =~= hints@.take(h as int));
                    assert(hints@.take(h + 1).last() == hints@[h as int]);
                }
                match artifact_index_from_hint_name(hints[h].0.as_str()) {
                    None => {
                        proof {
                            assert(hint_totem(hints@[h as int].0@) is None);
                            assert(with_hints(absent, hints@.take(h + 1)) is None);
                            lemma_with_hints_stays_none(absent, hints@, h + 1, hints@.len() as int);
                            assert(hints@.take(hints@.len() as int) =~= hints@);
                        }
                        return None;
                    },
                    Some(idx) => {
                        let mut text = hints[h].1.clone();
                        text.append("\0");
                        let ghost before = scan@;
                        scan.set(idx, text);
                        assert(views(scan@) =~= views(before).update(idx as int, hints@[h as int].1@ + "\0"@));
                    },
                }
                h = h + 1;
            }
            assert(hints@.take(hints@.len() as int) =~= hints@);
            Some(scan)
        },
    }
}

/// The twelve scan texts of the artifact totems, in the totems' order: for each artifact the
/// room it lies in, or that it is absent, and over that the configuration's hints, written in
/// order. The pickups are (room name, pickup type) pairs in the order the level data is
/// walked, and the hints (artifact name, text) in the order they are walked. The templates are
/// shuffled with `rng` first, as the patcher does; the result does not depend on that order.
/// `None` when a hint names no artifact.
pub fn build_artifact_temple_totem_scan_strings(
    pickups: &[(String, PickupType)],
    rng: &mut StdRng,
    artifact_hints: Option<Vec<(String, String)>>,
) -> (r: Option<Vec<String>>)
    ensures
        option_views(r) == totem_texts(hint_seq(artifact_hints)),
{
    // The texts that tell where an artifact may be, before the room's name is filled in.
    let mut generic = vec![
        String::from_str("I mean, maybe it'll be in &push;&main-color=#43CD80;{room}&pop;. I forgot, to be honest.\0"),
        String::from_str("I'm not sure where the artifact exactly is, but like, you can try &push;&main-color=#43CD80;{room}&pop;.\0"),
        String::from_str("Hey man, some of the Chozo are telling me that there might be a thing in &push;&main-color=#43CD80;{room}&pop;. Just sayin'.\0"),
        String::from_str("Uhh umm... Where was it...? Uhhh, errr, it's definitely in &push;&main-color=#43CD80;{room}&pop;! I am 100% not totally making it up...\0"),
        String::from_str("Some say it may be in &push;&main-color=#43CD80;{room}&pop;. Others say that you have no business here. Please leave me alone.\0"),
        String::from_str("A buddy and I were drinking and thought 'Hey, wouldn't be crazy if we put it in &push;&main-color=#43CD80;{room}&pop;?' It took both of us just to put it there!\0"),
        String::from_str("So, uhhh, I kind of got lazy and just dropped mine somewhere... Maybe it's in the &push;&main-color=#43CD80;{room}&pop;? Who knows.\0"),
        String::from_str("I was super late and someone had to cover for me. She said she put it in &push;&main-color=#43CD80;{room}&pop;, so you'll just have to trust her.\0"),
        String::from_str("Okay, so this jerk forgets to hide his so I had to hide two. This is literally saving the planet. Anyways, mine is in &push;&main-color=#43CD80;{room}&pop;.\0"),
        String::from_str("To be honest, I don't really remember. I think it was... um... yeah we'll just go with that: It was &push;&main-color=#43CD80;{room}&pop;.\0"),
        String::from_str("Hear the words of Oh Leer, last Chozo of the Artifact Temple. May they serve you... Alright, whatever. It's in &push;&main-color=#43CD80;{room}&pop;.\0"),
        String::from_str("I kind of just played Frisbee with mine. It flew too far and I didn't see where it landed. Somewhere in &push;&main-color=#43CD80;{room}&pop;.\0"),
    ];
    shuffle(&mut generic, rng);
    let mut specific = vec![String::from_str("{pickup} awaits those who truly seek it.\0")];
    shuffle(&mut specific, rng);
    totem_scan_texts(pickups, generic.as_slice(), specific, artifact_hints)
}

/// The position of the last hint that is written on totem `i`, if any.
pub open spec fn last_hint_for(hints: Seq<(String, String)>, i: int) -> Option<int>
    decreases hints.len(),
{
    if hints.len() == 0 {
        None
    } else if hint_totem(hints.last().0@) == Some(i as usize) {
        Some(hints.len() - 1)
    } else {
        last_hint_for(hints.drop_last(), i)
    }
}

/// When every hint names an artifact, each totem shows the last hint written on it, followed by
/// a terminating NUL, and a totem that no hint names says its artifact is absent.
pub proof fn lemma_totem_text(hints: Seq<(String, String)>, i: int)
    requires
        0 <= i < TOTEM_COUNT,
        forall|k: int| 0 <= k < hints.len() ==> #[trigger] hint_totem(hints[k].0@) is Some,
    ensures
        totem_texts(Some(hints)) is Some,
        totem_texts(Some(hints))->0.len() == TOTEM_COUNT,
        last_hint_for(hints, i) matches Some(k) ==> 0 <= k < hints.len(),
        totem_texts(Some(hints))->0[i] == match last_hint_for(hints, i) {
            Some(k) => hints[k].1@ + "\0"@,
            None => absent_text(),
        },
    decreases hints.len(),
{
    if hints.len() > 0 {
        let rest = hints.drop_last();
        assert forall|k: int| 0 <= k < rest.len() implies #[trigger] hint_totem(rest[k].0@) is Some by {
            assert(rest[k] == hints[k]);
        }
        lemma_totem_text(rest, i);
        assert(hint_totem(hints[hints.len() - 1].0@) is Some);
        if let Some(k) = last_hint_for(rest, i) {
            assert(hints[k] == rest[k]);
        }
    }
}

/// The totem of each artifact, by pickup type, in the order of the totems around the temple.
pub open spec fn artifact_totem(t: PickupType) -> Option<usize> {
    match t {
        PickupType::ArtifactOfLifegiver => Some(0),
        PickupType::ArtifactOfWild => Some(1),
        PickupType::ArtifactOfWorld => Some(2),
        PickupType::ArtifactOfSun => Some(3),
        PickupType::ArtifactOfElder => Some(4),
        PickupType::ArtifactOfSpirit => Some(5),
        PickupType::ArtifactOfTruth => Some(6),
        PickupType::ArtifactOfChozo => Some(7),
        PickupType::ArtifactOfWarrior => Some(8),
        PickupType::ArtifactOfNewborn => Some(9),
        PickupType::ArtifactOfNature => Some(10),
        PickupType::ArtifactOfStrength => Some(11),
        _ => None,
    }
}

/// When the last word of `s` starts at `j` and is plain ASCII without white space at its ends,
/// the hint names the totem of that word, lowercased.
proof fn lemma_hint_word(s: Seq<char>, j: int)
    requires
        0 <= j < s.len(),
        forall|k: int| j <= k < s.len() ==> s[k] != ' ',
        j == 0 || s[j - 1] == ' ',
        is_ascii_chars(s.subrange(j, s.len() as int)),
        !is_white_space(s[j]),
        !is_white_space(s.last()),
    ensures
        hint_totem(s) == totem_of_word(ascii_lowercase(s.subrange(j, s.len() as int))),
{
    lemma_last_word(s, j);
    let w = s.subrange(j, s.len() as int);
    assert(w[0] == s[j]);
    assert(w.last() == s.last());
    assert(trim_start_spec(w) == w);
    assert(trim_end_spec(w) == w);
}

/// A hint for a pickup type's name goes on the totem of that type's artifact, and a name of
/// any other pickup type names no totem.
pub proof fn lemma_hint_for_artifact_name(t: PickupType)
    ensures
        hint_totem(pickup_type_name(t)) == artifact_totem(t),
{
    match t {
        PickupType::PowerBeam => {
            reveal_strlit("Power Beam");
            reveal_strlit("beam");
            reveal_strlit("chozo");
            reveal_strlit("elder");
            reveal_strlit("lifegiver");
            reveal_strlit("nature");
            reveal_strlit("newborn");
            reveal_strlit("spirit");
            reveal_strlit("strength");
            reveal_strlit("sun");
            reveal_strlit("truth");
            reveal_strlit("warrior");
            reveal_strlit("wild");
            reveal_strlit("world");
            lemma_hint_word(pickup_type_name(t), 6);
            assert(ascii_lowercase(pickup_type_name(t).subrange(6, pickup_type_name(t).len() as int)) =~= "beam"@);
            assert("beam"@[0] != "wild"@[0]);
            assert(hint_totem(pickup_type_name(t)) == artifact_totem(t));
        },
        PickupType::IceBeam => {
            reveal_strlit("Ice Beam");
            reveal_strlit("beam");
            reveal_strlit("chozo");
            reveal_strlit("elder");
            reveal_strlit("lifegiver");
            reveal_strlit("nature");
            reveal_strlit("newborn");
            reveal_strlit("spirit");
            reveal_strlit("strength");
            reveal_strlit("sun");
            reveal_strlit("truth");
            reveal_strlit("warrior");
            reveal_strlit("wild");
            reveal_strlit("world");
            lemma_hint_word(pickup_type_name(t), 4);
            assert(ascii_lowercase(pickup_type_name(t).subrange(4, pickup_type_name(t).len() as int)) =~= "beam"@);
            assert("beam"@[0] != "wild"@[0]);
            assert(hint_totem(pickup_type_name(t)) == artifact_totem(t));
        },
        PickupType::WaveBeam => {
            reveal_strlit("Wave Beam");
            reveal_strlit("beam");
            reveal_strlit("chozo");
            reveal_strlit("elder");
            reveal_strlit("lifegiver");
            reveal_strlit("nature");
            reveal_strlit("newborn");
            reveal_strlit("spirit");
            reveal_strlit("strength");
            reveal_strlit("sun");
            reveal_strlit("truth");
            reveal_strlit("warrior");
            reveal_strlit("wild");
            reveal_strlit("world");
            lemma_hint_word(pickup_type_name(t), 5);
            assert(ascii_lowercase(pickup_type_name(t).subrange(5, pickup_type_name(t).len() as int)) =~= "beam"@);
            assert("beam"@[0] != "wild"@[0]);
            assert(hint_totem(pickup_type_name(t)) == artifact_totem(t));
        },
        PickupType::PlasmaBeam => {
            reveal_strlit("Plasma Beam");
            reveal_strlit("beam");
            reveal_strlit("chozo");
            reveal_strlit("elder");
            reveal_strlit("lifegiver");
            reveal_strlit("nature");
            reveal_strlit("newborn");
            reveal_strlit("spirit");
            reveal_strlit("strength");
            reveal_strlit("sun");
            reveal_strlit("truth");
            reveal_strlit("warrior");
            reveal_strlit("wild");
            reveal_strlit("world");
            lemma_hint_word(pickup_type_name(t), 7);
            assert(ascii_lowercase(pickup_type_name(t).subrange(7, pickup_type_name(t).len() as int)) =~= "beam"@);
            assert("beam"@[0] != "wild"@[0]);
            assert(hint_totem(pickup_type_name(t)) == artifact_totem(t));
        },
        PickupType::Missile => {
            reveal_strlit("Missile");
            reveal_strlit("chozo");
            reveal_strlit("elder");
            reveal_strlit("lifegiver");
            reveal_strlit("missile");
            reveal_strlit("nature");
            reveal_strlit("newborn");
            reveal_strlit("spirit");
            reveal_strlit("strength");
            reveal_strlit("sun");
            reveal_strlit("truth");
            reveal_strlit("warrior");
            reveal_strlit("wild");
            reveal_strlit("world");
            lemma_hint_word(pickup_type_name(t), 0);
            assert(ascii_lowercase(pickup_type_name(t).subrange(0, pickup_type_name(t).len() as int)) =~= "missile"@);
            assert("missile"@[0] != "warrior"@[0]);
            assert("missile"@[0] != "newborn"@[0]);
            assert(hint_totem(pickup_type_name(t)) == artifact_totem(t));
        },
        PickupType::ScanVisor => {
            reveal_strlit("Scan Visor");
            reveal_strlit("chozo");
            reveal_strlit("elder");
            reveal_strlit("lifegiver");
            reveal_strlit("nature");
            reveal_strlit("newborn");
            reveal_strlit("spirit");
            reveal_strlit("strength");
            reveal_strlit("sun");
            reveal_strlit("truth");
            reveal_strlit("visor");
            reveal_strlit("warrior");
            reveal_strlit("wild");
            reveal_strlit("world");
            lemma_hint_word(pickup_type_name(t), 5);
            assert(ascii_lowercase(pickup_type_name(t).subrange(5, pickup_type_name(t).len() as int)) =~= "visor"@);
            assert("visor"@[0] != "world"@[0]);
            assert("visor"@[0] != "elder"@[0]);
            assert("visor"@[0] != "truth"@[0]);
            assert("visor"@[0] != "chozo"@[0]);
            assert(hint_totem(pickup_type_name(t)) == artifact_totem(t));
        },
        PickupType::MorphBallBomb => {
            reveal_strlit("Morph Ball Bomb");
            reveal_strlit("bomb");
            reveal_strlit("chozo");
            reveal_strlit("elder");
            reveal_strlit("lifegiver");
            reveal_strlit("nature");
            reveal_strlit("newborn");
            reveal_strlit("spirit");
            reveal_strlit("strength");
            reveal_strlit("sun");
            reveal_strlit("truth");
            reveal_strlit("warrior");
            reveal_strlit("wild");
            reveal_strlit("world");
            lemma_hint_word(pickup_type_name(t), 11);
            assert(ascii_lowercase(pickup_type_name(t).subrange(11, pickup_type_name(t).len() as int)) =~= "bomb"@);
            assert("bomb"@[0] != "wild"@[0]);
            assert(hint_totem(pickup_type_name(t)) == artifact_totem(t));
        },
        PickupType::PowerBomb => {
            reveal_strlit("Power Bomb");
            reveal_strlit("bomb");
            reveal_strlit("chozo");
            reveal_strlit("elder");
            reveal_strlit("lifegiver");
            reveal_strlit("nature");
            reveal_strlit("newborn");
            reveal_strlit("spirit");
            reveal_strlit("strength");
            reveal_strlit("sun");
            reveal_strlit("truth");
            reveal_strlit("warrior");
            reveal_strlit("wild");
            reveal_strlit("world");
            lemma_hint_word(pickup_type_name(t), 6);
            assert(ascii_lowercase(pickup_type_name(t).subrange(6, pickup_type_name(t).len() as int)) =~= "bomb"@);
            assert("bomb"@[0] != "wild"@[0]);
            assert(hint_totem(pickup_type_name(t)) == artifact_totem(t));
        },
        PickupType::Flamethrower => {
            reveal_strlit("Flamethrower");
            reveal_strlit("chozo");
            reveal_strlit("elder");
            reveal_strlit("flamethrower");
            reveal_strlit("lifegiver");
            reveal_strlit("nature");
            reveal_strlit("newborn");
            reveal_strlit("spirit");
            reveal_strlit("strength");
            reveal_strlit("sun");
            reveal_strlit("truth");
            reveal_strlit("warrior");
            reveal_strlit("wild");
            reveal_strlit("world");
            lemma_hint_word(pickup_type_name(t), 0);
            assert(ascii_lowercase(pickup_type_name(t).subrange(0, pickup_type_name(t).len() as int)) =~= "flamethrower"@);
            assert(hint_totem(pickup_type_name(t)) == artifact_totem(t));
        },
        PickupType::ThermalVisor => {
            reveal_strlit("Thermal Visor");
            reveal_strlit("chozo");
            reveal_strlit("elder");
            reveal_strlit("lifegiver");
            reveal_strlit("nature");
            reveal_strlit("newborn");
            reveal_strlit("spirit");
            reveal_strlit("strength");
            reveal_strlit("sun");
            reveal_strlit("truth");
            reveal_strlit("visor");
            reveal_strlit("warrior");
            reveal_strlit("wild");
            reveal_strlit("world");
            lemma_hint_word(pickup_type_name(t), 8);
            assert(ascii_lowercase(pickup_type_name(t).subrange(8, pickup_type_name(t).len() as int)) =~= "visor"@);
            assert("visor"@[0] != "world"@[0]);
            assert("visor"@[0] != "elder"@[0]);
            assert("visor"@[0] != "truth"@[0]);
            assert("visor"@[0] != "chozo"@[0]);
            assert(hint_totem(pickup_type_name(t)) == artifact_totem(t));
        },
        PickupType::ChargeBeam => {
            reveal_strlit("Charge Beam");
            reveal_strlit("beam");
            reveal_strlit("chozo");
            reveal_strlit("elder");
            reveal_strlit("lifegiver");
            reveal_strlit("nature");
            reveal_strlit("newborn");
            reveal_strlit("spirit");
            reveal_strlit("strength");
            reveal_strlit("sun");
            reveal_strlit("truth");
            reveal_strlit("warrior");
            reveal_strlit("wild");
            reveal_strlit("world");
            lemma_hint_word(pickup_type_name(t), 7);
            assert(ascii_lowercase(pickup_type_name(t).subrange(7, pickup_type_name(t).len() as int)) =~= "beam"@);
            assert("beam"@[0] != "wild"@[0]);
            assert(hint_totem(pickup_type_name(t)) == artifact_totem(t));
        },
        PickupType::SuperMissile => {
            reveal_strlit("Super Missile");
            reveal_strlit("chozo");
            reveal_strlit("elder");
            reveal_strlit("lifegiver");
            reveal_strlit("missile");
            reveal_strlit("nature");
            reveal_strlit("newborn");
            reveal_strlit("spirit");
            reveal_strlit("strength");
            reveal_strlit("sun");
            reveal_strlit("truth");
            reveal_strlit("warrior");
            reveal_strlit("wild");
            reveal_strlit("world");
            lemma_hint_word(pickup_type_name(t), 6);
            assert(ascii_lowercase(pickup_type_name(t).subrange(6, pickup_type_name(t).len() as int)) =~= "missile"@);
            assert("missile"@[0] != "warrior"@[0]);
            assert("missile"@[0] != "newborn"@[0]);
            assert(hint_totem(pickup_type_name(t)) == artifact_totem(t));
        },
        PickupType::GrappleBeam => {
            reveal_strlit("Grapple Beam");
            reveal_strlit("beam");
            reveal_strlit("chozo");
            reveal_strlit("elder");
            reveal_strlit("lifegiver");
            reveal_strlit("nature");
            reveal_strlit("newborn");
            reveal_strlit("spirit");
            reveal_strlit("strength");
            reveal_strlit("sun");
            reveal_strlit("truth");
            reveal_strlit("warrior");
            reveal_strlit("wild");
            reveal_strlit("world");
            lemma_hint_word(pickup_type_name(t), 8);
            assert(ascii_lowercase(pickup_type_name(t).subrange(8, pickup_type_name(t).len() as int)) =~= "beam"@);
            assert("beam"@[0] != "wild"@[0]);
            assert(hint_totem(pickup_type_name(t)) == artifact_totem(t));
        },
        PickupType::XRayVisor => {
            reveal_strlit("X-Ray Visor");
            reveal_strlit("chozo");
            reveal_strlit("elder");
            reveal_strlit("lifegiver");
            reveal_strlit("nature");
            reveal_strlit("newborn");
            reveal_strlit("spirit");
            reveal_strlit("strength");
            reveal_strlit("sun");
            reveal_strlit("truth");
            reveal_strlit("visor");
            reveal_strlit("warrior");
            reveal_strlit("wild");
            reveal_strlit("world");
            lemma_hint_word(pickup_type_name(t), 6);
            assert(ascii_lowercase(pickup_type_name(t).subrange(6, pickup_type_name(t).len() as int)) =~= "visor"@);
            assert("visor"@[0] != "world"@[0]);
            assert("visor"@[0] != "elder"@[0]);
            assert("visor"@[0] != "truth"@[0]);
            assert("visor"@[0] != "chozo"@[0]);
            assert(hint_totem(pickup_type_name(t)) == artifact_totem(t));
        },
        PickupType::IceSpreader => {
            reveal_strlit("Ice Spreader");
            reveal_strlit("chozo");
            reveal_strlit("elder");
            reveal_strlit("lifegiver");
            reveal_strlit("nature");
            reveal_strlit("newborn");
            reveal_strlit("spirit");
            reveal_strlit("spreader");
            reveal_strlit("strength");
            reveal_strlit("sun");
            reveal_strlit("truth");
            reveal_strlit("warrior");
            reveal_strlit("wild");
            reveal_strlit("world");
            lemma_hint_word(pickup_type_name(t), 4);
            assert(ascii_lowercase(pickup_type_name(t).subrange(4, pickup_type_name(t).len() as int)) =~= "spreader"@);
            assert("spreader"@[1] != "strength"@[1]);
            assert(hint_totem(pickup_type_name(t)) == artifact_totem(t));
        },
        PickupType::SpaceJumpBoots => {
            reveal_strlit("Space Jump Boots");
            reveal_strlit("boots");
            reveal_strlit("chozo");
            reveal_strlit("elder");
            reveal_strlit("lifegiver");
            reveal_strlit("nature");
            reveal_strlit("newborn");
            reveal_strlit("spirit");
            reveal_strlit("strength");
            reveal_strlit("sun");
            reveal_strlit("truth");
            reveal_strlit("warrior");
            reveal_strlit("wild");
            reveal_strlit("world");
            lemma_hint_word(pickup_type_name(t), 11);
            assert(ascii_lowercase(pickup_type_name(t).subrange(11, pickup_type_name(t).len() as int)) =~= "boots"@);
            assert("boots"@[0] != "world"@[0]);
            assert("boots"@[0] != "elder"@[0]);
            assert("boots"@[0] != "truth"@[0]);
            assert("boots"@[0] != "chozo"@[0]);
            assert(hint_totem(pickup_type_name(t)) == artifact_totem(t));
        },
        PickupType::MorphBall => {
            reveal_strlit("Morph Ball");
            reveal_strlit("ball");
            reveal_strlit("chozo");
            reveal_strlit("elder");
            reveal_strlit("lifegiver");
            reveal_strlit("nature");
            reveal_strlit("newborn");
            reveal_strlit("spirit");
            reveal_strlit("strength");
            reveal_strlit("sun");
            reveal_strlit("truth");
            reveal_strlit("warrior");
            reveal_strlit("wild");
            reveal_strlit("world");
            lemma_hint_word(pickup_type_name(t), 6);
            assert(ascii_lowercase(pickup_type_name(t).subrange(6, pickup_type_name(t).len() as int)) =~= "ball"@);
            assert("ball"@[0] != "wild"@[0]);
            assert(hint_totem(pickup_type_name(t)) == artifact_totem(t));
        },
        PickupType::CombatVisor => {
            reveal_strlit("Combat Visor");
            reveal_strlit("chozo");
            reveal_strlit("elder");
            reveal_strlit("lifegiver");
            reveal_strlit("nature");
            reveal_strlit("newborn");
            reveal_strlit("spirit");
            reveal_strlit("strength");
            reveal_strlit("sun");
            reveal_strlit("truth");
            reveal_strlit("visor");
            reveal_strlit("warrior");
            reveal_strlit("wild");
            reveal_strlit("world");
            lemma_hint_word(pickup_type_name(t), 7);
            assert(ascii_lowercase(pickup_type_name(t).subrange(7, pickup_type_name(t).len() as int)) =~= "visor"@);
            assert("visor"@[0] != "world"@[0]);
            assert("visor"@[0] != "elder"@[0]);
            assert("visor"@[0] != "truth"@[0]);
            assert("visor"@[0] != "chozo"@[0]);
            assert(hint_totem(pickup_type_name(t)) == artifact_totem(t));
        },
        PickupType::BoostBall => {
            reveal_strlit("Boost Ball");
            reveal_strlit("ball");
            reveal_strlit("chozo");
            reveal_strlit("elder");
            reveal_strlit("lifegiver");
            reveal_strlit("nature");
            reveal_strlit("newborn");
            reveal_strlit("spirit");
            reveal_strlit("strength");
            reveal_strlit("sun");
            reveal_strlit("truth");
            reveal_strlit("warrior");
            reveal_strlit("wild");
            reveal_strlit("world");
            lemma_hint_word(pickup_type_name(t), 6);
            assert(ascii_lowercase(pickup_type_name(t).subrange(6, pickup_type_name(t).len() as int)) =~= "ball"@);
            assert("ball"@[0] != "wild"@[0]);
            assert(hint_totem(pickup_type_name(t)) == artifact_totem(t));
        },
        PickupType::SpiderBall => {
            reveal_strlit("Spider Ball");
            reveal_strlit("ball");
            reveal_strlit("chozo");
            reveal_strlit("elder");
            reveal_strlit("lifegiver");
            reveal_strlit("nature");
            reveal_strlit("newborn");
            reveal_strlit("spirit");
            reveal_strlit("strength");
            reveal_strlit("sun");
            reveal_strlit("truth");
            reveal_strlit("warrior");
            reveal_strlit("wild");
            reveal_strlit("world");
            lemma_hint_word(pickup_type_name(t), 7);
            assert(ascii_lowercase(pickup_type_name(t).subrange(7, pickup_type_name(t).len() as int)) =~= "ball"@);
            assert("ball"@[0] != "wild"@[0]);
            assert(hint_totem(pickup_type_name(t)) == artifact_totem(t));
        },
        PickupType::PowerSuit => {
            reveal_strlit("Power Suit");
            reveal_strlit("chozo");
            reveal_strlit("elder");
            reveal_strlit("lifegiver");
            reveal_strlit("nature");
            reveal_strlit("newborn");
            reveal_strlit("spirit");
            reveal_strlit("strength");
            reveal_strlit("suit");
            reveal_strlit("sun");
            reveal_strlit("truth");
            reveal_strlit("warrior");
            reveal_strlit("wild");
            reveal_strlit("world");
            lemma_hint_word(pickup_type_name(t), 6);
            assert(ascii_lowercase(pickup_type_name(t).subrange(6, pickup_type_name(t).len() as int)) =~= "suit"@);
            assert("suit"@[0] != "wild"@[0]);
            assert(hint_totem(pickup_type_name(t)) == artifact_totem(t));
        },
        PickupType::GravitySuit => {
            reveal_strlit("Gravity Suit");
            reveal_strlit("chozo");
            reveal_strlit("elder");
            reveal_strlit("lifegiver");
            reveal_strlit("nature");
            reveal_strlit("newborn");
            reveal_strlit("spirit");
            reveal_strlit("strength");
            reveal_strlit("suit");
            reveal_strlit("sun");
            reveal_strlit("truth");
            reveal_strlit("warrior");
            reveal_strlit("wild");
            reveal_strlit("world");
            lemma_hint_word(pickup_type_name(t), 8);
            assert(ascii_lowercase(pickup_type_name(t).subrange(8, pickup_type_name(t).len() as int)) =~= "suit"@);
            assert("suit"@[0] != "wild"@[0]);
            assert(hint_totem(pickup_type_name(t)) == artifact_totem(t));
        },
        PickupType::VariaSuit => {
            reveal_strlit("Varia Suit");
            reveal_strlit("chozo");
            reveal_strlit("elder");
            reveal_strlit("lifegiver");
            reveal_strlit("nature");
            reveal_strlit("newborn");
            reveal_strlit("spirit");
            reveal_strlit("strength");
            reveal_strlit("suit");
            reveal_strlit("sun");
            reveal_strlit("truth");
            reveal_strlit("warrior");
            reveal_strlit("wild");
            reveal_strlit("world");
            lemma_hint_word(pickup_type_name(t), 6);
            assert(ascii_lowercase(pickup_type_name(t).subrange(6, pickup_type_name(t).len() as int)) =~= "suit"@);
            assert("suit"@[0] != "wild"@[0]);
            assert(hint_totem(pickup_type_name(t)) == artifact_totem(t));
        },
        PickupType::PhazonSuit => {
            reveal_strlit("Phazon Suit");
            reveal_strlit("chozo");
            reveal_strlit("elder");
            reveal_strlit("lifegiver");
            reveal_strlit("nature");
            reveal_strlit("newborn");
            reveal_strlit("spirit");
            reveal_strlit("strength");
            reveal_strlit("suit");
            reveal_strlit("sun");
            reveal_strlit("truth");
            reveal_strlit("warrior");
            reveal_strlit("wild");
            reveal_strlit("world");
            lemma_hint_word(pickup_type_name(t), 7);
            assert(ascii_lowercase(pickup_type_name(t).subrange(7, pickup_type_name(t).len() as int)) =~= "suit"@);
            assert("suit"@[0] != "wild"@[0]);
            assert(hint_totem(pickup_type_name(t)) == artifact_totem(t));
        },
        PickupType::EnergyTank => {
            reveal_strlit("Energy Tank");
            reveal_strlit("chozo");
            reveal_strlit("elder");
            reveal_strlit("lifegiver");
            reveal_strlit("nature");
            reveal_strlit("newborn");
            reveal_strlit("spirit");
            reveal_strlit("strength");
            reveal_strlit("sun");
            reveal_strlit("tank");
            reveal_strlit("truth");
            reveal_strlit("warrior");
            reveal_strlit("wild");
            reveal_strlit("world");
            lemma_hint_word(pickup_type_name(t), 7);
            assert(ascii_lowercase(pickup_type_name(t).subrange(7, pickup_type_name(t).len() as int)) =~= "tank"@);
            assert("tank"@[0] != "wild"@[0]);
            assert(hint_totem(pickup_type_name(t)) == artifact_totem(t));
        },
        PickupType::UnknownItem1 => {
            reveal_strlit("1");
            reveal_strlit("Unknown Item 1");
            reveal_strlit("chozo");
            reveal_strlit("elder");
            reveal_strlit("lifegiver");
            reveal_strlit("nature");
            reveal_strlit("newborn");
            reveal_strlit("spirit");
            reveal_strlit("strength");
            reveal_strlit("sun");
            reveal_strlit("truth");
            reveal_strlit("warrior");
            reveal_strlit("wild");
            reveal_strlit("world");
            lemma_hint_word(pickup_type_name(t), 13);
            assert(ascii_lowercase(pickup_type_name(t).subrange(13, pickup_type_name(t).len() as int)) =~= "1"@);
            assert(hint_totem(pickup_type_name(t)) == artifact_totem(t));
        },
        PickupType::HealthRefill => {
            reveal_strlit("Health Refill");
            reveal_strlit("chozo");
            reveal_strlit("elder");
            reveal_strlit("lifegiver");
            reveal_strlit("nature");
            reveal_strlit("newborn");
            reveal_strlit("refill");
            reveal_strlit("spirit");
            reveal_strlit("strength");
            reveal_strlit("sun");
            reveal_strlit("truth");
            reveal_strlit("warrior");
            reveal_strlit("wild");
            reveal_strlit("world");
            lemma_hint_word(pickup_type_name(t), 7);
            assert(ascii_lowercase(pickup_type_name(t).subrange(7, pickup_type_name(t).len() as int)) =~= "refill"@);
            assert("refill"@[0] != "spirit"@[0]);
            assert("refill"@[0] != "nature"@[0]);
            assert(hint_totem(pickup_type_name(t)) == artifact_totem(t));
        },
        PickupType::UnknownItem2 => {
            reveal_strlit("2");
            reveal_strlit("Unknown Item 2");
            reveal_strlit("chozo");
            reveal_strlit("elder");
            reveal_strlit("lifegiver");
            reveal_strlit("nature");
            reveal_strlit("newborn");
            reveal_strlit("spirit");
            reveal_strlit("strength");
            reveal_strlit("sun");
            reveal_strlit("truth");
            reveal_strlit("warrior");
            reveal_strlit("wild");
            reveal_strlit("world");
            lemma_hint_word(pickup_type_name(t), 13);
            assert(ascii_lowercase(pickup_type_name(t).subrange(13, pickup_type_name(t).len() as int)) =~= "2"@);
            assert(hint_totem(pickup_type_name(t)) == artifact_totem(t));
        },
        PickupType::Wavebuster => {
            reveal_strlit("Wavebuster");
            reveal_strlit("chozo");
            reveal_strlit("elder");
            reveal_strlit("lifegiver");
            reveal_strlit("nature");
            reveal_strlit("newborn");
            reveal_strlit("spirit");
            reveal_strlit("strength");
            reveal_strlit("sun");
            reveal_strlit("truth");
            reveal_strlit("warrior");
            reveal_strlit("wavebuster");
            reveal_strlit("wild");
            reveal_strlit("world");
            lemma_hint_word(pickup_type_name(t), 0);
            assert(ascii_lowercase(pickup_type_name(t).subrange(0, pickup_type_name(t).len() as int)) =~= "wavebuster"@);
            assert(hint_totem(pickup_type_name(t)) == artifact_totem(t));
        },
        PickupType::ArtifactOfTruth => {
            reveal_strlit("Artifact Of Truth");
            reveal_strlit("chozo");
            reveal_strlit("elder");
            reveal_strlit("lifegiver");
            reveal_strlit("nature");
            reveal_strlit("newborn");
            reveal_strlit("spirit");
            reveal_strlit("strength");
            reveal_strlit("sun");
            reveal_strlit("truth");
            reveal_strlit("warrior");
            reveal_strlit("wild");
            reveal_strlit("world");
            lemma_hint_word(pickup_type_name(t), 12);
            assert(ascii_lowercase(pickup_type_name(t).subrange(12, pickup_type_name(t).len() as int)) =~= "truth"@);
            assert("truth"@[0] != "world"@[0]);
            assert("truth"@[0] != "elder"@[0]);
            assert("truth"@[0] != "chozo"@[0]);
            assert(hint_totem(pickup_type_name(t)) == artifact_totem(t));
        },
        PickupType::ArtifactOfStrength => {
            reveal_strlit("Artifact Of Strength");
            reveal_strlit("chozo");
            reveal_strlit("elder");
            reveal_strlit("lifegiver");
            reveal_strlit("nature");
            reveal_strlit("newborn");
            reveal_strlit("spirit");
            reveal_strlit("strength");
            reveal_strlit("sun");
            reveal_strlit("truth");
            reveal_strlit("warrior");
            reveal_strlit("wild");
            reveal_strlit("world");
            lemma_hint_word(pickup_type_name(t), 12);
            assert(ascii_lowercase(pickup_type_name(t).subrange(12, pickup_type_name(t).len() as int)) =~= "strength"@);
            assert(hint_totem(pickup_type_name(t)) == artifact_totem(t));
        },
        PickupType::ArtifactOfElder => {
            reveal_strlit("Artifact Of Elder");
            reveal_strlit("chozo");
            reveal_strlit("elder");
            reveal_strlit("lifegiver");
            reveal_strlit("nature");
            reveal_strlit("newborn");
            reveal_strlit("spirit");
            reveal_strlit("strength");
            reveal_strlit("sun");
            reveal_strlit("truth");
            reveal_strlit("warrior");
            reveal_strlit("wild");
            reveal_strlit("world");
            lemma_hint_word(pickup_type_name(t), 12);
            assert(ascii_lowercase(pickup_type_name(t).subrange(12, pickup_type_name(t).len() as int)) =~= "elder"@);
            assert("elder"@[0] != "world"@[0]);
            assert("elder"@[0] != "truth"@[0]);
            assert("elder"@[0] != "chozo"@[0]);
            assert(hint_totem(pickup_type_name(t)) == artifact_totem(t));
        },
        PickupType::ArtifactOfWild => {
            reveal_strlit("Artifact Of Wild");
            reveal_strlit("chozo");
            reveal_strlit("elder");
            reveal_strlit("lifegiver");
            reveal_strlit("nature");
            reveal_strlit("newborn");
            reveal_strlit("spirit");
            reveal_strlit("strength");
            reveal_strlit("sun");
            reveal_strlit("truth");
            reveal_strlit("warrior");
            reveal_strlit("wild");
            reveal_strlit("world");
            lemma_hint_word(pickup_type_name(t), 12);
            assert(ascii_lowercase(pickup_type_name(t).subrange(12, pickup_type_name(t).len() as int)) =~= "wild"@);
            assert(hint_totem(pickup_type_name(t)) == artifact_totem(t));
        },
        PickupType::ArtifactOfLifegiver => {
            reveal_strlit("Artifact Of Lifegiver");
            reveal_strlit("chozo");
            reveal_strlit("elder");
            reveal_strlit("lifegiver");
            reveal_strlit("nature");
            reveal_strlit("newborn");
            reveal_strlit("spirit");
            reveal_strlit("strength");
            reveal_strlit("sun");
            reveal_strlit("truth");
            reveal_strlit("warrior");
            reveal_strlit("wild");
            reveal_strlit("world");
            lemma_hint_word(pickup_type_name(t), 12);
            assert(ascii_lowercase(pickup_type_name(t).subrange(12, pickup_type_name(t).len() as int)) =~= "lifegiver"@);
            assert(hint_totem(pickup_type_name(t)) == artifact_totem(t));
        },
        PickupType::ArtifactOfWarrior => {
            reveal_strlit("Artifact Of Warrior");
            reveal_strlit("chozo");
            reveal_strlit("elder");
            reveal_strlit("lifegiver");
            reveal_strlit("nature");
            reveal_strlit("newborn");
            reveal_strlit("spirit");
            reveal_strlit("strength");
            reveal_strlit("sun");
            reveal_strlit("truth");
            reveal_strlit("warrior");
            reveal_strlit("wild");
            reveal_strlit("world");
            lemma_hint_word(pickup_type_name(t), 12);
            assert(ascii_lowercase(pickup_type_name(t).subrange(12, pickup_type_name(t).len() as int)) =~= "warrior"@);
            assert("warrior"@[0] != "newborn"@[0]);
            assert(hint_totem(pickup_type_name(t)) == artifact_totem(t));
        },
        PickupType::ArtifactOfChozo => {
            reveal_strlit("Artifact Of Chozo");
            reveal_strlit("chozo");
            reveal_strlit("elder");
            reveal_strlit("lifegiver");
            reveal_strlit("nature");
            reveal_strlit("newborn");
            reveal_strlit("spirit");
            reveal_strlit("strength");
            reveal_strlit("sun");
            reveal_strlit("truth");
            reveal_strlit("warrior");
            reveal_strlit("wild");
            reveal_strlit("world");
            lemma_hint_word(pickup_type_name(t), 12);
            assert(ascii_lowercase(pickup_type_name(t).subrange(12, pickup_type_name(t).len() as int)) =~= "chozo"@);
            assert("chozo"@[0] != "world"@[0]);
            assert("chozo"@[0] != "elder"@[0]);
            assert("chozo"@[0] != "truth"@[0]);
            assert(hint_totem(pickup_type_name(t)) == artifact_totem(t));
        },
        PickupType::ArtifactOfNature => {
            reveal_strlit("Artifact Of Nature");
            reveal_strlit("chozo");
            reveal_strlit("elder");
            reveal_strlit("lifegiver");
            reveal_strlit("nature");
            reveal_strlit("newborn");
            reveal_strlit("spirit");
            reveal_strlit("strength");
            reveal_strlit("sun");
            reveal_strlit("truth");
            reveal_strlit("warrior");
            reveal_strlit("wild");
            reveal_strlit("world");
            lemma_hint_word(pickup_type_name(t), 12);
            assert(ascii_lowercase(pickup_type_name(t).subrange(12, pickup_type_name(t).len() as int)) =~= "nature"@);
            assert("nature"@[0] != "spirit"@[0]);
            assert(hint_totem(pickup_type_name(t)) == artifact_totem(t));
        },
        PickupType::ArtifactOfSun => {
            reveal_strlit("Artifact Of Sun");
            reveal_strlit("chozo");
            reveal_strlit("elder");
            reveal_strlit("lifegiver");
            reveal_strlit("nature");
            reveal_strlit("newborn");
            reveal_strlit("spirit");
            reveal_strlit("strength");
            reveal_strlit("sun");
            reveal_strlit("truth");
            reveal_strlit("warrior");
            reveal_strlit("wild");
            reveal_strlit("world");
            lemma_hint_word(pickup_type_name(t), 12);
            assert(ascii_lowercase(pickup_type_name(t).subrange(12, pickup_type_name(t).len() as int)) =~= "sun"@);
            assert(hint_totem(pickup_type_name(t)) == artifact_totem(t));
        },
        PickupType::ArtifactOfWorld => {
            reveal_strlit("Artifact Of World");
            reveal_strlit("chozo");
            reveal_strlit("elder");
            reveal_strlit("lifegiver");
            reveal_strlit("nature");
            reveal_strlit("newborn");
            reveal_strlit("spirit");
            reveal_strlit("strength");
            reveal_strlit("sun");
            reveal_strlit("truth");
            reveal_strlit("warrior");
            reveal_strlit("wild");
            reveal_strlit("world");
            lemma_hint_word(pickup_type_name(t), 12);
            assert(ascii_lowercase(pickup_type_name(t).subrange(12, pickup_type_name(t).len() as int)) =~= "world"@);
            assert("world"@[0] != "elder"@[0]);
            assert("world"@[0] != "truth"@[0]);
            assert("world"@[0] != "chozo"@[0]);
            assert(hint_totem(pickup_type_name(t)) == artifact_totem(t));
        },
        PickupType::ArtifactOfSpirit => {
            reveal_strlit("Artifact Of Spirit");
            reveal_strlit("chozo");
            reveal_strlit("elder");
            reveal_strlit("lifegiver");
            reveal_strlit("nature");
            reveal_strlit("newborn");
            reveal_strlit("spirit");
            reveal_strlit("strength");
            reveal_strlit("sun");
            reveal_strlit("truth");
            reveal_strlit("warrior");
            reveal_strlit("wild");
            reveal_strlit("world");
            lemma_hint_word(pickup_type_name(t), 12);
            assert(ascii_lowercase(pickup_type_name(t).subrange(12, pickup_type_name(t).len() as int)) =~= "spirit"@);
            assert("spirit"@[0] != "nature"@[0]);
            assert(hint_totem(pickup_type_name(t)) == artifact_totem(t));
        },
        PickupType::ArtifactOfNewborn => {
            reveal_strlit("Artifact Of Newborn");
            reveal_strlit("chozo");
            reveal_strlit("elder");
            reveal_strlit("lifegiver");
            reveal_strlit("nature");
            reveal_strlit("newborn");
            reveal_strlit("spirit");
            reveal_strlit("strength");
            reveal_strlit("sun");
            reveal_strlit("truth");
            reveal_strlit("warrior");
            reveal_strlit("wild");
            reveal_strlit("world");
            lemma_hint_word(pickup_type_name(t), 12);
            assert(ascii_lowercase(pickup_type_name(t).subrange(12, pickup_type_name(t).len() as int)) =~= "newborn"@);
            assert("newborn"@[0] != "warrior"@[0]);
            assert(hint_totem(pickup_type_name(t)) == artifact_totem(t));
        },
        PickupType::Nothing => {
            reveal_strlit("Nothing");
            reveal_strlit("chozo");
            reveal_strlit("elder");
            reveal_strlit("lifegiver");
            reveal_strlit("nature");
            reveal_strlit("newborn");
            reveal_strlit("nothing");
            reveal_strlit("spirit");
            reveal_strlit("strength");
            reveal_strlit("sun");
            reveal_strlit("truth");
            reveal_strlit("warrior");
            reveal_strlit("wild");
            reveal_strlit("world");
            lemma_hint_word(pickup_type_name(t), 0);
            assert(ascii_lowercase(pickup_type_name(t).subrange(0, pickup_type_name(t).len() as int)) =~= "nothing"@);
            assert("nothing"@[0] != "warrior"@[0]);
            assert("nothing"@[1] != "newborn"@[1]);
            assert(hint_totem(pickup_type_name(t)) == artifact_totem(t));
        },
        PickupType::FloatyJump => {
            reveal_strlit("Floaty Jump");
            reveal_strlit("chozo");
            reveal_strlit("elder");
            reveal_strlit("jump");
            reveal_strlit("lifegiver");
            reveal_strlit("nature");
            reveal_strlit("newborn");
            reveal_strlit("spirit");
            reveal_strlit("strength");
            reveal_strlit("sun");
            reveal_strlit("truth");
            reveal_strlit("warrior");
            reveal_strlit("wild");
            reveal_strlit("world");
            lemma_hint_word(pickup_type_name(t), 7);
            assert(ascii_lowercase(pickup_type_name(t).subrange(7, pickup_type_name(t).len() as int)) =~= "jump"@);
            assert("jump"@[0] != "wild"@[0]);
            assert(hint_totem(pickup_type_name(t)) == artifact_totem(t));
        },
        PickupType::IceTrap => {
            reveal_strlit("Ice Trap");
            reveal_strlit("chozo");
            reveal_strlit("elder");
            reveal_strlit("lifegiver");
            reveal_strlit("nature");
            reveal_strlit("newborn");
            reveal_strlit("spirit");
            reveal_strlit("strength");
            reveal_strlit("sun");
            reveal_strlit("trap");
            reveal_strlit("truth");
            reveal_strlit("warrior");
            reveal_strlit("wild");
            reveal_strlit("world");
            lemma_hint_word(pickup_type_name(t), 4);
            assert(ascii_lowercase(pickup_type_name(t).subrange(4, pickup_type_name(t).len() as int)) =~= "trap"@);
            assert("trap"@[0] != "wild"@[0]);
            assert(hint_totem(pickup_type_name(t)) == artifact_totem(t));
        },
    }
}

/// Each totem belongs to one artifact, and every artifact has a totem.
pub proof fn lemma_artifact_totems_distinct(a: PickupType, b: PickupType)
    ensures
        artifact_totem(a) is Some && artifact_totem(a) == artifact_totem(b) ==> a == b,
        artifact_totem(a) matches Some(i) ==> i < TOTEM_COUNT,
        (29 <= pickup_type_kind(a) <= 40) <==> artifact_totem(a) is Some,
{
}

/// The totem named by the last word of an artifact's name, in any case and with white space
/// around it: `"Artifact of Truth"` is for the totem of truth. `None` for any other name.
pub fn artifact_index_from_hint_name(name: &str) -> (r: Option<usize>)
    ensures
        r == hint_totem(name@),
{
    let n = name.unicode_len();
    let mut j: usize = n;
    while j > 0 && name.get_char(j - 1) != ' '
        invariant
            j <= n,
            n == name@.len(),
            forall|k: int| j <= k < n ==> name@[k] != ' ',
        decreases j,
    {
        j = j - 1;
    }
    proof {
        lemma_last_word(name@, j as int);
    }
    let word = name.substring_char(j, n);
    let lower = to_lowercase(trim(word));
    let l = lower.as_str();
    if str_equal(l, "lifegiver") {
        Some(0)
    } else if str_equal(l, "wild") {
        Some(1)
    } else if str_equal(l, "world") {
        Some(2)
    } else if str_equal(l, "sun") {
        Some(3)
    } else if str_equal(l, "elder") {
        Some(4)
    } else if str_equal(l, "spirit") {
        Some(5)
    } else if str_equal(l, "truth") {
        Some(6)
    } else if str_equal(l, "chozo") {
        Some(7)
    } else if str_equal(l, "warrior") {
        Some(8)
    } else if str_equal(l, "newborn") {
        Some(9)
    } else if str_equal(l, "nature") {
        Some(10)
    } else if str_equal(l, "strength") {
        Some(11)
    } else {
        None
    }
}

/// The last word of `s` starts after position `j - 1` when no space follows it and a space,
/// or the start of `s`, precedes it.
pub proof fn lemma_last_word(s: Seq<char>, j: int)
    requires
        0 <= j <= s.len(),
        forall|k: int| j <= k < s.len() ==> s[k] != ' ',
        j == 0 || s[j - 1] == ' ',
    ensures
        last_word(s) == s.subrange(j, s.len() as int),
    decreases s.len(),
{
    if s.len() == j {
        if j == 0 {
            assert(s.subrange(0, 0) =~= s);
        } else {
            assert(s.subrange(j, j) =~= Seq::<char>::empty());
        }
    } else {
        lemma_last_word(s.drop_last(), j);
        assert(s.drop_last().subrange(j, s.len() - 1).push(s.last()) =~= s.subrange(j, s.len() as int));
    }
}

} // verus!
