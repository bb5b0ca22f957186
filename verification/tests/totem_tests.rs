use rand::rngs::StdRng;
use rand::SeedableRng;
use randomprime::pickup_meta::PickupType;
use randomprime::totem::{
    artifact_index_from_hint_name, build_artifact_temple_totem_scan_strings, totem_scan_texts,
};

const ABSENT: &str = "Artifact not present. This layout may not be completable.\0";

fn layout() -> Vec<(String, PickupType)> {
    vec![
        ("Artifact Temple".to_string(), PickupType::ArtifactOfTruth),
        ("Sunchamber".to_string(), PickupType::ArtifactOfWild),
        ("Main Plaza".to_string(), PickupType::Missile),
        ("Elder Chamber".to_string(), PickupType::ArtifactOfLifegiver),
    ]
}

#[test]
fn hint_names_pick_their_totem() {
    assert_eq!(artifact_index_from_hint_name("Artifact of Lifegiver"), Some(0));
    assert_eq!(artifact_index_from_hint_name("Artifact Of Sun"), Some(3));
    assert_eq!(artifact_index_from_hint_name("Artifact of Truth"), Some(6));
    assert_eq!(artifact_index_from_hint_name("STRENGTH"), Some(11));
    assert_eq!(artifact_index_from_hint_name("artifact of chozo\t"), Some(7));
    assert_eq!(artifact_index_from_hint_name("Artifact of Nothing"), None);
    // the last piece after a trailing space is empty
    assert_eq!(artifact_index_from_hint_name("Artifact of Wild "), None);
}

#[test]
fn totems_without_hints_say_absent() {
    let mut rng = StdRng::seed_from_u64(1234);
    let texts = build_artifact_temple_totem_scan_strings(&layout(), &mut rng, None).unwrap();
    assert_eq!(texts.len(), 12);
    for t in texts.iter() {
        assert_eq!(t, ABSENT);
    }
}

#[test]
fn hints_are_written_on_their_totems() {
    let mut rng = StdRng::seed_from_u64(7);
    let hints = vec![
        ("Artifact of Sun".to_string(), "Look up.".to_string()),
        ("Artifact of Newborn".to_string(), "Under the ice.".to_string()),
        ("Artifact of Sun".to_string(), "Look down.".to_string()),
    ];
    let texts = build_artifact_temple_totem_scan_strings(&layout(), &mut rng, Some(hints)).unwrap();
    assert_eq!(texts[3], "Look down.\0");
    assert_eq!(texts[9], "Under the ice.\0");
    assert_eq!(texts[0], ABSENT);
    assert_eq!(texts[11], ABSENT);
}

#[test]
fn unknown_hint_name_gives_none() {
    let mut rng = StdRng::seed_from_u64(7);
    let hints = vec![("Artifact of Sun".to_string(), "x".to_string()), ("Energy Tank".to_string(), "y".to_string())];
    assert!(build_artifact_temple_totem_scan_strings(&layout(), &mut rng, Some(hints)).is_none());
}

#[test]
fn scan_texts_ignore_template_order() {
    let generic: Vec<String> = (0..12).map(|i| format!("template {} in {{room}}\0", i)).collect();
    let specific = vec!["{pickup} is here.\0".to_string()];
    let texts = totem_scan_texts(&layout(), &generic, specific, None).unwrap();
    assert_eq!(texts, vec![ABSENT.to_string(); 12]);
}
