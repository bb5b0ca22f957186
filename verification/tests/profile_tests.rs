use randomprime::profile::{Profile, WeightTable};

#[test]
fn new_profile_defaults() {
    let p = Profile::new();
    assert_eq!(p.mpdrp_version, 1);
    assert_eq!(p.seed, 0);
    assert!(p.skip_frigate);
    assert_eq!(p.weights.len(), 5);
    for region in ["Tallon Overworld", "Chozo Ruins", "Magmoor Caverns", "Phendrana Drifts", "Phazon Mines"] {
        assert_eq!(p.weights.get(region), Some([25, 25, 25, 25]));
    }
    assert_eq!(p.weights.get("Impact Crater"), None);
}

#[test]
fn weight_table_insert_replaces() {
    let mut t = WeightTable::new();
    assert_eq!(t.len(), 0);
    t.insert(String::from("Chozo Ruins"), [1, 2, 3, 4]);
    t.insert(String::from("Phazon Mines"), [5, 6, 7, 8]);
    t.insert(String::from("Chozo Ruins"), [9, 9, 9, 9]);
    assert_eq!(t.len(), 2);
    assert_eq!(t.get("Chozo Ruins"), Some([9, 9, 9, 9]));
    assert_eq!(t.get("Phazon Mines"), Some([5, 6, 7, 8]));
    assert_eq!(t.entries().len(), 2);
    assert_eq!(t.entries()[0].0, "Chozo Ruins");
}
