use randomprime::room_lookup::{room_by_internal_id, room_by_mrea, room_by_name, room_lookup};

#[test]
fn table_has_every_room() {
    let rooms = room_lookup();
    assert_eq!(rooms.len(), 276);
    assert_eq!(rooms[0].room_name, "End Cinema");
    assert_eq!(rooms[0].layer_count, 19);
    assert_eq!(rooms[275].room_name, "Metroid Prime Lair");
}

#[test]
fn lookups_by_ids() {
    let rooms = room_lookup();
    let lair = room_by_mrea(&rooms, 0x1A666C55).unwrap();
    assert_eq!(lair.room_name, "Metroid Prime Lair");
    assert_eq!(lair.region_name, "Impact Crater");
    let hangar = room_by_internal_id(&rooms, 0xC34F20FF).unwrap();
    assert_eq!(hangar.mrea_id, 0xD1241219);
    assert!(room_by_mrea(&rooms, 0).is_none());
    assert!(room_by_internal_id(&rooms, 1).is_none());
    for r in rooms.iter() {
        assert_eq!(room_by_mrea(&rooms, r.mrea_id).unwrap().mrea_id, r.mrea_id);
        assert_eq!(room_by_internal_id(&rooms, r.internal_id).unwrap().internal_id, r.internal_id);
    }
}

#[test]
fn lookup_by_name_keeps_last() {
    let rooms = room_lookup();
    // the frigate has two rooms of this name; the later one wins
    let r = room_by_name(&rooms, "Frigate Orpheon", "Connection Elevator to Deck Beta").unwrap();
    assert_eq!(r.mrea_id, 0x6ED3231B);
    let r = room_by_name(&rooms, "Tallon Overworld", "Connection Elevator to Deck Beta").unwrap();
    assert_eq!(r.mrea_id, 0xE47228EF);
    assert!(room_by_name(&rooms, "Tallon Overworld", "Nowhere").is_none());
}
