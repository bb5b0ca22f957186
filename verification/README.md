# randomprime

The pickup, room and script-layer logic of a Metroid Prime randomizer patcher, verified with
Verus.

- `src/pickup_meta.rs`: pickup types and models, their names and engine numbers.
- `src/room_lookup.rs`: the table of rooms and lookups by area id, internal id and name.
- `src/profile.rs`: randomizer profiles and their weight tables.
- `src/scly.rs`: the script layers of a room as the patches see them.
- `src/patches.rs`: the room patches, string-resource patches and banner text.
- `src/totem.rs`: the scan texts of the Artifact Temple totems.
- `src/plan.rs`: the patch plan: which room patches apply to which rooms, for a configuration
  and a version, in the order they are applied.
- `src/text.rs`: string helpers (case folding, trimming, replacing).
- `app/`: what is not verified: JSON profiles and plan choices, serde copies of library types,
  display.

The tests under `tests/` run the library on concrete values.
