//! The rooms of the game: their area ids, internal ids, layer counts and names, and lookups
//! by each key.

use vstd::prelude::*;
use crate::text::str_equal;

verus! {

/// One room of the game.
#[derive(Copy, Clone, Debug)]
pub struct RoomLookup {
    pub mrea_id: u32,
    pub internal_id: u32,
    pub _area_index: u32,
    pub layer_count: u32,
    pub region_name: &'static str,
    pub room_name: &'static str,
}

/// The room at place `k` of the table of every room, region by region.
pub open spec fn room_at(k: int) -> RoomLookup {
    if k == 0 {
        RoomLookup {
            mrea_id: 0xB4B41C48,
            internal_id: 0x2084E568,
            _area_index: 0,
            layer_count: 19,
            region_name: "End Cinema",
            room_name: "End Cinema",
        }
    } else if k == 1 {
        RoomLookup {
            mrea_id: 0xD1241219,
            internal_id: 0xC34F20FF,
            _area_index: 0,
            layer_count: 5,
            region_name: "Frigate Orpheon",
            room_name: "Exterior Docking Hangar",
        }
    } else if k == 2 {
        RoomLookup {
            mrea_id: 0x07640602,
            internal_id: 0xAE68F0CF,
            _area_index: 1,
            layer_count: 3,
            region_name: "Frigate Orpheon",
            room_name: "Air Lock",
        }
    } else if k == 3 {
        RoomLookup {
            mrea_id: 0x624F493A,
            internal_id: 0x5A332264,
            _area_index: 2,
            layer_count: 1,
            region_name: "Frigate Orpheon",
            room_name: "Deck Alpha Access Hall",
        }
    } else if k == 4 {
        RoomLookup {
            mrea_id: 0xC8971E99,
            internal_id: 0x9A48973E,
            _area_index: 3,
            layer_count: 1,
            region_name: "Frigate Orpheon",
            room_name: "Deck Alpha Mech Shaft",
        }
    } else if k == 5 {
        RoomLookup {
            mrea_id: 0x20E48216,
            internal_id: 0x68E253D2,
            _area_index: 4,
            layer_count: 2,
            region_name: "Frigate Orpheon",
            room_name: "Emergency Evacuation Area",
        }
    } else if k == 6 {
        RoomLookup {
            mrea_id: 0xAE1EC8BD,
            internal_id: 0xB0134DF2,
            _area_index: 5,
            layer_count: 2,
            region_name: "Frigate Orpheon",
            room_name: "Connection Elevator to Deck Alpha",
        }
    } else if k == 7 {
        RoomLookup {
            mrea_id: 0xEE21C026,
            internal_id: 0xB5735576,
            _area_index: 6,
            layer_count: 1,
            region_name: "Frigate Orpheon",
            room_name: "Deck Alpha Umbilical Hall",
        }
    } else if k == 8 {
        RoomLookup {
            mrea_id: 0xC5DE3C06,
            internal_id: 0xCEE4F1C8,
            _area_index: 7,
            layer_count: 2,
            region_name: "Frigate Orpheon",
            room_name: "Biotech Research Area 2",
        }
    } else if k == 9 {
        RoomLookup {
            mrea_id: 0xCDE604F0,
            internal_id: 0xA3049BAD,
            _area_index: 8,
            layer_count: 1,
            region_name: "Frigate Orpheon",
            room_name: "Map Facility",
        }
    } else if k == 10 {
        RoomLookup {
            mrea_id: 0x1055715C,
            internal_id: 0x796AD968,
            _area_index: 9,
            layer_count: 1,
            region_name: "Frigate Orpheon",
            room_name: "Main Ventilation Shaft Section F",
        }
    } else if k == 11 {
        RoomLookup {
            mrea_id: 0x31C44B23,
            internal_id: 0x95CDA510,
            _area_index: 10,
            layer_count: 1,
            region_name: "Frigate Orpheon",
            room_name: "Connection Elevator to Deck Beta",
        }
    } else if k == 12 {
        RoomLookup {
            mrea_id: 0x292DDC1C,
            internal_id: 0xE13DEC29,
            _area_index: 11,
            layer_count: 1,
            region_name: "Frigate Orpheon",
            room_name: "Main Ventilation Shaft Section E",
        }
    } else if k == 13 {
        RoomLookup {
            mrea_id: 0xA8813FB6,
            internal_id: 0xF4160CEA,
            _area_index: 12,
            layer_count: 1,
            region_name: "Frigate Orpheon",
            room_name: "Deck Beta Conduit Hall",
        }
    } else if k == 14 {
        RoomLookup {
            mrea_id: 0x3E05B8DC,
            internal_id: 0x96F0FF16,
            _area_index: 13,
            layer_count: 1,
            region_name: "Frigate Orpheon",
            room_name: "Main Ventilation Shaft Section D",
        }
    } else if k == 15 {
        RoomLookup {
            mrea_id: 0x85578E54,
            internal_id: 0x9ABB98C6,
            _area_index: 14,
            layer_count: 2,
            region_name: "Frigate Orpheon",
            room_name: "Biotech Research Area 1",
        }
    } else if k == 16 {
        RoomLookup {
            mrea_id: 0x5BDC869C,
            internal_id: 0x0AE280EA,
            _area_index: 15,
            layer_count: 1,
            region_name: "Frigate Orpheon",
            room_name: "Main Ventilation Shaft Section C",
        }
    } else if k == 17 {
        RoomLookup {
            mrea_id: 0x49C59925,
            internal_id: 0x8A1AEE7E,
            _area_index: 16,
            layer_count: 1,
            region_name: "Frigate Orpheon",
            room_name: "Deck Beta Security Hall",
        }
    } else if k == 18 {
        RoomLookup {
            mrea_id: 0x6ED3231B,
            internal_id: 0x05289664,
            _area_index: 10,
            layer_count: 1,
            region_name: "Frigate Orpheon",
            room_name: "Connection Elevator to Deck Beta",
        }
    } else if k == 19 {
        RoomLookup {
            mrea_id: 0x093500E4,
            internal_id: 0xDF5E9BC0,
            _area_index: 18,
            layer_count: 1,
            region_name: "Frigate Orpheon",
            room_name: "Subventilation Shaft Section A",
        }
    } else if k == 20 {
        RoomLookup {
            mrea_id: 0x4CF4E25C,
            internal_id: 0x7D2F93D5,
            _area_index: 19,
            layer_count: 1,
            region_name: "Frigate Orpheon",
            room_name: "Main Ventilation Shaft Section B",
        }
    } else if k == 21 {
        RoomLookup {
            mrea_id: 0xD16B26D0,
            internal_id: 0x1A2D47EE,
            _area_index: 20,
            layer_count: 2,
            region_name: "Frigate Orpheon",
            room_name: "Biohazard Containment",
        }
    } else if k == 22 {
        RoomLookup {
            mrea_id: 0xE667B605,
            internal_id: 0x6E0AC070,
            _area_index: 21,
            layer_count: 1,
            region_name: "Frigate Orpheon",
            room_name: "Deck Gamma Monitor Hall",
        }
    } else if k == 23 {
        RoomLookup {
            mrea_id: 0xC0BBB28A,
            internal_id: 0xDFD494A8,
            _area_index: 22,
            layer_count: 1,
            region_name: "Frigate Orpheon",
            room_name: "Subventilation Shaft Section B",
        }
    } else if k == 24 {
        RoomLookup {
            mrea_id: 0x758C4F1C,
            internal_id: 0xE578A694,
            _area_index: 23,
            layer_count: 1,
            region_name: "Frigate Orpheon",
            room_name: "Main Ventilation Shaft Section A",
        }
    } else if k == 25 {
        RoomLookup {
            mrea_id: 0x2CA2A263,
            internal_id: 0xDD087939,
            _area_index: 24,
            layer_count: 1,
            region_name: "Frigate Orpheon",
            room_name: "Deck Beta Transit Hall",
        }
    } else if k == 26 {
        RoomLookup {
            mrea_id: 0x87452DC1,
            internal_id: 0xB22C4E90,
            _area_index: 25,
            layer_count: 3,
            region_name: "Frigate Orpheon",
            room_name: "Reactor Core",
        }
    } else if k == 27 {
        RoomLookup {
            mrea_id: 0x6FF0FD62,
            internal_id: 0xBAE54D64,
            _area_index: 26,
            layer_count: 3,
            region_name: "Frigate Orpheon",
            room_name: "Cargo Freight Lift to Deck Gamma",
        }
    } else if k == 28 {
        RoomLookup {
            mrea_id: 0x3EA190EE,
            internal_id: 0xDE9A4E18,
            _area_index: 27,
            layer_count: 2,
            region_name: "Frigate Orpheon",
            room_name: "Reactor Core Entrance",
        }
    } else if k == 29 {
        RoomLookup {
            mrea_id: 0x3E6B2BB7,
            internal_id: 0xDBED08BA,
            _area_index: 0,
            layer_count: 2,
            region_name: "Chozo Ruins",
            room_name: "Transport to Tallon Overworld North",
        }
    } else if k == 30 {
        RoomLookup {
            mrea_id: 0xB7F1952A,
            internal_id: 0x3850211A,
            _area_index: 1,
            layer_count: 3,
            region_name: "Chozo Ruins",
            room_name: "Ruins Entrance",
        }
    } else if k == 31 {
        RoomLookup {
            mrea_id: 0xD5CDB809,
            internal_id: 0x6656AABE,
            _area_index: 2,
            layer_count: 5,
            region_name: "Chozo Ruins",
            room_name: "Main Plaza",
        }
    } else if k == 32 {
        RoomLookup {
            mrea_id: 0x560DBE38,
            internal_id: 0xF45C3943,
            _area_index: 3,
            layer_count: 1,
            region_name: "Chozo Ruins",
            room_name: "Ruined Fountain Access",
        }
    } else if k == 33 {
        RoomLookup {
            mrea_id: 0xDF746AE0,
            internal_id: 0xADB1CC68,
            _area_index: 4,
            layer_count: 1,
            region_name: "Chozo Ruins",
            room_name: "Ruined Shrine Access",
        }
    } else if k == 34 {
        RoomLookup {
            mrea_id: 0x092D89FD,
            internal_id: 0x85C58EC0,
            _area_index: 5,
            layer_count: 3,
            region_name: "Chozo Ruins",
            room_name: "Nursery Access",
        }
    } else if k == 35 {
        RoomLookup {
            mrea_id: 0x53359457,
            internal_id: 0x32FEAA13,
            _area_index: 6,
            layer_count: 1,
            region_name: "Chozo Ruins",
            room_name: "Plaza Access",
        }
    } else if k == 36 {
        RoomLookup {
            mrea_id: 0x2B3F1CEE,
            internal_id: 0xC8F9A1BE,
            _area_index: 7,
            layer_count: 1,
            region_name: "Chozo Ruins",
            room_name: "Piston Tunnel",
        }
    } else if k == 37 {
        RoomLookup {
            mrea_id: 0x165A4DE9,
            internal_id: 0xB73FCF79,
            _area_index: 8,
            layer_count: 3,
            region_name: "Chozo Ruins",
            room_name: "Ruined Fountain",
        }
    } else if k == 38 {
        RoomLookup {
            mrea_id: 0x3C785450,
            internal_id: 0x59593237,
            _area_index: 9,
            layer_count: 5,
            region_name: "Chozo Ruins",
            room_name: "Ruined Shrine",
        }
    } else if k == 39 {
        RoomLookup {
            mrea_id: 0xCB1E8A0B,
            internal_id: 0x52C34364,
            _area_index: 10,
            layer_count: 1,
            region_name: "Chozo Ruins",
            room_name: "Eyon Tunnel",
        }
    } else if k == 40 {
        RoomLookup {
            mrea_id: 0xEF069019,
            internal_id: 0xC4CC2110,
            _area_index: 11,
            layer_count: 1,
            region_name: "Chozo Ruins",
            room_name: "Vault",
        }
    } else if k == 41 {
        RoomLookup {
            mrea_id: 0x3F04F304,
            internal_id: 0x9F2FA381,
            _area_index: 12,
            layer_count: 3,
            region_name: "Chozo Ruins",
            room_name: "Training Chamber",
        }
    } else if k == 42 {
        RoomLookup {
            mrea_id: 0x870B0525,
            internal_id: 0x8F6534FF,
            _area_index: 13,
            layer_count: 1,
            region_name: "Chozo Ruins",
            room_name: "Arboretum Access",
        }
    } else if k == 43 {
        RoomLookup {
            mrea_id: 0x282B16B4,
            internal_id: 0xD0BFE7BE,
            _area_index: 14,
            layer_count: 3,
            region_name: "Chozo Ruins",
            room_name: "Meditation Fountain",
        }
    } else if k == 44 {
        RoomLookup {
            mrea_id: 0x59E0184E,
            internal_id: 0xB98BED3C,
            _area_index: 15,
            layer_count: 1,
            region_name: "Chozo Ruins",
            room_name: "Tower of Light Access",
        }
    } else if k == 45 {
        RoomLookup {
            mrea_id: 0xC2576E4D,
            internal_id: 0xDE6AAF50,
            _area_index: 16,
            layer_count: 1,
            region_name: "Chozo Ruins",
            room_name: "Ruined Nursery",
        }
    } else if k == 46 {
        RoomLookup {
            mrea_id: 0xA5089191,
            internal_id: 0x2D0D3708,
            _area_index: 17,
            layer_count: 1,
            region_name: "Chozo Ruins",
            room_name: "Vault Access",
        }
    } else if k == 47 {
        RoomLookup {
            mrea_id: 0x18D186BB,
            internal_id: 0x678AF25B,
            _area_index: 18,
            layer_count: 1,
            region_name: "Chozo Ruins",
            room_name: "Training Chamber Access",
        }
    } else if k == 48 {
        RoomLookup {
            mrea_id: 0x18AB6106,
            internal_id: 0x29AFCCC6,
            _area_index: 19,
            layer_count: 5,
            region_name: "Chozo Ruins",
            room_name: "Arboretum",
        }
    } else if k == 49 {
        RoomLookup {
            mrea_id: 0x491BFABA,
            internal_id: 0xBF54765D,
            _area_index: 20,
            layer_count: 2,
            region_name: "Chozo Ruins",
            room_name: "Magma Pool",
        }
    } else if k == 50 {
        RoomLookup {
            mrea_id: 0x0D72F1F7,
            internal_id: 0xA1AE2B03,
            _area_index: 21,
            layer_count: 2,
            region_name: "Chozo Ruins",
            room_name: "Tower of Light",
        }
    } else if k == 51 {
        RoomLookup {
            mrea_id: 0x1D5E482C,
            internal_id: 0x66D6F156,
            _area_index: 22,
            layer_count: 3,
            region_name: "Chozo Ruins",
            room_name: "Save Station 1",
        }
    } else if k == 52 {
        RoomLookup {
            mrea_id: 0x46295CA0,
            internal_id: 0x5DDB6EA0,
            _area_index: 23,
            layer_count: 1,
            region_name: "Chozo Ruins",
            room_name: "North Atrium",
        }
    } else if k == 53 {
        RoomLookup {
            mrea_id: 0x8316EDF5,
            internal_id: 0x372F1027,
            _area_index: 24,
            layer_count: 1,
            region_name: "Chozo Ruins",
            room_name: "Transport to Magmoor Caverns North",
        }
    } else if k == 54 {
        RoomLookup {
            mrea_id: 0x3D238FCD,
            internal_id: 0x4D30DE7F,
            _area_index: 25,
            layer_count: 2,
            region_name: "Chozo Ruins",
            room_name: "Sunchamber Lobby",
        }
    } else if k == 55 {
        RoomLookup {
            mrea_id: 0x95F2019E,
            internal_id: 0x9A3822ED,
            _area_index: 26,
            layer_count: 1,
            region_name: "Chozo Ruins",
            room_name: "Gathering Hall Access",
        }
    } else if k == 56 {
        RoomLookup {
            mrea_id: 0x11BD63B7,
            internal_id: 0x5225F6B8,
            _area_index: 27,
            layer_count: 1,
            region_name: "Chozo Ruins",
            room_name: "Tower Chamber",
        }
    } else if k == 57 {
        RoomLookup {
            mrea_id: 0xE34FD92B,
            internal_id: 0xBBEE2E4F,
            _area_index: 28,
            layer_count: 3,
            region_name: "Chozo Ruins",
            room_name: "Ruined Gallery",
        }
    } else if k == 58 {
        RoomLookup {
            mrea_id: 0xDE161372,
            internal_id: 0xCF4C7AA5,
            _area_index: 29,
            layer_count: 2,
            region_name: "Chozo Ruins",
            room_name: "Sun Tower",
        }
    } else if k == 59 {
        RoomLookup {
            mrea_id: 0x3AD2120F,
            internal_id: 0xC5E2F1AC,
            _area_index: 30,
            layer_count: 1,
            region_name: "Chozo Ruins",
            room_name: "Transport Access North",
        }
    } else if k == 60 {
        RoomLookup {
            mrea_id: 0x54C40995,
            internal_id: 0xBA2C85C0,
            _area_index: 31,
            layer_count: 1,
            region_name: "Chozo Ruins",
            room_name: "Sunchamber Access",
        }
    } else if k == 61 {
        RoomLookup {
            mrea_id: 0x47E73BC5,
            internal_id: 0xE1A2B7A0,
            _area_index: 32,
            layer_count: 3,
            region_name: "Chozo Ruins",
            room_name: "Gathering Hall",
        }
    } else if k == 62 {
        RoomLookup {
            mrea_id: 0xEA8A4073,
            internal_id: 0x88045571,
            _area_index: 33,
            layer_count: 3,
            region_name: "Chozo Ruins",
            room_name: "Totem Access",
        }
    } else if k == 63 {
        RoomLookup {
            mrea_id: 0x1A5B2E16,
            internal_id: 0x8FE4082D,
            _area_index: 34,
            layer_count: 3,
            region_name: "Chozo Ruins",
            room_name: "Map Station",
        }
    } else if k == 64 {
        RoomLookup {
            mrea_id: 0x41CC90EC,
            internal_id: 0x27A3BC01,
            _area_index: 35,
            layer_count: 3,
            region_name: "Chozo Ruins",
            room_name: "Sun Tower Access",
        }
    } else if k == 65 {
        RoomLookup {
            mrea_id: 0xC8309DF6,
            internal_id: 0xF08D4DB1,
            _area_index: 36,
            layer_count: 5,
            region_name: "Chozo Ruins",
            room_name: "Hive Totem",
        }
    } else if k == 66 {
        RoomLookup {
            mrea_id: 0x9A0A03EB,
            internal_id: 0xF262C1EA,
            _area_index: 37,
            layer_count: 7,
            region_name: "Chozo Ruins",
            room_name: "Sunchamber",
        }
    } else if k == 67 {
        RoomLookup {
            mrea_id: 0xEEEC837D,
            internal_id: 0x78796F40,
            _area_index: 38,
            layer_count: 3,
            region_name: "Chozo Ruins",
            room_name: "Watery Hall Access",
        }
    } else if k == 68 {
        RoomLookup {
            mrea_id: 0xF7D8954E,
            internal_id: 0x266493A1,
            _area_index: 39,
            layer_count: 1,
            region_name: "Chozo Ruins",
            room_name: "Save Station 2",
        }
    } else if k == 69 {
        RoomLookup {
            mrea_id: 0x713600E3,
            internal_id: 0x9096A9E4,
            _area_index: 40,
            layer_count: 1,
            region_name: "Chozo Ruins",
            room_name: "East Atrium",
        }
    } else if k == 70 {
        RoomLookup {
            mrea_id: 0x492CBF4A,
            internal_id: 0x42C471B8,
            _area_index: 41,
            layer_count: 3,
            region_name: "Chozo Ruins",
            room_name: "Watery Hall",
        }
    } else if k == 71 {
        RoomLookup {
            mrea_id: 0x463D0D2E,
            internal_id: 0xAF7193D2,
            _area_index: 42,
            layer_count: 1,
            region_name: "Chozo Ruins",
            room_name: "Energy Core Access",
        }
    } else if k == 72 {
        RoomLookup {
            mrea_id: 0x0F403B07,
            internal_id: 0x17F49345,
            _area_index: 43,
            layer_count: 1,
            region_name: "Chozo Ruins",
            room_name: "Dynamo Access",
        }
    } else if k == 73 {
        RoomLookup {
            mrea_id: 0xC9D52BBC,
            internal_id: 0x1F1E23E8,
            _area_index: 44,
            layer_count: 3,
            region_name: "Chozo Ruins",
            room_name: "Energy Core",
        }
    } else if k == 74 {
        RoomLookup {
            mrea_id: 0x04D6C285,
            internal_id: 0xB3E2522B,
            _area_index: 45,
            layer_count: 1,
            region_name: "Chozo Ruins",
            room_name: "Dynamo",
        }
    } else if k == 75 {
        RoomLookup {
            mrea_id: 0xEF7EB590,
            internal_id: 0x0C0A9627,
            _area_index: 46,
            layer_count: 1,
            region_name: "Chozo Ruins",
            room_name: "Burn Dome Access",
        }
    } else if k == 76 {
        RoomLookup {
            mrea_id: 0xC2715A58,
            internal_id: 0x3F036C33,
            _area_index: 47,
            layer_count: 1,
            region_name: "Chozo Ruins",
            room_name: "West Furnace Access",
        }
    } else if k == 77 {
        RoomLookup {
            mrea_id: 0x4148F7B0,
            internal_id: 0xE559824C,
            _area_index: 48,
            layer_count: 3,
            region_name: "Chozo Ruins",
            room_name: "Burn Dome",
        }
    } else if k == 78 {
        RoomLookup {
            mrea_id: 0x2E318473,
            internal_id: 0xF2A7E5B2,
            _area_index: 49,
            layer_count: 3,
            region_name: "Chozo Ruins",
            room_name: "Furnace",
        }
    } else if k == 79 {
        RoomLookup {
            mrea_id: 0x44E528F6,
            internal_id: 0x2B394D67,
            _area_index: 50,
            layer_count: 1,
            region_name: "Chozo Ruins",
            room_name: "East Furnace Access",
        }
    } else if k == 80 {
        RoomLookup {
            mrea_id: 0xD9E78EB0,
            internal_id: 0x479E5576,
            _area_index: 51,
            layer_count: 1,
            region_name: "Chozo Ruins",
            room_name: "Crossway Access West",
        }
    } else if k == 81 {
        RoomLookup {
            mrea_id: 0xFB54A0CB,
            internal_id: 0xD4F7F4CC,
            _area_index: 52,
            layer_count: 5,
            region_name: "Chozo Ruins",
            room_name: "Hall of the Elders",
        }
    } else if k == 82 {
        RoomLookup {
            mrea_id: 0x13FFF119,
            internal_id: 0x289146C1,
            _area_index: 53,
            layer_count: 2,
            region_name: "Chozo Ruins",
            room_name: "Crossway",
        }
    } else if k == 83 {
        RoomLookup {
            mrea_id: 0x9D516D9D,
            internal_id: 0x4E9ADBB0,
            _area_index: 54,
            layer_count: 1,
            region_name: "Chozo Ruins",
            room_name: "Reflecting Pool Access",
        }
    } else if k == 84 {
        RoomLookup {
            mrea_id: 0xE1CE5BD1,
            internal_id: 0x0369134E,
            _area_index: 55,
            layer_count: 3,
            region_name: "Chozo Ruins",
            room_name: "Elder Hall Access",
        }
    } else if k == 85 {
        RoomLookup {
            mrea_id: 0x675A297F,
            internal_id: 0xF75D445D,
            _area_index: 56,
            layer_count: 1,
            region_name: "Chozo Ruins",
            room_name: "Crossway Access South",
        }
    } else if k == 86 {
        RoomLookup {
            mrea_id: 0xE1981EFC,
            internal_id: 0x0439F4EF,
            _area_index: 57,
            layer_count: 1,
            region_name: "Chozo Ruins",
            room_name: "Elder Chamber",
        }
    } else if k == 87 {
        RoomLookup {
            mrea_id: 0x361ECAAC,
            internal_id: 0x7C7AEA92,
            _area_index: 58,
            layer_count: 4,
            region_name: "Chozo Ruins",
            room_name: "Reflecting Pool",
        }
    } else if k == 88 {
        RoomLookup {
            mrea_id: 0x188A23AF,
            internal_id: 0xAF25B033,
            _area_index: 59,
            layer_count: 1,
            region_name: "Chozo Ruins",
            room_name: "Save Station 3",
        }
    } else if k == 89 {
        RoomLookup {
            mrea_id: 0xA2F90C53,
            internal_id: 0xA5DF18DB,
            _area_index: 60,
            layer_count: 1,
            region_name: "Chozo Ruins",
            room_name: "Transport Access South",
        }
    } else if k == 90 {
        RoomLookup {
            mrea_id: 0xAFEFE677,
            internal_id: 0x01F1977C,
            _area_index: 61,
            layer_count: 1,
            region_name: "Chozo Ruins",
            room_name: "Antechamber",
        }
    } else if k == 91 {
        RoomLookup {
            mrea_id: 0xA5FA69A1,
            internal_id: 0xC705A398,
            _area_index: 62,
            layer_count: 1,
            region_name: "Chozo Ruins",
            room_name: "Transport to Tallon Overworld East",
        }
    } else if k == 92 {
        RoomLookup {
            mrea_id: 0x236E1B0F,
            internal_id: 0x23F35FE1,
            _area_index: 63,
            layer_count: 1,
            region_name: "Chozo Ruins",
            room_name: "Transport to Tallon Overworld South",
        }
    } else if k == 93 {
        RoomLookup {
            mrea_id: 0xC00E3781,
            internal_id: 0xB2E861AC,
            _area_index: 0,
            layer_count: 2,
            region_name: "Phendrana Drifts",
            room_name: "Transport to Magmoor Caverns West",
        }
    } else if k == 94 {
        RoomLookup {
            mrea_id: 0xC4107CD7,
            internal_id: 0xEE36BA52,
            _area_index: 1,
            layer_count: 2,
            region_name: "Phendrana Drifts",
            room_name: "Shoreline Entrance",
        }
    } else if k == 95 {
        RoomLookup {
            mrea_id: 0xF7285979,
            internal_id: 0x27E29EB5,
            _area_index: 2,
            layer_count: 6,
            region_name: "Phendrana Drifts",
            room_name: "Phendrana Shorelines",
        }
    } else if k == 96 {
        RoomLookup {
            mrea_id: 0x85D9F399,
            internal_id: 0x47EFDA6F,
            _area_index: 3,
            layer_count: 3,
            region_name: "Phendrana Drifts",
            room_name: "Temple Entryway",
        }
    } else if k == 97 {
        RoomLookup {
            mrea_id: 0x0581699D,
            internal_id: 0x9E8FA3C4,
            _area_index: 4,
            layer_count: 1,
            region_name: "Phendrana Drifts",
            room_name: "Save Station B",
        }
    } else if k == 98 {
        RoomLookup {
            mrea_id: 0x3C13643A,
            internal_id: 0xD5972FA5,
            _area_index: 5,
            layer_count: 5,
            region_name: "Phendrana Drifts",
            room_name: "Ruins Entryway",
        }
    } else if k == 99 {
        RoomLookup {
            mrea_id: 0xC8115292,
            internal_id: 0xBA8FAC6C,
            _area_index: 6,
            layer_count: 5,
            region_name: "Phendrana Drifts",
            room_name: "Plaza Walkway",
        }
    } else if k == 100 {
        RoomLookup {
            mrea_id: 0x4E85203C,
            internal_id: 0xD4E7624E,
            _area_index: 7,
            layer_count: 4,
            region_name: "Phendrana Drifts",
            room_name: "Ice Ruins Access",
        }
    } else if k == 101 {
        RoomLookup {
            mrea_id: 0x6655F51E,
            internal_id: 0xCB2D7AE0,
            _area_index: 8,
            layer_count: 4,
            region_name: "Phendrana Drifts",
            room_name: "Chozo Ice Temple",
        }
    } else if k == 102 {
        RoomLookup {
            mrea_id: 0xB33A0620,
            internal_id: 0xC1E8B524,
            _area_index: 9,
            layer_count: 3,
            region_name: "Phendrana Drifts",
            room_name: "Ice Ruins West",
        }
    } else if k == 103 {
        RoomLookup {
            mrea_id: 0xDAFCC26F,
            internal_id: 0x5F9D4CD7,
            _area_index: 10,
            layer_count: 3,
            region_name: "Phendrana Drifts",
            room_name: "Ice Ruins East",
        }
    } else if k == 104 {
        RoomLookup {
            mrea_id: 0xEF674B4C,
            internal_id: 0x997591BC,
            _area_index: 11,
            layer_count: 1,
            region_name: "Phendrana Drifts",
            room_name: "Chapel Tunnel",
        }
    } else if k == 105 {
        RoomLookup {
            mrea_id: 0xCFB8ABD1,
            internal_id: 0x46F4DE51,
            _area_index: 12,
            layer_count: 1,
            region_name: "Phendrana Drifts",
            room_name: "Courtyard Entryway",
        }
    } else if k == 106 {
        RoomLookup {
            mrea_id: 0x034D8137,
            internal_id: 0x2987144D,
            _area_index: 13,
            layer_count: 4,
            region_name: "Phendrana Drifts",
            room_name: "Canyon Entryway",
        }
    } else if k == 107 {
        RoomLookup {
            mrea_id: 0x40C548E9,
            internal_id: 0x9458A4D2,
            _area_index: 14,
            layer_count: 2,
            region_name: "Phendrana Drifts",
            room_name: "Chapel of the Elders",
        }
    } else if k == 108 {
        RoomLookup {
            mrea_id: 0x1921876D,
            internal_id: 0x4303C1B2,
            _area_index: 15,
            layer_count: 6,
            region_name: "Phendrana Drifts",
            room_name: "Ruined Courtyard",
        }
    } else if k == 109 {
        RoomLookup {
            mrea_id: 0xA20A7455,
            internal_id: 0xD9BB2AAB,
            _area_index: 16,
            layer_count: 1,
            region_name: "Phendrana Drifts",
            room_name: "Phendrana Canyon",
        }
    } else if k == 110 {
        RoomLookup {
            mrea_id: 0x5694A06B,
            internal_id: 0xC025E629,
            _area_index: 17,
            layer_count: 1,
            region_name: "Phendrana Drifts",
            room_name: "Save Station A",
        }
    } else if k == 111 {
        RoomLookup {
            mrea_id: 0xD341D2DB,
            internal_id: 0x64C37415,
            _area_index: 18,
            layer_count: 4,
            region_name: "Phendrana Drifts",
            room_name: "Specimen Storage",
        }
    } else if k == 112 {
        RoomLookup {
            mrea_id: 0xEAB320CF,
            internal_id: 0x20AC209D,
            _area_index: 19,
            layer_count: 3,
            region_name: "Phendrana Drifts",
            room_name: "Quarantine Access",
        }
    } else if k == 113 {
        RoomLookup {
            mrea_id: 0xB51FCE29,
            internal_id: 0x14F1AE87,
            _area_index: 20,
            layer_count: 7,
            region_name: "Phendrana Drifts",
            room_name: "Research Entrance",
        }
    } else if k == 114 {
        RoomLookup {
            mrea_id: 0x05E1962E,
            internal_id: 0x91F87B2D,
            _area_index: 21,
            layer_count: 1,
            region_name: "Phendrana Drifts",
            room_name: "North Quarantine Tunnel",
        }
    } else if k == 115 {
        RoomLookup {
            mrea_id: 0x83151B33,
            internal_id: 0xAFCAE029,
            _area_index: 22,
            layer_count: 1,
            region_name: "Phendrana Drifts",
            room_name: "Map Station",
        }
    } else if k == 116 {
        RoomLookup {
            mrea_id: 0x3947E047,
            internal_id: 0xB6355C87,
            _area_index: 23,
            layer_count: 2,
            region_name: "Phendrana Drifts",
            room_name: "Hydra Lab Entryway",
        }
    } else if k == 117 {
        RoomLookup {
            mrea_id: 0x70181194,
            internal_id: 0xDB4D2B00,
            _area_index: 24,
            layer_count: 5,
            region_name: "Phendrana Drifts",
            room_name: "Quarantine Cave",
        }
    } else if k == 118 {
        RoomLookup {
            mrea_id: 0x43E4CC25,
            internal_id: 0x0EA3412A,
            _area_index: 25,
            layer_count: 5,
            region_name: "Phendrana Drifts",
            room_name: "Research Lab Hydra",
        }
    } else if k == 119 {
        RoomLookup {
            mrea_id: 0x0035FDAD,
            internal_id: 0x2821CA0C,
            _area_index: 26,
            layer_count: 1,
            region_name: "Phendrana Drifts",
            room_name: "South Quarantine Tunnel",
        }
    } else if k == 120 {
        RoomLookup {
            mrea_id: 0x2191A05D,
            internal_id: 0xB74243C2,
            _area_index: 27,
            layer_count: 1,
            region_name: "Phendrana Drifts",
            room_name: "Quarantine Monitor",
        }
    } else if k == 121 {
        RoomLookup {
            mrea_id: 0x37BBB33C,
            internal_id: 0x7D554BA6,
            _area_index: 28,
            layer_count: 3,
            region_name: "Phendrana Drifts",
            room_name: "Observatory Access",
        }
    } else if k == 122 {
        RoomLookup {
            mrea_id: 0xDD0B0739,
            internal_id: 0x31D08ACB,
            _area_index: 29,
            layer_count: 1,
            region_name: "Phendrana Drifts",
            room_name: "Transport to Magmoor Caverns South",
        }
    } else if k == 123 {
        RoomLookup {
            mrea_id: 0x3FB4A34E,
            internal_id: 0x7E5F6217,
            _area_index: 30,
            layer_count: 3,
            region_name: "Phendrana Drifts",
            room_name: "Observatory",
        }
    } else if k == 124 {
        RoomLookup {
            mrea_id: 0xD695B958,
            internal_id: 0xDD1AC534,
            _area_index: 31,
            layer_count: 1,
            region_name: "Phendrana Drifts",
            room_name: "Transport Access",
        }
    } else if k == 125 {
        RoomLookup {
            mrea_id: 0x1E48B18F,
            internal_id: 0x665E3028,
            _area_index: 32,
            layer_count: 3,
            region_name: "Phendrana Drifts",
            room_name: "West Tower Entrance",
        }
    } else if k == 126 {
        RoomLookup {
            mrea_id: 0x715C31EE,
            internal_id: 0xFB01A2DF,
            _area_index: 33,
            layer_count: 1,
            region_name: "Phendrana Drifts",
            room_name: "Save Station D",
        }
    } else if k == 127 {
        RoomLookup {
            mrea_id: 0xD79EE805,
            internal_id: 0x88EBDFAC,
            _area_index: 34,
            layer_count: 3,
            region_name: "Phendrana Drifts",
            room_name: "Frozen Pike",
        }
    } else if k == 128 {
        RoomLookup {
            mrea_id: 0xD79D6B9F,
            internal_id: 0x7EA7EBC4,
            _area_index: 35,
            layer_count: 2,
            region_name: "Phendrana Drifts",
            room_name: "West Tower",
        }
    } else if k == 129 {
        RoomLookup {
            mrea_id: 0x760E731A,
            internal_id: 0x938EA87D,
            _area_index: 36,
            layer_count: 1,
            region_name: "Phendrana Drifts",
            room_name: "Pike Access",
        }
    } else if k == 130 {
        RoomLookup {
            mrea_id: 0x39C70FB9,
            internal_id: 0x6C4E9E84,
            _area_index: 37,
            layer_count: 2,
            region_name: "Phendrana Drifts",
            room_name: "Frost Cave Access",
        }
    } else if k == 131 {
        RoomLookup {
            mrea_id: 0x20EA1D30,
            internal_id: 0xF7A085E1,
            _area_index: 38,
            layer_count: 1,
            region_name: "Phendrana Drifts",
            room_name: "Hunter Cave Access",
        }
    } else if k == 132 {
        RoomLookup {
            mrea_id: 0xB3C33249,
            internal_id: 0xE5F4B66E,
            _area_index: 39,
            layer_count: 8,
            region_name: "Phendrana Drifts",
            room_name: "Control Tower",
        }
    } else if k == 133 {
        RoomLookup {
            mrea_id: 0xA49B2544,
            internal_id: 0x77AD2910,
            _area_index: 40,
            layer_count: 3,
            region_name: "Phendrana Drifts",
            room_name: "Research Core",
        }
    } else if k == 134 {
        RoomLookup {
            mrea_id: 0x4C6F7773,
            internal_id: 0xC91D48C5,
            _area_index: 41,
            layer_count: 3,
            region_name: "Phendrana Drifts",
            room_name: "Frost Cave",
        }
    } else if k == 135 {
        RoomLookup {
            mrea_id: 0x1EC7951A,
            internal_id: 0xD28A57CF,
            _area_index: 42,
            layer_count: 3,
            region_name: "Phendrana Drifts",
            room_name: "Hunter Cave",
        }
    } else if k == 136 {
        RoomLookup {
            mrea_id: 0x51091931,
            internal_id: 0x0CEA2747,
            _area_index: 43,
            layer_count: 1,
            region_name: "Phendrana Drifts",
            room_name: "East Tower",
        }
    } else if k == 137 {
        RoomLookup {
            mrea_id: 0xD8E905DD,
            internal_id: 0xCC011016,
            _area_index: 44,
            layer_count: 3,
            region_name: "Phendrana Drifts",
            room_name: "Research Core Access",
        }
    } else if k == 138 {
        RoomLookup {
            mrea_id: 0xCEDDBA38,
            internal_id: 0x389C60A0,
            _area_index: 45,
            layer_count: 1,
            region_name: "Phendrana Drifts",
            room_name: "Save Station C",
        }
    } else if k == 139 {
        RoomLookup {
            mrea_id: 0x253E76B3,
            internal_id: 0x4E7934C0,
            _area_index: 46,
            layer_count: 1,
            region_name: "Phendrana Drifts",
            room_name: "Upper Edge Tunnel",
        }
    } else if k == 140 {
        RoomLookup {
            mrea_id: 0x53801084,
            internal_id: 0x9B3E462B,
            _area_index: 47,
            layer_count: 1,
            region_name: "Phendrana Drifts",
            room_name: "Lower Edge Tunnel",
        }
    } else if k == 141 {
        RoomLookup {
            mrea_id: 0xCA6CC052,
            internal_id: 0xFF2D6F70,
            _area_index: 48,
            layer_count: 1,
            region_name: "Phendrana Drifts",
            room_name: "Chamber Access",
        }
    } else if k == 142 {
        RoomLookup {
            mrea_id: 0x89D7A0A6,
            internal_id: 0xFFAA01E4,
            _area_index: 49,
            layer_count: 1,
            region_name: "Phendrana Drifts",
            room_name: "Lake Tunnel",
        }
    } else if k == 143 {
        RoomLookup {
            mrea_id: 0x98DCC321,
            internal_id: 0x0836FE0A,
            _area_index: 50,
            layer_count: 2,
            region_name: "Phendrana Drifts",
            room_name: "Aether Lab Entryway",
        }
    } else if k == 144 {
        RoomLookup {
            mrea_id: 0x21B4BFF6,
            internal_id: 0x354889CE,
            _area_index: 51,
            layer_count: 6,
            region_name: "Phendrana Drifts",
            room_name: "Research Lab Aether",
        }
    } else if k == 145 {
        RoomLookup {
            mrea_id: 0x54DEF128,
            internal_id: 0x8C1B7564,
            _area_index: 52,
            layer_count: 1,
            region_name: "Phendrana Drifts",
            room_name: "Phendrana's Edge",
        }
    } else if k == 146 {
        RoomLookup {
            mrea_id: 0x49175472,
            internal_id: 0x1B5105C6,
            _area_index: 53,
            layer_count: 4,
            region_name: "Phendrana Drifts",
            room_name: "Gravity Chamber",
        }
    } else if k == 147 {
        RoomLookup {
            mrea_id: 0xF7C84340,
            internal_id: 0xC0C0FDD4,
            _area_index: 54,
            layer_count: 1,
            region_name: "Phendrana Drifts",
            room_name: "Storage Cave",
        }
    } else if k == 148 {
        RoomLookup {
            mrea_id: 0x3C9490E5,
            internal_id: 0x60AF3512,
            _area_index: 55,
            layer_count: 1,
            region_name: "Phendrana Drifts",
            room_name: "Security Cave",
        }
    } else if k == 149 {
        RoomLookup {
            mrea_id: 0xB2701146,
            internal_id: 0x8FF17910,
            _area_index: 0,
            layer_count: 3,
            region_name: "Tallon Overworld",
            room_name: "Landing Site",
        }
    } else if k == 150 {
        RoomLookup {
            mrea_id: 0x7B143499,
            internal_id: 0x765EB1D3,
            _area_index: 1,
            layer_count: 1,
            region_name: "Tallon Overworld",
            room_name: "Gully",
        }
    } else if k == 151 {
        RoomLookup {
            mrea_id: 0xEE209548,
            internal_id: 0xD5A1AABC,
            _area_index: 2,
            layer_count: 1,
            region_name: "Tallon Overworld",
            room_name: "Canyon Cavern",
        }
    } else if k == 152 {
        RoomLookup {
            mrea_id: 0x5B4E38F5,
            internal_id: 0xAD1E40D5,
            _area_index: 3,
            layer_count: 3,
            region_name: "Tallon Overworld",
            room_name: "Temple Hall",
        }
    } else if k == 153 {
        RoomLookup {
            mrea_id: 0xC44E7A07,
            internal_id: 0xE7E45FF6,
            _area_index: 4,
            layer_count: 1,
            region_name: "Tallon Overworld",
            room_name: "Alcove",
        }
    } else if k == 154 {
        RoomLookup {
            mrea_id: 0xE76AD711,
            internal_id: 0xB31AA6E7,
            _area_index: 5,
            layer_count: 1,
            region_name: "Tallon Overworld",
            room_name: "Waterfall Cavern",
        }
    } else if k == 155 {
        RoomLookup {
            mrea_id: 0x2043C96E,
            internal_id: 0x0CBF54EA,
            _area_index: 6,
            layer_count: 1,
            region_name: "Tallon Overworld",
            room_name: "Tallon Canyon",
        }
    } else if k == 156 {
        RoomLookup {
            mrea_id: 0xBDB1FCAC,
            internal_id: 0x663AAED7,
            _area_index: 7,
            layer_count: 1,
            region_name: "Tallon Overworld",
            room_name: "Temple Security Station",
        }
    } else if k == 157 {
        RoomLookup {
            mrea_id: 0xB9ABCD56,
            internal_id: 0x5AED0817,
            _area_index: 8,
            layer_count: 5,
            region_name: "Tallon Overworld",
            room_name: "Frigate Crash Site",
        }
    } else if k == 158 {
        RoomLookup {
            mrea_id: 0x13D96D3D,
            internal_id: 0xBCC6AC1B,
            _area_index: 9,
            layer_count: 1,
            region_name: "Tallon Overworld",
            room_name: "Transport Tunnel A",
        }
    } else if k == 159 {
        RoomLookup {
            mrea_id: 0x404804D9,
            internal_id: 0x0F5DA870,
            _area_index: 10,
            layer_count: 1,
            region_name: "Tallon Overworld",
            room_name: "Root Tunnel",
        }
    } else if k == 160 {
        RoomLookup {
            mrea_id: 0x234762BE,
            internal_id: 0xBE5CD99F,
            _area_index: 11,
            layer_count: 2,
            region_name: "Tallon Overworld",
            room_name: "Temple Lobby",
        }
    } else if k == 161 {
        RoomLookup {
            mrea_id: 0xBB158C7E,
            internal_id: 0x1CFE014F,
            _area_index: 12,
            layer_count: 1,
            region_name: "Tallon Overworld",
            room_name: "Frigate Access Tunnel",
        }
    } else if k == 162 {
        RoomLookup {
            mrea_id: 0xCEA263E3,
            internal_id: 0x076FA7F2,
            _area_index: 13,
            layer_count: 1,
            region_name: "Tallon Overworld",
            room_name: "Overgrown Cavern",
        }
    } else if k == 163 {
        RoomLookup {
            mrea_id: 0x11A02448,
            internal_id: 0x6FD3B9AB,
            _area_index: 14,
            layer_count: 3,
            region_name: "Tallon Overworld",
            room_name: "Transport to Chozo Ruins West",
        }
    } else if k == 164 {
        RoomLookup {
            mrea_id: 0xBD8C8625,
            internal_id: 0x3C4E9A9E,
            _area_index: 15,
            layer_count: 2,
            region_name: "Tallon Overworld",
            room_name: "Root Cave",
        }
    } else if k == 165 {
        RoomLookup {
            mrea_id: 0x2398E906,
            internal_id: 0xCD2B0EA2,
            _area_index: 16,
            layer_count: 23,
            region_name: "Tallon Overworld",
            room_name: "Artifact Temple",
        }
    } else if k == 166 {
        RoomLookup {
            mrea_id: 0x5E0EE592,
            internal_id: 0xD9B5B863,
            _area_index: 17,
            layer_count: 1,
            region_name: "Tallon Overworld",
            room_name: "Main Ventilation Shaft Section C",
        }
    } else if k == 167 {
        RoomLookup {
            mrea_id: 0x85CA08AB,
            internal_id: 0xDB04A2D2,
            _area_index: 18,
            layer_count: 1,
            region_name: "Tallon Overworld",
            room_name: "Transport Tunnel C",
        }
    } else if k == 168 {
        RoomLookup {
            mrea_id: 0xC7E821BA,
            internal_id: 0x61D4ABA9,
            _area_index: 19,
            layer_count: 1,
            region_name: "Tallon Overworld",
            room_name: "Transport Tunnel B",
        }
    } else if k == 169 {
        RoomLookup {
            mrea_id: 0x24F8AFF3,
            internal_id: 0x67A8800F,
            _area_index: 20,
            layer_count: 1,
            region_name: "Tallon Overworld",
            room_name: "Arbor Chamber",
        }
    } else if k == 170 {
        RoomLookup {
            mrea_id: 0xAFD4E038,
            internal_id: 0xAA9F1D8D,
            _area_index: 21,
            layer_count: 4,
            region_name: "Tallon Overworld",
            room_name: "Main Ventilation Shaft Section B",
        }
    } else if k == 171 {
        RoomLookup {
            mrea_id: 0x8A31665E,
            internal_id: 0xB0C789B5,
            _area_index: 22,
            layer_count: 1,
            region_name: "Tallon Overworld",
            room_name: "Transport to Chozo Ruins East",
        }
    } else if k == 172 {
        RoomLookup {
            mrea_id: 0x15D6FF8B,
            internal_id: 0x6D105C48,
            _area_index: 23,
            layer_count: 3,
            region_name: "Tallon Overworld",
            room_name: "Transport to Magmoor Caverns East",
        }
    } else if k == 173 {
        RoomLookup {
            mrea_id: 0x66CBE887,
            internal_id: 0x3FE0F3BF,
            _area_index: 24,
            layer_count: 1,
            region_name: "Tallon Overworld",
            room_name: "Main Ventilation Shaft Section A",
        }
    } else if k == 174 {
        RoomLookup {
            mrea_id: 0xEE09629A,
            internal_id: 0x26E887B7,
            _area_index: 25,
            layer_count: 4,
            region_name: "Tallon Overworld",
            room_name: "Reactor Core",
        }
    } else if k == 175 {
        RoomLookup {
            mrea_id: 0xFB427580,
            internal_id: 0x0F0FFF7C,
            _area_index: 26,
            layer_count: 4,
            region_name: "Tallon Overworld",
            room_name: "Reactor Access",
        }
    } else if k == 176 {
        RoomLookup {
            mrea_id: 0x37B3AFE6,
            internal_id: 0xA49148B9,
            _area_index: 27,
            layer_count: 4,
            region_name: "Tallon Overworld",
            room_name: "Cargo Freight Lift to Deck Gamma",
        }
    } else if k == 177 {
        RoomLookup {
            mrea_id: 0xF0594C6D,
            internal_id: 0x7DFD6F83,
            _area_index: 28,
            layer_count: 1,
            region_name: "Tallon Overworld",
            room_name: "Savestation",
        }
    } else if k == 178 {
        RoomLookup {
            mrea_id: 0x4A96005E,
            internal_id: 0x293B2A0E,
            _area_index: 29,
            layer_count: 1,
            region_name: "Tallon Overworld",
            room_name: "Deck Beta Transit Hall",
        }
    } else if k == 179 {
        RoomLookup {
            mrea_id: 0xAC2C58FE,
            internal_id: 0x58C5CAFF,
            _area_index: 30,
            layer_count: 5,
            region_name: "Tallon Overworld",
            room_name: "Biohazard Containment",
        }
    } else if k == 180 {
        RoomLookup {
            mrea_id: 0x76F6E356,
            internal_id: 0x5296214E,
            _area_index: 31,
            layer_count: 1,
            region_name: "Tallon Overworld",
            room_name: "Deck Beta Security Hall",
        }
    } else if k == 181 {
        RoomLookup {
            mrea_id: 0x5F2EB7B6,
            internal_id: 0x39B3509E,
            _area_index: 32,
            layer_count: 4,
            region_name: "Tallon Overworld",
            room_name: "Biotech Research Area 1",
        }
    } else if k == 182 {
        RoomLookup {
            mrea_id: 0xC3D44A6E,
            internal_id: 0xEBA417CF,
            _area_index: 33,
            layer_count: 1,
            region_name: "Tallon Overworld",
            room_name: "Deck Beta Conduit Hall",
        }
    } else if k == 183 {
        RoomLookup {
            mrea_id: 0xE47228EF,
            internal_id: 0x586931AD,
            _area_index: 34,
            layer_count: 1,
            region_name: "Tallon Overworld",
            room_name: "Connection Elevator to Deck Beta",
        }
    } else if k == 184 {
        RoomLookup {
            mrea_id: 0xFFB4A966,
            internal_id: 0x90091C8F,
            _area_index: 35,
            layer_count: 1,
            region_name: "Tallon Overworld",
            room_name: "Hydro Access Tunnel",
        }
    } else if k == 185 {
        RoomLookup {
            mrea_id: 0xF47DBE5B,
            internal_id: 0x96F0A70E,
            _area_index: 36,
            layer_count: 3,
            region_name: "Tallon Overworld",
            room_name: "Great Tree Hall",
        }
    } else if k == 186 {
        RoomLookup {
            mrea_id: 0xC5D6A597,
            internal_id: 0xFFAFEED1,
            _area_index: 37,
            layer_count: 1,
            region_name: "Tallon Overworld",
            room_name: "Great Tree Chamber",
        }
    } else if k == 187 {
        RoomLookup {
            mrea_id: 0x1A932F64,
            internal_id: 0xDA7DA040,
            _area_index: 38,
            layer_count: 1,
            region_name: "Tallon Overworld",
            room_name: "Transport Tunnel D",
        }
    } else if k == 188 {
        RoomLookup {
            mrea_id: 0xB4FBBEF5,
            internal_id: 0x0081A28C,
            _area_index: 39,
            layer_count: 2,
            region_name: "Tallon Overworld",
            room_name: "Life Grove Tunnel",
        }
    } else if k == 189 {
        RoomLookup {
            mrea_id: 0x9D330A07,
            internal_id: 0xB4F4A399,
            _area_index: 40,
            layer_count: 1,
            region_name: "Tallon Overworld",
            room_name: "Transport Tunnel E",
        }
    } else if k == 190 {
        RoomLookup {
            mrea_id: 0x0CA514F0,
            internal_id: 0x05301E9D,
            _area_index: 41,
            layer_count: 1,
            region_name: "Tallon Overworld",
            room_name: "Transport to Chozo Ruins South",
        }
    } else if k == 191 {
        RoomLookup {
            mrea_id: 0x86EB2E02,
            internal_id: 0xDF6B8371,
            _area_index: 42,
            layer_count: 3,
            region_name: "Tallon Overworld",
            room_name: "Life Grove",
        }
    } else if k == 192 {
        RoomLookup {
            mrea_id: 0x7D106670,
            internal_id: 0xBC2A964C,
            _area_index: 43,
            layer_count: 1,
            region_name: "Tallon Overworld",
            room_name: "Transport to Phazon Mines East",
        }
    } else if k == 193 {
        RoomLookup {
            mrea_id: 0x430E999C,
            internal_id: 0x2AC6EC36,
            _area_index: 0,
            layer_count: 1,
            region_name: "Phazon Mines",
            room_name: "Transport to Tallon Overworld South",
        }
    } else if k == 194 {
        RoomLookup {
            mrea_id: 0x68CC7758,
            internal_id: 0x5D41D1EC,
            _area_index: 1,
            layer_count: 2,
            region_name: "Phazon Mines",
            room_name: "Quarry Access",
        }
    } else if k == 195 {
        RoomLookup {
            mrea_id: 0x643D038F,
            internal_id: 0x42E7D7A1,
            _area_index: 2,
            layer_count: 7,
            region_name: "Phazon Mines",
            room_name: "Main Quarry",
        }
    } else if k == 196 {
        RoomLookup {
            mrea_id: 0x27A391B7,
            internal_id: 0xD5080F92,
            _area_index: 3,
            layer_count: 2,
            region_name: "Phazon Mines",
            room_name: "Waste Disposal",
        }
    } else if k == 197 {
        RoomLookup {
            mrea_id: 0x361D41B0,
            internal_id: 0x97FF7B49,
            _area_index: 4,
            layer_count: 1,
            region_name: "Phazon Mines",
            room_name: "Save Station Mines A",
        }
    } else if k == 198 {
        RoomLookup {
            mrea_id: 0xC7653A92,
            internal_id: 0xA4766825,
            _area_index: 5,
            layer_count: 4,
            region_name: "Phazon Mines",
            room_name: "Security Access A",
        }
    } else if k == 199 {
        RoomLookup {
            mrea_id: 0x97D2B2F6,
            internal_id: 0xC5A0412D,
            _area_index: 6,
            layer_count: 5,
            region_name: "Phazon Mines",
            room_name: "Ore Processing",
        }
    } else if k == 200 {
        RoomLookup {
            mrea_id: 0x956F1552,
            internal_id: 0x03417FEF,
            _area_index: 7,
            layer_count: 6,
            region_name: "Phazon Mines",
            room_name: "Mine Security Station",
        }
    } else if k == 201 {
        RoomLookup {
            mrea_id: 0x4346A747,
            internal_id: 0x8D681DF6,
            _area_index: 8,
            layer_count: 2,
            region_name: "Phazon Mines",
            room_name: "Research Access",
        }
    } else if k == 202 {
        RoomLookup {
            mrea_id: 0xE39C342B,
            internal_id: 0x3ABA07F2,
            _area_index: 9,
            layer_count: 1,
            region_name: "Phazon Mines",
            room_name: "Storage Depot B",
        }
    } else if k == 203 {
        RoomLookup {
            mrea_id: 0x26219C01,
            internal_id: 0xDA7A8AB1,
            _area_index: 10,
            layer_count: 1,
            region_name: "Phazon Mines",
            room_name: "Elevator Access A",
        }
    } else if k == 204 {
        RoomLookup {
            mrea_id: 0xA20201D4,
            internal_id: 0xF364FF62,
            _area_index: 11,
            layer_count: 3,
            region_name: "Phazon Mines",
            room_name: "Security Access B",
        }
    } else if k == 205 {
        RoomLookup {
            mrea_id: 0x35C5D736,
            internal_id: 0x05C7A002,
            _area_index: 12,
            layer_count: 1,
            region_name: "Phazon Mines",
            room_name: "Storage Depot A",
        }
    } else if k == 206 {
        RoomLookup {
            mrea_id: 0x8A97BB54,
            internal_id: 0xD3438CDA,
            _area_index: 13,
            layer_count: 6,
            region_name: "Phazon Mines",
            room_name: "Elite Research",
        }
    } else if k == 207 {
        RoomLookup {
            mrea_id: 0x0146ED43,
            internal_id: 0xE6844CFA,
            _area_index: 14,
            layer_count: 1,
            region_name: "Phazon Mines",
            room_name: "Elevator A",
        }
    } else if k == 208 {
        RoomLookup {
            mrea_id: 0x8988D1CB,
            internal_id: 0x234D3378,
            _area_index: 15,
            layer_count: 2,
            region_name: "Phazon Mines",
            room_name: "Elite Control Access",
        }
    } else if k == 209 {
        RoomLookup {
            mrea_id: 0xC50AF17A,
            internal_id: 0x08B55780,
            _area_index: 16,
            layer_count: 6,
            region_name: "Phazon Mines",
            room_name: "Elite Control",
        }
    } else if k == 210 {
        RoomLookup {
            mrea_id: 0xECEFEA8D,
            internal_id: 0x745FA43F,
            _area_index: 17,
            layer_count: 1,
            region_name: "Phazon Mines",
            room_name: "Maintenance Tunnel",
        }
    } else if k == 211 {
        RoomLookup {
            mrea_id: 0x90709AAC,
            internal_id: 0xDF54F650,
            _area_index: 18,
            layer_count: 1,
            region_name: "Phazon Mines",
            room_name: "Ventilation Shaft",
        }
    } else if k == 212 {
        RoomLookup {
            mrea_id: 0xAD2E7EB9,
            internal_id: 0xFC928FE7,
            _area_index: 19,
            layer_count: 4,
            region_name: "Phazon Mines",
            room_name: "Phazon Processing Center",
        }
    } else if k == 213 {
        RoomLookup {
            mrea_id: 0x3F375ECC,
            internal_id: 0xCA589A4B,
            _area_index: 20,
            layer_count: 5,
            region_name: "Phazon Mines",
            room_name: "Omega Research",
        }
    } else if k == 214 {
        RoomLookup {
            mrea_id: 0x42C4AAF1,
            internal_id: 0x821A98D5,
            _area_index: 21,
            layer_count: 1,
            region_name: "Phazon Mines",
            room_name: "Transport Access",
        }
    } else if k == 215 {
        RoomLookup {
            mrea_id: 0xED6DE73B,
            internal_id: 0x7B2D211C,
            _area_index: 22,
            layer_count: 4,
            region_name: "Phazon Mines",
            room_name: "Processing Center Access",
        }
    } else if k == 216 {
        RoomLookup {
            mrea_id: 0x198FF5DC,
            internal_id: 0x22B9F51A,
            _area_index: 23,
            layer_count: 1,
            region_name: "Phazon Mines",
            room_name: "Map Station Mines",
        }
    } else if k == 217 {
        RoomLookup {
            mrea_id: 0xF517A1EA,
            internal_id: 0x88466117,
            _area_index: 24,
            layer_count: 4,
            region_name: "Phazon Mines",
            room_name: "Dynamo Access",
        }
    } else if k == 218 {
        RoomLookup {
            mrea_id: 0xE2C2CF38,
            internal_id: 0x91C144BF,
            _area_index: 25,
            layer_count: 1,
            region_name: "Phazon Mines",
            room_name: "Transport to Magmoor Caverns South",
        }
    } else if k == 219 {
        RoomLookup {
            mrea_id: 0x3953C353,
            internal_id: 0xEE1EF9A6,
            _area_index: 26,
            layer_count: 6,
            region_name: "Phazon Mines",
            room_name: "Elite Quarters",
        }
    } else if k == 220 {
        RoomLookup {
            mrea_id: 0xFEA372E2,
            internal_id: 0xFB5299C0,
            _area_index: 27,
            layer_count: 6,
            region_name: "Phazon Mines",
            room_name: "Central Dynamo",
        }
    } else if k == 221 {
        RoomLookup {
            mrea_id: 0x71343C3F,
            internal_id: 0xA15814C4,
            _area_index: 28,
            layer_count: 3,
            region_name: "Phazon Mines",
            room_name: "Elite Quarters Access",
        }
    } else if k == 222 {
        RoomLookup {
            mrea_id: 0x5ABEEC20,
            internal_id: 0x7171D8DE,
            _area_index: 29,
            layer_count: 2,
            region_name: "Phazon Mines",
            room_name: "Quarantine Access A",
        }
    } else if k == 223 {
        RoomLookup {
            mrea_id: 0x7BD5E0BB,
            internal_id: 0xEE54D213,
            _area_index: 30,
            layer_count: 1,
            region_name: "Phazon Mines",
            room_name: "Save Station Mines B",
        }
    } else if k == 224 {
        RoomLookup {
            mrea_id: 0xBB3AFC4E,
            internal_id: 0xBA16E7C3,
            _area_index: 31,
            layer_count: 6,
            region_name: "Phazon Mines",
            room_name: "Metroid Quarantine B",
        }
    } else if k == 225 {
        RoomLookup {
            mrea_id: 0xFB051F5A,
            internal_id: 0xC21090E6,
            _area_index: 32,
            layer_count: 7,
            region_name: "Phazon Mines",
            room_name: "Metroid Quarantine A",
        }
    } else if k == 226 {
        RoomLookup {
            mrea_id: 0x14530779,
            internal_id: 0xF64A8383,
            _area_index: 33,
            layer_count: 1,
            region_name: "Phazon Mines",
            room_name: "Quarantine Access B",
        }
    } else if k == 227 {
        RoomLookup {
            mrea_id: 0x66D0D003,
            internal_id: 0x587DFD50,
            _area_index: 34,
            layer_count: 1,
            region_name: "Phazon Mines",
            room_name: "Save Station Mines C",
        }
    } else if k == 228 {
        RoomLookup {
            mrea_id: 0x3FD9D766,
            internal_id: 0x26634F99,
            _area_index: 35,
            layer_count: 1,
            region_name: "Phazon Mines",
            room_name: "Elevator Access B",
        }
    } else if k == 229 {
        RoomLookup {
            mrea_id: 0xEC47C242,
            internal_id: 0x7EF868E8,
            _area_index: 36,
            layer_count: 2,
            region_name: "Phazon Mines",
            room_name: "Fungal Hall B",
        }
    } else if k == 230 {
        RoomLookup {
            mrea_id: 0xE87957E0,
            internal_id: 0x0C591FA3,
            _area_index: 37,
            layer_count: 1,
            region_name: "Phazon Mines",
            room_name: "Elevator B",
        }
    } else if k == 231 {
        RoomLookup {
            mrea_id: 0xB089331E,
            internal_id: 0xD28106BE,
            _area_index: 38,
            layer_count: 1,
            region_name: "Phazon Mines",
            room_name: "Missile Station Mines",
        }
    } else if k == 232 {
        RoomLookup {
            mrea_id: 0xBBFA4AB3,
            internal_id: 0x0F7D3A4A,
            _area_index: 39,
            layer_count: 1,
            region_name: "Phazon Mines",
            room_name: "Phazon Mining Tunnel",
        }
    } else if k == 233 {
        RoomLookup {
            mrea_id: 0xDE9D71F5,
            internal_id: 0x586FAD0D,
            _area_index: 40,
            layer_count: 2,
            region_name: "Phazon Mines",
            room_name: "Fungal Hall Access",
        }
    } else if k == 234 {
        RoomLookup {
            mrea_id: 0x0F5277D1,
            internal_id: 0x3D18BC4A,
            _area_index: 41,
            layer_count: 2,
            region_name: "Phazon Mines",
            room_name: "Fungal Hall A",
        }
    } else if k == 235 {
        RoomLookup {
            mrea_id: 0x3BEAADC9,
            internal_id: 0x7DC0D75B,
            _area_index: 0,
            layer_count: 2,
            region_name: "Magmoor Caverns",
            room_name: "Transport to Chozo Ruins North",
        }
    } else if k == 236 {
        RoomLookup {
            mrea_id: 0x6D434F4E,
            internal_id: 0x8E77DC91,
            _area_index: 1,
            layer_count: 1,
            region_name: "Magmoor Caverns",
            room_name: "Burning Trail",
        }
    } else if k == 237 {
        RoomLookup {
            mrea_id: 0x79784D3D,
            internal_id: 0x989F697A,
            _area_index: 2,
            layer_count: 1,
            region_name: "Magmoor Caverns",
            room_name: "Lake Tunnel",
        }
    } else if k == 238 {
        RoomLookup {
            mrea_id: 0x09B3E01C,
            internal_id: 0x308AE90A,
            _area_index: 3,
            layer_count: 1,
            region_name: "Magmoor Caverns",
            room_name: "Save Station Magmoor A",
        }
    } else if k == 239 {
        RoomLookup {
            mrea_id: 0xA4719C6A,
            internal_id: 0x11DDB78C,
            _area_index: 4,
            layer_count: 5,
            region_name: "Magmoor Caverns",
            room_name: "Lava Lake",
        }
    } else if k == 240 {
        RoomLookup {
            mrea_id: 0xDA2ECB94,
            internal_id: 0xF9CA8A01,
            _area_index: 5,
            layer_count: 2,
            region_name: "Magmoor Caverns",
            room_name: "Pit Tunnel",
        }
    } else if k == 241 {
        RoomLookup {
            mrea_id: 0xBAD9EDBF,
            internal_id: 0x90D4D2AB,
            _area_index: 6,
            layer_count: 4,
            region_name: "Magmoor Caverns",
            room_name: "Triclops Pit",
        }
    } else if k == 242 {
        RoomLookup {
            mrea_id: 0x0DCC4BCC,
            internal_id: 0xD9062B28,
            _area_index: 7,
            layer_count: 1,
            region_name: "Magmoor Caverns",
            room_name: "Monitor Tunnel",
        }
    } else if k == 243 {
        RoomLookup {
            mrea_id: 0xADEF843E,
            internal_id: 0x822830CF,
            _area_index: 8,
            layer_count: 1,
            region_name: "Magmoor Caverns",
            room_name: "Storage Cavern",
        }
    } else if k == 244 {
        RoomLookup {
            mrea_id: 0x0C57A641,
            internal_id: 0x7368B88C,
            _area_index: 9,
            layer_count: 4,
            region_name: "Magmoor Caverns",
            room_name: "Monitor Station",
        }
    } else if k == 245 {
        RoomLookup {
            mrea_id: 0x47F2C087,
            internal_id: 0x3B614CF7,
            _area_index: 10,
            layer_count: 1,
            region_name: "Magmoor Caverns",
            room_name: "Transport Tunnel A",
        }
    } else if k == 246 {
        RoomLookup {
            mrea_id: 0x89A6CB8D,
            internal_id: 0x2A729E1B,
            _area_index: 11,
            layer_count: 1,
            region_name: "Magmoor Caverns",
            room_name: "Warrior Shrine",
        }
    } else if k == 247 {
        RoomLookup {
            mrea_id: 0x901040DF,
            internal_id: 0x1BADEDDE,
            _area_index: 12,
            layer_count: 1,
            region_name: "Magmoor Caverns",
            room_name: "Shore Tunnel",
        }
    } else if k == 248 {
        RoomLookup {
            mrea_id: 0xDCA9A28B,
            internal_id: 0x4318F156,
            _area_index: 13,
            layer_count: 1,
            region_name: "Magmoor Caverns",
            room_name: "Transport to Phendrana Drifts North",
        }
    } else if k == 249 {
        RoomLookup {
            mrea_id: 0xF5EF1862,
            internal_id: 0x8E26574F,
            _area_index: 14,
            layer_count: 1,
            region_name: "Magmoor Caverns",
            room_name: "Fiery Shores",
        }
    } else if k == 250 {
        RoomLookup {
            mrea_id: 0x3346C676,
            internal_id: 0x7AF80EA5,
            _area_index: 15,
            layer_count: 1,
            region_name: "Magmoor Caverns",
            room_name: "Transport Tunnel B",
        }
    } else if k == 251 {
        RoomLookup {
            mrea_id: 0x4C3D244C,
            internal_id: 0xB3128CF6,
            _area_index: 16,
            layer_count: 2,
            region_name: "Magmoor Caverns",
            room_name: "Transport to Tallon Overworld West",
        }
    } else if k == 252 {
        RoomLookup {
            mrea_id: 0xE4A4462E,
            internal_id: 0x5A34AF8C,
            _area_index: 17,
            layer_count: 1,
            region_name: "Magmoor Caverns",
            room_name: "Twin Fires Tunnel",
        }
    } else if k == 253 {
        RoomLookup {
            mrea_id: 0x4C784BEA,
            internal_id: 0x4D5469E4,
            _area_index: 18,
            layer_count: 3,
            region_name: "Magmoor Caverns",
            room_name: "Twin Fires",
        }
    } else if k == 254 {
        RoomLookup {
            mrea_id: 0xA73BD0E0,
            internal_id: 0x6547C75A,
            _area_index: 19,
            layer_count: 2,
            region_name: "Magmoor Caverns",
            room_name: "North Core Tunnel",
        }
    } else if k == 255 {
        RoomLookup {
            mrea_id: 0xC0498676,
            internal_id: 0x59573062,
            _area_index: 20,
            layer_count: 7,
            region_name: "Magmoor Caverns",
            room_name: "Geothermal Core",
        }
    } else if k == 256 {
        RoomLookup {
            mrea_id: 0x4CC18E5A,
            internal_id: 0x1A2F5E11,
            _area_index: 21,
            layer_count: 1,
            region_name: "Magmoor Caverns",
            room_name: "Plasma Processing",
        }
    } else if k == 257 {
        RoomLookup {
            mrea_id: 0x70D950B8,
            internal_id: 0x458B6673,
            _area_index: 22,
            layer_count: 1,
            region_name: "Magmoor Caverns",
            room_name: "South Core Tunnel",
        }
    } else if k == 258 {
        RoomLookup {
            mrea_id: 0x8ABEB3C3,
            internal_id: 0x6D5BE01A,
            _area_index: 23,
            layer_count: 4,
            region_name: "Magmoor Caverns",
            room_name: "Magmoor Workstation",
        }
    } else if k == 259 {
        RoomLookup {
            mrea_id: 0x046D5649,
            internal_id: 0x04122421,
            _area_index: 24,
            layer_count: 1,
            region_name: "Magmoor Caverns",
            room_name: "Workstation Tunnel",
        }
    } else if k == 260 {
        RoomLookup {
            mrea_id: 0xD38FD611,
            internal_id: 0x24DE8508,
            _area_index: 25,
            layer_count: 1,
            region_name: "Magmoor Caverns",
            room_name: "Transport Tunnel C",
        }
    } else if k == 261 {
        RoomLookup {
            mrea_id: 0xEF2F1440,
            internal_id: 0x921FFEDB,
            _area_index: 26,
            layer_count: 1,
            region_name: "Magmoor Caverns",
            room_name: "Transport to Phazon Mines West",
        }
    } else if k == 262 {
        RoomLookup {
            mrea_id: 0xC1AC9233,
            internal_id: 0xC0201A31,
            _area_index: 27,
            layer_count: 1,
            region_name: "Magmoor Caverns",
            room_name: "Transport to Phendrana Drifts South",
        }
    } else if k == 263 {
        RoomLookup {
            mrea_id: 0x7F56D921,
            internal_id: 0xEABBF3E8,
            _area_index: 28,
            layer_count: 1,
            region_name: "Magmoor Caverns",
            room_name: "Save Station Magmoor B",
        }
    } else if k == 264 {
        RoomLookup {
            mrea_id: 0x93668996,
            internal_id: 0x2B878F78,
            _area_index: 0,
            layer_count: 1,
            region_name: "Impact Crater",
            room_name: "Crater Entry Point",
        }
    } else if k == 265 {
        RoomLookup {
            mrea_id: 0x49CB2363,
            internal_id: 0xB4F7699E,
            _area_index: 1,
            layer_count: 1,
            region_name: "Impact Crater",
            room_name: "Crater Tunnel A",
        }
    } else if k == 266 {
        RoomLookup {
            mrea_id: 0xBD946AC3,
            internal_id: 0x66F7C0E2,
            _area_index: 2,
            layer_count: 2,
            region_name: "Impact Crater",
            room_name: "Phazon Core",
        }
    } else if k == 267 {
        RoomLookup {
            mrea_id: 0x4D446C3F,
            internal_id: 0x2C152A9A,
            _area_index: 3,
            layer_count: 1,
            region_name: "Impact Crater",
            room_name: "Crater Missile Station",
        }
    } else if k == 268 {
        RoomLookup {
            mrea_id: 0x32D5A180,
            internal_id: 0xC8C538AF,
            _area_index: 4,
            layer_count: 2,
            region_name: "Impact Crater",
            room_name: "Crater Tunnel B",
        }
    } else if k == 269 {
        RoomLookup {
            mrea_id: 0x67156A0D,
            internal_id: 0xE601A86A,
            _area_index: 5,
            layer_count: 1,
            region_name: "Impact Crater",
            room_name: "Phazon Infusion Chamber",
        }
    } else if k == 270 {
        RoomLookup {
            mrea_id: 0xDADF06C3,
            internal_id: 0xE77A43A7,
            _area_index: 6,
            layer_count: 1,
            region_name: "Impact Crater",
            room_name: "Subchamber One",
        }
    } else if k == 271 {
        RoomLookup {
            mrea_id: 0x0749DF46,
            internal_id: 0xE7ACE51C,
            _area_index: 7,
            layer_count: 3,
            region_name: "Impact Crater",
            room_name: "Subchamber Two",
        }
    } else if k == 272 {
        RoomLookup {
            mrea_id: 0x7A3AD91E,
            internal_id: 0xE58D943D,
            _area_index: 8,
            layer_count: 1,
            region_name: "Impact Crater",
            room_name: "Subchamber Three",
        }
    } else if k == 273 {
        RoomLookup {
            mrea_id: 0xA7AC009B,
            internal_id: 0xE55B3286,
            _area_index: 9,
            layer_count: 1,
            region_name: "Impact Crater",
            room_name: "Subchamber Four",
        }
    } else if k == 274 {
        RoomLookup {
            mrea_id: 0x77714498,
            internal_id: 0xC5445690,
            _area_index: 10,
            layer_count: 1,
            region_name: "Impact Crater",
            room_name: "Subchamber Five",
        }
    } else {
        RoomLookup {
            mrea_id: 0x1A666C55,
            internal_id: 0xE420D94B,
            _area_index: 11,
            layer_count: 1,
            region_name: "Impact Crater",
            room_name: "Metroid Prime Lair",
        }
    }
}

/// How many rooms the game has.
pub const ROOM_COUNT: usize = 276;

/// Every room of the game, region by region.
pub open spec fn room_table() -> Seq<RoomLookup> {
    Seq::new(ROOM_COUNT as nat, |k: int| room_at(k))
}

/// The room at place `k` of the table.
fn room_at_index(k: usize) -> (r: RoomLookup)
    requires
        k < ROOM_COUNT,
    ensures
        r == room_at(k as int),
{
    match k {
        0 => RoomLookup {
                mrea_id: 0xB4B41C48,
                internal_id: 0x2084E568,
                _area_index: 0,
                layer_count: 19,
                region_name: "End Cinema",
                room_name: "End Cinema",
            },
        1 => RoomLookup {
                mrea_id: 0xD1241219,
                internal_id: 0xC34F20FF,
                _area_index: 0,
                layer_count: 5,
                region_name: "Frigate Orpheon",
                room_name: "Exterior Docking Hangar",
            },
        2 => RoomLookup {
                mrea_id: 0x07640602,
                internal_id: 0xAE68F0CF,
                _area_index: 1,
                layer_count: 3,
                region_name: "Frigate Orpheon",
                room_name: "Air Lock",
            },
        3 => RoomLookup {
                mrea_id: 0x624F493A,
                internal_id: 0x5A332264,
                _area_index: 2,
                layer_count: 1,
                region_name: "Frigate Orpheon",
                room_name: "Deck Alpha Access Hall",
            },
        4 => RoomLookup {
                mrea_id: 0xC8971E99,
                internal_id: 0x9A48973E,
                _area_index: 3,
                layer_count: 1,
                region_name: "Frigate Orpheon",
                room_name: "Deck Alpha Mech Shaft",
            },
        5 => RoomLookup {
                mrea_id: 0x20E48216,
                internal_id: 0x68E253D2,
                _area_index: 4,
                layer_count: 2,
                region_name: "Frigate Orpheon",
                room_name: "Emergency Evacuation Area",
            },
        6 => RoomLookup {
                mrea_id: 0xAE1EC8BD,
                internal_id: 0xB0134DF2,
                _area_index: 5,
                layer_count: 2,
                region_name: "Frigate Orpheon",
                room_name: "Connection Elevator to Deck Alpha",
            },
        7 => RoomLookup {
                mrea_id: 0xEE21C026,
                internal_id: 0xB5735576,
                _area_index: 6,
                layer_count: 1,
                region_name: "Frigate Orpheon",
                room_name: "Deck Alpha Umbilical Hall",
            },
        8 => RoomLookup {
                mrea_id: 0xC5DE3C06,
                internal_id: 0xCEE4F1C8,
                _area_index: 7,
                layer_count: 2,
                region_name: "Frigate Orpheon",
                room_name: "Biotech Research Area 2",
            },
        9 => RoomLookup {
                mrea_id: 0xCDE604F0,
                internal_id: 0xA3049BAD,
                _area_index: 8,
                layer_count: 1,
                region_name: "Frigate Orpheon",
                room_name: "Map Facility",
            },
        10 => RoomLookup {
                mrea_id: 0x1055715C,
                internal_id: 0x796AD968,
                _area_index: 9,
                layer_count: 1,
                region_name: "Frigate Orpheon",
                room_name: "Main Ventilation Shaft Section F",
            },
        11 => RoomLookup {
                mrea_id: 0x31C44B23,
                internal_id: 0x95CDA510,
                _area_index: 10,
                layer_count: 1,
                region_name: "Frigate Orpheon",
                room_name: "Connection Elevator to Deck Beta",
            },
        12 => RoomLookup {
                mrea_id: 0x292DDC1C,
                internal_id: 0xE13DEC29,
                _area_index: 11,
                layer_count: 1,
                region_name: "Frigate Orpheon",
                room_name: "Main Ventilation Shaft Section E",
            },
        13 => RoomLookup {
                mrea_id: 0xA8813FB6,
                internal_id: 0xF4160CEA,
                _area_index: 12,
                layer_count: 1,
                region_name: "Frigate Orpheon",
                room_name: "Deck Beta Conduit Hall",
            },
        14 => RoomLookup {
                mrea_id: 0x3E05B8DC,
                internal_id: 0x96F0FF16,
                _area_index: 13,
                layer_count: 1,
                region_name: "Frigate Orpheon",
                room_name: "Main Ventilation Shaft Section D",
            },
        15 => RoomLookup {
                mrea_id: 0x85578E54,
                internal_id: 0x9ABB98C6,
                _area_index: 14,
                layer_count: 2,
                region_name: "Frigate Orpheon",
                room_name: "Biotech Research Area 1",
            },
        16 => RoomLookup {
                mrea_id: 0x5BDC869C,
                internal_id: 0x0AE280EA,
                _area_index: 15,
                layer_count: 1,
                region_name: "Frigate Orpheon",
                room_name: "Main Ventilation Shaft Section C",
            },
        17 => RoomLookup {
                mrea_id: 0x49C59925,
                internal_id: 0x8A1AEE7E,
                _area_index: 16,
                layer_count: 1,
                region_name: "Frigate Orpheon",
                room_name: "Deck Beta Security Hall",
            },
        18 => RoomLookup {
                mrea_id: 0x6ED3231B,
                internal_id: 0x05289664,
                _area_index: 10,
                layer_count: 1,
                region_name: "Frigate Orpheon",
                room_name: "Connection Elevator to Deck Beta",
            },
        19 => RoomLookup {
                mrea_id: 0x093500E4,
                internal_id: 0xDF5E9BC0,
                _area_index: 18,
                layer_count: 1,
                region_name: "Frigate Orpheon",
                room_name: "Subventilation Shaft Section A",
            },
        20 => RoomLookup {
                mrea_id: 0x4CF4E25C,
                internal_id: 0x7D2F93D5,
                _area_index: 19,
                layer_count: 1,
                region_name: "Frigate Orpheon",
                room_name: "Main Ventilation Shaft Section B",
            },
        21 => RoomLookup {
                mrea_id: 0xD16B26D0,
                internal_id: 0x1A2D47EE,
                _area_index: 20,
                layer_count: 2,
                region_name: "Frigate Orpheon",
                room_name: "Biohazard Containment",
            },
        22 => RoomLookup {
                mrea_id: 0xE667B605,
                internal_id: 0x6E0AC070,
                _area_index: 21,
                layer_count: 1,
                region_name: "Frigate Orpheon",
                room_name: "Deck Gamma Monitor Hall",
            },
        23 => RoomLookup {
                mrea_id: 0xC0BBB28A,
                internal_id: 0xDFD494A8,
                _area_index: 22,
                layer_count: 1,
                region_name: "Frigate Orpheon",
                room_name: "Subventilation Shaft Section B",
            },
        24 => RoomLookup {
                mrea_id: 0x758C4F1C,
                internal_id: 0xE578A694,
                _area_index: 23,
                layer_count: 1,
                region_name: "Frigate Orpheon",
                room_name: "Main Ventilation Shaft Section A",
            },
        25 => RoomLookup {
                mrea_id: 0x2CA2A263,
                internal_id: 0xDD087939,
                _area_index: 24,
                layer_count: 1,
                region_name: "Frigate Orpheon",
                room_name: "Deck Beta Transit Hall",
            },
        26 => RoomLookup {
                mrea_id: 0x87452DC1,
                internal_id: 0xB22C4E90,
                _area_index: 25,
                layer_count: 3,
                region_name: "Frigate Orpheon",
                room_name: "Reactor Core",
            },
        27 => RoomLookup {
                mrea_id: 0x6FF0FD62,
                internal_id: 0xBAE54D64,
                _area_index: 26,
                layer_count: 3,
                region_name: "Frigate Orpheon",
                room_name: "Cargo Freight Lift to Deck Gamma",
            },
        28 => RoomLookup {
                mrea_id: 0x3EA190EE,
                internal_id: 0xDE9A4E18,
                _area_index: 27,
                layer_count: 2,
                region_name: "Frigate Orpheon",
                room_name: "Reactor Core Entrance",
            },
        29 => RoomLookup {
                mrea_id: 0x3E6B2BB7,
                internal_id: 0xDBED08BA,
                _area_index: 0,
                layer_count: 2,
                region_name: "Chozo Ruins",
                room_name: "Transport to Tallon Overworld North",
            },
        30 => RoomLookup {
                mrea_id: 0xB7F1952A,
                internal_id: 0x3850211A,
                _area_index: 1,
                layer_count: 3,
                region_name: "Chozo Ruins",
                room_name: "Ruins Entrance",
            },
        31 => RoomLookup {
                mrea_id: 0xD5CDB809,
                internal_id: 0x6656AABE,
                _area_index: 2,
                layer_count: 5,
                region_name: "Chozo Ruins",
                room_name: "Main Plaza",
            },
        32 => RoomLookup {
                mrea_id: 0x560DBE38,
                internal_id: 0xF45C3943,
                _area_index: 3,
                layer_count: 1,
                region_name: "Chozo Ruins",
                room_name: "Ruined Fountain Access",
            },
        33 => RoomLookup {
                mrea_id: 0xDF746AE0,
                internal_id: 0xADB1CC68,
                _area_index: 4,
                layer_count: 1,
                region_name: "Chozo Ruins",
                room_name: "Ruined Shrine Access",
            },
        34 => RoomLookup {
                mrea_id: 0x092D89FD,
                internal_id: 0x85C58EC0,
                _area_index: 5,
                layer_count: 3,
                region_name: "Chozo Ruins",
                room_name: "Nursery Access",
            },
        35 => RoomLookup {
                mrea_id: 0x53359457,
                internal_id: 0x32FEAA13,
                _area_index: 6,
                layer_count: 1,
                region_name: "Chozo Ruins",
                room_name: "Plaza Access",
            },
        36 => RoomLookup {
                mrea_id: 0x2B3F1CEE,
                internal_id: 0xC8F9A1BE,
                _area_index: 7,
                layer_count: 1,
                region_name: "Chozo Ruins",
                room_name: "Piston Tunnel",
            },
        37 => RoomLookup {
                mrea_id: 0x165A4DE9,
                internal_id: 0xB73FCF79,
                _area_index: 8,
                layer_count: 3,
                region_name: "Chozo Ruins",
                room_name: "Ruined Fountain",
            },
        38 => RoomLookup {
                mrea_id: 0x3C785450,
                internal_id: 0x59593237,
                _area_index: 9,
                layer_count: 5,
                region_name: "Chozo Ruins",
                room_name: "Ruined Shrine",
            },
        39 => RoomLookup {
                mrea_id: 0xCB1E8A0B,
                internal_id: 0x52C34364,
                _area_index: 10,
                layer_count: 1,
                region_name: "Chozo Ruins",
                room_name: "Eyon Tunnel",
            },
        40 => RoomLookup {
                mrea_id: 0xEF069019,
                internal_id: 0xC4CC2110,
                _area_index: 11,
                layer_count: 1,
                region_name: "Chozo Ruins",
                room_name: "Vault",
            },
        41 => RoomLookup {
                mrea_id: 0x3F04F304,
                internal_id: 0x9F2FA381,
                _area_index: 12,
                layer_count: 3,
                region_name: "Chozo Ruins",
                room_name: "Training Chamber",
            },
        42 => RoomLookup {
                mrea_id: 0x870B0525,
                internal_id: 0x8F6534FF,
                _area_index: 13,
                layer_count: 1,
                region_name: "Chozo Ruins",
                room_name: "Arboretum Access",
            },
        43 => RoomLookup {
                mrea_id: 0x282B16B4,
                internal_id: 0xD0BFE7BE,
                _area_index: 14,
                layer_count: 3,
                region_name: "Chozo Ruins",
                room_name: "Meditation Fountain",
            },
        44 => RoomLookup {
                mrea_id: 0x59E0184E,
                internal_id: 0xB98BED3C,
                _area_index: 15,
                layer_count: 1,
                region_name: "Chozo Ruins",
                room_name: "Tower of Light Access",
            },
        45 => RoomLookup {
                mrea_id: 0xC2576E4D,
                internal_id: 0xDE6AAF50,
                _area_index: 16,
                layer_count: 1,
                region_name: "Chozo Ruins",
                room_name: "Ruined Nursery",
            },
        46 => RoomLookup {
                mrea_id: 0xA5089191,
                internal_id: 0x2D0D3708,
                _area_index: 17,
                layer_count: 1,
                region_name: "Chozo Ruins",
                room_name: "Vault Access",
            },
        47 => RoomLookup {
                mrea_id: 0x18D186BB,
                internal_id: 0x678AF25B,
                _area_index: 18,
                layer_count: 1,
                region_name: "Chozo Ruins",
                room_name: "Training Chamber Access",
            },
        48 => RoomLookup {
                mrea_id: 0x18AB6106,
                internal_id: 0x29AFCCC6,
                _area_index: 19,
                layer_count: 5,
                region_name: "Chozo Ruins",
                room_name: "Arboretum",
            },
        49 => RoomLookup {
                mrea_id: 0x491BFABA,
                internal_id: 0xBF54765D,
                _area_index: 20,
                layer_count: 2,
                region_name: "Chozo Ruins",
                room_name: "Magma Pool",
            },
        50 => RoomLookup {
                mrea_id: 0x0D72F1F7,
                internal_id: 0xA1AE2B03,
                _area_index: 21,
                layer_count: 2,
                region_name: "Chozo Ruins",
                room_name: "Tower of Light",
            },
        51 => RoomLookup {
                mrea_id: 0x1D5E482C,
                internal_id: 0x66D6F156,
                _area_index: 22,
                layer_count: 3,
                region_name: "Chozo Ruins",
                room_name: "Save Station 1",
            },
        52 => RoomLookup {
                mrea_id: 0x46295CA0,
                internal_id: 0x5DDB6EA0,
                _area_index: 23,
                layer_count: 1,
                region_name: "Chozo Ruins",
                room_name: "North Atrium",
            },
        53 => RoomLookup {
                mrea_id: 0x8316EDF5,
                internal_id: 0x372F1027,
                _area_index: 24,
                layer_count: 1,
                region_name: "Chozo Ruins",
                room_name: "Transport to Magmoor Caverns North",
            },
        54 => RoomLookup {
                mrea_id: 0x3D238FCD,
                internal_id: 0x4D30DE7F,
                _area_index: 25,
                layer_count: 2,
                region_name: "Chozo Ruins",
                room_name: "Sunchamber Lobby",
            },
        55 => RoomLookup {
                mrea_id: 0x95F2019E,
                internal_id: 0x9A3822ED,
                _area_index: 26,
                layer_count: 1,
                region_name: "Chozo Ruins",
                room_name: "Gathering Hall Access",
            },
        56 => RoomLookup {
                mrea_id: 0x11BD63B7,
                internal_id: 0x5225F6B8,
                _area_index: 27,
                layer_count: 1,
                region_name: "Chozo Ruins",
                room_name: "Tower Chamber",
            },
        57 => RoomLookup {
                mrea_id: 0xE34FD92B,
                internal_id: 0xBBEE2E4F,
                _area_index: 28,
                layer_count: 3,
                region_name: "Chozo Ruins",
                room_name: "Ruined Gallery",
            },
        58 => RoomLookup {
                mrea_id: 0xDE161372,
                internal_id: 0xCF4C7AA5,
                _area_index: 29,
                layer_count: 2,
                region_name: "Chozo Ruins",
                room_name: "Sun Tower",
            },
        59 => RoomLookup {
                mrea_id: 0x3AD2120F,
                internal_id: 0xC5E2F1AC,
                _area_index: 30,
                layer_count: 1,
                region_name: "Chozo Ruins",
                room_name: "Transport Access North",
            },
        60 => RoomLookup {
                mrea_id: 0x54C40995,
                internal_id: 0xBA2C85C0,
                _area_index: 31,
                layer_count: 1,
                region_name: "Chozo Ruins",
                room_name: "Sunchamber Access",
            },
        61 => RoomLookup {
                mrea_id: 0x47E73BC5,
                internal_id: 0xE1A2B7A0,
                _area_index: 32,
                layer_count: 3,
                region_name: "Chozo Ruins",
                room_name: "Gathering Hall",
            },
        62 => RoomLookup {
                mrea_id: 0xEA8A4073,
                internal_id: 0x88045571,
                _area_index: 33,
                layer_count: 3,
                region_name: "Chozo Ruins",
                room_name: "Totem Access",
            },
        63 => RoomLookup {
                mrea_id: 0x1A5B2E16,
                internal_id: 0x8FE4082D,
                _area_index: 34,
                layer_count: 3,
                region_name: "Chozo Ruins",
                room_name: "Map Station",
            },
        64 => RoomLookup {
                mrea_id: 0x41CC90EC,
                internal_id: 0x27A3BC01,
                _area_index: 35,
                layer_count: 3,
                region_name: "Chozo Ruins",
                room_name: "Sun Tower Access",
            },
        65 => RoomLookup {
                mrea_id: 0xC8309DF6,
                internal_id: 0xF08D4DB1,
                _area_index: 36,
                layer_count: 5,
                region_name: "Chozo Ruins",
                room_name: "Hive Totem",
            },
        66 => RoomLookup {
                mrea_id: 0x9A0A03EB,
                internal_id: 0xF262C1EA,
                _area_index: 37,
                layer_count: 7,
                region_name: "Chozo Ruins",
                room_name: "Sunchamber",
            },
        67 => RoomLookup {
                mrea_id: 0xEEEC837D,
                internal_id: 0x78796F40,
                _area_index: 38,
                layer_count: 3,
                region_name: "Chozo Ruins",
                room_name: "Watery Hall Access",
            },
        68 => RoomLookup {
                mrea_id: 0xF7D8954E,
                internal_id: 0x266493A1,
                _area_index: 39,
                layer_count: 1,
                region_name: "Chozo Ruins",
                room_name: "Save Station 2",
            },
        69 => RoomLookup {
                mrea_id: 0x713600E3,
                internal_id: 0x9096A9E4,
                _area_index: 40,
                layer_count: 1,
                region_name: "Chozo Ruins",
                room_name: "East Atrium",
            },
        70 => RoomLookup {
                mrea_id: 0x492CBF4A,
                internal_id: 0x42C471B8,
                _area_index: 41,
                layer_count: 3,
                region_name: "Chozo Ruins",
                room_name: "Watery Hall",
            },
        71 => RoomLookup {
                mrea_id: 0x463D0D2E,
                internal_id: 0xAF7193D2,
                _area_index: 42,
                layer_count: 1,
                region_name: "Chozo Ruins",
                room_name: "Energy Core Access",
            },
        72 => RoomLookup {
                mrea_id: 0x0F403B07,
                internal_id: 0x17F49345,
                _area_index: 43,
                layer_count: 1,
                region_name: "Chozo Ruins",
                room_name: "Dynamo Access",
            },
        73 => RoomLookup {
                mrea_id: 0xC9D52BBC,
                internal_id: 0x1F1E23E8,
                _area_index: 44,
                layer_count: 3,
                region_name: "Chozo Ruins",
                room_name: "Energy Core",
            },
        74 => RoomLookup {
                mrea_id: 0x04D6C285,
                internal_id: 0xB3E2522B,
                _area_index: 45,
                layer_count: 1,
                region_name: "Chozo Ruins",
                room_name: "Dynamo",
            },
        75 => RoomLookup {
                mrea_id: 0xEF7EB590,
                internal_id: 0x0C0A9627,
                _area_index: 46,
                layer_count: 1,
                region_name: "Chozo Ruins",
                room_name: "Burn Dome Access",
            },
        76 => RoomLookup {
                mrea_id: 0xC2715A58,
                internal_id: 0x3F036C33,
                _area_index: 47,
                layer_count: 1,
                region_name: "Chozo Ruins",
                room_name: "West Furnace Access",
            },
        77 => RoomLookup {
                mrea_id: 0x4148F7B0,
                internal_id: 0xE559824C,
                _area_index: 48,
                layer_count: 3,
                region_name: "Chozo Ruins",
                room_name: "Burn Dome",
            },
        78 => RoomLookup {
                mrea_id: 0x2E318473,
                internal_id: 0xF2A7E5B2,
                _area_index: 49,
                layer_count: 3,
                region_name: "Chozo Ruins",
                room_name: "Furnace",
            },
        79 => RoomLookup {
                mrea_id: 0x44E528F6,
                internal_id: 0x2B394D67,
                _area_index: 50,
                layer_count: 1,
                region_name: "Chozo Ruins",
                room_name: "East Furnace Access",
            },
        80 => RoomLookup {
                mrea_id: 0xD9E78EB0,
                internal_id: 0x479E5576,
                _area_index: 51,
                layer_count: 1,
                region_name: "Chozo Ruins",
                room_name: "Crossway Access West",
            },
        81 => RoomLookup {
                mrea_id: 0xFB54A0CB,
                internal_id: 0xD4F7F4CC,
                _area_index: 52,
                layer_count: 5,
                region_name: "Chozo Ruins",
                room_name: "Hall of the Elders",
            },
        82 => RoomLookup {
                mrea_id: 0x13FFF119,
                internal_id: 0x289146C1,
                _area_index: 53,
                layer_count: 2,
                region_name: "Chozo Ruins",
                room_name: "Crossway",
            },
        83 => RoomLookup {
                mrea_id: 0x9D516D9D,
                internal_id: 0x4E9ADBB0,
                _area_index: 54,
                layer_count: 1,
                region_name: "Chozo Ruins",
                room_name: "Reflecting Pool Access",
            },
        84 => RoomLookup {
                mrea_id: 0xE1CE5BD1,
                internal_id: 0x0369134E,
                _area_index: 55,
                layer_count: 3,
                region_name: "Chozo Ruins",
                room_name: "Elder Hall Access",
            },
        85 => RoomLookup {
                mrea_id: 0x675A297F,
                internal_id: 0xF75D445D,
                _area_index: 56,
                layer_count: 1,
                region_name: "Chozo Ruins",
                room_name: "Crossway Access South",
            },
        86 => RoomLookup {
                mrea_id: 0xE1981EFC,
                internal_id: 0x0439F4EF,
                _area_index: 57,
                layer_count: 1,
                region_name: "Chozo Ruins",
                room_name: "Elder Chamber",
            },
        87 => RoomLookup {
                mrea_id: 0x361ECAAC,
                internal_id: 0x7C7AEA92,
                _area_index: 58,
                layer_count: 4,
                region_name: "Chozo Ruins",
                room_name: "Reflecting Pool",
            },
        88 => RoomLookup {
                mrea_id: 0x188A23AF,
                internal_id: 0xAF25B033,
                _area_index: 59,
                layer_count: 1,
                region_name: "Chozo Ruins",
                room_name: "Save Station 3",
            },
        89 => RoomLookup {
                mrea_id: 0xA2F90C53,
                internal_id: 0xA5DF18DB,
                _area_index: 60,
                layer_count: 1,
                region_name: "Chozo Ruins",
                room_name: "Transport Access South",
            },
        90 => RoomLookup {
                mrea_id: 0xAFEFE677,
                internal_id: 0x01F1977C,
                _area_index: 61,
                layer_count: 1,
                region_name: "Chozo Ruins",
                room_name: "Antechamber",
            },
        91 => RoomLookup {
                mrea_id: 0xA5FA69A1,
                internal_id: 0xC705A398,
                _area_index: 62,
                layer_count: 1,
                region_name: "Chozo Ruins",
                room_name: "Transport to Tallon Overworld East",
            },
        92 => RoomLookup {
                mrea_id: 0x236E1B0F,
                internal_id: 0x23F35FE1,
                _area_index: 63,
                layer_count: 1,
                region_name: "Chozo Ruins",
                room_name: "Transport to Tallon Overworld South",
            },
        93 => RoomLookup {
                mrea_id: 0xC00E3781,
                internal_id: 0xB2E861AC,
                _area_index: 0,
                layer_count: 2,
                region_name: "Phendrana Drifts",
                room_name: "Transport to Magmoor Caverns West",
            },
        94 => RoomLookup {
                mrea_id: 0xC4107CD7,
                internal_id: 0xEE36BA52,
                _area_index: 1,
                layer_count: 2,
                region_name: "Phendrana Drifts",
                room_name: "Shoreline Entrance",
            },
        95 => RoomLookup {
                mrea_id: 0xF7285979,
                internal_id: 0x27E29EB5,
                _area_index: 2,
                layer_count: 6,
                region_name: "Phendrana Drifts",
                room_name: "Phendrana Shorelines",
            },
        96 => RoomLookup {
                mrea_id: 0x85D9F399,
                internal_id: 0x47EFDA6F,
                _area_index: 3,
                layer_count: 3,
                region_name: "Phendrana Drifts",
                room_name: "Temple Entryway",
            },
        97 => RoomLookup {
                mrea_id: 0x0581699D,
                internal_id: 0x9E8FA3C4,
                _area_index: 4,
                layer_count: 1,
                region_name: "Phendrana Drifts",
                room_name: "Save Station B",
            },
        98 => RoomLookup {
                mrea_id: 0x3C13643A,
                internal_id: 0xD5972FA5,
                _area_index: 5,
                layer_count: 5,
                region_name: "Phendrana Drifts",
                room_name: "Ruins Entryway",
            },
        99 => RoomLookup {
                mrea_id: 0xC8115292,
                internal_id: 0xBA8FAC6C,
                _area_index: 6,
                layer_count: 5,
                region_name: "Phendrana Drifts",
                room_name: "Plaza Walkway",
            },
        100 => RoomLookup {
                mrea_id: 0x4E85203C,
                internal_id: 0xD4E7624E,
                _area_index: 7,
                layer_count: 4,
                region_name: "Phendrana Drifts",
                room_name: "Ice Ruins Access",
            },
        101 => RoomLookup {
                mrea_id: 0x6655F51E,
                internal_id: 0xCB2D7AE0,
                _area_index: 8,
                layer_count: 4,
                region_name: "Phendrana Drifts",
                room_name: "Chozo Ice Temple",
            },
        102 => RoomLookup {
                mrea_id: 0xB33A0620,
                internal_id: 0xC1E8B524,
                _area_index: 9,
                layer_count: 3,
                region_name: "Phendrana Drifts",
                room_name: "Ice Ruins West",
            },
        103 => RoomLookup {
                mrea_id: 0xDAFCC26F,
                internal_id: 0x5F9D4CD7,
                _area_index: 10,
                layer_count: 3,
                region_name: "Phendrana Drifts",
                room_name: "Ice Ruins East",
            },
        104 => RoomLookup {
                mrea_id: 0xEF674B4C,
                internal_id: 0x997591BC,
                _area_index: 11,
                layer_count: 1,
                region_name: "Phendrana Drifts",
                room_name: "Chapel Tunnel",
            },
        105 => RoomLookup {
                mrea_id: 0xCFB8ABD1,
                internal_id: 0x46F4DE51,
                _area_index: 12,
                layer_count: 1,
                region_name: "Phendrana Drifts",
                room_name: "Courtyard Entryway",
            },
        106 => RoomLookup {
                mrea_id: 0x034D8137,
                internal_id: 0x2987144D,
                _area_index: 13,
                layer_count: 4,
                region_name: "Phendrana Drifts",
                room_name: "Canyon Entryway",
            },
        107 => RoomLookup {
                mrea_id: 0x40C548E9,
                internal_id: 0x9458A4D2,
                _area_index: 14,
                layer_count: 2,
                region_name: "Phendrana Drifts",
                room_name: "Chapel of the Elders",
            },
        108 => RoomLookup {
                mrea_id: 0x1921876D,
                internal_id: 0x4303C1B2,
                _area_index: 15,
                layer_count: 6,
                region_name: "Phendrana Drifts",
                room_name: "Ruined Courtyard",
            },
        109 => RoomLookup {
                mrea_id: 0xA20A7455,
                internal_id: 0xD9BB2AAB,
                _area_index: 16,
                layer_count: 1,
                region_name: "Phendrana Drifts",
                room_name: "Phendrana Canyon",
            },
        110 => RoomLookup {
                mrea_id: 0x5694A06B,
                internal_id: 0xC025E629,
                _area_index: 17,
                layer_count: 1,
                region_name: "Phendrana Drifts",
                room_name: "Save Station A",
            },
        111 => RoomLookup {
                mrea_id: 0xD341D2DB,
                internal_id: 0x64C37415,
                _area_index: 18,
                layer_count: 4,
                region_name: "Phendrana Drifts",
                room_name: "Specimen Storage",
            },
        112 => RoomLookup {
                mrea_id: 0xEAB320CF,
                internal_id: 0x20AC209D,
                _area_index: 19,
                layer_count: 3,
                region_name: "Phendrana Drifts",
                room_name: "Quarantine Access",
            },
        113 => RoomLookup {
                mrea_id: 0xB51FCE29,
                internal_id: 0x14F1AE87,
                _area_index: 20,
                layer_count: 7,
                region_name: "Phendrana Drifts",
                room_name: "Research Entrance",
            },
        114 => RoomLookup {
                mrea_id: 0x05E1962E,
                internal_id: 0x91F87B2D,
                _area_index: 21,
                layer_count: 1,
                region_name: "Phendrana Drifts",
                room_name: "North Quarantine Tunnel",
            },
        115 => RoomLookup {
                mrea_id: 0x83151B33,
                internal_id: 0xAFCAE029,
                _area_index: 22,
                layer_count: 1,
                region_name: "Phendrana Drifts",
                room_name: "Map Station",
            },
        116 => RoomLookup {
                mrea_id: 0x3947E047,
                internal_id: 0xB6355C87,
                _area_index: 23,
                layer_count: 2,
                region_name: "Phendrana Drifts",
                room_name: "Hydra Lab Entryway",
            },
        117 => RoomLookup {
                mrea_id: 0x70181194,
                internal_id: 0xDB4D2B00,
                _area_index: 24,
                layer_count: 5,
                region_name: "Phendrana Drifts",
                room_name: "Quarantine Cave",
            },
        118 => RoomLookup {
                mrea_id: 0x43E4CC25,
                internal_id: 0x0EA3412A,
                _area_index: 25,
                layer_count: 5,
                region_name: "Phendrana Drifts",
                room_name: "Research Lab Hydra",
            },
        119 => RoomLookup {
                mrea_id: 0x0035FDAD,
                internal_id: 0x2821CA0C,
                _area_index: 26,
                layer_count: 1,
                region_name: "Phendrana Drifts",
                room_name: "South Quarantine Tunnel",
            },
        120 => RoomLookup {
                mrea_id: 0x2191A05D,
                internal_id: 0xB74243C2,
                _area_index: 27,
                layer_count: 1,
                region_name: "Phendrana Drifts",
                room_name: "Quarantine Monitor",
            },
        121 => RoomLookup {
                mrea_id: 0x37BBB33C,
                internal_id: 0x7D554BA6,
                _area_index: 28,
                layer_count: 3,
                region_name: "Phendrana Drifts",
                room_name: "Observatory Access",
            },
        122 => RoomLookup {
                mrea_id: 0xDD0B0739,
                internal_id: 0x31D08ACB,
                _area_index: 29,
                layer_count: 1,
                region_name: "Phendrana Drifts",
                room_name: "Transport to Magmoor Caverns South",
            },
        123 => RoomLookup {
                mrea_id: 0x3FB4A34E,
                internal_id: 0x7E5F6217,
                _area_index: 30,
                layer_count: 3,
                region_name: "Phendrana Drifts",
                room_name: "Observatory",
            },
        124 => RoomLookup {
                mrea_id: 0xD695B958,
                internal_id: 0xDD1AC534,
                _area_index: 31,
                layer_count: 1,
                region_name: "Phendrana Drifts",
                room_name: "Transport Access",
            },
        125 => RoomLookup {
                mrea_id: 0x1E48B18F,
                internal_id: 0x665E3028,
                _area_index: 32,
                layer_count: 3,
                region_name: "Phendrana Drifts",
                room_name: "West Tower Entrance",
            },
        126 => RoomLookup {
                mrea_id: 0x715C31EE,
                internal_id: 0xFB01A2DF,
                _area_index: 33,
                layer_count: 1,
                region_name: "Phendrana Drifts",
                room_name: "Save Station D",
            },
        127 => RoomLookup {
                mrea_id: 0xD79EE805,
                internal_id: 0x88EBDFAC,
                _area_index: 34,
                layer_count: 3,
                region_name: "Phendrana Drifts",
                room_name: "Frozen Pike",
            },
        128 => RoomLookup {
                mrea_id: 0xD79D6B9F,
                internal_id: 0x7EA7EBC4,
                _area_index: 35,
                layer_count: 2,
                region_name: "Phendrana Drifts",
                room_name: "West Tower",
            },
        129 => RoomLookup {
                mrea_id: 0x760E731A,
                internal_id: 0x938EA87D,
                _area_index: 36,
                layer_count: 1,
                region_name: "Phendrana Drifts",
                room_name: "Pike Access",
            },
        130 => RoomLookup {
                mrea_id: 0x39C70FB9,
                internal_id: 0x6C4E9E84,
                _area_index: 37,
                layer_count: 2,
                region_name: "Phendrana Drifts",
                room_name: "Frost Cave Access",
            },
        131 => RoomLookup {
                mrea_id: 0x20EA1D30,
                internal_id: 0xF7A085E1,
                _area_index: 38,
                layer_count: 1,
                region_name: "Phendrana Drifts",
                room_name: "Hunter Cave Access",
            },
        132 => RoomLookup {
                mrea_id: 0xB3C33249,
                internal_id: 0xE5F4B66E,
                _area_index: 39,
                layer_count: 8,
                region_name: "Phendrana Drifts",
                room_name: "Control Tower",
            },
        133 => RoomLookup {
                mrea_id: 0xA49B2544,
                internal_id: 0x77AD2910,
                _area_index: 40,
                layer_count: 3,
                region_name: "Phendrana Drifts",
                room_name: "Research Core",
            },
        134 => RoomLookup {
                mrea_id: 0x4C6F7773,
                internal_id: 0xC91D48C5,
                _area_index: 41,
                layer_count: 3,
                region_name: "Phendrana Drifts",
                room_name: "Frost Cave",
            },
        135 => RoomLookup {
                mrea_id: 0x1EC7951A,
                internal_id: 0xD28A57CF,
                _area_index: 42,
                layer_count: 3,
                region_name: "Phendrana Drifts",
                room_name: "Hunter Cave",
            },
        136 => RoomLookup {
                mrea_id: 0x51091931,
                internal_id: 0x0CEA2747,
                _area_index: 43,
                layer_count: 1,
                region_name: "Phendrana Drifts",
                room_name: "East Tower",
            },
        137 => RoomLookup {
                mrea_id: 0xD8E905DD,
                internal_id: 0xCC011016,
                _area_index: 44,
                layer_count: 3,
                region_name: "Phendrana Drifts",
                room_name: "Research Core Access",
            },
        138 => RoomLookup {
                mrea_id: 0xCEDDBA38,
                internal_id: 0x389C60A0,
                _area_index: 45,
                layer_count: 1,
                region_name: "Phendrana Drifts",
                room_name: "Save Station C",
            },
        139 => RoomLookup {
                mrea_id: 0x253E76B3,
                internal_id: 0x4E7934C0,
                _area_index: 46,
                layer_count: 1,
                region_name: "Phendrana Drifts",
                room_name: "Upper Edge Tunnel",
            },
        140 => RoomLookup {
                mrea_id: 0x53801084,
                internal_id: 0x9B3E462B,
                _area_index: 47,
                layer_count: 1,
                region_name: "Phendrana Drifts",
                room_name: "Lower Edge Tunnel",
            },
        141 => RoomLookup {
                mrea_id: 0xCA6CC052,
                internal_id: 0xFF2D6F70,
                _area_index: 48,
                layer_count: 1,
                region_name: "Phendrana Drifts",
                room_name: "Chamber Access",
            },
        142 => RoomLookup {
                mrea_id: 0x89D7A0A6,
                internal_id: 0xFFAA01E4,
                _area_index: 49,
                layer_count: 1,
                region_name: "Phendrana Drifts",
                room_name: "Lake Tunnel",
            },
        143 => RoomLookup {
                mrea_id: 0x98DCC321,
                internal_id: 0x0836FE0A,
                _area_index: 50,
                layer_count: 2,
                region_name: "Phendrana Drifts",
                room_name: "Aether Lab Entryway",
            },
        144 => RoomLookup {
                mrea_id: 0x21B4BFF6,
                internal_id: 0x354889CE,
                _area_index: 51,
                layer_count: 6,
                region_name: "Phendrana Drifts",
                room_name: "Research Lab Aether",
            },
        145 => RoomLookup {
                mrea_id: 0x54DEF128,
                internal_id: 0x8C1B7564,
                _area_index: 52,
                layer_count: 1,
                region_name: "Phendrana Drifts",
                room_name: "Phendrana's Edge",
            },
        146 => RoomLookup {
                mrea_id: 0x49175472,
                internal_id: 0x1B5105C6,
                _area_index: 53,
                layer_count: 4,
                region_name: "Phendrana Drifts",
                room_name: "Gravity Chamber",
            },
        147 => RoomLookup {
                mrea_id: 0xF7C84340,
                internal_id: 0xC0C0FDD4,
                _area_index: 54,
                layer_count: 1,
                region_name: "Phendrana Drifts",
                room_name: "Storage Cave",
            },
        148 => RoomLookup {
                mrea_id: 0x3C9490E5,
                internal_id: 0x60AF3512,
                _area_index: 55,
                layer_count: 1,
                region_name: "Phendrana Drifts",
                room_name: "Security Cave",
            },
        149 => RoomLookup {
                mrea_id: 0xB2701146,
                internal_id: 0x8FF17910,
                _area_index: 0,
                layer_count: 3,
                region_name: "Tallon Overworld",
                room_name: "Landing Site",
            },
        150 => RoomLookup {
                mrea_id: 0x7B143499,
                internal_id: 0x765EB1D3,
                _area_index: 1,
                layer_count: 1,
                region_name: "Tallon Overworld",
                room_name: "Gully",
            },
        151 => RoomLookup {
                mrea_id: 0xEE209548,
                internal_id: 0xD5A1AABC,
                _area_index: 2,
                layer_count: 1,
                region_name: "Tallon Overworld",
                room_name: "Canyon Cavern",
            },
        152 => RoomLookup {
                mrea_id: 0x5B4E38F5,
                internal_id: 0xAD1E40D5,
                _area_index: 3,
                layer_count: 3,
                region_name: "Tallon Overworld",
                room_name: "Temple Hall",
            },
        153 => RoomLookup {
                mrea_id: 0xC44E7A07,
                internal_id: 0xE7E45FF6,
                _area_index: 4,
                layer_count: 1,
                region_name: "Tallon Overworld",
                room_name: "Alcove",
            },
        154 => RoomLookup {
                mrea_id: 0xE76AD711,
                internal_id: 0xB31AA6E7,
                _area_index: 5,
                layer_count: 1,
                region_name: "Tallon Overworld",
                room_name: "Waterfall Cavern",
            },
        155 => RoomLookup {
                mrea_id: 0x2043C96E,
                internal_id: 0x0CBF54EA,
                _area_index: 6,
                layer_count: 1,
                region_name: "Tallon Overworld",
                room_name: "Tallon Canyon",
            },
        156 => RoomLookup {
                mrea_id: 0xBDB1FCAC,
                internal_id: 0x663AAED7,
                _area_index: 7,
                layer_count: 1,
                region_name: "Tallon Overworld",
                room_name: "Temple Security Station",
            },
        157 => RoomLookup {
                mrea_id: 0xB9ABCD56,
                internal_id: 0x5AED0817,
                _area_index: 8,
                layer_count: 5,
                region_name: "Tallon Overworld",
                room_name: "Frigate Crash Site",
            },
        158 => RoomLookup {
                mrea_id: 0x13D96D3D,
                internal_id: 0xBCC6AC1B,
                _area_index: 9,
                layer_count: 1,
                region_name: "Tallon Overworld",
                room_name: "Transport Tunnel A",
            },
        159 => RoomLookup {
                mrea_id: 0x404804D9,
                internal_id: 0x0F5DA870,
                _area_index: 10,
                layer_count: 1,
                region_name: "Tallon Overworld",
                room_name: "Root Tunnel",
            },
        160 => RoomLookup {
                mrea_id: 0x234762BE,
                internal_id: 0xBE5CD99F,
                _area_index: 11,
                layer_count: 2,
                region_name: "Tallon Overworld",
                room_name: "Temple Lobby",
            },
        161 => RoomLookup {
                mrea_id: 0xBB158C7E,
                internal_id: 0x1CFE014F,
                _area_index: 12,
                layer_count: 1,
                region_name: "Tallon Overworld",
                room_name: "Frigate Access Tunnel",
            },
        162 => RoomLookup {
                mrea_id: 0xCEA263E3,
                internal_id: 0x076FA7F2,
                _area_index: 13,
                layer_count: 1,
                region_name: "Tallon Overworld",
                room_name: "Overgrown Cavern",
            },
        163 => RoomLookup {
                mrea_id: 0x11A02448,
                internal_id: 0x6FD3B9AB,
                _area_index: 14,
                layer_count: 3,
                region_name: "Tallon Overworld",
                room_name: "Transport to Chozo Ruins West",
            },
        164 => RoomLookup {
                mrea_id: 0xBD8C8625,
                internal_id: 0x3C4E9A9E,
                _area_index: 15,
                layer_count: 2,
                region_name: "Tallon Overworld",
                room_name: "Root Cave",
            },
        165 => RoomLookup {
                mrea_id: 0x2398E906,
                internal_id: 0xCD2B0EA2,
                _area_index: 16,
                layer_count: 23,
                region_name: "Tallon Overworld",
                room_name: "Artifact Temple",
            },
        166 => RoomLookup {
                mrea_id: 0x5E0EE592,
                internal_id: 0xD9B5B863,
                _area_index: 17,
                layer_count: 1,
                region_name: "Tallon Overworld",
                room_name: "Main Ventilation Shaft Section C",
            },
        167 => RoomLookup {
                mrea_id: 0x85CA08AB,
                internal_id: 0xDB04A2D2,
                _area_index: 18,
                layer_count: 1,
                region_name: "Tallon Overworld",
                room_name: "Transport Tunnel C",
            },
        168 => RoomLookup {
                mrea_id: 0xC7E821BA,
                internal_id: 0x61D4ABA9,
                _area_index: 19,
                layer_count: 1,
                region_name: "Tallon Overworld",
                room_name: "Transport Tunnel B",
            },
        169 => RoomLookup {
                mrea_id: 0x24F8AFF3,
                internal_id: 0x67A8800F,
                _area_index: 20,
                layer_count: 1,
                region_name: "Tallon Overworld",
                room_name: "Arbor Chamber",
            },
        170 => RoomLookup {
                mrea_id: 0xAFD4E038,
                internal_id: 0xAA9F1D8D,
                _area_index: 21,
                layer_count: 4,
                region_name: "Tallon Overworld",
                room_name: "Main Ventilation Shaft Section B",
            },
        171 => RoomLookup {
                mrea_id: 0x8A31665E,
                internal_id: 0xB0C789B5,
                _area_index: 22,
                layer_count: 1,
                region_name: "Tallon Overworld",
                room_name: "Transport to Chozo Ruins East",
            },
        172 => RoomLookup {
                mrea_id: 0x15D6FF8B,
                internal_id: 0x6D105C48,
                _area_index: 23,
                layer_count: 3,
                region_name: "Tallon Overworld",
                room_name: "Transport to Magmoor Caverns East",
            },
        173 => RoomLookup {
                mrea_id: 0x66CBE887,
                internal_id: 0x3FE0F3BF,
                _area_index: 24,
                layer_count: 1,
                region_name: "Tallon Overworld",
                room_name: "Main Ventilation Shaft Section A",
            },
        174 => RoomLookup {
                mrea_id: 0xEE09629A,
                internal_id: 0x26E887B7,
                _area_index: 25,
                layer_count: 4,
                region_name: "Tallon Overworld",
                room_name: "Reactor Core",
            },
        175 => RoomLookup {
                mrea_id: 0xFB427580,
                internal_id: 0x0F0FFF7C,
                _area_index: 26,
                layer_count: 4,
                region_name: "Tallon Overworld",
                room_name: "Reactor Access",
            },
        176 => RoomLookup {
                mrea_id: 0x37B3AFE6,
                internal_id: 0xA49148B9,
                _area_index: 27,
                layer_count: 4,
                region_name: "Tallon Overworld",
                room_name: "Cargo Freight Lift to Deck Gamma",
            },
        177 => RoomLookup {
                mrea_id: 0xF0594C6D,
                internal_id: 0x7DFD6F83,
                _area_index: 28,
                layer_count: 1,
                region_name: "Tallon Overworld",
                room_name: "Savestation",
            },
        178 => RoomLookup {
                mrea_id: 0x4A96005E,
                internal_id: 0x293B2A0E,
                _area_index: 29,
                layer_count: 1,
                region_name: "Tallon Overworld",
                room_name: "Deck Beta Transit Hall",
            },
        179 => RoomLookup {
                mrea_id: 0xAC2C58FE,
                internal_id: 0x58C5CAFF,
                _area_index: 30,
                layer_count: 5,
                region_name: "Tallon Overworld",
                room_name: "Biohazard Containment",
            },
        180 => RoomLookup {
                mrea_id: 0x76F6E356,
                internal_id: 0x5296214E,
                _area_index: 31,
                layer_count: 1,
                region_name: "Tallon Overworld",
                room_name: "Deck Beta Security Hall",
            },
        181 => RoomLookup {
                mrea_id: 0x5F2EB7B6,
                internal_id: 0x39B3509E,
                _area_index: 32,
                layer_count: 4,
                region_name: "Tallon Overworld",
                room_name: "Biotech Research Area 1",
            },
        182 => RoomLookup {
                mrea_id: 0xC3D44A6E,
                internal_id: 0xEBA417CF,
                _area_index: 33,
                layer_count: 1,
                region_name: "Tallon Overworld",
                room_name: "Deck Beta Conduit Hall",
            },
        183 => RoomLookup {
                mrea_id: 0xE47228EF,
                internal_id: 0x586931AD,
                _area_index: 34,
                layer_count: 1,
                region_name: "Tallon Overworld",
                room_name: "Connection Elevator to Deck Beta",
            },
        184 => RoomLookup {
                mrea_id: 0xFFB4A966,
                internal_id: 0x90091C8F,
                _area_index: 35,
                layer_count: 1,
                region_name: "Tallon Overworld",
                room_name: "Hydro Access Tunnel",
            },
        185 => RoomLookup {
                mrea_id: 0xF47DBE5B,
                internal_id: 0x96F0A70E,
                _area_index: 36,
                layer_count: 3,
                region_name: "Tallon Overworld",
                room_name: "Great Tree Hall",
            },
        186 => RoomLookup {
                mrea_id: 0xC5D6A597,
                internal_id: 0xFFAFEED1,
                _area_index: 37,
                layer_count: 1,
                region_name: "Tallon Overworld",
                room_name: "Great Tree Chamber",
            },
        187 => RoomLookup {
                mrea_id: 0x1A932F64,
                internal_id: 0xDA7DA040,
                _area_index: 38,
                layer_count: 1,
                region_name: "Tallon Overworld",
                room_name: "Transport Tunnel D",
            },
        188 => RoomLookup {
                mrea_id: 0xB4FBBEF5,
                internal_id: 0x0081A28C,
                _area_index: 39,
                layer_count: 2,
                region_name: "Tallon Overworld",
                room_name: "Life Grove Tunnel",
            },
        189 => RoomLookup {
                mrea_id: 0x9D330A07,
                internal_id: 0xB4F4A399,
                _area_index: 40,
                layer_count: 1,
                region_name: "Tallon Overworld",
                room_name: "Transport Tunnel E",
            },
        190 => RoomLookup {
                mrea_id: 0x0CA514F0,
                internal_id: 0x05301E9D,
                _area_index: 41,
                layer_count: 1,
                region_name: "Tallon Overworld",
                room_name: "Transport to Chozo Ruins South",
            },
        191 => RoomLookup {
                mrea_id: 0x86EB2E02,
                internal_id: 0xDF6B8371,
                _area_index: 42,
                layer_count: 3,
                region_name: "Tallon Overworld",
                room_name: "Life Grove",
            },
        192 => RoomLookup {
                mrea_id: 0x7D106670,
                internal_id: 0xBC2A964C,
                _area_index: 43,
                layer_count: 1,
                region_name: "Tallon Overworld",
                room_name: "Transport to Phazon Mines East",
            },
        193 => RoomLookup {
                mrea_id: 0x430E999C,
                internal_id: 0x2AC6EC36,
                _area_index: 0,
                layer_count: 1,
                region_name: "Phazon Mines",
                room_name: "Transport to Tallon Overworld South",
            },
        194 => RoomLookup {
                mrea_id: 0x68CC7758,
                internal_id: 0x5D41D1EC,
                _area_index: 1,
                layer_count: 2,
                region_name: "Phazon Mines",
                room_name: "Quarry Access",
            },
        195 => RoomLookup {
                mrea_id: 0x643D038F,
                internal_id: 0x42E7D7A1,
                _area_index: 2,
                layer_count: 7,
                region_name: "Phazon Mines",
                room_name: "Main Quarry",
            },
        196 => RoomLookup {
                mrea_id: 0x27A391B7,
                internal_id: 0xD5080F92,
                _area_index: 3,
                layer_count: 2,
                region_name: "Phazon Mines",
                room_name: "Waste Disposal",
            },
        197 => RoomLookup {
                mrea_id: 0x361D41B0,
                internal_id: 0x97FF7B49,
                _area_index: 4,
                layer_count: 1,
                region_name: "Phazon Mines",
                room_name: "Save Station Mines A",
            },
        198 => RoomLookup {
                mrea_id: 0xC7653A92,
                internal_id: 0xA4766825,
                _area_index: 5,
                layer_count: 4,
                region_name: "Phazon Mines",
                room_name: "Security Access A",
            },
        199 => RoomLookup {
                mrea_id: 0x97D2B2F6,
                internal_id: 0xC5A0412D,
                _area_index: 6,
                layer_count: 5,
                region_name: "Phazon Mines",
                room_name: "Ore Processing",
            },
        200 => RoomLookup {
                mrea_id: 0x956F1552,
                internal_id: 0x03417FEF,
                _area_index: 7,
                layer_count: 6,
                region_name: "Phazon Mines",
                room_name: "Mine Security Station",
            },
        201 => RoomLookup {
                mrea_id: 0x4346A747,
                internal_id: 0x8D681DF6,
                _area_index: 8,
                layer_count: 2,
                region_name: "Phazon Mines",
                room_name: "Research Access",
            },
        202 => RoomLookup {
                mrea_id: 0xE39C342B,
                internal_id: 0x3ABA07F2,
                _area_index: 9,
                layer_count: 1,
                region_name: "Phazon Mines",
                room_name: "Storage Depot B",
            },
        203 => RoomLookup {
                mrea_id: 0x26219C01,
                internal_id: 0xDA7A8AB1,
                _area_index: 10,
                layer_count: 1,
                region_name: "Phazon Mines",
                room_name: "Elevator Access A",
            },
        204 => RoomLookup {
                mrea_id: 0xA20201D4,
                internal_id: 0xF364FF62,
                _area_index: 11,
                layer_count: 3,
                region_name: "Phazon Mines",
                room_name: "Security Access B",
            },
        205 => RoomLookup {
                mrea_id: 0x35C5D736,
                internal_id: 0x05C7A002,
                _area_index: 12,
                layer_count: 1,
                region_name: "Phazon Mines",
                room_name: "Storage Depot A",
            },
        206 => RoomLookup {
                mrea_id: 0x8A97BB54,
                internal_id: 0xD3438CDA,
                _area_index: 13,
                layer_count: 6,
                region_name: "Phazon Mines",
                room_name: "Elite Research",
            },
        207 => RoomLookup {
                mrea_id: 0x0146ED43,
                internal_id: 0xE6844CFA,
                _area_index: 14,
                layer_count: 1,
                region_name: "Phazon Mines",
                room_name: "Elevator A",
            },
        208 => RoomLookup {
                mrea_id: 0x8988D1CB,
                internal_id: 0x234D3378,
                _area_index: 15,
                layer_count: 2,
                region_name: "Phazon Mines",
                room_name: "Elite Control Access",
            },
        209 => RoomLookup {
                mrea_id: 0xC50AF17A,
                internal_id: 0x08B55780,
                _area_index: 16,
                layer_count: 6,
                region_name: "Phazon Mines",
                room_name: "Elite Control",
            },
        210 => RoomLookup {
                mrea_id: 0xECEFEA8D,
                internal_id: 0x745FA43F,
                _area_index: 17,
                layer_count: 1,
                region_name: "Phazon Mines",
                room_name: "Maintenance Tunnel",
            },
        211 => RoomLookup {
                mrea_id: 0x90709AAC,
                internal_id: 0xDF54F650,
                _area_index: 18,
                layer_count: 1,
                region_name: "Phazon Mines",
                room_name: "Ventilation Shaft",
            },
        212 => RoomLookup {
                mrea_id: 0xAD2E7EB9,
                internal_id: 0xFC928FE7,
                _area_index: 19,
                layer_count: 4,
                region_name: "Phazon Mines",
                room_name: "Phazon Processing Center",
            },
        213 => RoomLookup {
                mrea_id: 0x3F375ECC,
                internal_id: 0xCA589A4B,
                _area_index: 20,
                layer_count: 5,
                region_name: "Phazon Mines",
                room_name: "Omega Research",
            },
        214 => RoomLookup {
                mrea_id: 0x42C4AAF1,
                internal_id: 0x821A98D5,
                _area_index: 21,
                layer_count: 1,
                region_name: "Phazon Mines",
                room_name: "Transport Access",
            },
        215 => RoomLookup {
                mrea_id: 0xED6DE73B,
                internal_id: 0x7B2D211C,
                _area_index: 22,
                layer_count: 4,
                region_name: "Phazon Mines",
                room_name: "Processing Center Access",
            },
        216 => RoomLookup {
                mrea_id: 0x198FF5DC,
                internal_id: 0x22B9F51A,
                _area_index: 23,
                layer_count: 1,
                region_name: "Phazon Mines",
                room_name: "Map Station Mines",
            },
        217 => RoomLookup {
                mrea_id: 0xF517A1EA,
                internal_id: 0x88466117,
                _area_index: 24,
                layer_count: 4,
                region_name: "Phazon Mines",
                room_name: "Dynamo Access",
            },
        218 => RoomLookup {
                mrea_id: 0xE2C2CF38,
                internal_id: 0x91C144BF,
                _area_index: 25,
                layer_count: 1,
                region_name: "Phazon Mines",
                room_name: "Transport to Magmoor Caverns South",
            },
        219 => RoomLookup {
                mrea_id: 0x3953C353,
                internal_id: 0xEE1EF9A6,
                _area_index: 26,
                layer_count: 6,
                region_name: "Phazon Mines",
                room_name: "Elite Quarters",
            },
        220 => RoomLookup {
                mrea_id: 0xFEA372E2,
                internal_id: 0xFB5299C0,
                _area_index: 27,
                layer_count: 6,
                region_name: "Phazon Mines",
                room_name: "Central Dynamo",
            },
        221 => RoomLookup {
                mrea_id: 0x71343C3F,
                internal_id: 0xA15814C4,
                _area_index: 28,
                layer_count: 3,
                region_name: "Phazon Mines",
                room_name: "Elite Quarters Access",
            },
        222 => RoomLookup {
                mrea_id: 0x5ABEEC20,
                internal_id: 0x7171D8DE,
                _area_index: 29,
                layer_count: 2,
                region_name: "Phazon Mines",
                room_name: "Quarantine Access A",
            },
        223 => RoomLookup {
                mrea_id: 0x7BD5E0BB,
                internal_id: 0xEE54D213,
                _area_index: 30,
                layer_count: 1,
                region_name: "Phazon Mines",
                room_name: "Save Station Mines B",
            },
        224 => RoomLookup {
                mrea_id: 0xBB3AFC4E,
                internal_id: 0xBA16E7C3,
                _area_index: 31,
                layer_count: 6,
                region_name: "Phazon Mines",
                room_name: "Metroid Quarantine B",
            },
        225 => RoomLookup {
                mrea_id: 0xFB051F5A,
                internal_id: 0xC21090E6,
                _area_index: 32,
                layer_count: 7,
                region_name: "Phazon Mines",
                room_name: "Metroid Quarantine A",
            },
        226 => RoomLookup {
                mrea_id: 0x14530779,
                internal_id: 0xF64A8383,
                _area_index: 33,
                layer_count: 1,
                region_name: "Phazon Mines",
                room_name: "Quarantine Access B",
            },
        227 => RoomLookup {
                mrea_id: 0x66D0D003,
                internal_id: 0x587DFD50,
                _area_index: 34,
                layer_count: 1,
                region_name: "Phazon Mines",
                room_name: "Save Station Mines C",
            },
        228 => RoomLookup {
                mrea_id: 0x3FD9D766,
                internal_id: 0x26634F99,
                _area_index: 35,
                layer_count: 1,
                region_name: "Phazon Mines",
                room_name: "Elevator Access B",
            },
        229 => RoomLookup {
                mrea_id: 0xEC47C242,
                internal_id: 0x7EF868E8,
                _area_index: 36,
                layer_count: 2,
                region_name: "Phazon Mines",
                room_name: "Fungal Hall B",
            },
        230 => RoomLookup {
                mrea_id: 0xE87957E0,
                internal_id: 0x0C591FA3,
                _area_index: 37,
                layer_count: 1,
                region_name: "Phazon Mines",
                room_name: "Elevator B",
            },
        231 => RoomLookup {
                mrea_id: 0xB089331E,
                internal_id: 0xD28106BE,
                _area_index: 38,
                layer_count: 1,
                region_name: "Phazon Mines",
                room_name: "Missile Station Mines",
            },
        232 => RoomLookup {
                mrea_id: 0xBBFA4AB3,
                internal_id: 0x0F7D3A4A,
                _area_index: 39,
                layer_count: 1,
                region_name: "Phazon Mines",
                room_name: "Phazon Mining Tunnel",
            },
        233 => RoomLookup {
                mrea_id: 0xDE9D71F5,
                internal_id: 0x586FAD0D,
                _area_index: 40,
                layer_count: 2,
                region_name: "Phazon Mines",
                room_name: "Fungal Hall Access",
            },
        234 => RoomLookup {
                mrea_id: 0x0F5277D1,
                internal_id: 0x3D18BC4A,
                _area_index: 41,
                layer_count: 2,
                region_name: "Phazon Mines",
                room_name: "Fungal Hall A",
            },
        235 => RoomLookup {
                mrea_id: 0x3BEAADC9,
                internal_id: 0x7DC0D75B,
                _area_index: 0,
                layer_count: 2,
                region_name: "Magmoor Caverns",
                room_name: "Transport to Chozo Ruins North",
            },
        236 => RoomLookup {
                mrea_id: 0x6D434F4E,
                internal_id: 0x8E77DC91,
                _area_index: 1,
                layer_count: 1,
                region_name: "Magmoor Caverns",
                room_name: "Burning Trail",
            },
        237 => RoomLookup {
                mrea_id: 0x79784D3D,
                internal_id: 0x989F697A,
                _area_index: 2,
                layer_count: 1,
                region_name: "Magmoor Caverns",
                room_name: "Lake Tunnel",
            },
        238 => RoomLookup {
                mrea_id: 0x09B3E01C,
                internal_id: 0x308AE90A,
                _area_index: 3,
                layer_count: 1,
                region_name: "Magmoor Caverns",
                room_name: "Save Station Magmoor A",
            },
        239 => RoomLookup {
                mrea_id: 0xA4719C6A,
                internal_id: 0x11DDB78C,
                _area_index: 4,
                layer_count: 5,
                region_name: "Magmoor Caverns",
                room_name: "Lava Lake",
            },
        240 => RoomLookup {
                mrea_id: 0xDA2ECB94,
                internal_id: 0xF9CA8A01,
                _area_index: 5,
                layer_count: 2,
                region_name: "Magmoor Caverns",
                room_name: "Pit Tunnel",
            },
        241 => RoomLookup {
                mrea_id: 0xBAD9EDBF,
                internal_id: 0x90D4D2AB,
                _area_index: 6,
                layer_count: 4,
                region_name: "Magmoor Caverns",
                room_name: "Triclops Pit",
            },
        242 => RoomLookup {
                mrea_id: 0x0DCC4BCC,
                internal_id: 0xD9062B28,
                _area_index: 7,
                layer_count: 1,
                region_name: "Magmoor Caverns",
                room_name: "Monitor Tunnel",
            },
        243 => RoomLookup {
                mrea_id: 0xADEF843E,
                internal_id: 0x822830CF,
                _area_index: 8,
                layer_count: 1,
                region_name: "Magmoor Caverns",
                room_name: "Storage Cavern",
            },
        244 => RoomLookup {
                mrea_id: 0x0C57A641,
                internal_id: 0x7368B88C,
                _area_index: 9,
                layer_count: 4,
                region_name: "Magmoor Caverns",
                room_name: "Monitor Station",
            },
        245 => RoomLookup {
                mrea_id: 0x47F2C087,
                internal_id: 0x3B614CF7,
                _area_index: 10,
                layer_count: 1,
                region_name: "Magmoor Caverns",
                room_name: "Transport Tunnel A",
            },
        246 => RoomLookup {
                mrea_id: 0x89A6CB8D,
                internal_id: 0x2A729E1B,
                _area_index: 11,
                layer_count: 1,
                region_name: "Magmoor Caverns",
                room_name: "Warrior Shrine",
            },
        247 => RoomLookup {
                mrea_id: 0x901040DF,
                internal_id: 0x1BADEDDE,
                _area_index: 12,
                layer_count: 1,
                region_name: "Magmoor Caverns",
                room_name: "Shore Tunnel",
            },
        248 => RoomLookup {
                mrea_id: 0xDCA9A28B,
                internal_id: 0x4318F156,
                _area_index: 13,
                layer_count: 1,
                region_name: "Magmoor Caverns",
                room_name: "Transport to Phendrana Drifts North",
            },
        249 => RoomLookup {
                mrea_id: 0xF5EF1862,
                internal_id: 0x8E26574F,
                _area_index: 14,
                layer_count: 1,
                region_name: "Magmoor Caverns",
                room_name: "Fiery Shores",
            },
        250 => RoomLookup {
                mrea_id: 0x3346C676,
                internal_id: 0x7AF80EA5,
                _area_index: 15,
                layer_count: 1,
                region_name: "Magmoor Caverns",
                room_name: "Transport Tunnel B",
            },
        251 => RoomLookup {
                mrea_id: 0x4C3D244C,
                internal_id: 0xB3128CF6,
                _area_index: 16,
                layer_count: 2,
                region_name: "Magmoor Caverns",
                room_name: "Transport to Tallon Overworld West",
            },
        252 => RoomLookup {
                mrea_id: 0xE4A4462E,
                internal_id: 0x5A34AF8C,
                _area_index: 17,
                layer_count: 1,
                region_name: "Magmoor Caverns",
                room_name: "Twin Fires Tunnel",
            },
        253 => RoomLookup {
                mrea_id: 0x4C784BEA,
                internal_id: 0x4D5469E4,
                _area_index: 18,
                layer_count: 3,
                region_name: "Magmoor Caverns",
                room_name: "Twin Fires",
            },
        254 => RoomLookup {
                mrea_id: 0xA73BD0E0,
                internal_id: 0x6547C75A,
                _area_index: 19,
                layer_count: 2,
                region_name: "Magmoor Caverns",
                room_name: "North Core Tunnel",
            },
        255 => RoomLookup {
                mrea_id: 0xC0498676,
                internal_id: 0x59573062,
                _area_index: 20,
                layer_count: 7,
                region_name: "Magmoor Caverns",
                room_name: "Geothermal Core",
            },
        256 => RoomLookup {
                mrea_id: 0x4CC18E5A,
                internal_id: 0x1A2F5E11,
                _area_index: 21,
                layer_count: 1,
                region_name: "Magmoor Caverns",
                room_name: "Plasma Processing",
            },
        257 => RoomLookup {
                mrea_id: 0x70D950B8,
                internal_id: 0x458B6673,
                _area_index: 22,
                layer_count: 1,
                region_name: "Magmoor Caverns",
                room_name: "South Core Tunnel",
            },
        258 => RoomLookup {
                mrea_id: 0x8ABEB3C3,
                internal_id: 0x6D5BE01A,
                _area_index: 23,
                layer_count: 4,
                region_name: "Magmoor Caverns",
                room_name: "Magmoor Workstation",
            },
        259 => RoomLookup {
                mrea_id: 0x046D5649,
                internal_id: 0x04122421,
                _area_index: 24,
                layer_count: 1,
                region_name: "Magmoor Caverns",
                room_name: "Workstation Tunnel",
            },
        260 => RoomLookup {
                mrea_id: 0xD38FD611,
                internal_id: 0x24DE8508,
                _area_index: 25,
                layer_count: 1,
                region_name: "Magmoor Caverns",
                room_name: "Transport Tunnel C",
            },
        261 => RoomLookup {
                mrea_id: 0xEF2F1440,
                internal_id: 0x921FFEDB,
                _area_index: 26,
                layer_count: 1,
                region_name: "Magmoor Caverns",
                room_name: "Transport to Phazon Mines West",
            },
        262 => RoomLookup {
                mrea_id: 0xC1AC9233,
                internal_id: 0xC0201A31,
                _area_index: 27,
                layer_count: 1,
                region_name: "Magmoor Caverns",
                room_name: "Transport to Phendrana Drifts South",
            },
        263 => RoomLookup {
                mrea_id: 0x7F56D921,
                internal_id: 0xEABBF3E8,
                _area_index: 28,
                layer_count: 1,
                region_name: "Magmoor Caverns",
                room_name: "Save Station Magmoor B",
            },
        264 => RoomLookup {
                mrea_id: 0x93668996,
                internal_id: 0x2B878F78,
                _area_index: 0,
                layer_count: 1,
                region_name: "Impact Crater",
                room_name: "Crater Entry Point",
            },
        265 => RoomLookup {
                mrea_id: 0x49CB2363,
                internal_id: 0xB4F7699E,
                _area_index: 1,
                layer_count: 1,
                region_name: "Impact Crater",
                room_name: "Crater Tunnel A",
            },
        266 => RoomLookup {
                mrea_id: 0xBD946AC3,
                internal_id: 0x66F7C0E2,
                _area_index: 2,
                layer_count: 2,
                region_name: "Impact Crater",
                room_name: "Phazon Core",
            },
        267 => RoomLookup {
                mrea_id: 0x4D446C3F,
                internal_id: 0x2C152A9A,
                _area_index: 3,
                layer_count: 1,
                region_name: "Impact Crater",
                room_name: "Crater Missile Station",
            },
        268 => RoomLookup {
                mrea_id: 0x32D5A180,
                internal_id: 0xC8C538AF,
                _area_index: 4,
                layer_count: 2,
                region_name: "Impact Crater",
                room_name: "Crater Tunnel B",
            },
        269 => RoomLookup {
                mrea_id: 0x67156A0D,
                internal_id: 0xE601A86A,
                _area_index: 5,
                layer_count: 1,
                region_name: "Impact Crater",
                room_name: "Phazon Infusion Chamber",
            },
        270 => RoomLookup {
                mrea_id: 0xDADF06C3,
                internal_id: 0xE77A43A7,
                _area_index: 6,
                layer_count: 1,
                region_name: "Impact Crater",
                room_name: "Subchamber One",
            },
        271 => RoomLookup {
                mrea_id: 0x0749DF46,
                internal_id: 0xE7ACE51C,
                _area_index: 7,
                layer_count: 3,
                region_name: "Impact Crater",
                room_name: "Subchamber Two",
            },
        272 => RoomLookup {
                mrea_id: 0x7A3AD91E,
                internal_id: 0xE58D943D,
                _area_index: 8,
                layer_count: 1,
                region_name: "Impact Crater",
                room_name: "Subchamber Three",
            },
        273 => RoomLookup {
                mrea_id: 0xA7AC009B,
                internal_id: 0xE55B3286,
                _area_index: 9,
                layer_count: 1,
                region_name: "Impact Crater",
                room_name: "Subchamber Four",
            },
        274 => RoomLookup {
                mrea_id: 0x77714498,
                internal_id: 0xC5445690,
                _area_index: 10,
                layer_count: 1,
                region_name: "Impact Crater",
                room_name: "Subchamber Five",
            },
        _ => RoomLookup {
                mrea_id: 0x1A666C55,
                internal_id: 0xE420D94B,
                _area_index: 11,
                layer_count: 1,
                region_name: "Impact Crater",
                room_name: "Metroid Prime Lair",
            },
    }
}

/// Every room of the game, region by region.
pub fn room_lookup() -> (r: Vec<RoomLookup>)
    ensures
        r@ == room_table(),
{
    let mut r: Vec<RoomLookup> = Vec::new();
    let mut k: usize = 0;
    while k < ROOM_COUNT
        invariant
            k <= ROOM_COUNT,
            r@.len() == k,
            forall|j: int| 0 <= j < k ==> #[trigger] r@[j] == room_at(j),
        decreases ROOM_COUNT - k,
    {
        r.push(room_at_index(k));
        k = k + 1;
    }
    assert(r@ =~= room_table());
    r
}

/// The last room of `rooms` whose area id is `mrea_id`.
pub open spec fn last_room_with_mrea(rooms: Seq<RoomLookup>, mrea_id: u32) -> Option<RoomLookup>
    decreases rooms.len(),
{
    if rooms.len() == 0 {
        None
    } else if rooms.last().mrea_id == mrea_id {
        Some(rooms.last())
    } else {
        last_room_with_mrea(rooms.drop_last(), mrea_id)
    }
}

/// The last room of `rooms` whose internal id is `internal_id`.
pub open spec fn last_room_with_internal_id(rooms: Seq<RoomLookup>, internal_id: u32) -> Option<RoomLookup>
    decreases rooms.len(),
{
    if rooms.len() == 0 {
        None
    } else if rooms.last().internal_id == internal_id {
        Some(rooms.last())
    } else {
        last_room_with_internal_id(rooms.drop_last(), internal_id)
    }
}

/// The last room of `rooms` with the given region and room names.
pub open spec fn last_room_with_name(rooms: Seq<RoomLookup>, region: Seq<char>, room: Seq<char>) -> Option<RoomLookup>
    decreases rooms.len(),
{
    if rooms.len() == 0 {
        None
    } else if rooms.last().region_name@ == region && rooms.last().room_name@ == room {
        Some(rooms.last())
    } else {
        last_room_with_name(rooms.drop_last(), region, room)
    }
}

/// The room with the given area id; where several rooms share it, the last of them (a map
/// built by inserting the rooms in order keeps the last).
pub fn room_by_mrea(rooms: &[RoomLookup], mrea_id: u32) -> (r: Option<RoomLookup>)
    ensures
        r == last_room_with_mrea(rooms@, mrea_id),
{
    let mut i: usize = rooms.len();
    assert(rooms@.subrange(0, i as int) =~= rooms@);
    while i > 0
        invariant
            i <= rooms@.len(),
            last_room_with_mrea(rooms@, mrea_id) == last_room_with_mrea(rooms@.subrange(0, i as int), mrea_id),
        decreases i,
    {
        let room = rooms[i - 1];
        if room.mrea_id == mrea_id {
            return Some(room);
        }
        assert(rooms@.subrange(0, i as int).drop_last() =~= rooms@.subrange(0, i - 1));
        i = i - 1;
    }
    None
}

/// The room with the given internal id; where several rooms share it, the last of them.
pub fn room_by_internal_id(rooms: &[RoomLookup], internal_id: u32) -> (r: Option<RoomLookup>)
    ensures
        r == last_room_with_internal_id(rooms@, internal_id),
{
    let mut i: usize = rooms.len();
    assert(rooms@.subrange(0, i as int) =~= rooms@);
    while i > 0
        invariant
            i <= rooms@.len(),
            last_room_with_internal_id(rooms@, internal_id) == last_room_with_internal_id(
                rooms@.subrange(0, i as int),
                internal_id,
            ),
        decreases i,
    {
        let room = rooms[i - 1];
        if room.internal_id == internal_id {
            return Some(room);
        }
        assert(rooms@.subrange(0, i as int).drop_last() =~= rooms@.subrange(0, i - 1));
        i = i - 1;
    }
    None
}

/// The room with the given region and room names; where several rooms share them, the last of
/// them.
pub fn room_by_name(rooms: &[RoomLookup], region_name: &str, room_name: &str) -> (r: Option<RoomLookup>)
    ensures
        r == last_room_with_name(rooms@, region_name@, room_name@),
{
    let mut i: usize = rooms.len();
    assert(rooms@.subrange(0, i as int) =~= rooms@);
    while i > 0
        invariant
            i <= rooms@.len(),
            last_room_with_name(rooms@, region_name@, room_name@) == last_room_with_name(
                rooms@.subrange(0, i as int),
                region_name@,
                room_name@,
            ),
        decreases i,
    {
        let room = rooms[i - 1];
        if str_equal(room.region_name, region_name) && str_equal(room.room_name, room_name) {
            return Some(room);
        }
        assert(rooms@.subrange(0, i as int).drop_last() =~= rooms@.subrange(0, i - 1));
        i = i - 1;
    }
    None
}

/// Looking up any listed room by its area id finds a room with that area id, and no room listed
/// after the one found has that id.
pub proof fn lemma_room_by_mrea_finds(rooms: Seq<RoomLookup>, i: int)
    requires
        0 <= i < rooms.len(),
    ensures
        last_room_with_mrea(rooms, rooms[i].mrea_id) matches Some(r) && r.mrea_id == rooms[i].mrea_id,
    decreases rooms.len(),
{
    if rooms.last().mrea_id != rooms[i].mrea_id {
        assert(rooms.drop_last()[i] == rooms[i]);
        lemma_room_by_mrea_finds(rooms.drop_last(), i);
    }
}

/// Looking up any listed room by its internal id finds a room with that internal id.
pub proof fn lemma_room_by_internal_id_finds(rooms: Seq<RoomLookup>, i: int)
    requires
        0 <= i < rooms.len(),
    ensures
        last_room_with_internal_id(rooms, rooms[i].internal_id) matches Some(r) && r.internal_id == rooms[i].internal_id,
    decreases rooms.len(),
{
    if rooms.last().internal_id != rooms[i].internal_id {
        assert(rooms.drop_last()[i] == rooms[i]);
        lemma_room_by_internal_id_finds(rooms.drop_last(), i);
    }
}

/// Looking up any listed room by its region and room names finds a room with those names.
pub proof fn lemma_room_by_name_finds(rooms: Seq<RoomLookup>, i: int)
    requires
        0 <= i < rooms.len(),
    ensures
        last_room_with_name(rooms, rooms[i].region_name@, rooms[i].room_name@) matches Some(r)
            && r.region_name@ == rooms[i].region_name@ && r.room_name@ == rooms[i].room_name@,
    decreases rooms.len(),
{
    if !(rooms.last().region_name@ == rooms[i].region_name@ && rooms.last().room_name@ == rooms[i].room_name@) {
        assert(rooms.drop_last()[i] == rooms[i]);
        lemma_room_by_name_finds(rooms.drop_last(), i);
    }
}


/// The names of the regions differ from each other.
proof fn lemma_region_names_differ()
    ensures
        "End Cinema"@ != "Frigate Orpheon"@,
        "End Cinema"@ != "Chozo Ruins"@,
        "End Cinema"@ != "Phendrana Drifts"@,
        "End Cinema"@ != "Tallon Overworld"@,
        "End Cinema"@ != "Phazon Mines"@,
        "End Cinema"@ != "Magmoor Caverns"@,
        "End Cinema"@ != "Impact Crater"@,
        "Frigate Orpheon"@ != "Chozo Ruins"@,
        "Frigate Orpheon"@ != "Phendrana Drifts"@,
        "Frigate Orpheon"@ != "Tallon Overworld"@,
        "Frigate Orpheon"@ != "Phazon Mines"@,
        "Frigate Orpheon"@ != "Magmoor Caverns"@,
        "Frigate Orpheon"@ != "Impact Crater"@,
        "Chozo Ruins"@ != "Phendrana Drifts"@,
        "Chozo Ruins"@ != "Tallon Overworld"@,
        "Chozo Ruins"@ != "Phazon Mines"@,
        "Chozo Ruins"@ != "Magmoor Caverns"@,
        "Chozo Ruins"@ != "Impact Crater"@,
        "Phendrana Drifts"@ != "Tallon Overworld"@,
        "Phendrana Drifts"@ != "Phazon Mines"@,
        "Phendrana Drifts"@ != "Magmoor Caverns"@,
        "Phendrana Drifts"@ != "Impact Crater"@,
        "Tallon Overworld"@ != "Phazon Mines"@,
        "Tallon Overworld"@ != "Magmoor Caverns"@,
        "Tallon Overworld"@ != "Impact Crater"@,
        "Phazon Mines"@ != "Magmoor Caverns"@,
        "Phazon Mines"@ != "Impact Crater"@,
        "Magmoor Caverns"@ != "Impact Crater"@,
{
    reveal_strlit("End Cinema");
    reveal_strlit("Frigate Orpheon");
    reveal_strlit("Chozo Ruins");
    reveal_strlit("Phendrana Drifts");
    reveal_strlit("Tallon Overworld");
    reveal_strlit("Phazon Mines");
    reveal_strlit("Magmoor Caverns");
    reveal_strlit("Impact Crater");
    assert("End Cinema"@.len() != "Frigate Orpheon"@.len());
    assert("End Cinema"@.len() != "Chozo Ruins"@.len());
    assert("End Cinema"@.len() != "Phendrana Drifts"@.len());
    assert("End Cinema"@.len() != "Tallon Overworld"@.len());
    assert("End Cinema"@.len() != "Phazon Mines"@.len());
    assert("End Cinema"@.len() != "Magmoor Caverns"@.len());
    assert("End Cinema"@.len() != "Impact Crater"@.len());
    assert("Frigate Orpheon"@.len() != "Chozo Ruins"@.len());
    assert("Frigate Orpheon"@.len() != "Phendrana Drifts"@.len());
    assert("Frigate Orpheon"@.len() != "Tallon Overworld"@.len());
    assert("Frigate Orpheon"@.len() != "Phazon Mines"@.len());
    assert("Frigate Orpheon"@[0] != "Magmoor Caverns"@[0]);
    assert("Frigate Orpheon"@.len() != "Impact Crater"@.len());
    assert("Chozo Ruins"@.len() != "Phendrana Drifts"@.len());
    assert("Chozo Ruins"@.len() != "Tallon Overworld"@.len());
    assert("Chozo Ruins"@.len() != "Phazon Mines"@.len());
    assert("Chozo Ruins"@.len() != "Magmoor Caverns"@.len());
    assert("Chozo Ruins"@.len() != "Impact Crater"@.len());
    assert("Phendrana Drifts"@[0] != "Tallon Overworld"@[0]);
    assert("Phendrana Drifts"@.len() != "Phazon Mines"@.len());
    assert("Phendrana Drifts"@.len() != "Magmoor Caverns"@.len());
    assert("Phendrana Drifts"@.len() != "Impact Crater"@.len());
    assert("Tallon Overworld"@.len() != "Phazon Mines"@.len());
    assert("Tallon Overworld"@.len() != "Magmoor Caverns"@.len());
    assert("Tallon Overworld"@.len() != "Impact Crater"@.len());
    assert("Phazon Mines"@.len() != "Magmoor Caverns"@.len());
    assert("Phazon Mines"@.len() != "Impact Crater"@.len());
    assert("Magmoor Caverns"@.len() != "Impact Crater"@.len());
}

/// Whether the room after place `k` starts a new region exactly when its area index is 0.
pub open spec fn region_starts_at_area_zero(k: int) -> bool {
    (room_at(k + 1).region_name@ != room_at(k).region_name@) <==> room_at(k + 1)._area_index == 0
}

proof fn lemma_region_steps_0(k: int)
    requires
        0 <= k < 25,
    ensures
        region_starts_at_area_zero(k),
{
    lemma_region_names_differ();
    if k == 0 {
    } else if k == 1 {
    } else if k == 2 {
    } else if k == 3 {
    } else if k == 4 {
    } else if k == 5 {
    } else if k == 6 {
    } else if k == 7 {
    } else if k == 8 {
    } else if k == 9 {
    } else if k == 10 {
    } else if k == 11 {
    } else if k == 12 {
    } else if k == 13 {
    } else if k == 14 {
    } else if k == 15 {
    } else if k == 16 {
    } else if k == 17 {
    } else if k == 18 {
    } else if k == 19 {
    } else if k == 20 {
    } else if k == 21 {
    } else if k == 22 {
    } else if k == 23 {
    } else if k == 24 {
    }
}

proof fn lemma_region_steps_1(k: int)
    requires
        25 <= k < 50,
    ensures
        region_starts_at_area_zero(k),
{
    lemma_region_names_differ();
    if k == 25 {
    } else if k == 26 {
    } else if k == 27 {
    } else if k == 28 {
    } else if k == 29 {
    } else if k == 30 {
    } else if k == 31 {
    } else if k == 32 {
    } else if k == 33 {
    } else if k == 34 {
    } else if k == 35 {
    } else if k == 36 {
    } else if k == 37 {
    } else if k == 38 {
    } else if k == 39 {
    } else if k == 40 {
    } else if k == 41 {
    } else if k == 42 {
    } else if k == 43 {
    } else if k == 44 {
    } else if k == 45 {
    } else if k == 46 {
    } else if k == 47 {
    } else if k == 48 {
    } else if k == 49 {
    }
}

proof fn lemma_region_steps_2(k: int)
    requires
        50 <= k < 75,
    ensures
        region_starts_at_area_zero(k),
{
    lemma_region_names_differ();
    if k == 50 {
    } else if k == 51 {
    } else if k == 52 {
    } else if k == 53 {
    } else if k == 54 {
    } else if k == 55 {
    } else if k == 56 {
    } else if k == 57 {
    } else if k == 58 {
    } else if k == 59 {
    } else if k == 60 {
    } else if k == 61 {
    } else if k == 62 {
    } else if k == 63 {
    } else if k == 64 {
    } else if k == 65 {
    } else if k == 66 {
    } else if k == 67 {
    } else if k == 68 {
    } else if k == 69 {
    } else if k == 70 {
    } else if k == 71 {
    } else if k == 72 {
    } else if k == 73 {
    } else if k == 74 {
    }
}

proof fn lemma_region_steps_3(k: int)
    requires
        75 <= k < 100,
    ensures
        region_starts_at_area_zero(k),
{
    lemma_region_names_differ();
    if k == 75 {
    } else if k == 76 {
    } else if k == 77 {
    } else if k == 78 {
    } else if k == 79 {
    } else if k == 80 {
    } else if k == 81 {
    } else if k == 82 {
    } else if k == 83 {
    } else if k == 84 {
    } else if k == 85 {
    } else if k == 86 {
    } else if k == 87 {
    } else if k == 88 {
    } else if k == 89 {
    } else if k == 90 {
    } else if k == 91 {
    } else if k == 92 {
    } else if k == 93 {
    } else if k == 94 {
    } else if k == 95 {
    } else if k == 96 {
    } else if k == 97 {
    } else if k == 98 {
    } else if k == 99 {
    }
}

proof fn lemma_region_steps_4(k: int)
    requires
        100 <= k < 125,
    ensures
        region_starts_at_area_zero(k),
{
    lemma_region_names_differ();
    if k == 100 {
    } else if k == 101 {
    } else if k == 102 {
    } else if k == 103 {
    } else if k == 104 {
    } else if k == 105 {
    } else if k == 106 {
    } else if k == 107 {
    } else if k == 108 {
    } else if k == 109 {
    } else if k == 110 {
    } else if k == 111 {
    } else if k == 112 {
    } else if k == 113 {
    } else if k == 114 {
    } else if k == 115 {
    } else if k == 116 {
    } else if k == 117 {
    } else if k == 118 {
    } else if k == 119 {
    } else if k == 120 {
    } else if k == 121 {
    } else if k == 122 {
    } else if k == 123 {
    } else if k == 124 {
    }
}

proof fn lemma_region_steps_5(k: int)
    requires
        125 <= k < 150,
    ensures
        region_starts_at_area_zero(k),
{
    lemma_region_names_differ();
    if k == 125 {
    } else if k == 126 {
    } else if k == 127 {
    } else if k == 128 {
    } else if k == 129 {
    } else if k == 130 {
    } else if k == 131 {
    } else if k == 132 {
    } else if k == 133 {
    } else if k == 134 {
    } else if k == 135 {
    } else if k == 136 {
    } else if k == 137 {
    } else if k == 138 {
    } else if k == 139 {
    } else if k == 140 {
    } else if k == 141 {
    } else if k == 142 {
    } else if k == 143 {
    } else if k == 144 {
    } else if k == 145 {
    } else if k == 146 {
    } else if k == 147 {
    } else if k == 148 {
    } else if k == 149 {
    }
}

proof fn lemma_region_steps_6(k: int)
    requires
        150 <= k < 175,
    ensures
        region_starts_at_area_zero(k),
{
    lemma_region_names_differ();
    if k == 150 {
    } else if k == 151 {
    } else if k == 152 {
    } else if k == 153 {
    } else if k == 154 {
    } else if k == 155 {
    } else if k == 156 {
    } else if k == 157 {
    } else if k == 158 {
    } else if k == 159 {
    } else if k == 160 {
    } else if k == 161 {
    } else if k == 162 {
    } else if k == 163 {
    } else if k == 164 {
    } else if k == 165 {
    } else if k == 166 {
    } else if k == 167 {
    } else if k == 168 {
    } else if k == 169 {
    } else if k == 170 {
    } else if k == 171 {
    } else if k == 172 {
    } else if k == 173 {
    } else if k == 174 {
    }
}

proof fn lemma_region_steps_7(k: int)
    requires
        175 <= k < 200,
    ensures
        region_starts_at_area_zero(k),
{
    lemma_region_names_differ();
    if k == 175 {
    } else if k == 176 {
    } else if k == 177 {
    } else if k == 178 {
    } else if k == 179 {
    } else if k == 180 {
    } else if k == 181 {
    } else if k == 182 {
    } else if k == 183 {
    } else if k == 184 {
    } else if k == 185 {
    } else if k == 186 {
    } else if k == 187 {
    } else if k == 188 {
    } else if k == 189 {
    } else if k == 190 {
    } else if k == 191 {
    } else if k == 192 {
    } else if k == 193 {
    } else if k == 194 {
    } else if k == 195 {
    } else if k == 196 {
    } else if k == 197 {
    } else if k == 198 {
    } else if k == 199 {
    }
}

proof fn lemma_region_steps_8(k: int)
    requires
        200 <= k < 225,
    ensures
        region_starts_at_area_zero(k),
{
    lemma_region_names_differ();
    if k == 200 {
    } else if k == 201 {
    } else if k == 202 {
    } else if k == 203 {
    } else if k == 204 {
    } else if k == 205 {
    } else if k == 206 {
    } else if k == 207 {
    } else if k == 208 {
    } else if k == 209 {
    } else if k == 210 {
    } else if k == 211 {
    } else if k == 212 {
    } else if k == 213 {
    } else if k == 214 {
    } else if k == 215 {
    } else if k == 216 {
    } else if k == 217 {
    } else if k == 218 {
    } else if k == 219 {
    } else if k == 220 {
    } else if k == 221 {
    } else if k == 222 {
    } else if k == 223 {
    } else if k == 224 {
    }
}

proof fn lemma_region_steps_9(k: int)
    requires
        225 <= k < 250,
    ensures
        region_starts_at_area_zero(k),
{
    lemma_region_names_differ();
    if k == 225 {
    } else if k == 226 {
    } else if k == 227 {
    } else if k == 228 {
    } else if k == 229 {
    } else if k == 230 {
    } else if k == 231 {
    } else if k == 232 {
    } else if k == 233 {
    } else if k == 234 {
    } else if k == 235 {
    } else if k == 236 {
    } else if k == 237 {
    } else if k == 238 {
    } else if k == 239 {
    } else if k == 240 {
    } else if k == 241 {
    } else if k == 242 {
    } else if k == 243 {
    } else if k == 244 {
    } else if k == 245 {
    } else if k == 246 {
    } else if k == 247 {
    } else if k == 248 {
    } else if k == 249 {
    }
}

proof fn lemma_region_steps_10(k: int)
    requires
        250 <= k < 275,
    ensures
        region_starts_at_area_zero(k),
{
    lemma_region_names_differ();
    if k == 250 {
    } else if k == 251 {
    } else if k == 252 {
    } else if k == 253 {
    } else if k == 254 {
    } else if k == 255 {
    } else if k == 256 {
    } else if k == 257 {
    } else if k == 258 {
    } else if k == 259 {
    } else if k == 260 {
    } else if k == 261 {
    } else if k == 262 {
    } else if k == 263 {
    } else if k == 264 {
    } else if k == 265 {
    } else if k == 266 {
    } else if k == 267 {
    } else if k == 268 {
    } else if k == 269 {
    } else if k == 270 {
    } else if k == 271 {
    } else if k == 272 {
    } else if k == 273 {
    } else if k == 274 {
    }
}

/// The table lists the regions one after another, each starting at its room with area index 0:
/// two neighbouring rooms lie in different regions exactly when the second has area index 0,
/// and the first room has area index 0.
pub proof fn lemma_regions_start_at_area_zero()
    ensures
        room_table()[0]._area_index == 0,
        forall|k: int| 0 <= k < ROOM_COUNT - 1 ==> ((#[trigger] room_table()[k + 1]).region_name@
            != room_table()[k].region_name@ <==> room_table()[k + 1]._area_index == 0),
{
    assert forall|k: int| 0 <= k < ROOM_COUNT - 1 implies ((#[trigger] room_table()[k + 1]).region_name@
        != room_table()[k].region_name@ <==> room_table()[k + 1]._area_index == 0) by {
        if k < 25 {
            lemma_region_steps_0(k);
        } else if k < 50 {
            lemma_region_steps_1(k);
        } else if k < 75 {
            lemma_region_steps_2(k);
        } else if k < 100 {
            lemma_region_steps_3(k);
        } else if k < 125 {
            lemma_region_steps_4(k);
        } else if k < 150 {
            lemma_region_steps_5(k);
        } else if k < 175 {
            lemma_region_steps_6(k);
        } else if k < 200 {
            lemma_region_steps_7(k);
        } else if k < 225 {
            lemma_region_steps_8(k);
        } else if k < 250 {
            lemma_region_steps_9(k);
        } else if k < 275 {
            lemma_region_steps_10(k);
        }
    }
}

/// Whether the room at place `k` has area index 0 exactly when it is the first room of one of
/// the game's regions.
pub open spec fn area_zero_only_at_region_start(k: int) -> bool {
    room_at(k)._area_index == 0 <==> (k == 0 || k == 1 || k == 29 || k == 93 || k == 149 || k == 193 || k == 235 || k == 264)
}

proof fn lemma_region_starts_0(k: int)
    requires
        0 <= k < 25,
    ensures
        area_zero_only_at_region_start(k),
{
    if k == 0 {
    } else if k == 1 {
    } else if k == 2 {
    } else if k == 3 {
    } else if k == 4 {
    } else if k == 5 {
    } else if k == 6 {
    } else if k == 7 {
    } else if k == 8 {
    } else if k == 9 {
    } else if k == 10 {
    } else if k == 11 {
    } else if k == 12 {
    } else if k == 13 {
    } else if k == 14 {
    } else if k == 15 {
    } else if k == 16 {
    } else if k == 17 {
    } else if k == 18 {
    } else if k == 19 {
    } else if k == 20 {
    } else if k == 21 {
    } else if k == 22 {
    } else if k == 23 {
    } else if k == 24 {
    }
}

proof fn lemma_region_starts_1(k: int)
    requires
        25 <= k < 50,
    ensures
        area_zero_only_at_region_start(k),
{
    if k == 25 {
    } else if k == 26 {
    } else if k == 27 {
    } else if k == 28 {
    } else if k == 29 {
    } else if k == 30 {
    } else if k == 31 {
    } else if k == 32 {
    } else if k == 33 {
    } else if k == 34 {
    } else if k == 35 {
    } else if k == 36 {
    } else if k == 37 {
    } else if k == 38 {
    } else if k == 39 {
    } else if k == 40 {
    } else if k == 41 {
    } else if k == 42 {
    } else if k == 43 {
    } else if k == 44 {
    } else if k == 45 {
    } else if k == 46 {
    } else if k == 47 {
    } else if k == 48 {
    } else if k == 49 {
    }
}

proof fn lemma_region_starts_2(k: int)
    requires
        50 <= k < 75,
    ensures
        area_zero_only_at_region_start(k),
{
    if k == 50 {
    } else if k == 51 {
    } else if k == 52 {
    } else if k == 53 {
    } else if k == 54 {
    } else if k == 55 {
    } else if k == 56 {
    } else if k == 57 {
    } else if k == 58 {
    } else if k == 59 {
    } else if k == 60 {
    } else if k == 61 {
    } else if k == 62 {
    } else if k == 63 {
    } else if k == 64 {
    } else if k == 65 {
    } else if k == 66 {
    } else if k == 67 {
    } else if k == 68 {
    } else if k == 69 {
    } else if k == 70 {
    } else if k == 71 {
    } else if k == 72 {
    } else if k == 73 {
    } else if k == 74 {
    }
}

proof fn lemma_region_starts_3(k: int)
    requires
        75 <= k < 100,
    ensures
        area_zero_only_at_region_start(k),
{
    if k == 75 {
    } else if k == 76 {
    } else if k == 77 {
    } else if k == 78 {
    } else if k == 79 {
    } else if k == 80 {
    } else if k == 81 {
    } else if k == 82 {
    } else if k == 83 {
    } else if k == 84 {
    } else if k == 85 {
    } else if k == 86 {
    } else if k == 87 {
    } else if k == 88 {
    } else if k == 89 {
    } else if k == 90 {
    } else if k == 91 {
    } else if k == 92 {
    } else if k == 93 {
    } else if k == 94 {
    } else if k == 95 {
    } else if k == 96 {
    } else if k == 97 {
    } else if k == 98 {
    } else if k == 99 {
    }
}

proof fn lemma_region_starts_4(k: int)
    requires
        100 <= k < 125,
    ensures
        area_zero_only_at_region_start(k),
{
    if k == 100 {
    } else if k == 101 {
    } else if k == 102 {
    } else if k == 103 {
    } else if k == 104 {
    } else if k == 105 {
    } else if k == 106 {
    } else if k == 107 {
    } else if k == 108 {
    } else if k == 109 {
    } else if k == 110 {
    } else if k == 111 {
    } else if k == 112 {
    } else if k == 113 {
    } else if k == 114 {
    } else if k == 115 {
    } else if k == 116 {
    } else if k == 117 {
    } else if k == 118 {
    } else if k == 119 {
    } else if k == 120 {
    } else if k == 121 {
    } else if k == 122 {
    } else if k == 123 {
    } else if k == 124 {
    }
}

proof fn lemma_region_starts_5(k: int)
    requires
        125 <= k < 150,
    ensures
        area_zero_only_at_region_start(k),
{
    if k == 125 {
    } else if k == 126 {
    } else if k == 127 {
    } else if k == 128 {
    } else if k == 129 {
    } else if k == 130 {
    } else if k == 131 {
    } else if k == 132 {
    } else if k == 133 {
    } else if k == 134 {
    } else if k == 135 {
    } else if k == 136 {
    } else if k == 137 {
    } else if k == 138 {
    } else if k == 139 {
    } else if k == 140 {
    } else if k == 141 {
    } else if k == 142 {
    } else if k == 143 {
    } else if k == 144 {
    } else if k == 145 {
    } else if k == 146 {
    } else if k == 147 {
    } else if k == 148 {
    } else if k == 149 {
    }
}

proof fn lemma_region_starts_6(k: int)
    requires
        150 <= k < 175,
    ensures
        area_zero_only_at_region_start(k),
{
    if k == 150 {
    } else if k == 151 {
    } else if k == 152 {
    } else if k == 153 {
    } else if k == 154 {
    } else if k == 155 {
    } else if k == 156 {
    } else if k == 157 {
    } else if k == 158 {
    } else if k == 159 {
    } else if k == 160 {
    } else if k == 161 {
    } else if k == 162 {
    } else if k == 163 {
    } else if k == 164 {
    } else if k == 165 {
    } else if k == 166 {
    } else if k == 167 {
    } else if k == 168 {
    } else if k == 169 {
    } else if k == 170 {
    } else if k == 171 {
    } else if k == 172 {
    } else if k == 173 {
    } else if k == 174 {
    }
}

proof fn lemma_region_starts_7(k: int)
    requires
        175 <= k < 200,
    ensures
        area_zero_only_at_region_start(k),
{
    if k == 175 {
    } else if k == 176 {
    } else if k == 177 {
    } else if k == 178 {
    } else if k == 179 {
    } else if k == 180 {
    } else if k == 181 {
    } else if k == 182 {
    } else if k == 183 {
    } else if k == 184 {
    } else if k == 185 {
    } else if k == 186 {
    } else if k == 187 {
    } else if k == 188 {
    } else if k == 189 {
    } else if k == 190 {
    } else if k == 191 {
    } else if k == 192 {
    } else if k == 193 {
    } else if k == 194 {
    } else if k == 195 {
    } else if k == 196 {
    } else if k == 197 {
    } else if k == 198 {
    } else if k == 199 {
    }
}

proof fn lemma_region_starts_8(k: int)
    requires
        200 <= k < 225,
    ensures
        area_zero_only_at_region_start(k),
{
    if k == 200 {
    } else if k == 201 {
    } else if k == 202 {
    } else if k == 203 {
    } else if k == 204 {
    } else if k == 205 {
    } else if k == 206 {
    } else if k == 207 {
    } else if k == 208 {
    } else if k == 209 {
    } else if k == 210 {
    } else if k == 211 {
    } else if k == 212 {
    } else if k == 213 {
    } else if k == 214 {
    } else if k == 215 {
    } else if k == 216 {
    } else if k == 217 {
    } else if k == 218 {
    } else if k == 219 {
    } else if k == 220 {
    } else if k == 221 {
    } else if k == 222 {
    } else if k == 223 {
    } else if k == 224 {
    }
}

proof fn lemma_region_starts_9(k: int)
    requires
        225 <= k < 250,
    ensures
        area_zero_only_at_region_start(k),
{
    if k == 225 {
    } else if k == 226 {
    } else if k == 227 {
    } else if k == 228 {
    } else if k == 229 {
    } else if k == 230 {
    } else if k == 231 {
    } else if k == 232 {
    } else if k == 233 {
    } else if k == 234 {
    } else if k == 235 {
    } else if k == 236 {
    } else if k == 237 {
    } else if k == 238 {
    } else if k == 239 {
    } else if k == 240 {
    } else if k == 241 {
    } else if k == 242 {
    } else if k == 243 {
    } else if k == 244 {
    } else if k == 245 {
    } else if k == 246 {
    } else if k == 247 {
    } else if k == 248 {
    } else if k == 249 {
    }
}

proof fn lemma_region_starts_10(k: int)
    requires
        250 <= k < 275,
    ensures
        area_zero_only_at_region_start(k),
{
    if k == 250 {
    } else if k == 251 {
    } else if k == 252 {
    } else if k == 253 {
    } else if k == 254 {
    } else if k == 255 {
    } else if k == 256 {
    } else if k == 257 {
    } else if k == 258 {
    } else if k == 259 {
    } else if k == 260 {
    } else if k == 261 {
    } else if k == 262 {
    } else if k == 263 {
    } else if k == 264 {
    } else if k == 265 {
    } else if k == 266 {
    } else if k == 267 {
    } else if k == 268 {
    } else if k == 269 {
    } else if k == 270 {
    } else if k == 271 {
    } else if k == 272 {
    } else if k == 273 {
    } else if k == 274 {
    }
}

proof fn lemma_region_starts_11(k: int)
    requires
        275 <= k < 276,
    ensures
        area_zero_only_at_region_start(k),
{
    if k == 275 {
    }
}

/// The regions come in the game's order End Cinema, Frigate Orpheon, Chozo Ruins, Phendrana
/// Drifts, Tallon Overworld, Phazon Mines, Magmoor Caverns and Impact Crater, and a room has
/// area index 0 exactly when it is the first room of its region.
pub proof fn lemma_region_order()
    ensures
        room_table()[0].region_name@ == "End Cinema"@,
        room_table()[1].region_name@ == "Frigate Orpheon"@,
        room_table()[29].region_name@ == "Chozo Ruins"@,
        room_table()[93].region_name@ == "Phendrana Drifts"@,
        room_table()[149].region_name@ == "Tallon Overworld"@,
        room_table()[193].region_name@ == "Phazon Mines"@,
        room_table()[235].region_name@ == "Magmoor Caverns"@,
        room_table()[264].region_name@ == "Impact Crater"@,
        forall|k: int| 0 <= k < ROOM_COUNT ==> ((#[trigger] room_table()[k])._area_index == 0
            <==> (k == 0 || k == 1 || k == 29 || k == 93 || k == 149 || k == 193 || k == 235 || k == 264)),
{
    assert forall|k: int| 0 <= k < ROOM_COUNT implies ((#[trigger] room_table()[k])._area_index == 0
        <==> (k == 0 || k == 1 || k == 29 || k == 93 || k == 149 || k == 193 || k == 235 || k == 264)) by {
        if k < 25 {
            lemma_region_starts_0(k);
        } else if k < 50 {
            lemma_region_starts_1(k);
        } else if k < 75 {
            lemma_region_starts_2(k);
        } else if k < 100 {
            lemma_region_starts_3(k);
        } else if k < 125 {
            lemma_region_starts_4(k);
        } else if k < 150 {
            lemma_region_starts_5(k);
        } else if k < 175 {
            lemma_region_starts_6(k);
        } else if k < 200 {
            lemma_region_starts_7(k);
        } else if k < 225 {
            lemma_region_starts_8(k);
        } else if k < 250 {
            lemma_region_starts_9(k);
        } else if k < 275 {
            lemma_region_starts_10(k);
        } else if k < 276 {
            lemma_region_starts_11(k);
        }
    }
}

/// The region of the room at place `k`: the region whose first room is the last region start
/// at or before `k`.
pub open spec fn region_of_place(k: int) -> Seq<char> {
    if k >= 264 {
        "Impact Crater"@
    } else if k >= 235 {
        "Magmoor Caverns"@
    } else if k >= 193 {
        "Phazon Mines"@
    } else if k >= 149 {
        "Tallon Overworld"@
    } else if k >= 93 {
        "Phendrana Drifts"@
    } else if k >= 29 {
        "Chozo Ruins"@
    } else if k >= 1 {
        "Frigate Orpheon"@
    } else {
        "End Cinema"@
    }
}

/// Each room lies in the region that its place in the table falls in: the rooms of End Cinema,
/// Frigate Orpheon, Chozo Ruins, Phendrana Drifts, Tallon Overworld, Phazon Mines, Magmoor
/// Caverns and Impact Crater come one region after another.
pub proof fn lemma_room_region(k: int)
    requires
        0 <= k < ROOM_COUNT,
    ensures
        room_table()[k].region_name@ == region_of_place(k),
    decreases k,
{
    lemma_region_order();
    lemma_regions_start_at_area_zero();
    if k > 0 {
        lemma_room_region(k - 1);
        assert(room_table()[(k - 1) + 1] == room_table()[k]);
    }
}

} // verus!
