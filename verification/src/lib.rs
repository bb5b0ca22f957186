//! Pickup, room and script-layer logic of the Metroid Prime randomizer patcher.

pub mod text;
pub mod pickup_meta;
pub mod profile;
pub mod room_lookup;
pub mod scly;
pub mod patches;
pub mod totem;
pub mod plan;
