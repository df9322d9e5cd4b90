//! The record that is kept for each player between sessions.
//!
//! On disk the record is one gzip-compressed NBT compound per player, in the
//! file `playerdata/<uuid>.dat` of the world directory, with the base entity
//! attributes flattened into its root, the game mode under `playerGameType`
//! and the inventory under `Inventory`.

use crate::inventory::InventorySlot;
use crate::server_hash::hex_digit;
use vstd::prelude::*;

verus! {

/// The directory of a world that holds the player data files.
pub const PLAYER_DATA_DIRECTORY: &'static str = "playerdata";

/// The 36 characters of `uuid` in lowercase hexadecimal, most significant
/// digit first, with a hyphen after the digits 8, 12, 16 and 20.
pub open spec fn hyphenated(uuid: u128) -> Seq<char> {
    Seq::new(
        36,
        |i: int|
            if i == 8 || i == 13 || i == 18 || i == 23 {
                '-'
            } else {
                let digit = if i < 8 {
                    i
                } else if i < 13 {
                    i - 1
                } else if i < 18 {
                    i - 2
                } else if i < 23 {
                    i - 3
                } else {
                    i - 4
                };
                hex_digit(((uuid >> ((4 * (31 - digit)) as u128)) & 0xf) as nat)
            },
    )
}

/// `uuid::Uuid::from_u128(uuid)` written with `{}`. Trusted: the text is
/// the hyphenated lowercase form.
#[verifier::external_body]
fn hyphenated_text(uuid: u128) -> (text: String)
    ensures
        text@ == hyphenated(uuid),
{
    format!("{}", uuid::Uuid::from_u128(uuid))
}

/// The name of the file that holds the data of the player `uuid`, within
/// [`PLAYER_DATA_DIRECTORY`].
pub fn file_name(uuid: u128) -> (name: String)
    ensures
        name@ == hyphenated(uuid) + ".dat"@,
{
    let mut name = hyphenated_text(uuid);
    name.append(".dat");
    name
}

/// The attributes that every entity has. Each number is kept as the bit
/// pattern of its IEEE 754 value, so that a record read and written again
/// is the same bit for bit.
#[derive(Debug, Clone, PartialEq, Eq)]
pub struct BaseEntityData {
    /// `Pos`: three doubles.
    pub position: Vec<u64>,
    /// `Rotation`: two singles, yaw and pitch.
    pub rotation: Vec<u32>,
    /// `Motion`: three doubles.
    pub velocity: Vec<u64>,
    /// `Health`: one single.
    pub health: u32,
}

impl Default for BaseEntityData {
    fn default() -> (entity: BaseEntityData)
        ensures
            entity.position@ == Seq::<u64>::empty(),
            entity.rotation@ == Seq::<u32>::empty(),
            entity.velocity@ == Seq::<u64>::empty(),
            entity.health == 0,
    {
        BaseEntityData {
            position: Vec::new(),
            rotation: Vec::new(),
            velocity: Vec::new(),
            health: 0,
        }
    }
}

/// The contents of a player data file.
#[derive(Debug, Clone, PartialEq, Eq)]
pub struct PlayerData {
    pub entity: BaseEntityData,
    /// 0 survival, 1 creative, 2 adventure, 3 spectator.
    pub gamemode: i32,
    pub inventory: Vec<InventorySlot>,
}

impl Default for PlayerData {
    fn default() -> (data: PlayerData)
        ensures
            data.gamemode == 0,
            data.inventory@ == Seq::<InventorySlot>::empty(),
            data.entity.position@ == Seq::<u64>::empty(),
            data.entity.rotation@ == Seq::<u32>::empty(),
            data.entity.velocity@ == Seq::<u64>::empty(),
            data.entity.health == 0,
    {
        PlayerData { entity: BaseEntityData::default(), gamemode: 0, inventory: Vec::new() }
    }
}

} // verus!
