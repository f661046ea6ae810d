use vstd::prelude::*;
use crate::vec3::Vec3;

verus! {

/// How a player relates to the local player.
#[derive(Debug, Clone, Copy, PartialEq, Eq, Structural)]
pub enum PlayerType {
    Unknown,
    Local,
    Enemy,
    Team,
    Spectator,
}

impl Default for PlayerType {
    fn default() -> (r: PlayerType)
        ensures
            r == PlayerType::Unknown,
    {
        PlayerType::Unknown
    }
}

/// A player shown on the radar; `yaw` is the bit pattern of the view angle.
#[derive(Debug, Clone, Copy, PartialEq, Eq, Structural)]
pub struct PlayerData {
    pub pos: Vec3,
    pub yaw: u32,
    pub player_type: PlayerType,
    pub is_dormant: bool,
    pub has_bomb: bool,
}

impl PlayerData {
    pub fn new(pos: Vec3, yaw: u32, player_type: PlayerType, is_dormant: bool, has_bomb: bool) -> (r: PlayerData)
        ensures
            r == (PlayerData { pos, yaw, player_type, is_dormant, has_bomb }),
    {
        PlayerData { pos, yaw, player_type, is_dormant, has_bomb }
    }
}

/// The bomb, carried by nobody, dropped or planted.
#[derive(Debug, Clone, Copy, PartialEq, Eq, Structural)]
pub struct BombData {
    pub pos: Vec3,
    pub is_planted: bool,
}

impl BombData {
    pub fn new(pos: Vec3, is_planted: bool) -> (r: BombData)
        ensures
            r == (BombData { pos, is_planted }),
    {
        BombData { pos, is_planted }
    }
}

/// One thing shown on the radar.
#[derive(Debug, Clone, Copy, PartialEq, Eq, Structural)]
pub enum EntityData {
    Player(PlayerData),
    Bomb(BombData),
}

/// What the radar shows at one moment; `local_yaw` is the bit pattern of
/// the local player's view angle.
#[derive(Debug, Clone)]
pub struct RadarData {
    pub ingame: bool,
    pub map_name: String,
    pub player_data: Vec<EntityData>,
    pub local_yaw: u32,
}

impl RadarData {
    pub fn new(ingame: bool, map_name: String, player_data: Vec<EntityData>, local_yaw: u32) -> (r: RadarData)
        ensures
            r.ingame == ingame,
            r.map_name == map_name,
            r.player_data@ == player_data@,
            r.local_yaw == local_yaw,
    {
        RadarData { ingame, map_name, player_data, local_yaw }
    }

    /// Returns empty RadarData, it's also the same data that gets sent to
    /// clients when not ingame.
    pub fn empty() -> (r: RadarData)
        ensures
            r.is_empty(),
    {
        RadarData {
            ingame: false,
            map_name: String::new(),
            player_data: Vec::new(),
            local_yaw: 0,
        }
    }

    /// Not in game, no map, nothing shown, a zero view angle.
    pub open spec fn is_empty(&self) -> bool {
        &&& !self.ingame
        &&& self.map_name@ == Seq::<char>::empty()
        &&& self.player_data@ == Seq::<EntityData>::empty()
        &&& self.local_yaw == 0
    }
}

} // verus!
