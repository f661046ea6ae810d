use std::collections::HashMap;

use radarflow::comms::{BombData, EntityData, PlayerData, PlayerType, RadarData};
use radarflow::entity::{CEntInfo, ClassID, ClientState, Entity, ListStep, ScanError, TeamID, offset_address};
use radarflow::offsets::{OffsetError, Offsets};
use radarflow::radar::{FrameStart, Radar};
use radarflow::scan::{Probe, ReadKind, ReadValue, Sighting};
use radarflow::vec3::Vec3;

const HEALTH: i64 = 0x100;
const ORIGIN: i64 = 0x138;
const YAW: i64 = 0x12C;
const DORMANT: i64 = 0xED;
const TEAM: i64 = 0xF4;

fn offsets() -> Offsets {
    Offsets::new(
        vec![
            ("m_bDormant".to_string(), DORMANT),
            ("dwEntityList".to_string(), 0x4000),
            ("dwLocalPlayer".to_string(), 0x10),
            ("dwClientState".to_string(), 0x20),
            ("dwClientState_Map".to_string(), 0x28C),
            ("dwClientState_State".to_string(), 0x108),
        ],
        vec![
            ("m_iHealth".to_string(), HEALTH),
            ("m_vecOrigin".to_string(), ORIGIN),
            ("m_angEyeAnglesY".to_string(), YAW),
            ("m_iTeamNum".to_string(), TEAM),
        ],
    )
}

/// Game memory: values by address.
struct Memory(HashMap<u64, ReadValue>);

impl Memory {
    fn new() -> Memory {
        Memory(HashMap::new())
    }

    /// An entity of class `class` at `addr`, its class chain placed nearby.
    fn entity(&mut self, addr: u64, class: i32) {
        let vt = (addr + 0x1000) as u32;
        let f = (addr + 0x2000) as u32;
        let cc = (addr + 0x3000) as u32;
        self.0.insert(addr + 8, ReadValue::Addr32(vt));
        self.0.insert(vt as u64 + 8, ReadValue::Addr32(f));
        self.0.insert(f as u64 + 1, ReadValue::Addr32(cc));
        self.0.insert(cc as u64 + 0x14, ReadValue::I32(class));
    }

    fn player(&mut self, addr: u64, health: i32, team: i32, dormant: u8, index: i32) {
        self.entity(addr, 40);
        self.0.insert(addr + HEALTH as u64, ReadValue::I32(health));
        self.0.insert(addr + ORIGIN as u64, ReadValue::Vec3(pos(addr)));
        self.0.insert(addr + YAW as u64, ReadValue::F32(90.0f32.to_bits()));
        self.0.insert(addr + DORMANT as u64, ReadValue::U8(dormant));
        self.0.insert(addr + TEAM as u64, ReadValue::I32(team));
        self.0.insert(addr + 0x64, ReadValue::I32(index));
    }

    fn read(&self, kind: ReadKind, addr: u64, reads: &mut Vec<u64>) -> ReadValue {
        reads.push(addr);
        let v = *self.0.get(&addr).expect("read of unmapped memory");
        assert_eq!(v.kind(), kind);
        v
    }

    /// Scans one entity the way the radar loop does, returning the addresses read.
    fn scan(&self, radar: &mut Radar, e: Entity, local: Entity) -> Vec<u64> {
        let o = offsets();
        let mut reads = Vec::new();
        let mut s = Sighting::new();
        while let Some(p) = radar.next_probe(&e, &local, &s) {
            let req = e.probe_request(p, &local, &s, &o).unwrap();
            assert_eq!(req.kind, p.kind());
            let v = self.read(req.kind, req.address, &mut reads);
            s.record(p, v);
        }
        radar.absorb(&e, &local, &s);
        reads
    }
}

fn pos(addr: u64) -> Vec3 {
    Vec3 { x: (addr as f32).to_bits(), y: 2.0f32.to_bits(), z: 3.0f32.to_bits() }
}

#[test]
fn class_and_team_numbers() {
    assert_eq!(ClassID::from_i32(40), Some(ClassID::CCSPlayer));
    assert_eq!(ClassID::from_i32(41), Some(ClassID::CCSPlayerResources));
    assert_eq!(ClassID::from_i32(129), Some(ClassID::CPlantedC4));
    assert_eq!(ClassID::from_i32(34), Some(ClassID::CWeaponC4));
    assert_eq!(ClassID::from_i32(35), None);
    assert_eq!(TeamID::from_i32(1), Some(TeamID::Spectator));
    assert_eq!(TeamID::from_i32(2), Some(TeamID::T));
    assert_eq!(TeamID::from_i32(3), Some(TeamID::CT));
    assert_eq!(TeamID::from_i32(0), None);
}

#[test]
fn player_types() {
    let me = Entity(1);
    let other = Entity(2);
    assert_eq!(me.get_player_type(&me, None, None), Some(PlayerType::Local));
    assert_eq!(other.get_player_type(&me, None, Some(TeamID::T)), None);
    assert_eq!(other.get_player_type(&me, Some(TeamID::T), None), None);
    assert_eq!(other.get_player_type(&me, Some(TeamID::Spectator), Some(TeamID::T)), Some(PlayerType::Spectator));
    assert_eq!(other.get_player_type(&me, Some(TeamID::CT), Some(TeamID::T)), Some(PlayerType::Enemy));
    assert_eq!(other.get_player_type(&me, Some(TeamID::T), Some(TeamID::T)), Some(PlayerType::Team));
    assert!(Entity::is_alive(1));
    assert!(!Entity::is_alive(0));
    assert!(!Entity::is_alive(-5));
}

#[test]
fn entity_list_steps() {
    let e = CEntInfo { entity_ptr: 0x500, serial_number: 1, previous: 0x10, next: 0x20 };
    assert_eq!(e.step(), ListStep::Visit(Entity(0x500)));
    assert_eq!(e.next_address(), 0x20);
    let empty = CEntInfo { entity_ptr: 0, serial_number: 1, previous: 0x10, next: 0x20 };
    assert_eq!(empty.step(), ListStep::Skip);
    let last = CEntInfo { entity_ptr: 0x500, serial_number: 1, previous: 0x30, next: 0x30 };
    assert_eq!(last.step(), ListStep::Stop);
}

#[test]
fn addresses_from_offsets() {
    let o = offsets();
    assert_eq!(ClientState::pointer_address(&o, 0x1000_0000), Ok(0x1000_0020));
    let cs = ClientState { ptr: 0x7000 };
    assert_eq!(cs.map_name_address(&o), Ok(0x7000 + 0x28C));
    assert_eq!(cs.state_address(&o), Ok(0x7000 + 0x108));
    assert_eq!(Entity::local_pointer_address(&o, 0x2000_0000), Ok(0x2000_0010));
    assert_eq!(Entity::entity_list_address(&o, 0x2000_0000), Ok(0x2000_4000));
    let missing = Offsets::default();
    assert_eq!(
        Entity::entity_list_address(&missing, 0x2000_0000),
        Err(ScanError::Offset(OffsetError::SignatureNotFound("dwEntityList".to_string())))
    );
    assert!(ClientState::is_ingame(6));
    assert!(!ClientState::is_ingame(5));
}

#[test]
fn offset_arithmetic_overflow() {
    assert_eq!(offset_address(10, -3), Some(7));
    assert_eq!(offset_address(10, -11), None);
    assert_eq!(offset_address(u64::MAX - 1, 1), Some(u64::MAX));
    assert_eq!(offset_address(u64::MAX, 1), None);
    assert_eq!(offset_address(u64::MAX, i64::MIN), Some(u64::MAX - (1u64 << 63)));
    let o = Offsets::new(vec![("m_bDormant".to_string(), -100)], vec![]);
    assert_eq!(Entity(50).probe_request(Probe::Dormant, &Entity(0), &Sighting::new(), &o), Err(ScanError::AddressOverflow));
}

#[test]
fn enemy_player_is_shown() {
    let mut mem = Memory::new();
    mem.player(0x1_0000, 100, 2, 0, 7);
    mem.player(0x2_0000, 100, 3, 0, 1);
    let mut radar = Radar::new();
    radar.begin_frame();
    mem.scan(&mut radar, Entity(0x1_0000), Entity(0x2_0000));
    let data = radar.finish("de_dust2".to_string(), 45.0f32.to_bits());
    assert!(data.ingame);
    assert_eq!(data.map_name, "de_dust2");
    assert_eq!(data.local_yaw, 45.0f32.to_bits());
    assert_eq!(
        data.player_data,
        vec![EntityData::Player(PlayerData::new(pos(0x1_0000), 90.0f32.to_bits(), PlayerType::Enemy, false, false))]
    );
}

#[test]
fn local_player_reads_no_team() {
    let mut mem = Memory::new();
    mem.player(0x1_0000, 100, 2, 1, 7);
    let mut radar = Radar::new();
    let reads = mem.scan(&mut radar, Entity(0x1_0000), Entity(0x1_0000));
    assert!(!reads.contains(&(0x1_0000 + TEAM as u64)));
    let data = radar.finish(String::new(), 0);
    assert_eq!(
        data.player_data,
        vec![EntityData::Player(PlayerData::new(pos(0x1_0000), 90.0f32.to_bits(), PlayerType::Local, true, false))]
    );
}

#[test]
fn dead_player_stops_after_health() {
    let mut mem = Memory::new();
    mem.player(0x1_0000, 0, 2, 0, 7);
    let mut radar = Radar::new();
    let reads = mem.scan(&mut radar, Entity(0x1_0000), Entity(0x9_0000));
    assert_eq!(reads.len(), 5);
    assert_eq!(*reads.last().unwrap(), 0x1_0000 + HEALTH as u64);
    assert!(radar.finish(String::new(), 0).player_data.is_empty());
}

#[test]
fn spectator_and_unknown_team_are_left_out() {
    let mut mem = Memory::new();
    mem.player(0x1_0000, 100, 1, 0, 7);
    mem.player(0x2_0000, 100, 2, 0, 1);
    mem.player(0x3_0000, 100, 9, 0, 3);
    let mut radar = Radar::new();
    mem.scan(&mut radar, Entity(0x1_0000), Entity(0x2_0000));
    let reads = mem.scan(&mut radar, Entity(0x3_0000), Entity(0x2_0000));
    // an unknown team number ends the scan before the local team is read
    assert!(!reads.contains(&(0x2_0000 + TEAM as u64)));
    assert!(radar.finish(String::new(), 0).player_data.is_empty());
}

#[test]
fn bomb_carrier_and_bombs() {
    let mut mem = Memory::new();
    let resources = 0x5_0000;
    mem.entity(resources, 41);
    mem.0.insert(resources + 0x165c, ReadValue::I32(7));
    mem.player(0x1_0000, 100, 2, 0, 7);
    mem.player(0x2_0000, 100, 3, 0, 1);
    let planted = 0x6_0000;
    mem.entity(planted, 129);
    mem.0.insert(planted + ORIGIN as u64, ReadValue::Vec3(pos(planted)));
    let dropped = 0x7_0000;
    mem.entity(dropped, 34);
    mem.0.insert(dropped + ORIGIN as u64, ReadValue::Vec3(pos(dropped)));
    mem.0.insert(dropped + DORMANT as u64, ReadValue::U8(0));

    let mut radar = Radar::new();
    let local = Entity(0x2_0000);
    // before the player resources are seen nobody carries the bomb
    radar.begin_frame();
    mem.scan(&mut radar, Entity(planted), local);
    mem.scan(&mut radar, Entity(dropped), local);
    let reads = mem.scan(&mut radar, Entity(0x1_0000), local);
    assert!(!reads.contains(&(0x1_0000 + 0x64)));
    mem.scan(&mut radar, Entity(resources), local);
    assert_eq!(radar.c4_owner_id(), 7);
    let first = radar.finish("de_mirage".to_string(), 0);
    assert_eq!(
        first.player_data,
        vec![
            EntityData::Bomb(BombData::new(pos(planted), true)),
            EntityData::Bomb(BombData::new(pos(dropped), false)),
            EntityData::Player(PlayerData::new(pos(0x1_0000), 90.0f32.to_bits(), PlayerType::Enemy, false, false)),
        ]
    );
    // the carrier is kept into the next frame: the bombs vanish and player 7 carries it
    radar.begin_frame();
    assert_eq!(radar.c4_owner_id(), 7);
    mem.scan(&mut radar, Entity(planted), local);
    mem.scan(&mut radar, Entity(dropped), local);
    mem.scan(&mut radar, Entity(0x1_0000), local);
    let second = radar.finish("de_mirage".to_string(), 0);
    assert_eq!(
        second.player_data,
        vec![EntityData::Player(PlayerData::new(pos(0x1_0000), 90.0f32.to_bits(), PlayerType::Enemy, false, true))]
    );
}

#[test]
fn dormant_dropped_bomb_is_hidden() {
    let mut mem = Memory::new();
    let dropped = 0x7_0000;
    mem.entity(dropped, 34);
    mem.0.insert(dropped + ORIGIN as u64, ReadValue::Vec3(pos(dropped)));
    mem.0.insert(dropped + DORMANT as u64, ReadValue::U8(1));
    let mut radar = Radar::new();
    mem.scan(&mut radar, Entity(dropped), Entity(1));
    assert!(radar.finish(String::new(), 0).player_data.is_empty());
}

#[test]
fn unknown_class_is_skipped_after_class_chain() {
    let mut mem = Memory::new();
    mem.entity(0x8_0000, 77);
    let mut radar = Radar::new();
    let reads = mem.scan(&mut radar, Entity(0x8_0000), Entity(1));
    assert_eq!(reads.len(), 4);
    assert!(radar.finish(String::new(), 0).player_data.is_empty());
}

#[test]
fn outcome_ignores_unread_values() {
    // Two memories that differ only in values a dead player never needs.
    let mut a = Memory::new();
    a.player(0x1_0000, -1, 2, 0, 7);
    let mut b = Memory::new();
    b.player(0x1_0000, -1, 3, 1, 9);
    let mut ra = Radar::new();
    let mut rb = Radar::new();
    a.scan(&mut ra, Entity(0x1_0000), Entity(5));
    b.scan(&mut rb, Entity(0x1_0000), Entity(5));
    assert_eq!(ra.finish(String::new(), 0).player_data, rb.finish(String::new(), 0).player_data);
}

#[test]
fn sighting_records_values() {
    let mut s = Sighting::new();
    assert_eq!(s.health, None);
    s.record(Probe::Health, ReadValue::I32(42));
    s.record(Probe::Yaw, ReadValue::F32(7));
    assert_eq!(s.health, Some(42));
    assert_eq!(s.yaw, Some(7));
    assert_eq!(Probe::Position.kind(), ReadKind::Vec3);
    assert_eq!(Probe::VTable.kind(), ReadKind::Addr32);
    assert_eq!(Probe::Dormant.kind(), ReadKind::U8);
    assert_eq!(ReadValue::I32(3).kind(), ReadKind::I32);
}

#[test]
fn empty_radar_data() {
    let d = RadarData::empty();
    assert!(!d.ingame);
    assert!(d.map_name.is_empty());
    assert!(d.player_data.is_empty());
    assert_eq!(d.local_yaw, 0);
    assert_eq!(PlayerType::default(), PlayerType::Unknown);
    let r = RadarData::new(true, "de_nuke".to_string(), vec![], 5);
    assert!(r.ingame);
    assert_eq!(r.map_name, "de_nuke");
    assert_eq!(r.local_yaw, 5);
}

#[test]
fn frame_start_out_of_game_is_empty() {
    let mut mem = Memory::new();
    let resources = 0x5_0000;
    mem.entity(resources, 41);
    mem.0.insert(resources + 0x165c, ReadValue::I32(3));
    let mut radar = Radar::new();
    mem.scan(&mut radar, Entity(resources), Entity(1));
    match radar.start_frame(5) {
        FrameStart::Idle(d) => {
            assert!(!d.ingame);
            assert!(d.map_name.is_empty());
            assert!(d.player_data.is_empty());
            assert_eq!(d.local_yaw, 0);
        }
        FrameStart::Scan => panic!("not in game"),
    }
    assert_eq!(radar.c4_owner_id(), 3);
    assert!(matches!(radar.start_frame(6), FrameStart::Scan));
    assert_eq!(radar.c4_owner_id(), 3);
}

#[test]
fn list_ends_at_null() {
    assert!(CEntInfo::is_list_end(0));
    assert!(!CEntInfo::is_list_end(0x20));
}
