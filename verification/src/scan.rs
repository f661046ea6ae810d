use vstd::prelude::*;
use crate::comms::{BombData, EntityData, PlayerData, PlayerType};
use crate::entity::{
    lemma_class_numbers, lemma_team_numbers, class_id_spec, named_address, named_address_spec, team_id_spec, ClassID,
    Entity, ScanError, ScanErrorView, TeamID,
};
use crate::offsets::{OffsetErrorView, Offsets};
use crate::vec3::Vec3;

verus! {

/// A value of an entity that the scan may read from game memory.
#[derive(Debug, Clone, Copy, PartialEq, Eq, Structural)]
pub enum Probe {
    /// Pointer to the entity's networkable vtable (entity + 0x8).
    VTable,
    /// Pointer to the vtable's third function, `GetClientClass` (vtable + 0x8).
    ClassFunction,
    /// Pointer to the `ClientClass` that function loads (function + 0x1).
    ClientClass,
    /// The class number (client class + 0x14).
    ClassId,
    /// Health (netvar `m_iHealth`).
    Health,
    /// Position (netvar `m_vecOrigin`).
    Position,
    /// View angle (netvar `m_angEyeAnglesY`).
    Yaw,
    /// Dormancy flag (signature `m_bDormant`).
    Dormant,
    /// Team number (netvar `m_iTeamNum`).
    Team,
    /// Team number of the local player (netvar `m_iTeamNum`).
    LocalTeam,
    /// Entity index (entity + 0x64).
    Index,
    /// Index of the bomb carrier, on the player resources (entity + 0x165c).
    C4Owner,
}

/// The shape of a value read from game memory.
#[derive(Debug, Clone, Copy, PartialEq, Eq, Structural)]
pub enum ReadKind {
    /// A 32-bit pointer.
    Addr32,
    I32,
    U8,
    /// Three single-precision floats, as bit patterns.
    Vec3,
    /// A single-precision float, as a bit pattern.
    F32,
}

/// A value read from game memory.
#[derive(Debug, Clone, Copy, PartialEq, Eq, Structural)]
pub enum ReadValue {
    Addr32(u32),
    I32(i32),
    U8(u8),
    Vec3(Vec3),
    F32(u32),
}

/// A read to perform: what lies at `address`, of shape `kind`.
#[derive(Debug, Clone, Copy, PartialEq, Eq, Structural)]
pub struct ReadRequest {
    pub address: u64,
    pub kind: ReadKind,
}

pub open spec fn probe_kind(p: Probe) -> ReadKind {
    match p {
        Probe::VTable | Probe::ClassFunction | Probe::ClientClass => ReadKind::Addr32,
        Probe::Position => ReadKind::Vec3,
        Probe::Yaw => ReadKind::F32,
        Probe::Dormant => ReadKind::U8,
        _ => ReadKind::I32,
    }
}

pub open spec fn value_kind(v: ReadValue) -> ReadKind {
    match v {
        ReadValue::Addr32(_) => ReadKind::Addr32,
        ReadValue::I32(_) => ReadKind::I32,
        ReadValue::U8(_) => ReadKind::U8,
        ReadValue::Vec3(_) => ReadKind::Vec3,
        ReadValue::F32(_) => ReadKind::F32,
    }
}

impl Probe {
    /// The shape of the value this probe reads.
    pub fn kind(&self) -> (r: ReadKind)
        ensures
            r == probe_kind(*self),
    {
        match self {
            Probe::VTable | Probe::ClassFunction | Probe::ClientClass => ReadKind::Addr32,
            Probe::Position => ReadKind::Vec3,
            Probe::Yaw => ReadKind::F32,
            Probe::Dormant => ReadKind::U8,
            _ => ReadKind::I32,
        }
    }
}

impl ReadValue {
    pub fn kind(&self) -> (r: ReadKind)
        ensures
            r == value_kind(*self),
    {
        match self {
            ReadValue::Addr32(_) => ReadKind::Addr32,
            ReadValue::I32(_) => ReadKind::I32,
            ReadValue::U8(_) => ReadKind::U8,
            ReadValue::Vec3(_) => ReadKind::Vec3,
            ReadValue::F32(_) => ReadKind::F32,
        }
    }
}

/// The values of one entity read so far; `None` for a value not read.
#[derive(Debug, Clone, Copy, PartialEq, Eq, Structural)]
pub struct Sighting {
    pub vtable: Option<u32>,
    pub class_function: Option<u32>,
    pub client_class: Option<u32>,
    pub class_id: Option<i32>,
    pub health: Option<i32>,
    pub pos: Option<Vec3>,
    pub yaw: Option<u32>,
    pub dormant: Option<u8>,
    pub team: Option<i32>,
    pub local_team: Option<i32>,
    pub index: Option<i32>,
    pub c4_owner: Option<i32>,
}

impl Sighting {
    /// Whether the value of probe `p` has been read.
    pub open spec fn has(self, p: Probe) -> bool {
        match p {
            Probe::VTable => self.vtable is Some,
            Probe::ClassFunction => self.class_function is Some,
            Probe::ClientClass => self.client_class is Some,
            Probe::ClassId => self.class_id is Some,
            Probe::Health => self.health is Some,
            Probe::Position => self.pos is Some,
            Probe::Yaw => self.yaw is Some,
            Probe::Dormant => self.dormant is Some,
            Probe::Team => self.team is Some,
            Probe::LocalTeam => self.local_team is Some,
            Probe::Index => self.index is Some,
            Probe::C4Owner => self.c4_owner is Some,
        }
    }

    /// The sighting with the value `v` recorded for probe `p` (unchanged if
    /// the value has the wrong shape).
    pub open spec fn with_value(self, p: Probe, v: ReadValue) -> Sighting {
        match (p, v) {
            (Probe::VTable, ReadValue::Addr32(a)) => Sighting { vtable: Some(a), ..self },
            (Probe::ClassFunction, ReadValue::Addr32(a)) => Sighting { class_function: Some(a), ..self },
            (Probe::ClientClass, ReadValue::Addr32(a)) => Sighting { client_class: Some(a), ..self },
            (Probe::ClassId, ReadValue::I32(x)) => Sighting { class_id: Some(x), ..self },
            (Probe::Health, ReadValue::I32(x)) => Sighting { health: Some(x), ..self },
            (Probe::Position, ReadValue::Vec3(x)) => Sighting { pos: Some(x), ..self },
            (Probe::Yaw, ReadValue::F32(x)) => Sighting { yaw: Some(x), ..self },
            (Probe::Dormant, ReadValue::U8(x)) => Sighting { dormant: Some(x), ..self },
            (Probe::Team, ReadValue::I32(x)) => Sighting { team: Some(x), ..self },
            (Probe::LocalTeam, ReadValue::I32(x)) => Sighting { local_team: Some(x), ..self },
            (Probe::Index, ReadValue::I32(x)) => Sighting { index: Some(x), ..self },
            (Probe::C4Owner, ReadValue::I32(x)) => Sighting { c4_owner: Some(x), ..self },
            _ => self,
        }
    }

    /// Every value that `self` has read is the one `full` holds.
    pub open spec fn agrees_with(self, full: Sighting) -> bool {
        &&& self.vtable is Some ==> self.vtable == full.vtable
        &&& self.class_function is Some ==> self.class_function == full.class_function
        &&& self.client_class is Some ==> self.client_class == full.client_class
        &&& self.class_id is Some ==> self.class_id == full.class_id
        &&& self.health is Some ==> self.health == full.health
        &&& self.pos is Some ==> self.pos == full.pos
        &&& self.yaw is Some ==> self.yaw == full.yaw
        &&& self.dormant is Some ==> self.dormant == full.dormant
        &&& self.team is Some ==> self.team == full.team
        &&& self.local_team is Some ==> self.local_team == full.local_team
        &&& self.index is Some ==> self.index == full.index
        &&& self.c4_owner is Some ==> self.c4_owner == full.c4_owner
    }

    /// The value of probe `p`, as read.
    pub open spec fn value_of(self, p: Probe) -> ReadValue {
        match p {
            Probe::VTable => ReadValue::Addr32(self.vtable->0),
            Probe::ClassFunction => ReadValue::Addr32(self.class_function->0),
            Probe::ClientClass => ReadValue::Addr32(self.client_class->0),
            Probe::ClassId => ReadValue::I32(self.class_id->0),
            Probe::Health => ReadValue::I32(self.health->0),
            Probe::Position => ReadValue::Vec3(self.pos->0),
            Probe::Yaw => ReadValue::F32(self.yaw->0),
            Probe::Dormant => ReadValue::U8(self.dormant->0),
            Probe::Team => ReadValue::I32(self.team->0),
            Probe::LocalTeam => ReadValue::I32(self.local_team->0),
            Probe::Index => ReadValue::I32(self.index->0),
            Probe::C4Owner => ReadValue::I32(self.c4_owner->0),
        }
    }

    /// Every value has been read.
    pub open spec fn is_complete(self) -> bool {
        &&& self.vtable is Some
        &&& self.class_function is Some
        &&& self.client_class is Some
        &&& self.class_id is Some
        &&& self.health is Some
        &&& self.pos is Some
        &&& self.yaw is Some
        &&& self.dormant is Some
        &&& self.team is Some
        &&& self.local_team is Some
        &&& self.index is Some
        &&& self.c4_owner is Some
    }

    /// How many values are still unread.
    pub open spec fn unread(self) -> nat {
        (if self.vtable is None { 1nat } else { 0nat }) + (if self.class_function is None {
            1nat
        } else {
            0nat
        }) + (if self.client_class is None { 1nat } else { 0nat }) + (if self.class_id is None {
            1nat
        } else {
            0nat
        }) + (if self.health is None { 1nat } else { 0nat }) + (if self.pos is None {
            1nat
        } else {
            0nat
        }) + (if self.yaw is None { 1nat } else { 0nat }) + (if self.dormant is None {
            1nat
        } else {
            0nat
        }) + (if self.team is None { 1nat } else { 0nat }) + (if self.local_team is None {
            1nat
        } else {
            0nat
        }) + (if self.index is None { 1nat } else { 0nat }) + (if self.c4_owner is None {
            1nat
        } else {
            0nat
        })
    }

    /// Nothing read yet.
    pub fn new() -> (r: Sighting)
        ensures
            r.unread() == 12,
            forall|p: Probe| !r.has(p),
    {
        Sighting {
            vtable: None,
            class_function: None,
            client_class: None,
            class_id: None,
            health: None,
            pos: None,
            yaw: None,
            dormant: None,
            team: None,
            local_team: None,
            index: None,
            c4_owner: None,
        }
    }

    /// Records the value read for probe `p`.
    pub fn record(&mut self, p: Probe, v: ReadValue)
        requires
            value_kind(v) == probe_kind(p),
        ensures
            *final(self) == old(self).with_value(p, v),
            final(self).has(p),
    {
        match (p, v) {
            (Probe::VTable, ReadValue::Addr32(a)) => self.vtable = Some(a),
            (Probe::ClassFunction, ReadValue::Addr32(a)) => self.class_function = Some(a),
            (Probe::ClientClass, ReadValue::Addr32(a)) => self.client_class = Some(a),
            (Probe::ClassId, ReadValue::I32(x)) => self.class_id = Some(x),
            (Probe::Health, ReadValue::I32(x)) => self.health = Some(x),
            (Probe::Position, ReadValue::Vec3(x)) => self.pos = Some(x),
            (Probe::Yaw, ReadValue::F32(x)) => self.yaw = Some(x),
            (Probe::Dormant, ReadValue::U8(x)) => self.dormant = Some(x),
            (Probe::Team, ReadValue::I32(x)) => self.team = Some(x),
            (Probe::LocalTeam, ReadValue::I32(x)) => self.local_team = Some(x),
            (Probe::Index, ReadValue::I32(x)) => self.index = Some(x),
            (Probe::C4Owner, ReadValue::I32(x)) => self.c4_owner = Some(x),
            _ => {},
        }
    }
}

/// The team a read team number stands for, if it was read and is known.
pub open spec fn team_opt(o: Option<i32>) -> Option<TeamID> {
    match o {
        Some(v) => team_id_spec(v),
        None => None,
    }
}

/// How a player relates to the local player: the local player itself is
/// `Local`; otherwise both teams must be known, a spectator is `Spectator`,
/// a player of another team than the local player's is an `Enemy`, else a
/// `Team` mate.
pub open spec fn player_type_spec(is_local: bool, team: Option<TeamID>, local_team: Option<TeamID>) -> Option<PlayerType> {
    if is_local {
        Some(PlayerType::Local)
    } else {
        match (team, local_team) {
            (Some(t), Some(l)) => if t == TeamID::Spectator {
                Some(PlayerType::Spectator)
            } else if t != l {
                Some(PlayerType::Enemy)
            } else {
                Some(PlayerType::Team)
            },
            _ => None,
        }
    }
}

/// How players are classified: the local player is `Local` whatever the
/// teams; any other player needs both teams known (else it is not
/// classified), is a `Spectator` exactly when its team is the spectators, and
/// otherwise a `Team` mate when it shares the local player's team and an
/// `Enemy` when it does not. No player is ever `Unknown`, and only the local
/// player is `Local`.
pub proof fn lemma_player_type_rules(is_local: bool, team: Option<TeamID>, local_team: Option<TeamID>)
    ensures
        is_local ==> player_type_spec(is_local, team, local_team) == Some(PlayerType::Local),
        !is_local ==> (player_type_spec(is_local, team, local_team) is None <==> (team is None
            || local_team is None)),
        player_type_spec(is_local, team, local_team) == Some(PlayerType::Local) ==> is_local,
        player_type_spec(is_local, team, local_team) != Some(PlayerType::Unknown),
        !is_local && team == Some(TeamID::Spectator) && local_team is Some ==> player_type_spec(
            is_local,
            team,
            local_team,
        ) == Some(PlayerType::Spectator),
        forall|t: TeamID, l: TeamID|
            t != TeamID::Spectator ==> (#[trigger] player_type_spec(false, Some(t), Some(l))
                == Some(PlayerType::Team) <==> t == l) && (player_type_spec(
                false,
                Some(t),
                Some(l),
            ) == Some(PlayerType::Enemy) <==> t != l),
{
}

/// The next value a player entity needs read, once its class is known.
pub open spec fn player_needs(is_local: bool, c4_owner: i32, s: Sighting) -> Option<Probe> {
    if s.health is None {
        Some(Probe::Health)
    } else if s.health->0 <= 0 {
        None
    } else if s.pos is None {
        Some(Probe::Position)
    } else if s.yaw is None {
        Some(Probe::Yaw)
    } else if s.dormant is None {
        Some(Probe::Dormant)
    } else if !is_local && s.team is None {
        Some(Probe::Team)
    } else if !is_local && team_id_spec(s.team->0) is None {
        None
    } else if !is_local && s.local_team is None {
        Some(Probe::LocalTeam)
    } else {
        match player_type_spec(is_local, team_opt(s.team), team_opt(s.local_team)) {
            None => None,
            Some(PlayerType::Spectator) => None,
            Some(_) => if c4_owner != 0 && s.index is None {
                Some(Probe::Index)
            } else {
                None
            },
        }
    }
}

/// The next value an entity needs read, or `None` when it has been read
/// far enough to be judged. The class is found first, through three
/// pointers; a player is read in the order health, position, view angle,
/// dormancy, its team, the local player's team, and its index (only while
/// someone carries the bomb), stopping as soon as the player is known to
/// be left out; the player resources give the bomb carrier; a planted bomb
/// gives its position; a dropped bomb its position and dormancy.
pub open spec fn needs(is_local: bool, c4_owner: i32, s: Sighting) -> Option<Probe> {
    if s.vtable is None {
        Some(Probe::VTable)
    } else if s.class_function is None {
        Some(Probe::ClassFunction)
    } else if s.client_class is None {
        Some(Probe::ClientClass)
    } else if s.class_id is None {
        Some(Probe::ClassId)
    } else {
        match class_id_spec(s.class_id->0) {
            None => None,
            Some(ClassID::CCSPlayer) => player_needs(is_local, c4_owner, s),
            Some(ClassID::CCSPlayerResources) => if s.c4_owner is None {
                Some(Probe::C4Owner)
            } else {
                None
            },
            Some(ClassID::CPlantedC4) => if s.pos is None {
                Some(Probe::Position)
            } else {
                None
            },
            Some(ClassID::CWeaponC4) => if s.pos is None {
                Some(Probe::Position)
            } else if s.dormant is None {
                Some(Probe::Dormant)
            } else {
                None
            },
        }
    }
}

/// What an entity contributes to the radar.
#[derive(Debug, Clone, Copy, PartialEq, Eq, Structural)]
pub enum Outcome {
    /// Nothing.
    Skip,
    /// An entry shown on the radar.
    Add(EntityData),
    /// The index of the bomb carrier (0 for nobody).
    SetC4Owner(i32),
}

/// What an entity contributes, given the bomb carrier known so far: a
/// living player of a known type other than spectator is shown, carrying
/// the bomb when the carrier is set and is its index; the player resources
/// set the bomb carrier; a planted bomb is shown when nobody carries the
/// bomb; a dropped bomb is shown when nobody carries it and it is not
/// dormant; anything else is left out.
pub open spec fn outcome(is_local: bool, c4_owner: i32, s: Sighting) -> Outcome {
    match class_id_spec(s.class_id->0) {
        None => Outcome::Skip,
        Some(ClassID::CCSPlayer) => if s.health->0 <= 0 {
            Outcome::Skip
        } else {
            match player_type_spec(is_local, team_opt(s.team), team_opt(s.local_team)) {
                None => Outcome::Skip,
                Some(PlayerType::Spectator) => Outcome::Skip,
                Some(t) => Outcome::Add(
                    EntityData::Player(
                        PlayerData {
                            pos: s.pos->0,
                            yaw: s.yaw->0,
                            player_type: t,
                            is_dormant: s.dormant->0 != 0,
                            has_bomb: c4_owner != 0 && c4_owner == s.index->0,
                        },
                    ),
                ),
            }
        },
        Some(ClassID::CCSPlayerResources) => Outcome::SetC4Owner(s.c4_owner->0),
        Some(ClassID::CPlantedC4) => if c4_owner == 0 {
            Outcome::Add(EntityData::Bomb(BombData { pos: s.pos->0, is_planted: true }))
        } else {
            Outcome::Skip
        },
        Some(ClassID::CWeaponC4) => if c4_owner == 0 && s.dormant->0 == 0 {
            Outcome::Add(EntityData::Bomb(BombData { pos: s.pos->0, is_planted: false }))
        } else {
            Outcome::Skip
        },
    }
}

/// The scan reads only what matters: once an entity needs no more values,
/// what it contributes is what the complete memory of the entity gives,
/// whatever the values left unread.
pub proof fn lemma_outcome_ignores_unread(is_local: bool, c4_owner: i32, s: Sighting, full: Sighting)
    requires
        needs(is_local, c4_owner, s) is None,
        s.agrees_with(full),
        full.is_complete(),
    ensures
        outcome(is_local, c4_owner, s) == outcome(is_local, c4_owner, full),
        needs(is_local, c4_owner, full) is None,
{
}

/// Each read the scan asks for fills one more value, which is the one the
/// memory of the entity holds: an entity is judged after at most twelve
/// reads, on values that all agree with its memory.
pub proof fn lemma_probe_progress(is_local: bool, c4_owner: i32, s: Sighting, full: Sighting, p: Probe)
    requires
        needs(is_local, c4_owner, s) == Some(p),
        s.agrees_with(full),
        full.is_complete(),
    ensures
        !s.has(p),
        s.with_value(p, full.value_of(p)).has(p),
        s.with_value(p, full.value_of(p)).unread() + 1 == s.unread(),
        s.with_value(p, full.value_of(p)).agrees_with(full),
        value_kind(full.value_of(p)) == probe_kind(p),
{
}

/// The sighting a scan reaches from `s` when every read it asks for is
/// answered from the memory `full`.
pub open spec fn scan_from(is_local: bool, c4_owner: i32, s: Sighting, full: Sighting) -> Sighting
    decreases s.unread(),
{
    match needs(is_local, c4_owner, s) {
        None => s,
        Some(p) => if !s.has(p) && value_kind(full.value_of(p)) == probe_kind(p) {
            scan_from(is_local, c4_owner, s.with_value(p, full.value_of(p)), full)
        } else {
            s
        },
    }
}

/// Scanning an entity, from nothing read, judges it as its complete memory
/// does: the scan comes to an end with no value needed, and what the entity
/// contributes is what its whole memory gives.
pub proof fn lemma_scan_judges_memory(is_local: bool, c4_owner: i32, s: Sighting, full: Sighting)
    requires
        s.agrees_with(full),
        full.is_complete(),
    ensures
        needs(is_local, c4_owner, scan_from(is_local, c4_owner, s, full)) is None,
        outcome(is_local, c4_owner, scan_from(is_local, c4_owner, s, full)) == outcome(
            is_local,
            c4_owner,
            full,
        ),
    decreases s.unread(),
{
    match needs(is_local, c4_owner, s) {
        None => {
            lemma_outcome_ignores_unread(is_local, c4_owner, s, full);
        },
        Some(p) => {
            lemma_probe_progress(is_local, c4_owner, s, full, p);
            lemma_scan_judges_memory(is_local, c4_owner, s.with_value(p, full.value_of(p)), full);
        },
    }
}

/// What a judged entity contributes, in terms of the values read:
/// - a shown player is a living player of class 40, not a spectator, shown
///   with the position, view angle and dormancy read for it; it is `Local`
///   exactly when it is the local player, and it carries the bomb exactly
///   when a carrier is known and its own index is the carrier;
/// - a shown bomb exists only while nobody carries the bomb, is shown where
///   it was read, and is planted exactly when its class is 129; a dropped
///   bomb (class 34) is shown only when it is not dormant;
/// - the bomb carrier is set only by the player resources (class 41), to the
///   value read there;
/// - a planted bomb is always shown while nobody carries the bomb, and a
///   living classified non-spectator player is always shown.
pub proof fn lemma_outcome_rules(is_local: bool, c4_owner: i32, s: Sighting)
    requires
        s.class_id is Some,
        needs(is_local, c4_owner, s) is None,
    ensures
        outcome(is_local, c4_owner, s) matches Outcome::Add(EntityData::Player(d)) ==> {
            &&& s.class_id == Some(40i32)
            &&& s.health matches Some(h) && h > 0
            &&& s.pos == Some(d.pos)
            &&& s.yaw == Some(d.yaw)
            &&& s.dormant matches Some(x) && (d.is_dormant <==> x != 0)
            &&& d.player_type != PlayerType::Spectator
            &&& d.player_type != PlayerType::Unknown
            &&& (d.player_type == PlayerType::Local <==> is_local)
            &&& (d.has_bomb <==> (c4_owner != 0 && s.index == Some(c4_owner)))
        },
        outcome(is_local, c4_owner, s) matches Outcome::Add(EntityData::Bomb(b)) ==> {
            &&& c4_owner == 0
            &&& s.pos == Some(b.pos)
            &&& (b.is_planted <==> s.class_id == Some(129i32))
            &&& (s.class_id == Some(129i32) || (s.class_id == Some(34i32) && s.dormant == Some(
                0u8,
            )))
        },
        outcome(is_local, c4_owner, s) matches Outcome::SetC4Owner(c) ==> s.class_id == Some(
            41i32,
        ) && s.c4_owner == Some(c),
        s.class_id == Some(129i32) && c4_owner == 0 ==> outcome(is_local, c4_owner, s)
            == Outcome::Add(EntityData::Bomb(BombData { pos: s.pos->0, is_planted: true })),
        (s.class_id == Some(40i32) && s.health->0 > 0 && player_type_spec(
            is_local,
            team_opt(s.team),
            team_opt(s.local_team),
        ) is Some && player_type_spec(is_local, team_opt(s.team), team_opt(s.local_team)) != Some(
            PlayerType::Spectator,
        )) ==> outcome(is_local, c4_owner, s) is Add,
{
    let v = s.class_id->0;
    lemma_class_numbers(v);
    if s.team is Some {
        lemma_team_numbers(s.team->0);
    }
    if s.local_team is Some {
        lemma_team_numbers(s.local_team->0);
    }
    lemma_player_type_rules(is_local, team_opt(s.team), team_opt(s.local_team));
}

/// Recording a value fills exactly that value: the probe is then read, with
/// the value given, and every other value is as it was.
pub proof fn lemma_recording(s: Sighting, p: Probe, v: ReadValue)
    requires
        value_kind(v) == probe_kind(p),
    ensures
        s.with_value(p, v).has(p),
        s.with_value(p, v).value_of(p) == v,
        forall|q: Probe|
            q != p ==> (#[trigger] s.with_value(p, v).has(q)) == s.has(q) && s.with_value(
                p,
                v,
            ).value_of(q) == s.value_of(q),
{
}

/// What the scan reads: the class chain comes first; an entity of a class
/// the radar does not know is read no further; a dead player is read no
/// further than its health; the teams of the local player are never read;
/// an index is read only while someone carries the bomb; the player
/// resources are read only for the bomb carrier; a probe asked for is never
/// one already read.
pub proof fn lemma_what_is_read(is_local: bool, c4_owner: i32, s: Sighting)
    ensures
        needs(is_local, c4_owner, s) matches Some(p) ==> !s.has(p),
        s.class_id is None ==> (needs(is_local, c4_owner, s) matches Some(p) && (p
            == Probe::VTable || p == Probe::ClassFunction || p == Probe::ClientClass || p
            == Probe::ClassId)),
        (s.vtable is Some && s.class_function is Some && s.client_class is Some
            && s.class_id is Some && s.class_id->0 != 40 && s.class_id->0 != 41 && s.class_id->0
            != 129 && s.class_id->0 != 34) ==> needs(
            is_local,
            c4_owner,
            s,
        ) is None,
        (s.vtable is Some && s.class_function is Some && s.client_class is Some && s.class_id
            == Some(40i32) && s.health is Some && s.health->0 <= 0) ==> needs(
            is_local,
            c4_owner,
            s,
        ) is None,
        is_local ==> needs(is_local, c4_owner, s) != Some(Probe::Team) && needs(
            is_local,
            c4_owner,
            s,
        ) != Some(Probe::LocalTeam),
        c4_owner == 0 ==> needs(is_local, c4_owner, s) != Some(Probe::Index),
        (s.vtable is Some && s.class_function is Some && s.client_class is Some && s.class_id
            == Some(41i32)) ==> (needs(is_local, c4_owner, s) is None || needs(
            is_local,
            c4_owner,
            s,
        ) == Some(Probe::C4Owner)),
{
    if s.class_id is Some {
        lemma_class_numbers(s.class_id->0);
    }
}

/// Where each value lies: the class chain runs entity + 0x8, then + 0x8,
/// + 0x1 and + 0x14 from the pointers read; the index lies at entity + 0x64
/// and the bomb carrier at entity + 0x165c; health, position, view angle and
/// team lie at the entity plus the netvars `m_iHealth`, `m_vecOrigin`,
/// `m_angEyeAnglesY` and `m_iTeamNum`, the local player's team at the local
/// player plus `m_iTeamNum`, and dormancy at the entity plus the signature
/// `m_bDormant`; a missing name is reported by name.
pub proof fn lemma_probe_addresses(e: u64, l: u64, s: Sighting, o: Offsets)
    ensures
        e + 8 <= u64::MAX ==> probe_address_spec(e, l, Probe::VTable, s, o) == Ok::<
            u64,
            ScanErrorView,
        >((e + 8) as u64),
        s.vtable matches Some(v) ==> probe_address_spec(e, l, Probe::ClassFunction, s, o) == Ok::<
            u64,
            ScanErrorView,
        >((v + 8) as u64),
        s.class_function matches Some(f) ==> probe_address_spec(e, l, Probe::ClientClass, s, o)
            == Ok::<u64, ScanErrorView>((f + 1) as u64),
        s.client_class matches Some(c) ==> probe_address_spec(e, l, Probe::ClassId, s, o) == Ok::<
            u64,
            ScanErrorView,
        >((c + 0x14) as u64),
        e + 0x64 <= u64::MAX ==> probe_address_spec(e, l, Probe::Index, s, o) == Ok::<
            u64,
            ScanErrorView,
        >((e + 0x64) as u64),
        e + 0x165c <= u64::MAX ==> probe_address_spec(e, l, Probe::C4Owner, s, o) == Ok::<
            u64,
            ScanErrorView,
        >((e + 0x165c) as u64),
        o.vars_view().contains_key("m_iHealth"@) && 0 <= e + o.vars_view()["m_iHealth"@] <= u64::MAX ==> probe_address_spec(
            e,
            l,
            Probe::Health,
            s,
            o,
        ) == Ok::<u64, ScanErrorView>((e + o.vars_view()["m_iHealth"@]) as u64),
        !o.vars_view().contains_key("m_iHealth"@) ==> probe_address_spec(e, l, Probe::Health, s, o) == Err::<
            u64,
            ScanErrorView,
        >(ScanErrorView::Offset(OffsetErrorView::NetvarNotFound("m_iHealth"@))),
        o.vars_view().contains_key("m_vecOrigin"@) && 0 <= e + o.vars_view()["m_vecOrigin"@] <= u64::MAX ==> probe_address_spec(
            e,
            l,
            Probe::Position,
            s,
            o,
        ) == Ok::<u64, ScanErrorView>((e + o.vars_view()["m_vecOrigin"@]) as u64),
        !o.vars_view().contains_key("m_vecOrigin"@) ==> probe_address_spec(e, l, Probe::Position, s, o) == Err::<
            u64,
            ScanErrorView,
        >(ScanErrorView::Offset(OffsetErrorView::NetvarNotFound("m_vecOrigin"@))),
        o.vars_view().contains_key("m_angEyeAnglesY"@) && 0 <= e + o.vars_view()["m_angEyeAnglesY"@] <= u64::MAX ==> probe_address_spec(
            e,
            l,
            Probe::Yaw,
            s,
            o,
        ) == Ok::<u64, ScanErrorView>((e + o.vars_view()["m_angEyeAnglesY"@]) as u64),
        !o.vars_view().contains_key("m_angEyeAnglesY"@) ==> probe_address_spec(e, l, Probe::Yaw, s, o) == Err::<
            u64,
            ScanErrorView,
        >(ScanErrorView::Offset(OffsetErrorView::NetvarNotFound("m_angEyeAnglesY"@))),
        o.vars_view().contains_key("m_iTeamNum"@) && 0 <= e + o.vars_view()["m_iTeamNum"@] <= u64::MAX ==> probe_address_spec(
            e,
            l,
            Probe::Team,
            s,
            o,
        ) == Ok::<u64, ScanErrorView>((e + o.vars_view()["m_iTeamNum"@]) as u64),
        !o.vars_view().contains_key("m_iTeamNum"@) ==> probe_address_spec(e, l, Probe::Team, s, o) == Err::<
            u64,
            ScanErrorView,
        >(ScanErrorView::Offset(OffsetErrorView::NetvarNotFound("m_iTeamNum"@))),
        o.vars_view().contains_key("m_iTeamNum"@) && 0 <= l + o.vars_view()["m_iTeamNum"@] <= u64::MAX ==> probe_address_spec(
            e,
            l,
            Probe::LocalTeam,
            s,
            o,
        ) == Ok::<u64, ScanErrorView>((l + o.vars_view()["m_iTeamNum"@]) as u64),
        !o.vars_view().contains_key("m_iTeamNum"@) ==> probe_address_spec(e, l, Probe::LocalTeam, s, o) == Err::<
            u64,
            ScanErrorView,
        >(ScanErrorView::Offset(OffsetErrorView::NetvarNotFound("m_iTeamNum"@))),
        o.sigs_view().contains_key("m_bDormant"@) && 0 <= e + o.sigs_view()["m_bDormant"@] <= u64::MAX ==> probe_address_spec(
            e,
            l,
            Probe::Dormant,
            s,
            o,
        ) == Ok::<u64, ScanErrorView>((e + o.sigs_view()["m_bDormant"@]) as u64),
        !o.sigs_view().contains_key("m_bDormant"@) ==> probe_address_spec(e, l, Probe::Dormant, s, o) == Err::<
            u64,
            ScanErrorView,
        >(ScanErrorView::Offset(OffsetErrorView::SignatureNotFound("m_bDormant"@))),
{
}

/// Where the value of probe `p` lies, for the entity at `entity`.
pub open spec fn probe_address_spec(entity: u64, local: u64, p: Probe, s: Sighting, offsets: Offsets) -> Result<u64, ScanErrorView> {
    match p {
        Probe::VTable => named_address_spec(entity, Ok(8)),
        Probe::ClassFunction => named_address_spec(s.vtable->0 as u64, Ok(8)),
        Probe::ClientClass => named_address_spec(s.class_function->0 as u64, Ok(1)),
        Probe::ClassId => named_address_spec(s.client_class->0 as u64, Ok(0x14)),
        Probe::Health => named_address_spec(entity, offsets.var_result("m_iHealth"@)),
        Probe::Position => named_address_spec(entity, offsets.var_result("m_vecOrigin"@)),
        Probe::Yaw => named_address_spec(entity, offsets.var_result("m_angEyeAnglesY"@)),
        Probe::Dormant => named_address_spec(entity, offsets.sig_result("m_bDormant"@)),
        Probe::Team => named_address_spec(entity, offsets.var_result("m_iTeamNum"@)),
        Probe::LocalTeam => named_address_spec(local, offsets.var_result("m_iTeamNum"@)),
        Probe::Index => named_address_spec(entity, Ok(0x64)),
        Probe::C4Owner => named_address_spec(entity, Ok(0x165c)),
    }
}

/// The pointer a probe of the class chain starts from has been read.
pub open spec fn probe_ready(p: Probe, s: Sighting) -> bool {
    match p {
        Probe::ClassFunction => s.vtable is Some,
        Probe::ClientClass => s.class_function is Some,
        Probe::ClassId => s.client_class is Some,
        _ => true,
    }
}

/// The abstract form of a request result: the address, with the shape of
/// the probe.
pub open spec fn request_matches(r: Result<ReadRequest, ScanError>, p: Probe, a: Result<u64, ScanErrorView>) -> bool {
    match r {
        Ok(req) => req.kind == probe_kind(p) && a == Ok::<u64, ScanErrorView>(req.address),
        Err(e) => a == Err::<u64, ScanErrorView>(e@),
    }
}

impl Entity {
    /// The read that gives the value of probe `p` for this entity; `local`
    /// is the local player.
    pub fn probe_request(&self, p: Probe, local: &Entity, s: &Sighting, offsets: &Offsets) -> (r: Result<ReadRequest, ScanError>)
        requires
            probe_ready(p, *s),
        ensures
            request_matches(r, p, probe_address_spec(self.0, local.0, p, *s, *offsets)),
    {
        let address = match p {
            Probe::VTable => named_address(self.0, Ok(8)),
            Probe::ClassFunction => named_address(s.vtable.unwrap() as u64, Ok(8)),
            Probe::ClientClass => named_address(s.class_function.unwrap() as u64, Ok(1)),
            Probe::ClassId => named_address(s.client_class.unwrap() as u64, Ok(0x14)),
            Probe::Health => named_address(self.0, offsets.get_var("m_iHealth")),
            Probe::Position => named_address(self.0, offsets.get_var("m_vecOrigin")),
            Probe::Yaw => named_address(self.0, offsets.get_var("m_angEyeAnglesY")),
            Probe::Dormant => named_address(self.0, offsets.get_sig("m_bDormant")),
            Probe::Team => named_address(self.0, offsets.get_var("m_iTeamNum")),
            Probe::LocalTeam => named_address(local.0, offsets.get_var("m_iTeamNum")),
            Probe::Index => named_address(self.0, Ok(0x64)),
            Probe::C4Owner => named_address(self.0, Ok(0x165c)),
        };
        match address {
            Ok(a) => Ok(ReadRequest { address: a, kind: p.kind() }),
            Err(e) => Err(e),
        }
    }

    /// How this player relates to the local player `local`, given both
    /// teams.
    pub fn get_player_type(&self, local: &Entity, team: Option<TeamID>, local_team: Option<TeamID>) -> (r: Option<PlayerType>)
        ensures
            r == player_type_spec(self.0 == local.0, team, local_team),
    {
        if self.0 == local.0 {
            return Some(PlayerType::Local);
        }
        let team = match team {
            Some(t) => t,
            None => {
                return None;
            },
        };
        let local_team = match local_team {
            Some(t) => t,
            None => {
                return None;
            },
        };
        let player_type = if team == TeamID::Spectator {
            PlayerType::Spectator
        } else if team != local_team {
            PlayerType::Enemy
        } else {
            PlayerType::Team
        };
        Some(player_type)
    }

    /// A player is alive while its health is positive.
    pub fn is_alive(health: i32) -> (r: bool)
        ensures
            r == (health > 0),
    {
        health > 0
    }
}

} // verus!
