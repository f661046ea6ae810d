use vstd::prelude::*;
use crate::comms::{BombData, EntityData, PlayerData, PlayerType, RadarData};
use crate::entity::{ClassID, ClientState, Entity, TeamID};
use crate::scan::{needs, outcome, probe_ready, Outcome, Probe, Sighting};

verus! {

/// The abstract state of the radar: the bomb carrier known so far (kept
/// from one frame to the next) and the entries gathered for the current
/// frame.
pub struct RadarView {
    pub c4_owner: i32,
    pub entities: Seq<EntityData>,
}

/// The radar state after an entity contributed `o`.
pub open spec fn apply_outcome(v: RadarView, o: Outcome) -> RadarView {
    match o {
        Outcome::Skip => v,
        Outcome::Add(d) => RadarView { c4_owner: v.c4_owner, entities: v.entities.push(d) },
        Outcome::SetC4Owner(c) => RadarView { c4_owner: c, entities: v.entities },
    }
}

/// What an entity's contribution does to the radar: an entry is added at
/// the end of the frame, keeping the entries before it and the bomb carrier;
/// the bomb carrier is replaced, keeping the entries; nothing changes for an
/// entity left out.
pub proof fn lemma_apply_outcome(v: RadarView, o: Outcome)
    ensures
        o matches Outcome::Add(d) ==> {
            &&& apply_outcome(v, o).entities.len() == v.entities.len() + 1
            &&& apply_outcome(v, o).entities.last() == d
            &&& apply_outcome(v, o).entities.drop_last() == v.entities
            &&& apply_outcome(v, o).c4_owner == v.c4_owner
        },
        o matches Outcome::SetC4Owner(c) ==> apply_outcome(v, o).c4_owner == c && apply_outcome(
            v,
            o,
        ).entities == v.entities,
        o == Outcome::Skip ==> apply_outcome(v, o) == v,
{
    if let Outcome::Add(d) = o {
        assert(v.entities.push(d).drop_last() =~= v.entities);
    }
}

/// How a frame begins.
#[derive(Debug, Clone)]
pub enum FrameStart {
    /// Not in game: this is the frame.
    Idle(RadarData),
    /// In game: the entities are to be scanned.
    Scan,
}

/// Builds radar frames from the entities of the game.
pub struct Radar {
    c4_owner_id: i32,
    entities: Vec<EntityData>,
}

impl View for Radar {
    type V = RadarView;

    closed spec fn view(&self) -> RadarView {
        RadarView { c4_owner: self.c4_owner_id, entities: self.entities@ }
    }
}

impl Radar {
    /// Nobody is known to carry the bomb, no entries yet.
    pub fn new() -> (r: Radar)
        ensures
            r@.c4_owner == 0,
            r@.entities == Seq::<EntityData>::empty(),
    {
        Radar { c4_owner_id: 0, entities: Vec::new() }
    }

    /// Index of the bomb carrier known so far (0 for nobody).
    pub fn c4_owner_id(&self) -> (r: i32)
        ensures
            r == self@.c4_owner,
    {
        self.c4_owner_id
    }

    /// Starts a frame: no entries; the bomb carrier is kept.
    pub fn begin_frame(&mut self)
        ensures
            final(self)@.c4_owner == old(self)@.c4_owner,
            final(self)@.entities == Seq::<EntityData>::empty(),
    {
        self.entities = Vec::new();
    }

    /// Begins a frame for the connection state `state`: out of game the
    /// frame is the empty radar data and nothing changes; in game the entries
    /// are cleared for a scan, the bomb carrier being kept.
    pub fn start_frame(&mut self, state: i32) -> (r: FrameStart)
        ensures
            state != 6 ==> (r matches FrameStart::Idle(d) && d.is_empty()) && final(self)@ == old(
                self,
            )@,
            state == 6 ==> r is Scan && final(self)@.c4_owner == old(self)@.c4_owner
                && final(self)@.entities == Seq::<EntityData>::empty(),
    {
        if !ClientState::is_ingame(state) {
            FrameStart::Idle(RadarData::empty())
        } else {
            self.begin_frame();
            FrameStart::Scan
        }
    }

    /// The next value to read of `entity`, or `None` when it can be judged;
    /// a probe asked for is always one not read yet.
    pub fn next_probe(&self, entity: &Entity, local: &Entity, s: &Sighting) -> (r: Option<Probe>)
        ensures
            r == needs(entity.0 == local.0, self@.c4_owner, *s),
            r matches Some(p) ==> !s.has(p) && probe_ready(p, *s),
    {
        let is_local = entity.0 == local.0;
        let c4 = self.c4_owner_id;
        if s.vtable.is_none() {
            return Some(Probe::VTable);
        }
        if s.class_function.is_none() {
            return Some(Probe::ClassFunction);
        }
        if s.client_class.is_none() {
            return Some(Probe::ClientClass);
        }
        let class_id = match s.class_id {
            None => {
                return Some(Probe::ClassId);
            },
            Some(c) => c,
        };
        match ClassID::from_i32(class_id) {
            None => None,
            Some(ClassID::CCSPlayer) => {
                let health = match s.health {
                    None => {
                        return Some(Probe::Health);
                    },
                    Some(h) => h,
                };
                if !Entity::is_alive(health) {
                    return None;
                }
                if s.pos.is_none() {
                    return Some(Probe::Position);
                }
                if s.yaw.is_none() {
                    return Some(Probe::Yaw);
                }
                if s.dormant.is_none() {
                    return Some(Probe::Dormant);
                }
                let mut team: Option<TeamID> = None;
                let mut local_team: Option<TeamID> = None;
                if !is_local {
                    match s.team {
                        None => {
                            return Some(Probe::Team);
                        },
                        Some(t) => {
                            team = TeamID::from_i32(t);
                        },
                    }
                    if team.is_none() {
                        return None;
                    }
                    match s.local_team {
                        None => {
                            return Some(Probe::LocalTeam);
                        },
                        Some(t) => {
                            local_team = TeamID::from_i32(t);
                        },
                    }
                }
                match entity.get_player_type(local, team, local_team) {
                    None => None,
                    Some(PlayerType::Spectator) => None,
                    Some(_) => if c4 != 0 && s.index.is_none() {
                        Some(Probe::Index)
                    } else {
                        None
                    },
                }
            },
            Some(ClassID::CCSPlayerResources) => if s.c4_owner.is_none() {
                Some(Probe::C4Owner)
            } else {
                None
            },
            Some(ClassID::CPlantedC4) => if s.pos.is_none() {
                Some(Probe::Position)
            } else {
                None
            },
            Some(ClassID::CWeaponC4) => if s.pos.is_none() {
                Some(Probe::Position)
            } else if s.dormant.is_none() {
                Some(Probe::Dormant)
            } else {
                None
            },
        }
    }

    /// Takes in what `entity` contributes, once it has been read far enough.
    pub fn absorb(&mut self, entity: &Entity, local: &Entity, s: &Sighting)
        requires
            needs(entity.0 == local.0, old(self)@.c4_owner, *s) is None,
        ensures
            final(self)@ == apply_outcome(
                old(self)@,
                outcome(entity.0 == local.0, old(self)@.c4_owner, *s),
            ),
    {
        let o = self.judge(entity, local, s);
        match o {
            Outcome::Skip => {},
            Outcome::Add(d) => self.entities.push(d),
            Outcome::SetC4Owner(c) => self.c4_owner_id = c,
        }
    }

    /// What `entity` contributes.
    fn judge(&self, entity: &Entity, local: &Entity, s: &Sighting) -> (r: Outcome)
        requires
            needs(entity.0 == local.0, self@.c4_owner, *s) is None,
        ensures
            r == outcome(entity.0 == local.0, self@.c4_owner, *s),
    {
        let is_local = entity.0 == local.0;
        let c4 = self.c4_owner_id;
        match ClassID::from_i32(s.class_id.unwrap()) {
            None => Outcome::Skip,
            Some(ClassID::CCSPlayer) => {
                if !Entity::is_alive(s.health.unwrap()) {
                    return Outcome::Skip;
                }
                let team = match s.team {
                    Some(t) => TeamID::from_i32(t),
                    None => None,
                };
                let local_team = match s.local_team {
                    Some(t) => TeamID::from_i32(t),
                    None => None,
                };
                match entity.get_player_type(local, team, local_team) {
                    None => Outcome::Skip,
                    Some(PlayerType::Spectator) => Outcome::Skip,
                    Some(t) => {
                        let has_bomb = c4 != 0 && c4 == s.index.unwrap();
                        Outcome::Add(
                            EntityData::Player(
                                PlayerData::new(
                                    s.pos.unwrap(),
                                    s.yaw.unwrap(),
                                    t,
                                    s.dormant.unwrap() != 0,
                                    has_bomb,
                                ),
                            ),
                        )
                    },
                }
            },
            Some(ClassID::CCSPlayerResources) => Outcome::SetC4Owner(s.c4_owner.unwrap()),
            Some(ClassID::CPlantedC4) => {
                let pos = s.pos.unwrap();
                if c4 == 0 {
                    Outcome::Add(EntityData::Bomb(BombData::new(pos, true)))
                } else {
                    Outcome::Skip
                }
            },
            Some(ClassID::CWeaponC4) => {
                let pos = s.pos.unwrap();
                let is_dormant = s.dormant.unwrap() != 0;
                if c4 == 0 && !is_dormant {
                    Outcome::Add(EntityData::Bomb(BombData::new(pos, false)))
                } else {
                    Outcome::Skip
                }
            },
        }
    }

    /// Ends the frame: the radar data of a game in progress on `map_name`,
    /// with the entries gathered and the local player's view angle; the
    /// entries are handed over and the bomb carrier is kept.
    pub fn finish(&mut self, map_name: String, local_yaw: u32) -> (r: RadarData)
        ensures
            r.ingame,
            r.map_name == map_name,
            r.player_data@ == old(self)@.entities,
            r.local_yaw == local_yaw,
            final(self)@.c4_owner == old(self)@.c4_owner,
            final(self)@.entities == Seq::<EntityData>::empty(),
    {
        let mut entities: Vec<EntityData> = Vec::new();
        std::mem::swap(&mut entities, &mut self.entities);
        RadarData::new(true, map_name, entities, local_yaw)
    }
}

} // verus!
