use vstd::prelude::*;
use crate::offsets::{OffsetError, OffsetErrorView, Offsets, offset_result_view};

verus! {

/// Why an address could not be worked out.
#[derive(Debug, Clone, PartialEq, Eq)]
pub enum ScanError {
    /// An offset name is missing from the offset tables.
    Offset(OffsetError),
    /// A base plus an offset falls outside the 64-bit address space.
    AddressOverflow,
}

/// A `ScanError` with its names as sequences of characters.
pub enum ScanErrorView {
    Offset(OffsetErrorView),
    AddressOverflow,
}

impl View for ScanError {
    type V = ScanErrorView;

    open spec fn view(&self) -> ScanErrorView {
        match self {
            ScanError::Offset(e) => ScanErrorView::Offset(e@),
            ScanError::AddressOverflow => ScanErrorView::AddressOverflow,
        }
    }
}

/// The abstract form of an address result.
pub open spec fn address_result_view(r: Result<u64, ScanError>) -> Result<u64, ScanErrorView> {
    match r {
        Ok(a) => Ok(a),
        Err(e) => Err(e@),
    }
}

/// `base + offset` if it is a 64-bit address.
pub open spec fn offset_address_spec(base: u64, offset: i64) -> Option<u64> {
    if 0 <= base + offset <= u64::MAX {
        Some((base + offset) as u64)
    } else {
        None
    }
}

/// Adds a signed offset to an address.
pub fn offset_address(base: u64, offset: i64) -> (r: Option<u64>)
    ensures
        r == offset_address_spec(base, offset),
{
    if offset >= 0 {
        base.checked_add(offset as u64)
    } else {
        let magnitude: u64 = (0i128 - offset as i128) as u64;
        base.checked_sub(magnitude)
    }
}

/// The address that lies at a named offset from `base`.
pub open spec fn named_address_spec(base: u64, offset: Result<i64, OffsetErrorView>) -> Result<u64, ScanErrorView> {
    match offset {
        Err(e) => Err(ScanErrorView::Offset(e)),
        Ok(o) => match offset_address_spec(base, o) {
            Some(a) => Ok(a),
            None => Err(ScanErrorView::AddressOverflow),
        },
    }
}

pub fn named_address(base: u64, offset: Result<i64, OffsetError>) -> (r: Result<u64, ScanError>)
    ensures
        address_result_view(r) == named_address_spec(base, offset_result_view(offset)),
{
    match offset {
        Err(e) => Err(ScanError::Offset(e)),
        Ok(o) => match offset_address(base, o) {
            Some(a) => Ok(a),
            None => Err(ScanError::AddressOverflow),
        },
    }
}

/// The class of a game entity that the radar cares about.
#[derive(Debug, Clone, Copy, PartialEq, Eq, Structural)]
pub enum ClassID {
    CCSPlayer,
    CCSPlayerResources,
    CPlantedC4,
    CWeaponC4,
}

pub open spec fn class_id_spec(v: i32) -> Option<ClassID> {
    if v == 40 {
        Some(ClassID::CCSPlayer)
    } else if v == 41 {
        Some(ClassID::CCSPlayerResources)
    } else if v == 129 {
        Some(ClassID::CPlantedC4)
    } else if v == 34 {
        Some(ClassID::CWeaponC4)
    } else {
        None
    }
}

impl ClassID {
    /// The class with the game's class number `v`: 40 `CCSPlayer`, 41
    /// `CCSPlayerResources`, 129 `CPlantedC4`, 34 `CWeaponC4`.
    pub fn from_i32(v: i32) -> (r: Option<ClassID>)
        ensures
            r == class_id_spec(v),
    {
        if v == 40 {
            Some(ClassID::CCSPlayer)
        } else if v == 41 {
            Some(ClassID::CCSPlayerResources)
        } else if v == 129 {
            Some(ClassID::CPlantedC4)
        } else if v == 34 {
            Some(ClassID::CWeaponC4)
        } else {
            None
        }
    }
}

/// Each class the radar knows has exactly one class number, and every other
/// number stands for no class: 40 is a player, 41 the player resources, 129
/// a planted bomb, 34 a dropped bomb.
pub proof fn lemma_class_numbers(v: i32)
    ensures
        class_id_spec(v) == Some(ClassID::CCSPlayer) <==> v == 40,
        class_id_spec(v) == Some(ClassID::CCSPlayerResources) <==> v == 41,
        class_id_spec(v) == Some(ClassID::CPlantedC4) <==> v == 129,
        class_id_spec(v) == Some(ClassID::CWeaponC4) <==> v == 34,
        class_id_spec(v) is None <==> (v != 40 && v != 41 && v != 129 && v != 34),
{
}

/// A team.
#[derive(Debug, Clone, Copy, PartialEq, Eq, Structural)]
pub enum TeamID {
    Spectator,
    T,
    CT,
}

pub open spec fn team_id_spec(v: i32) -> Option<TeamID> {
    if v == 1 {
        Some(TeamID::Spectator)
    } else if v == 2 {
        Some(TeamID::T)
    } else if v == 3 {
        Some(TeamID::CT)
    } else {
        None
    }
}

impl TeamID {
    /// The team with the game's team number `v`: 1 spectators, 2 T, 3 CT.
    pub fn from_i32(v: i32) -> (r: Option<TeamID>)
        ensures
            r == team_id_spec(v),
    {
        if v == 1 {
            Some(TeamID::Spectator)
        } else if v == 2 {
            Some(TeamID::T)
        } else if v == 3 {
            Some(TeamID::CT)
        } else {
            None
        }
    }
}

/// Each team has exactly one team number, and every other number stands for
/// no team: 1 spectators, 2 T, 3 CT.
pub proof fn lemma_team_numbers(v: i32)
    ensures
        team_id_spec(v) == Some(TeamID::Spectator) <==> v == 1,
        team_id_spec(v) == Some(TeamID::T) <==> v == 2,
        team_id_spec(v) == Some(TeamID::CT) <==> v == 3,
        team_id_spec(v) is None <==> (v != 1 && v != 2 && v != 3),
{
}

/// An entry of the game's entity list.
#[derive(Debug, Clone, Copy, PartialEq, Eq, Structural)]
pub struct CEntInfo {
    pub entity_ptr: u32,
    pub serial_number: u32,
    pub previous: u32,
    pub next: u32,
}

/// What the walk of the entity list does with an entry.
#[derive(Debug, Clone, Copy, PartialEq, Eq, Structural)]
pub enum ListStep {
    /// The entry closes the list (its links are equal); it is not visited.
    Stop,
    /// The entry holds no entity.
    Skip,
    /// The entity at this address is visited.
    Visit(Entity),
}

impl CEntInfo {
    /// What to do with this entry.
    pub fn step(&self) -> (r: ListStep)
        ensures
            self.next == self.previous ==> r == ListStep::Stop,
            self.next != self.previous && self.entity_ptr == 0 ==> r == ListStep::Skip,
            self.next != self.previous && self.entity_ptr != 0 ==> r == ListStep::Visit(
                Entity(self.entity_ptr as u64),
            ),
    {
        if self.next == self.previous {
            ListStep::Stop
        } else if self.entity_ptr == 0 {
            ListStep::Skip
        } else {
            ListStep::Visit(Entity::from_ptr(self.entity_ptr as u64))
        }
    }

    /// The walk of the entity list ends at the null address.
    pub fn is_list_end(address: u64) -> (r: bool)
        ensures
            r == (address == 0),
    {
        address == 0
    }

    /// Address of the following entry; the walk ends at address 0.
    pub fn next_address(&self) -> (r: u64)
        ensures
            r == self.next as u64,
    {
        self.next as u64
    }
}

/// A game entity, by its address.
#[derive(Debug, Clone, Copy, PartialEq, Eq, Structural)]
pub struct Entity(pub u64);

impl Entity {
    pub fn from_ptr(ptr: u64) -> (r: Entity)
        ensures
            r == Entity(ptr),
    {
        Entity(ptr)
    }

    /// Where the pointer to the local player lies: the client module's base
    /// plus the signature `dwLocalPlayer`.
    pub fn local_pointer_address(offsets: &Offsets, client_base: u64) -> (r: Result<u64, ScanError>)
        ensures
            address_result_view(r) == named_address_spec(client_base, offsets.sig_result("dwLocalPlayer"@)),
    {
        named_address(client_base, offsets.get_sig("dwLocalPlayer"))
    }

    /// Where the entity list starts: the client module's base plus the
    /// signature `dwEntityList`.
    pub fn entity_list_address(offsets: &Offsets, client_base: u64) -> (r: Result<u64, ScanError>)
        ensures
            address_result_view(r) == named_address_spec(client_base, offsets.sig_result("dwEntityList"@)),
    {
        named_address(client_base, offsets.get_sig("dwEntityList"))
    }
}

/// The game's client state, by its address.
#[derive(Debug, Clone, Copy, PartialEq, Eq, Structural)]
pub struct ClientState {
    pub ptr: u64,
}

impl ClientState {
    /// Where the pointer to the client state lies: the engine module's base
    /// plus the signature `dwClientState`.
    pub fn pointer_address(offsets: &Offsets, engine_base: u64) -> (r: Result<u64, ScanError>)
        ensures
            address_result_view(r) == named_address_spec(engine_base, offsets.sig_result("dwClientState"@)),
    {
        named_address(engine_base, offsets.get_sig("dwClientState"))
    }

    /// Where the map name (at most 64 characters) lies.
    pub fn map_name_address(&self, offsets: &Offsets) -> (r: Result<u64, ScanError>)
        ensures
            address_result_view(r) == named_address_spec(self.ptr, offsets.sig_result("dwClientState_Map"@)),
    {
        named_address(self.ptr, offsets.get_sig("dwClientState_Map"))
    }

    /// Where the connection state (an `i32`) lies.
    pub fn state_address(&self, offsets: &Offsets) -> (r: Result<u64, ScanError>)
        ensures
            address_result_view(r) == named_address_spec(self.ptr, offsets.sig_result("dwClientState_State"@)),
    {
        named_address(self.ptr, offsets.get_sig("dwClientState_State"))
    }

    /// The game is running a map when the connection state is 6.
    pub fn is_ingame(state: i32) -> (r: bool)
        ensures
            r == (state == 6),
    {
        state == 6
    }
}

} // verus!
