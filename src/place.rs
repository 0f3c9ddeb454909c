use vstd::prelude::*;
use crate::text::{copy_text, text_of};

verus! {

/// The fields that only a room has.
pub struct RoomInfo {
    pub capacity: Option<u16>,
    pub door_number: Option<u16>,
    pub description: Option<String>,
    pub equipment: Option<String>,
}

/// What a place is: a bare placemark, or a room with its own fields.
pub enum PlaceKind {
    Placemark,
    Room(RoomInfo),
}

/// The room-only fields as values; a placemark has none.
pub struct RoomView {
    pub capacity: Option<u16>,
    pub door_number: Option<u16>,
    pub description: Option<Seq<char>>,
    pub equipment: Option<Seq<char>>,
}

impl View for PlaceKind {
    type V = Option<RoomView>;

    open spec fn view(&self) -> Option<RoomView> {
        match self {
            PlaceKind::Placemark => None,
            PlaceKind::Room(r) => Some(
                RoomView {
                    capacity: r.capacity,
                    door_number: r.door_number,
                    description: text_of(r.description),
                    equipment: text_of(r.equipment),
                },
            ),
        }
    }
}

pub open spec fn room_capacity(k: Option<RoomView>) -> Option<u16> {
    match k {
        Some(r) => r.capacity,
        None => None,
    }
}

pub open spec fn room_door_number(k: Option<RoomView>) -> Option<u16> {
    match k {
        Some(r) => r.door_number,
        None => None,
    }
}

pub open spec fn room_description(k: Option<RoomView>) -> Option<Seq<char>> {
    match k {
        Some(r) => r.description,
        None => None,
    }
}

pub open spec fn room_equipment(k: Option<RoomView>) -> Option<Seq<char>> {
    match k {
        Some(r) => r.equipment,
        None => None,
    }
}

impl PlaceKind {
    /// The one test of which shape applies.
    pub fn is_room(&self) -> (r: bool)
        ensures
            r <==> self@ is Some,
    {
        match self {
            PlaceKind::Room(_) => true,
            PlaceKind::Placemark => false,
        }
    }

    pub fn capacity(&self) -> (r: Option<u16>)
        ensures
            r == room_capacity(self@),
    {
        match self {
            PlaceKind::Room(room) => room.capacity,
            PlaceKind::Placemark => None,
        }
    }

    pub fn door_number(&self) -> (r: Option<u16>)
        ensures
            r == room_door_number(self@),
    {
        match self {
            PlaceKind::Room(room) => room.door_number,
            PlaceKind::Placemark => None,
        }
    }

    pub fn description(&self) -> (r: Option<String>)
        ensures
            text_of(r) == room_description(self@),
    {
        match self {
            PlaceKind::Room(room) => copy_text(&room.description),
            PlaceKind::Placemark => None,
        }
    }

    pub fn equipment(&self) -> (r: Option<String>)
        ensures
            text_of(r) == room_equipment(self@),
    {
        match self {
            PlaceKind::Room(room) => copy_text(&room.equipment),
            PlaceKind::Placemark => None,
        }
    }
}

/// The room-only fields are gated by the shape alone: on a placemark each
/// reads as absent, on a room each reads as the room's own value.
pub proof fn lemma_room_fields_gated(k: Option<RoomView>)
    ensures
        k is None ==> room_capacity(k) is None && room_door_number(k) is None
            && room_description(k) is None && room_equipment(k) is None,
        k is Some ==> room_capacity(k) == k->Some_0.capacity
            && room_door_number(k) == k->Some_0.door_number
            && room_description(k) == k->Some_0.description
            && room_equipment(k) == k->Some_0.equipment,
{
}

} // verus!
