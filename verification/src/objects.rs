//! Identifiers of the things a user can point at on the map.

use vstd::prelude::*;

verus! {

/// An intersection, by its index in the map.
#[derive(Clone, Copy, Debug, PartialEq, Eq, Hash, Structural)]
pub struct IntersectionID(pub usize);

/// A turn through an intersection, from one lane to another.
#[derive(Clone, Copy, Debug, PartialEq, Eq, Hash, Structural)]
pub struct TurnID {
    pub parent: IntersectionID,
    pub src: usize,
    pub dst: usize,
}

/// Anything that can be selected, hidden or coloured.
#[derive(Clone, Copy, Debug, PartialEq, Eq, Hash, Structural)]
pub enum ID {
    Road(usize),
    Lane(usize),
    Intersection(IntersectionID),
    Turn(TurnID),
    Building(usize),
    Car(usize),
    Pedestrian(usize),
    ExtraShape(usize),
    Parcel(usize),
    BusStop(usize),
    Area(usize),
    Trip(usize),
}

impl ID {
    /// The intersection that a turn belongs to; `None` for anything but a turn.
    pub open spec fn turn_parent(self) -> Option<IntersectionID> {
        match self {
            ID::Turn(t) => Some(t.parent),
            _ => None,
        }
    }

    pub fn is_turn(&self) -> (r: bool)
        ensures
            r == (self is Turn),
    {
        match self {
            ID::Turn(_) => true,
            _ => false,
        }
    }
}

} // verus!
