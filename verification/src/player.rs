//! The observer: its map-object type identifier and last known pose.

use vstd::prelude::*;

verus! {

/// The player: the map-object type id that marks its start, and the
/// position and facing direction (in degrees) taken from that map object.
#[derive(Debug, Clone, Copy, PartialEq, Eq, Structural)]
pub struct Player {
    pub id: u16,
    pub x: i16,
    pub y: i16,
    pub direction: u16,
}

impl Player {
    /// A player of type `id` standing at the origin, facing along the
    /// positive x axis.
    pub fn new(id: u16) -> (p: Player)
        ensures
            p == (Player { id, x: 0, y: 0, direction: 0 }),
    {
        Player { id, x: 0, y: 0, direction: 0 }
    }
}

} // verus!
