//! The objects a level spawns under its root, as plain values handed to the
//! renderer and the physics engine.
use vstd::prelude::*;
use crate::world::Point;

verus! {

/// The phase of an elevator's travel.
#[derive(Clone, Copy, Debug, PartialEq, Eq, Structural)]
pub enum State {
    MovingForward,
    Stopped,
    MovingBackward,
}

/// The fixed part of an elevator: where its travel starts and the height it
/// travels to.
#[derive(Clone, Copy, Debug, PartialEq, Eq, Structural)]
pub struct Elevator {
    pub start: Point,
    pub end_y: i64,
}

/// A spawned elevator: its fixed part, its phase, the position of its body's
/// center and the velocity it asks the physics engine for (per second).
#[derive(Clone, Copy, Debug, PartialEq, Eq, Structural)]
pub struct ElevatorBody {
    pub elevator: Elevator,
    pub state: State,
    pub position: Point,
    pub velocity: Point,
}

/// One object spawned as a child of the level root.
#[derive(Clone, Copy, Debug, PartialEq, Eq, Structural)]
pub enum Spawned {
    /// A one-tile ground sprite, drawn with atlas index `index`, centered at `at`.
    GroundTile { index: usize, at: Point },
    /// An invisible fixed collider covering the box from `min` to `max`.
    FloorBody { min: Point, max: Point },
    /// The lower half of a door; touching it leads to level `destination`.
    ExitDoor { at: Point, destination: u8 },
    /// The upper half of a door, purely visual.
    DoorTop { at: Point },
    /// The sign beside a door, purely visual.
    ExitSign { at: Point },
    /// A moving platform.
    Elevator(ElevatorBody),
}

} // verus!
