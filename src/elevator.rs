//! Moving platforms: how one is spawned and the phase machine that drives
//! it back and forth each frame.
use vstd::prelude::*;
use crate::entity::{Elevator, ElevatorBody, Spawned, State};
use crate::world::{ElevatorDefinition, Point};

verus! {

pub const ELEVATOR_LEFT_SPRITE_INDEX: usize = 13;

pub const ELEVATOR_RIGHT_SPRITE_INDEX: usize = 110;

/// The width of an elevator's body.
pub const ELEVATOR_WIDTH: i64 = 2000;

/// The speed of an elevator, per second.
pub const ELEVATOR_SPEED: i64 = 5500;

/// The per-frame step of every elevator of the active level.
pub struct ElevatorPlugin;

/// Whether travelling forward increases the height.
pub open spec fn forward_positive(e: Elevator) -> bool {
    e.end_y >= e.start.y
}

/// The phase after a frame in which the elevator's center is at height `y`.
pub open spec fn next_state(e: Elevator, s: State, y: i64) -> State {
    match s {
        State::MovingForward => if (forward_positive(e) && e.end_y <= y) || e.end_y >= y {
            State::MovingBackward
        } else {
            State::MovingForward
        },
        State::MovingBackward => if (forward_positive(e) && e.start.y >= y) || e.end_y <= y {
            State::MovingForward
        } else {
            State::MovingBackward
        },
        State::Stopped => State::Stopped,
    }
}

/// The velocity asked for in phase `s`: vertical, at the elevator speed,
/// reversed when moving backward and again when forward goes down.
pub open spec fn velocity_for(e: Elevator, s: State) -> Point {
    let multiplier: int = match s {
        State::MovingForward => 1,
        State::MovingBackward => -1,
        State::Stopped => 0,
    };
    let sign: int = if forward_positive(e) { 1 } else { -1 };
    Point { x: 0, y: (ELEVATOR_SPEED * multiplier * sign) as i64 }
}

/// An elevator after one frame: its phase moved on and its velocity set.
pub open spec fn stepped(b: ElevatorBody) -> ElevatorBody {
    let s = next_state(b.elevator, b.state, b.position.y);
    ElevatorBody { state: s, velocity: velocity_for(b.elevator, s), ..b }
}

/// A spawned object after one frame: elevators step, the rest stay.
pub open spec fn updated(s: Spawned) -> Spawned {
    match s {
        Spawned::Elevator(b) => Spawned::Elevator(stepped(b)),
        _ => s,
    }
}

/// The elevator spawned for a definition: at rest, moving forward, its body
/// two tiles wide with its left edge at the start location.
pub open spec fn elevator_spawn(d: ElevatorDefinition) -> Spawned {
    Spawned::Elevator(
        ElevatorBody {
            elevator: Elevator { start: d.start_location, end_y: d.end_y },
            state: State::MovingForward,
            position: Point {
                x: (d.start_location.x + ELEVATOR_WIDTH / 2) as i64,
                y: d.start_location.y,
            },
            velocity: Point { x: 0, y: 0 },
        },
    )
}

/// Appends the elevator of `elevator` to `children`.
pub fn setup(children: &mut Vec<Spawned>, elevator: &ElevatorDefinition)
    requires
        elevator.wf(),
    ensures
        final(children)@ == old(children)@.push(elevator_spawn(*elevator)),
{
    let body = ElevatorBody {
        elevator: Elevator { start: elevator.start_location, end_y: elevator.end_y },
        state: State::MovingForward,
        position: Point {
            x: elevator.start_location.x + ELEVATOR_WIDTH / 2,
            y: elevator.start_location.y,
        },
        velocity: Point { x: 0, y: 0 },
    };
    children.push(Spawned::Elevator(body));
}

/// The phase after a frame in which the elevator's center is at height `y`.
pub fn next_phase(elevator: &Elevator, state: State, y: i64) -> (r: State)
    ensures
        r == next_state(*elevator, state, y),
{
    let is_forward_positive = elevator.end_y >= elevator.start.y;
    match state {
        State::MovingForward => {
            if is_forward_positive && elevator.end_y <= y || elevator.end_y >= y {
                State::MovingBackward
            } else {
                State::MovingForward
            }
        },
        State::MovingBackward => {
            if is_forward_positive && elevator.start.y >= y || elevator.end_y <= y {
                State::MovingForward
            } else {
                State::MovingBackward
            }
        },
        State::Stopped => State::Stopped,
    }
}

/// The velocity an elevator asks for in phase `state`.
pub fn velocity(elevator: &Elevator, state: State) -> (r: Point)
    ensures
        r == velocity_for(*elevator, state),
{
    let multiplier: i64 = match state {
        State::MovingForward => 1,
        State::MovingBackward => -1,
        State::Stopped => 0,
    };
    let sign: i64 = if elevator.end_y >= elevator.start.y {
        1
    } else {
        -1
    };
    Point { x: 0, y: ELEVATOR_SPEED * multiplier * sign }
}

/// Moves every elevator among `children` on by one frame.
pub fn update(children: &mut Vec<Spawned>)
    ensures
        final(children)@.len() == old(children)@.len(),
        forall|i: int|
            0 <= i < old(children)@.len() ==> #[trigger] final(children)@[i] == updated(
                old(children)@[i],
            ),
{
    let ghost start = old(children)@;
    let mut i: usize = 0;
    while i < children.len()
        invariant
            0 <= i <= children@.len(),
            children@.len() == start.len(),
            forall|j: int| 0 <= j < i ==> #[trigger] children@[j] == updated(start[j]),
            forall|j: int| i <= j < children@.len() ==> #[trigger] children@[j] == start[j],
        decreases children@.len() - i,
    {
        let current = children[i];
        match current {
            Spawned::Elevator(body) => {
                let state = next_phase(&body.elevator, body.state, body.position.y);
                let vel = velocity(&body.elevator, state);
                let next = ElevatorBody { state, velocity: vel, ..body };
                children.set(i, Spawned::Elevator(next));
            },
            _ => {},
        }
        i = i + 1;
    }
}

/// Going forward upward, an elevator at or above its end height turns back.
pub proof fn lemma_turns_back_at_top(e: Elevator, y: i64)
    requires
        e.end_y > e.start.y,
        y >= e.end_y,
    ensures
        next_state(e, State::MovingForward, y) == State::MovingBackward,
{
}

/// When forward goes down, the phase rule reduces to comparisons with the
/// end height alone: moving forward turns back at or below it, moving
/// backward turns forward at or above it.
pub proof fn lemma_downward_phases(e: Elevator, y: i64)
    requires
        e.end_y < e.start.y,
    ensures
        next_state(e, State::MovingForward, y) == (if y <= e.end_y {
            State::MovingBackward
        } else {
            State::MovingForward
        }),
        next_state(e, State::MovingBackward, y) == (if y >= e.end_y {
            State::MovingForward
        } else {
            State::MovingBackward
        }),
        y >= e.start.y ==> next_state(e, State::MovingBackward, y) == State::MovingForward,
{
}

/// A stopped elevator stays stopped and asks for no velocity.
pub proof fn lemma_stopped_stays(e: Elevator, y: i64)
    ensures
        next_state(e, State::Stopped, y) == State::Stopped,
        velocity_for(e, State::Stopped) == (Point { x: 0, y: 0 }),
{
    let sign: int = if forward_positive(e) { 1 } else { -1 };
    assert(ELEVATOR_SPEED * 0 * sign == 0);
}

} // verus!
