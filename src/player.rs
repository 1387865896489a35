//! The player's per-frame decisions: jumping, running, walking, falling off
//! the world and which way the sprite faces. Times are in milliseconds and
//! velocities in thousandths of a tile per second.
use vstd::prelude::*;
use crate::level::{PLAYER_START_X, PLAYER_START_Y};
use crate::world::Point;

verus! {

pub const SPRITE_IDX_GREEN_STAND: usize = 5;

pub const SPRITE_IDX_GREEN_WALK_0: usize = 11;

pub const SPRITE_IDX_GREEN_WALK_1: usize = 18;

pub const WALK_CYCLE_DELAY_MS: u64 = 120;

pub const RUN_CYCLE_DELAY_MS: u64 = 40;

/// How long after the run key was last held the player still runs.
pub const RUNNING_WINDOW_MS: u64 = 100;

/// How much faster running is than walking.
pub const RUNNING_FACTOR: i64 = 3;

pub const PLAYER_SPEED: i64 = 5500;

pub const JUMP_IMPULSE: i64 = 50000;

/// Below this height the player is put back at the start.
pub const RESET_HEIGHT: i64 = -200000;

/// The largest walking speed a player may have.
pub const MAX_SPEED: i64 = 1_000_000_000_000;

/// The player: its walking speed and when the run key was last held.
#[derive(Clone, Copy, Debug, PartialEq, Eq, Structural)]
pub struct Player {
    pub speed: i64,
    pub last_running_ms: u64,
}

/// The player's per-frame steps.
pub struct PlayerPlugin;

/// What can jump, with the vertical speed a jump gives and whether it is in
/// the air from a jump.
#[derive(Clone, Copy, Debug, PartialEq, Eq, Structural)]
pub struct Jumper {
    pub jump_impulse: i64,
    pub is_jumping: bool,
}

/// The way the player faces.
#[derive(Clone, Copy, Debug, PartialEq, Eq, Structural)]
pub enum Direction {
    Left,
    Right,
}

/// A contact between two bodies, named by their entity ids, starting or
/// ending.
#[derive(Clone, Copy, Debug, PartialEq, Eq, Structural)]
pub enum CollisionEvent {
    Started(u64, u64),
    Stopped(u64, u64),
}

pub open spec fn running(p: Player, now_ms: u64) -> bool {
    (now_ms as int) - (p.last_running_ms as int) < RUNNING_WINDOW_MS as int
}

impl Player {
    pub open spec fn wf(self) -> bool {
        0 <= self.speed <= MAX_SPEED
    }

    /// A player created at time `now_ms`, which has not run for a second.
    pub fn new(now_ms: u64) -> (r: Player)
        ensures
            r.speed == PLAYER_SPEED,
            r.last_running_ms == if now_ms >= 1000 { now_ms - 1000 } else { 0 },
            r.wf(),
    {
        Player { speed: PLAYER_SPEED, last_running_ms: now_ms.saturating_sub(1000) }
    }

    /// Whether the run key was held less than `RUNNING_WINDOW_MS` ago.
    pub fn is_running(&self, now_ms: u64) -> (r: bool)
        ensures
            r == running(*self, now_ms),
    {
        now_ms < self.last_running_ms || now_ms - self.last_running_ms < RUNNING_WINDOW_MS
    }
}

impl Jumper {
    pub fn new() -> (r: Jumper)
        ensures
            r.jump_impulse == JUMP_IMPULSE,
            !r.is_jumping,
    {
        Jumper { jump_impulse: JUMP_IMPULSE, is_jumping: false }
    }
}

/// With the jump key held and not already jumping, the jumper leaves the
/// ground: its vertical velocity becomes the jump impulse.
pub fn player_jumps(jump_pressed: bool, jumper: &mut Jumper, velocity: &mut Point)
    ensures
        if jump_pressed && !old(jumper).is_jumping {
            &&& *final(velocity) == (Point { x: old(velocity).x, y: old(jumper).jump_impulse })
            &&& *final(jumper) == (Jumper { is_jumping: true, ..*old(jumper) })
        } else {
            *final(velocity) == *old(velocity) && *final(jumper) == *old(jumper)
        },
{
    if jump_pressed && !jumper.is_jumping {
        *velocity = Point { x: velocity.x, y: jumper.jump_impulse };
        jumper.is_jumping = true;
    }
}

/// A contact starting that involves `entity` ends its jump.
pub fn set_jumping_false_if_touching_floor(
    entity: u64,
    jumper: &mut Jumper,
    collision_event: &CollisionEvent,
)
    ensures
        final(jumper).jump_impulse == old(jumper).jump_impulse,
        final(jumper).is_jumping == match *collision_event {
            CollisionEvent::Started(e1, e2) => if entity == e1 || entity == e2 {
                false
            } else {
                old(jumper).is_jumping
            },
            CollisionEvent::Stopped(..) => old(jumper).is_jumping,
        },
{
    if let CollisionEvent::Started(e1, e2) = collision_event {
        if entity == *e1 || entity == *e2 {
            jumper.is_jumping = false;
        }
    }
}

/// Whether `e` is a contact starting that involves `entity`.
pub open spec fn touches(entity: u64, e: CollisionEvent) -> bool {
    match e {
        CollisionEvent::Started(e1, e2) => entity == e1 || entity == e2,
        CollisionEvent::Stopped(..) => false,
    }
}

/// Ends the jump of `entity` if any of the frame's events is a contact
/// starting that involves it.
pub fn jump_reset(entity: u64, jumper: &mut Jumper, collision_events: &[CollisionEvent])
    ensures
        final(jumper).jump_impulse == old(jumper).jump_impulse,
        final(jumper).is_jumping == (old(jumper).is_jumping && !exists|i: int|
            0 <= i < collision_events@.len() && touches(entity, #[trigger] collision_events@[i])),
{
    let mut i: usize = 0;
    while i < collision_events.len()
        invariant
            0 <= i <= collision_events@.len(),
            jumper.jump_impulse == old(jumper).jump_impulse,
            jumper.is_jumping == (old(jumper).is_jumping && !exists|j: int|
                0 <= j < i && touches(entity, #[trigger] collision_events@[j])),
        decreases collision_events@.len() - i,
    {
        set_jumping_false_if_touching_floor(entity, jumper, &collision_events[i]);
        i = i + 1;
    }
}

/// A player fallen below `RESET_HEIGHT` goes back to the start, at rest.
pub fn check_reset_game(position: &mut Point, velocity: &mut Point)
    ensures
        if old(position).y < RESET_HEIGHT {
            &&& *final(position) == (Point { x: PLAYER_START_X, y: PLAYER_START_Y })
            &&& *final(velocity) == (Point { x: 0, y: 0 })
        } else {
            *final(position) == *old(position) && *final(velocity) == *old(velocity)
        },
{
    if position.y < RESET_HEIGHT {
        *position = Point { x: PLAYER_START_X, y: PLAYER_START_Y };
        *velocity = Point { x: 0, y: 0 };
    }
}

/// The horizontal speed of a player: its speed, times `RUNNING_FACTOR` while
/// running.
pub open spec fn horizontal_speed(p: Player, now_ms: u64) -> int {
    if running(p, now_ms) {
        p.speed * RUNNING_FACTOR
    } else {
        p.speed as int
    }
}

/// Holding the run key marks the player as running now; holding left or
/// right (left first) sets the horizontal velocity to the player's speed in
/// that direction.
pub fn player_movement(
    player: &mut Player,
    now_ms: u64,
    run_pressed: bool,
    left_pressed: bool,
    right_pressed: bool,
    velocity: &mut Point,
)
    requires
        old(player).wf(),
    ensures
        *final(player) == if run_pressed {
            Player { last_running_ms: now_ms, ..*old(player) }
        } else {
            *old(player)
        },
        final(velocity).y == old(velocity).y,
        final(velocity).x == if left_pressed {
            -horizontal_speed(*final(player), now_ms)
        } else if right_pressed {
            horizontal_speed(*final(player), now_ms)
        } else {
            old(velocity).x as int
        },
{
    if run_pressed {
        player.last_running_ms = now_ms;
    }
    let running_coeff: i64 = if player.is_running(now_ms) {
        RUNNING_FACTOR
    } else {
        1
    };
    if left_pressed {
        velocity.x = -(player.speed * running_coeff);
    } else if right_pressed {
        velocity.x = player.speed * running_coeff;
    }
}

/// The walk animation a player starts: while moving sideways and not
/// vertically, the frame delay of running or walking; otherwise none.
pub fn apply_movement_animation(player: &Player, now_ms: u64, velocity: &Point) -> (r: Option<u64>)
    ensures
        r == if velocity.x != 0 && velocity.y == 0 {
            Some(if running(*player, now_ms) { RUN_CYCLE_DELAY_MS } else { WALK_CYCLE_DELAY_MS })
        } else {
            None
        },
{
    if velocity.x != 0 && velocity.y == 0 {
        if player.is_running(now_ms) {
            Some(RUN_CYCLE_DELAY_MS)
        } else {
            Some(WALK_CYCLE_DELAY_MS)
        }
    } else {
        None
    }
}

/// With no horizontal velocity the player stands: the sprite becomes the
/// standing one and the result says the animation stops.
pub fn apply_idle_sprite(velocity: &Point, sprite_index: &mut usize) -> (r: bool)
    ensures
        r == (velocity.x == 0),
        *final(sprite_index) == if r { SPRITE_IDX_GREEN_STAND } else { *old(sprite_index) },
{
    if velocity.x == 0 {
        *sprite_index = SPRITE_IDX_GREEN_STAND;
        true
    } else {
        false
    }
}

/// The player faces the way it moves, and keeps facing while at rest.
pub fn update_direction(velocity: &Point, direction: &mut Direction)
    ensures
        *final(direction) == if velocity.x > 0 {
            Direction::Right
        } else if velocity.x < 0 {
            Direction::Left
        } else {
            *old(direction)
        },
{
    if velocity.x > 0 {
        *direction = Direction::Right;
    } else if velocity.x < 0 {
        *direction = Direction::Left;
    }
}

/// Whether the sprite is drawn mirrored: when facing left.
pub fn update_sprite_direction(direction: Direction) -> (flip_x: bool)
    ensures
        flip_x == (direction == Direction::Left),
{
    match direction {
        Direction::Right => false,
        Direction::Left => true,
    }
}

} // verus!
