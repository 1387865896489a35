//! Levels of a 2D platformer: the world description, how a level is laid
//! out as tiles, colliders, exits and elevators, the director that moves
//! between levels, the elevators' phase machine and the player's per-frame
//! decisions. Distances are fixed-point, in thousandths of a tile.

pub mod elevator;
pub mod entity;
pub mod floor;
pub mod level;
pub mod player;
pub mod world;
