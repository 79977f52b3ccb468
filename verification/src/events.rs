//! The records that the collision engine sends to the rest of the game.

use vstd::prelude::*;

verus! {

/// Handle of a game object: a slot and the generation of its occupant.
#[derive(Clone, Copy, Debug, PartialEq, Eq, Structural)]
pub struct Entity {
    pub id: u32,
    pub gen: i32,
}

/// A ball touched the block `entity`.
#[derive(Clone, Copy, Debug, PartialEq, Eq, Structural)]
pub struct BlockCollisionEvent {
    pub entity: Entity,
}

/// A ball reached the bottom of the arena.
#[derive(Clone, Copy, Debug, PartialEq, Eq, Structural)]
pub struct LifeEvent;

/// The score changes by `score` points.
#[derive(Clone, Copy, Debug, PartialEq, Eq, Structural)]
pub struct ScoreEvent {
    pub score: i32,
}

/// A ball bounced off the paddle or the blocks at `collision_time`, which is
/// the time of the tick as the caller's clock counts it.
#[derive(Clone, Copy, Debug, PartialEq, Eq, Structural)]
pub struct StopBallAttractionEvent {
    pub collision_time: u64,
}

/// Points taken for a lost life.
pub const LIFE_LOST_SCORE: i32 = -1000;

/// Points given for each block that a ball touches.
pub const BLOCK_HIT_SCORE: i32 = 50;

} // verus!
