//! Collision rules of a breakout game: what a ball does when it meets a wall,
//! the paddle or the blocks, which events that raises, and how lost lives are
//! counted.
//!
//! The library decides; it does not measure. Where a ball is, and what it
//! overlaps, is reported to it as plain facts in a [`BallContact`]; what the
//! ball has to do about it comes back as a [`BallResponse`], and the events go
//! out on `shrev` channels.

pub mod channel;
pub mod collision;
pub mod contact;
pub mod events;
pub mod life;
pub mod menu;

pub use collision::{CollisionSystem, TickEvents};
pub use contact::{BallContact, BallResponse, Turn};
pub use events::{BlockCollisionEvent, Entity, LifeEvent, ScoreEvent, StopBallAttractionEvent};
pub use life::{Game, GameEvent, LifeSystem};
pub use menu::{LevelCompleteState, MainMenuState, MenuKey, MenuTrans, PausedState, Screen};
