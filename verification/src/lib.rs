//! Game rules of a 2D platform brawler: countdown timers, hit points,
//! the ground-enemy behaviour state machine, melee resolution, enemy
//! spawning budgets, player movement, run scoring and screen transitions.

pub mod combat;
pub mod enemy;
pub mod health;
pub mod motion;
pub mod player;
pub mod screens;
pub mod timer;
