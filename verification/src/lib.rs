//! Rule layer of a 2D lunar-lander arcade game.
//!
//! The library states and verifies the game's decision logic: round state
//! transitions, menu navigation, the ready-to-land velocity gate, collision
//! classification, thrust and fuel accounting, the landing score formula with
//! its fuel refill and gravity ramp, platform proximity, and the folding of
//! landscape path commands into collider vertices.
//!
//! Physical quantities are carried as fixed-point integers in thousandths of
//! a world unit (a velocity of `-12.5` units per second is `-12500`), so that
//! every rule is stated and proved exactly. The engine-facing shell converts
//! at the boundary.

pub mod camera;
pub mod collider;
pub mod fixed;
pub mod game;
pub mod landscape;
pub mod menu;
pub mod movement;
pub mod spaceship;
pub mod speedometer;
pub mod state;
pub mod text;
