//! Simulation core of a small side-scrolling arcade game: a bird falls
//! under gravity, flaps upward on player input, and must slip through a
//! stream of procedurally placed pipe columns without touching them or the
//! ground, while the game moves through menu, playing, and game-over
//! phases.
//!
//! The library owns the whole per-frame simulation: entity kinematics,
//! axis-aligned bounding-box collision, the phase state machine, and the
//! computation of the sprite draw list. Everything is stated over
//! fixed-point scalars (thousandths of a unit), so every contract is exact.
//! Windowing, rasterization, texture decoding, and audio live outside the
//! library and only exchange plain values with it.

pub mod background;
pub mod bird;
pub mod driver;
pub mod fixed;
pub mod gamestate;
pub mod ground;
pub mod pipes;
pub mod render;
pub mod ui;
pub mod util;
