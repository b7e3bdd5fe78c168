//! The per-tick simulation core of a multiplayer world, in integer fixed
//! point: look direction, movement and jumping, the camera rig, the bounds
//! monitor with its recovery controller, and the spawn registry.
pub mod fixed;
pub mod geometry;
pub mod view;
pub mod controls;
pub mod movement;
pub mod jump;
pub mod spawn;
pub mod respawn;
pub mod world;
pub mod game_state;
