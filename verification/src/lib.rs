//! Simulation core of a small 3D arcade-style game.
//!
//! The crate advances game state one frame at a time: physics integration,
//! axis-aligned bounding-box collision detection, damage resolution,
//! despawning at the world boundary, and the input-driven gameplay systems
//! (shooting, thrusters, transform editing, pulsating scale animation and
//! camera control). Entities are integer handles; each component type lives
//! in its own storage inside [`world::World`], and entity deletions requested
//! during a frame are buffered and applied at a single maintenance point.
//!
//! All coordinates, velocities and sizes are signed integers in fixed world
//! units, and orientations are integer column matrices, so every system is
//! exact and deterministic. Rendering, window input and mesh parsing are
//! outside collaborators: the core only receives their events as plain values
//! (see [`events`]) and exposes transform and shape data for them to read.

pub mod collisions;
pub mod components;
pub mod consts;
pub mod data;
pub mod dispatcher;
pub mod events;
pub mod laws;
pub mod math;
pub mod mesh;
pub mod model;
pub mod systems;
pub mod world;
pub mod world_api;
