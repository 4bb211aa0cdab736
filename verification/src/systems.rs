//! The per-frame systems, each a function from world model to world model,
//! proved against its specification.

pub mod camera_system;
pub mod collision_detector_3;
pub mod damage_system;
pub mod despawn_system;
pub mod physics_system;
pub mod pulsate_system;
pub mod shoot_system;
pub mod thruster_system;
pub mod transformations_system;
