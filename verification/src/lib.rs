//! Deterministic server-side rigid-body physics: the verified core.
//!
//! Scalar fields (positions, rotations, velocities, masses) are IEEE 754
//! single-precision values stored by their raw bit patterns (`u32`), so the
//! discrete logic of the engine — kinematic pose synchronisation, candidate
//! pair bookkeeping, penetration constraint emission, trigger membership
//! diffing, dirty-row selection and ray-hit ordering — can be specified and
//! proved exactly, down to bit-identical copies. The floating-point kernels
//! that produce those bit patterns (integration, constraint solving, shape
//! queries) live outside this library and route every write to persistent
//! body state through the functions proved here.

pub mod body;
pub mod collider;
pub mod constraint;
pub mod error;
pub mod fmt;
pub mod kinematic;
pub mod laws;
pub mod math;
pub mod pairs;
pub mod raycast;
pub mod solvers;
pub mod tick;
pub mod triggers;
pub mod writeback;
pub mod world;
