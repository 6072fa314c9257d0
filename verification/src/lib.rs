//! A 2D Material Point Method (MPM) fluid solver with verified transfer
//! and spatial-indexing logic.
//!
//! Particle state (position, velocity, deformation) advances through a
//! sparse background grid using affine (APIC/MLS-MPM) transfers, with an
//! optional position-based constraint pass for incompressibility. All
//! scalar quantities are fixed-point numbers ([`fixed::Fx`]) so that every
//! arithmetic step has an exact mathematical specification; in particular
//! the interpolation kernel's partition of unity and the conservation of
//! mass by the particle-to-grid scatter hold as exact integer identities.

pub mod compact;
pub mod coords;
pub mod fixed;
pub mod grid;
pub mod kernel;
pub mod linalg;
pub mod materials;
pub mod params;
pub mod particle;
pub mod particle_set;
pub mod pbmpm;
pub mod solver;
pub mod sorting;
pub mod state;
