//! Core of a tile-based 2D platformer: a static tile grid with geometry
//! queries, per-entity motion state and bounding boxes, an axis-sequential
//! collision resolver against the grid, and an input-to-velocity mapper.
//!
//! All world coordinates are whole world units (`i64`); elapsed time and the
//! diagonal speed factor are exact rationals, so every step of the simulation
//! is deterministic integer arithmetic.

pub mod components;
pub mod geom;
pub mod resources;
pub mod systems;
