//! Procedural terrain: a heightfield mesh over an integer grid, a slope- and
//! density-gated scatter of vegetation instances on it, and the controller that
//! decides when a generation pass runs and when its output is installed.
//!
//! All quantities are fixed-point integers. Horizontal grid coordinates are whole
//! world units; heights, translations and jitter are in thousandths of a world
//! unit; fractions (density, steepness, frequency) are in millionths.
pub mod config;
pub mod controller;
pub mod mesh;
mod rng;
pub mod scatter;
pub mod terrain;
