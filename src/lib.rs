//! The core of a compass-and-straightedge construction tool: a session engine
//! that collects clicked points, turns them into shapes with the selected
//! tool, caches where each new shape meets the earlier ones, snaps clicks to
//! those points, and undoes and redoes steps.
//!
//! Coordinates, radii, angles and widths are single-precision IEEE 754
//! numbers held as their bit patterns; `float` compares them as numbers.

pub mod config;
pub mod engine;
pub mod float;
pub mod shapes;
pub mod tools;
pub mod window;
