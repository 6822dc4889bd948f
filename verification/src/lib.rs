//! Diffusion-limited aggregation on a fixed-size grid.
//!
//! Particles are released one at a time, walk at random and attach where
//! they meet the cluster. The engine counts in integers throughout: lengths
//! in thousandths of a cell, probabilities and factors in thousandths,
//! angles in thousandths of a degree. Chance enters as draws, so every rule
//! of the engine is a function of its arguments with a contract of its own:
//!
//! - [`grid`]: the occupancy grid;
//! - [`settings`]: the parameters of a run and their ranges;
//! - [`walk`]: where a particle is released, how it steps, what the edge of
//!   the grid does to it and when it is given up;
//! - [`sticking`]: how many neighbours a particle has and with what
//!   probability it attaches;
//! - [`seed`]: the structures that a run starts from;
//! - [`simulation`]: the engine that owns the grid and runs the steps;
//! - [`analysis`]: the estimate of the fractal dimension of the cluster;
//! - [`fixed`]: the arithmetic underneath;
//! - [`random`]: the source of the draws;
//! - [`braille`], [`color`], [`theme`], [`ui`]: what a front end needs to
//!   show a run.

pub mod analysis;
pub mod braille;
pub mod color;
pub mod fixed;
pub mod grid;
pub mod random;
pub mod seed;
pub mod settings;
pub mod simulation;
pub mod sticking;
pub mod theme;
pub mod ui;
pub mod walk;
