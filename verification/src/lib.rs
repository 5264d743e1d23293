//! Conway's Game of Life on a bounded grid, driven by a fixed-timestep
//! scheduler.
//!
//! Cells outside the grid count as dead; there is no wraparound. Every
//! generation is computed in full from the generation before it. Time is
//! counted in whole microseconds, so the number of generations that a stretch
//! of time produces does not depend on how that time is cut into frames.

pub mod color;
pub mod config;
pub mod error;
pub mod grid;
pub mod lifeforms;
pub mod pattern;
pub mod render;
pub mod rules;
pub mod scheduler;
pub mod simulation;
pub mod vector;

pub use color::Rgba;
pub use config::Config;
pub use error::SimError;
pub use grid::Grid;
pub use pattern::{stamp, Pattern};
pub use render::{cell_rect, draw_cells, CellRect};
pub use rules::{
    cell_rule, get_cell_next_state, get_grid_next_state, get_num_of_living_neighbors,
    next_generation, update_cells,
};
pub use scheduler::{Scheduler, MICROS_PER_SECOND};
pub use simulation::Simulation;
