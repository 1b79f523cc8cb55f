//! A discrete 2-D geometry toolkit: a generic grid container with row-major
//! addressing, and rasterized shapes (line, circle, rectangle) that enumerate
//! the integer lattice points they cover.
#![allow(clippy::module_inception)]

pub mod direction;
pub mod grid;
pub mod grid_shapes;
pub mod lattice;
pub mod random;
pub mod save_load;
pub mod text;
