//! Paging of a large height field through a small, fixed-topology terrain
//! window, together with the ribbon mesher that triangulates point grids.

pub mod arc_length;
pub mod decode;
pub mod field;
pub mod geometry;
pub mod grid;
pub mod ribbon;
pub mod terrain;
pub mod torus;
pub mod window;
pub mod wireframe;
