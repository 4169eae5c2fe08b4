//! Interactive wave simulation, its verified core: the grid state and sweep
//! of the wave-equation integrator, the integer side of force injection,
//! the triangulation of the height-field mesh, the GUI layout and the
//! handling of view switches and pointer input.
//!
//! Cell values are generic: the host supplies the arithmetic of one cell
//! update and of one force share, and the library does the rest.

pub mod controls;
pub mod geometry;
pub mod gui;
pub mod impulse;
pub mod wave;
pub mod wave_sim_gui;
