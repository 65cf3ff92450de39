//! Procedural terrain: a fractal noise field and the coloured triangle mesh
//! built from it.
//!
//! A generation run takes a set of parameters and a noise primitive. It draws
//! one offset for each octave from a generator seeded by the parameters, adds
//! up the octaves of the primitive for every cell of a grid, and rescales the
//! heights onto the unit interval. The mesher turns such a field into
//! vertices, coloured by height band and flattened at sea level, and into
//! triangles over them.
//!
//! Real quantities are fixed-point numbers throughout: see [`fixed`].

pub mod biome;
pub mod field;
pub mod fixed;
pub mod keyboard_handler;
pub mod noise;
pub mod offsets;
pub mod polygon_mode;
pub mod preview;
pub mod terrain;
