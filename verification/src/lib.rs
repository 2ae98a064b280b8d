//! The discrete core of a simulation of the solar system: the clock, the
//! settings, the recorded trajectories with their closure detection, the
//! comets with their colors and numbers, and the bookkeeping of a tick.
//!
//! All of it is verified with Verus. The physical quantities themselves,
//! masses, positions and velocities, are real numbers; the library carries
//! them through as values of the type parameters `C` (constants), `V`
//! (velocity) and `P` (position) and never looks inside. What is worked out
//! from them, the steps of the bodies and the overlaps of their circles,
//! is handed to the library as plain values.
use vstd::prelude::*;

pub mod color;
pub mod comets;
pub mod data;
pub mod decimal;
pub mod input;
pub mod movement;
pub mod objects;
pub mod palette;
pub mod random;
pub mod redraw;
pub mod settings;
pub mod setup;
pub mod slots;
pub mod space;
pub mod state;
pub mod time;
pub mod trajectory;
