//! A gravitational N-body simulation and the bookkeeping that a renderer
//! needs to draw it.
//!
//! The library is generic over the numeric types. `M` is the scalar in which
//! masses are measured, `X` is the vector in which positions and velocities
//! are measured, and `S` is the scalar in which steps are measured. The
//! operations on them are supplied by the caller as closures, and every
//! contract here is stated over what those closures return; so it holds for
//! whatever arithmetic is plugged in.

pub mod engine;
pub mod ids;
pub mod input;
pub mod sim;
