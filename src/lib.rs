//! Ownership- and layout-adaptation layer between strided matrices and a
//! column-major dense eigen-solver with a two-phase workspace protocol.

pub mod error;
pub mod flags;
pub mod array;
pub mod out;
pub mod buffers;
pub mod syev;
pub mod laws;
