//! Elementwise products of two sequences of 32-bit words, computed on the CPU
//! or planned for a compute device.
//!
//! The CPU strategy computes the product itself. For the device strategy the
//! library decides every step of a run (what to ask of the device next, which
//! error ends the run, how large the buffers and the dispatch are) and leaves
//! only the device calls to the host program.

pub mod error;
pub mod dot_product;
pub mod gpu;
