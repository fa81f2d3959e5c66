//! GPU-style iterative linear-solver engine for a 2D implicit heat equation.
//!
//! The solver is organised as a set of compute kernels (sparse matrix-vector
//! multiply, dot product by parallel reduction, vector updates) that are
//! chained into per-step command schedules by a Conjugate Gradient
//! orchestrator and a time-step driver.  This crate holds the verified core:
//! the sparse-matrix encoding, the dispatch-size arithmetic, the exact order
//! of every kernel dispatch in a step, and the ping-pong buffer discipline.
//! The schedules are plain data; a host program plays them against a real
//! compute device.
use vstd::prelude::*;

pub mod buffers;
pub mod compute;
pub mod conjugate_gradient;
pub mod dia_matrix;
pub mod directional_bind_group;
pub mod heat_equation;
pub mod kernels;
pub mod model;

verus! {

/// Ceiling division over mathematical integers.
pub open spec fn div_ceil(a: int, b: int) -> int {
    (a + b - 1) / b
}

} // verus!
