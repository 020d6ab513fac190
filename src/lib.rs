//! Safe building blocks around a native mixed-integer solver.
//!
//! - [`model`]: variables, linear expressions, constraints and an objective.
//! - [`problem`]: compilation of a model into the arrays of the native bulk
//!   load, and the choice of optimizer for a problem type.
//! - [`param`]: typed parameter keys and how their values cross the boundary.
//! - [`callback`]: registered closures, the replies told to the solver, and
//!   cuts.
//! - [`handle`]: ownership of native handles, released at most once.
//! - [`error`]: the error type of every fallible operation.
//! - [`scalar`]: doubles carried as their bit patterns.
use vstd::prelude::*;

pub mod callback;
pub mod error;
pub mod handle;
pub mod model;
pub mod param;
pub mod problem;
pub mod scalar;

pub use error::{Error, PrivateErrorConstructor};
pub use problem::{ExtractableModel, ProblemData};
pub use scalar::Real;

verus! {

} // verus!
