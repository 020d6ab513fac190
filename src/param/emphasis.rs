//! Parameters that set the emphasis of the algorithms.
use vstd::prelude::*;

use crate::param::{BoolParameter, IntParameter};

verus! {

/// Conserve memory where possible.
pub const MEMORY: BoolParameter<1082> = BoolParameter;

/// Emphasis of the mixed-integer search.
pub const MIP: IntParameter<2058> = IntParameter;

/// Emphasis on numerical precision.
pub const NUMERICAL: BoolParameter<1083> = BoolParameter;

} // verus!
