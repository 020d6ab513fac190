//! Parameters of presolve and preprocessing.
use vstd::prelude::*;

use crate::param::{BoolParameter, IntParameter, LongParameter};

verus! {

/// Aggregator application limit.
pub const AGGREGATOR: IntParameter<1003> = IntParameter;

/// Bound strengthening.
pub const BOUND_STRENGTH: IntParameter<2029> = IntParameter;

/// Coefficient reduction.
pub const COEF_REDUCE: IntParameter<2004> = IntParameter;

/// Dependency checker.
pub const DEPENDENCY: IntParameter<1008> = IntParameter;

/// Presolve on the dual.
pub const DUAL: IntParameter<1044> = IntParameter;

/// Aggregator fill limit.
pub const FILL: LongParameter<1002> = LongParameter;

/// Linear reductions.
pub const LINEAR: IntParameter<1058> = IntParameter;

/// Number of presolve passes.
pub const NUM_PASS: IntParameter<1052> = IntParameter;

/// Presolve switch.
pub const PRESOLVE: BoolParameter<1030> = BoolParameter;

/// Duals of quadratically constrained problems.
pub const QCP_DUALS: IntParameter<4003> = IntParameter;

/// Make quadratic objectives positive semi-definite.
pub const QP_MAKE_PSD: BoolParameter<4010> = BoolParameter;

/// Primal and dual reductions.
pub const REDUCE: IntParameter<1057> = IntParameter;

/// Presolve of the root relaxation.
pub const RELAX: IntParameter<2034> = IntParameter;

/// Repeated presolve.
pub const REPEAT_PRESOLVE: IntParameter<2064> = IntParameter;

/// Symmetry breaking.
pub const SYMMETRY: IntParameter<2059> = IntParameter;

} // verus!
