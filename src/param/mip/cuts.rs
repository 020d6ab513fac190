//! Parameters of the cut generators.
use vstd::prelude::*;

use crate::param::IntParameter;

verus! {

/// Clique cuts.
pub const CLIQUES: IntParameter<2003> = IntParameter;

/// Cover cuts.
pub const COVERS: IntParameter<2005> = IntParameter;

/// Disjunctive cuts.
pub const DISJUNCITVE: IntParameter<2053> = IntParameter;

/// Flow cover cuts.
pub const FLOW_COVERS: IntParameter<2040> = IntParameter;

/// Gomory fractional cuts.
pub const GOMORY: IntParameter<2049> = IntParameter;

/// GUB cover cuts.
pub const GUB_COVERS: IntParameter<2044> = IntParameter;

/// Implied bound cuts.
pub const IMPLIED: IntParameter<2041> = IntParameter;

/// Lift-and-project cuts.
pub const LIFT_PROJ: IntParameter<2152> = IntParameter;

/// Multi-commodity flow cuts.
pub const MCF_CUT: IntParameter<2134> = IntParameter;

/// Mixed-integer rounding cuts.
pub const MIR_CUT: IntParameter<2052> = IntParameter;

/// Flow path cuts.
pub const PATH_CUT: IntParameter<2051> = IntParameter;

/// Zero-half cuts.
pub const ZERO_HALF_CUT: IntParameter<2111> = IntParameter;

} // verus!
