//! Tolerances of the mixed-integer algorithm.
use vstd::prelude::*;

use crate::param::DblParameter;

verus! {

/// Absolute gap.
pub const ABSOLUTE_GAP: DblParameter<2008> = DblParameter;

/// Linearization tolerance.
pub const LINEARIZATION: DblParameter<2068> = DblParameter;

/// Integrality tolerance.
pub const INTEGRALITY: DblParameter<2010> = DblParameter;

/// Lower cutoff.
pub const LOWER_CUTOFF: DblParameter<2006> = DblParameter;

/// Relative gap.
pub const GAP: DblParameter<2009> = DblParameter;

/// Absolute objective difference cutoff.
pub const OBJ_DIFFERENCE: DblParameter<2019> = DblParameter;

/// Relative objective difference cutoff.
pub const REL_OBJ_DIFFERENCE: DblParameter<2022> = DblParameter;

/// Upper cutoff.
pub const UPPER_CUTOFF: DblParameter<2007> = DblParameter;

} // verus!
