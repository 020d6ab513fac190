//! Parameters of the tuning tool.
use vstd::prelude::*;

use crate::param::{DblParameter, IntParameter};

verus! {

/// Deterministic time limit per tuning run.
pub const DET_TIME_LIMIT: DblParameter<1139> = DblParameter;

/// Level of the tuning display.
pub const DISPLAY: IntParameter<1113> = IntParameter;

/// Measure of tuning over several problems.
pub const MEASURE: IntParameter<1110> = IntParameter;

/// Number of repetitions.
pub const REPEAT: IntParameter<1111> = IntParameter;

/// Time limit per tuning run.
pub const TIME_LIMIT: DblParameter<1112> = DblParameter;

} // verus!
