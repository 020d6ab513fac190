//! Parameters of the mixed-integer algorithm.
use vstd::prelude::*;

use crate::param::{IntParameter, LongParameter};

pub mod cuts;
pub mod tolerances;

verus! {

/// Level of the progress display.
pub const DISPLAY: IntParameter<2012> = IntParameter;

/// Interval between progress lines.
pub const INTERVAL: LongParameter<2013> = LongParameter;

} // verus!
