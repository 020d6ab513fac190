//! Limits and options for reading problem files.
use vstd::prelude::*;

use crate::param::{BoolParameter, IntParameter, LongParameter, StrParameter};

verus! {

/// Number of constraints to read.
pub const CONSTRAINTS: IntParameter<1021> = IntParameter;

/// Check the data read.
pub const DATACHECK: BoolParameter<1056> = BoolParameter;

/// Encoding of the files read.
pub const FILE_ENCODING: StrParameter<1129> = StrParameter;

/// Number of nonzeros to read.
pub const NON_ZEROS: LongParameter<1024> = LongParameter;

/// Scaling of the problem read.
pub const SCALE: IntParameter<1034> = IntParameter;

/// Number of variables to read.
pub const VARIABLES: IntParameter<1023> = IntParameter;

} // verus!
