//! Typed solver parameters.
//!
//! A parameter is an integer key of the native library tagged with the kind of
//! value it takes. The tag decides, at compile time, which values can be set,
//! and how a value crosses the native boundary: booleans travel as the integers
//! `0` and `1`.
use vstd::prelude::*;

use crate::scalar::Real;

pub mod emphasis;
pub mod mip;
pub mod preprocessing;
pub mod read;
pub mod tune;

verus! {

/// Type for integer parameters; `KEY` is the native key.
#[derive(Clone, Copy, Debug)]
pub struct IntParameter<const KEY: u32>;

/// Type for long integer parameters.
#[derive(Clone, Copy, Debug)]
pub struct LongParameter<const KEY: u32>;

/// Type for boolean parameters.
#[derive(Clone, Copy, Debug)]
pub struct BoolParameter<const KEY: u32>;

/// Type for double-precision parameters.
#[derive(Clone, Copy, Debug)]
pub struct DblParameter<const KEY: u32>;

/// Type for string parameters.
#[derive(Clone, Copy, Debug)]
pub struct StrParameter<const KEY: u32>;

/// Advanced start indicator.
pub const ADVANCE: IntParameter<1001> = IntParameter;

/// Clock type for computation times.
pub const CLOCK_TYPE: IntParameter<1006> = IntParameter;

/// Number of threads.
pub const THREADS: IntParameter<1067> = IntParameter;

/// Time limit in seconds.
pub const TIME_LIMIT: DblParameter<1039> = DblParameter;

/// Directory for working files.
pub const WORK_DIR: StrParameter<1064> = StrParameter;

/// Memory available for working storage, in megabytes.
pub const WORK_MEM: DblParameter<1065> = DblParameter;

/// Messages to the screen.
pub const SCREEN_OUTPUT: BoolParameter<1035> = BoolParameter;

/// Encoding of the strings exchanged with the native library.
pub const API_ENCODING: StrParameter<1130> = StrParameter;

/// Kind of value that a parameter takes.
#[derive(Clone, Copy, PartialEq, Eq, Structural, Debug)]
pub enum ParamKind {
    Int,
    Long,
    Bool,
    Dbl,
    Str,
}

/// A parameter value as it crosses the native boundary.
#[derive(Debug)]
pub enum WireValue {
    Int(i32),
    Long(i64),
    Dbl(Real),
    Str(String),
}

/// View of a wire value.
pub enum WireData {
    Int(i32),
    Long(i64),
    Dbl(Real),
    Str(Seq<char>),
}

impl View for WireValue {
    type V = WireData;

    open spec fn view(&self) -> WireData {
        match self {
            WireValue::Int(x) => WireData::Int(*x),
            WireValue::Long(x) => WireData::Long(*x),
            WireValue::Dbl(x) => WireData::Dbl(*x),
            WireValue::Str(s) => WireData::Str(s@),
        }
    }
}

/// A parameter value as its user sees it.
pub enum ParamData {
    Int(i32),
    Long(i64),
    Bool(bool),
    Dbl(Real),
    Str(Seq<char>),
}

/// The kind of a parameter value.
pub open spec fn kind_of(d: ParamData) -> ParamKind {
    match d {
        ParamData::Int(_) => ParamKind::Int,
        ParamData::Long(_) => ParamKind::Long,
        ParamData::Bool(_) => ParamKind::Bool,
        ParamData::Dbl(_) => ParamKind::Dbl,
        ParamData::Str(_) => ParamKind::Str,
    }
}

/// What is sent to the native library to set a parameter to `d`.
pub open spec fn wire_of(d: ParamData) -> WireData {
    match d {
        ParamData::Int(x) => WireData::Int(x),
        ParamData::Long(x) => WireData::Long(x),
        ParamData::Bool(b) => WireData::Int(if b { 1i32 } else { 0i32 }),
        ParamData::Dbl(x) => WireData::Dbl(x),
        ParamData::Str(s) => WireData::Str(s),
    }
}

/// The value of a parameter of kind `k` that the native library reports as
/// `w`; none if `w` is not of the wire form of `k`.
pub open spec fn read_of(k: ParamKind, w: WireData) -> Option<ParamData> {
    match (k, w) {
        (ParamKind::Int, WireData::Int(x)) => Some(ParamData::Int(x)),
        (ParamKind::Long, WireData::Long(x)) => Some(ParamData::Long(x)),
        (ParamKind::Bool, WireData::Int(x)) => Some(ParamData::Bool(x == 1)),
        (ParamKind::Dbl, WireData::Dbl(x)) => Some(ParamData::Dbl(x)),
        (ParamKind::Str, WireData::Str(s)) => Some(ParamData::Str(s)),
        _ => None,
    }
}

/// Reading back what was sent to set a parameter gives the value that was set.
pub proof fn lemma_wire_round_trip(d: ParamData)
    ensures
        read_of(kind_of(d), wire_of(d)) == Some(d),
{
}

/// Common trait for all parameters.
pub trait ParameterType: Sized {
    /// Type of the parameter's value, for the setter.
    type InType;

    /// Type of the parameter's value, for the getter.
    type ReturnType;

    spec fn spec_key(&self) -> i32;

    spec fn spec_kind() -> ParamKind;

    /// A value of the setter as parameter data.
    spec fn in_data(v: Self::InType) -> ParamData;

    /// A value of the getter as parameter data.
    spec fn ret_data(v: Self::ReturnType) -> ParamData;

    /// Values of the setter are of the parameter's kind.
    proof fn lemma_in_kind(v: Self::InType)
        ensures
            kind_of(Self::in_data(v)) == Self::spec_kind(),
    ;

    /// The native key of the parameter.
    fn key(&self) -> (r: i32)
        ensures
            r == self.spec_key(),
    ;

    /// The kind of value the parameter takes.
    fn kind(&self) -> (r: ParamKind)
        ensures
            r == Self::spec_kind(),
    ;

    /// What to send to the native library to set the parameter to `value`.
    fn to_wire(&self, value: Self::InType) -> (w: WireValue)
        ensures
            w@ == wire_of(Self::in_data(value)),
    ;

    /// The value that the native library reports as `w`; none if `w` is not
    /// of the wire form of the parameter's kind.
    fn from_wire(&self, w: WireValue) -> (r: Option<Self::ReturnType>)
        ensures
            match r {
                Some(x) => read_of(Self::spec_kind(), w@) == Some(Self::ret_data(x)),
                None => read_of(Self::spec_kind(), w@) is None,
            },
    ;
}

/// Setting a parameter and reading back what was sent gives the value set.
pub proof fn lemma_parameter_round_trip<P: ParameterType>(v: P::InType)
    ensures
        read_of(P::spec_kind(), wire_of(P::in_data(v))) == Some(P::in_data(v)),
{
    P::lemma_in_kind(v);
    lemma_wire_round_trip(P::in_data(v));
}

impl<const KEY: u32> ParameterType for IntParameter<KEY> {
    type InType = i32;

    type ReturnType = i32;

    open spec fn spec_key(&self) -> i32 {
        KEY as i32
    }

    open spec fn spec_kind() -> ParamKind {
        ParamKind::Int
    }

    open spec fn in_data(v: i32) -> ParamData {
        ParamData::Int(v)
    }

    open spec fn ret_data(v: i32) -> ParamData {
        ParamData::Int(v)
    }

    proof fn lemma_in_kind(v: i32) {
    }

    fn key(&self) -> (r: i32) {
        KEY as i32
    }

    fn kind(&self) -> (r: ParamKind) {
        ParamKind::Int
    }

    fn to_wire(&self, value: i32) -> (w: WireValue) {
        WireValue::Int(value)
    }

    fn from_wire(&self, w: WireValue) -> (r: Option<i32>) {
        match w {
            WireValue::Int(x) => Some(x),
            _ => None,
        }
    }
}

impl<const KEY: u32> ParameterType for LongParameter<KEY> {
    type InType = i64;

    type ReturnType = i64;

    open spec fn spec_key(&self) -> i32 {
        KEY as i32
    }

    open spec fn spec_kind() -> ParamKind {
        ParamKind::Long
    }

    open spec fn in_data(v: i64) -> ParamData {
        ParamData::Long(v)
    }

    open spec fn ret_data(v: i64) -> ParamData {
        ParamData::Long(v)
    }

    proof fn lemma_in_kind(v: i64) {
    }

    fn key(&self) -> (r: i32) {
        KEY as i32
    }

    fn kind(&self) -> (r: ParamKind) {
        ParamKind::Long
    }

    fn to_wire(&self, value: i64) -> (w: WireValue) {
        WireValue::Long(value)
    }

    fn from_wire(&self, w: WireValue) -> (r: Option<i64>) {
        match w {
            WireValue::Long(x) => Some(x),
            _ => None,
        }
    }
}

impl<const KEY: u32> ParameterType for BoolParameter<KEY> {
    type InType = bool;

    type ReturnType = bool;

    open spec fn spec_key(&self) -> i32 {
        KEY as i32
    }

    open spec fn spec_kind() -> ParamKind {
        ParamKind::Bool
    }

    open spec fn in_data(v: bool) -> ParamData {
        ParamData::Bool(v)
    }

    open spec fn ret_data(v: bool) -> ParamData {
        ParamData::Bool(v)
    }

    proof fn lemma_in_kind(v: bool) {
    }

    fn key(&self) -> (r: i32) {
        KEY as i32
    }

    fn kind(&self) -> (r: ParamKind) {
        ParamKind::Bool
    }

    fn to_wire(&self, value: bool) -> (w: WireValue) {
        WireValue::Int(
            if value {
                1
            } else {
                0
            },
        )
    }

    fn from_wire(&self, w: WireValue) -> (r: Option<bool>) {
        match w {
            WireValue::Int(x) => Some(x == 1),
            _ => None,
        }
    }
}

impl<const KEY: u32> ParameterType for DblParameter<KEY> {
    type InType = Real;

    type ReturnType = Real;

    open spec fn spec_key(&self) -> i32 {
        KEY as i32
    }

    open spec fn spec_kind() -> ParamKind {
        ParamKind::Dbl
    }

    open spec fn in_data(v: Real) -> ParamData {
        ParamData::Dbl(v)
    }

    open spec fn ret_data(v: Real) -> ParamData {
        ParamData::Dbl(v)
    }

    proof fn lemma_in_kind(v: Real) {
    }

    fn key(&self) -> (r: i32) {
        KEY as i32
    }

    fn kind(&self) -> (r: ParamKind) {
        ParamKind::Dbl
    }

    fn to_wire(&self, value: Real) -> (w: WireValue) {
        WireValue::Dbl(value)
    }

    fn from_wire(&self, w: WireValue) -> (r: Option<Real>) {
        match w {
            WireValue::Dbl(x) => Some(x),
            _ => None,
        }
    }
}

impl<const KEY: u32> ParameterType for StrParameter<KEY> {
    type InType = &'static str;

    type ReturnType = String;

    open spec fn spec_key(&self) -> i32 {
        KEY as i32
    }

    open spec fn spec_kind() -> ParamKind {
        ParamKind::Str
    }

    open spec fn in_data(v: &'static str) -> ParamData {
        ParamData::Str(v@)
    }

    open spec fn ret_data(v: String) -> ParamData {
        ParamData::Str(v@)
    }

    proof fn lemma_in_kind(v: &'static str) {
    }

    fn key(&self) -> (r: i32) {
        KEY as i32
    }

    fn kind(&self) -> (r: ParamKind) {
        ParamKind::Str
    }

    fn to_wire(&self, value: &'static str) -> (w: WireValue) {
        WireValue::Str(value.to_owned())
    }

    fn from_wire(&self, w: WireValue) -> (r: Option<String>) {
        match w {
            WireValue::Str(s) => Some(s),
            _ => None,
        }
    }
}

} // verus!
