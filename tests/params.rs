use cplex::param::{
    emphasis, mip, read, ParamKind, ParameterType, WireValue, WORK_DIR,
};
use cplex::Real;

fn r(x: f64) -> Real {
    Real::from_bits(x.to_bits())
}

#[test]
fn int_parameter_round_trip() {
    let p = mip::DISPLAY;
    assert_eq!(p.key(), 2012);
    assert_eq!(p.kind(), ParamKind::Int);
    let w = p.to_wire(3);
    assert!(matches!(w, WireValue::Int(3)));
    assert_eq!(p.from_wire(w), Some(3));
}

#[test]
fn long_parameter_round_trip() {
    let p = mip::INTERVAL;
    assert_eq!(p.kind(), ParamKind::Long);
    let w = p.to_wire(1 << 40);
    assert!(matches!(w, WireValue::Long(x) if x == 1 << 40));
    assert_eq!(p.from_wire(w), Some(1 << 40));
}

#[test]
fn double_parameter_round_trip() {
    let p = mip::tolerances::GAP;
    assert_eq!(p.key(), 2009);
    assert_eq!(p.kind(), ParamKind::Dbl);
    let back = p.from_wire(p.to_wire(r(0.01))).unwrap();
    assert!(f64::from_bits(back.to_bits()) == 0.01);
}

#[test]
fn bool_parameter_travels_as_integer() {
    let p = emphasis::NUMERICAL;
    assert_eq!(p.kind(), ParamKind::Bool);
    assert!(matches!(p.to_wire(true), WireValue::Int(1)));
    assert!(matches!(p.to_wire(false), WireValue::Int(0)));
    assert_eq!(p.from_wire(p.to_wire(true)), Some(true));
    assert_eq!(p.from_wire(p.to_wire(false)), Some(false));
    assert_eq!(p.from_wire(WireValue::Int(2)), Some(false));
}

#[test]
fn string_parameter_round_trip() {
    assert_eq!(WORK_DIR.key(), 1064);
    assert_eq!(WORK_DIR.kind(), ParamKind::Str);
    let w = WORK_DIR.to_wire("/tmp");
    assert!(matches!(&w, WireValue::Str(s) if s == "/tmp"));
    assert_eq!(WORK_DIR.from_wire(w), Some("/tmp".to_string()));
    assert_eq!(read::FILE_ENCODING.key(), 1129);
}

#[test]
fn wire_value_of_another_kind_is_refused() {
    assert_eq!(mip::DISPLAY.from_wire(WireValue::Long(3)), None);
    assert_eq!(emphasis::NUMERICAL.from_wire(WireValue::Str("1".to_string())), None);
    assert_eq!(WORK_DIR.from_wire(WireValue::Int(0)), None);
    assert!(mip::tolerances::GAP.from_wire(WireValue::Int(0)).is_none());
}
