use cplex::model::{Constraint, Expr, Model, Objective, Sense, VarType};
use cplex::problem::{
    optimizer_for, solution_len, Optimizer, MISSING_EXPRESSION, MISSING_OBJECTIVE,
    UNKNOWN_VARIABLE,
};
use cplex::{ExtractableModel, Real};

fn r(x: f64) -> Real {
    Real::from_bits(x.to_bits())
}

fn f(x: Real) -> f64 {
    f64::from_bits(x.to_bits())
}

fn floats(v: &[Real]) -> Vec<f64> {
    v.iter().map(|x| f(*x)).collect()
}

#[test]
fn extract_example_model() {
    let mut model = Model::new();
    let x_0 = model.new_binary_var().set_name("x(0)");
    let x_1 = model.new_binary_var().set_name("x(1)");
    let x_2 = model.new_binary_var().set_name("x(2)");
    model
        .add_ineq(x_0.times(r(0.5)).plus_var(&x_1), Sense::GreaterThan, r(1.0), Some("c(0)"))
        .add_ineq(x_1.times(r(2.0)).plus_var(&x_0), Sense::LessThan, r(2.0), Some("c(1)"))
        .add_ineq(x_2.times(r(3.0)), Sense::LessThan, r(2.0), Some("c(2)"))
        .set_objective(Objective::Max, x_0.plus(&x_1));
    model.add_var(x_0).add_var(x_1).add_var(x_2);
    let d = model.extract().unwrap();
    assert_eq!(d.numcols, 3);
    assert_eq!(d.numrows, 3);
    assert_eq!(d.objsense, -1);
    assert_eq!(floats(&d.obj), vec![1.0, 1.0, 0.0]);
    assert_eq!(d.sense, vec![b'G', b'L', b'L']);
    assert_eq!(floats(&d.rhs), vec![1.0, 2.0, 2.0]);
    assert_eq!(d.matbeg, vec![0, 2, 4]);
    assert_eq!(d.matcnt, vec![2, 2, 1]);
    assert_eq!(d.matind, vec![0, 1, 1, 0, 2]);
    assert_eq!(floats(&d.matval), vec![0.5, 1.0, 2.0, 1.0, 3.0]);
    assert_eq!(floats(&d.lb), vec![0.0, 0.0, 0.0]);
    assert_eq!(floats(&d.ub), vec![1.0, 1.0, 1.0]);
    assert_eq!(d.ctype, vec![b'B', b'B', b'B']);
    assert_eq!(
        d.colnames,
        vec![Some("x(0)".to_string()), Some("x(1)".to_string()), Some("x(2)".to_string())]
    );
    assert_eq!(
        d.rownames,
        vec![Some("c(0)".to_string()), Some("c(1)".to_string()), Some("c(2)".to_string())]
    );
    assert!(d.rhs_offsets.iter().all(|o| o.is_empty()));
}

#[test]
fn objective_last_coefficient_wins() {
    let mut model = Model::new();
    let x = model.new_numeric_var();
    let y = model.new_numeric_var();
    let objective = x.times(r(2.0)).plus(y.times(r(4.0))).plus(x.times(r(5.0)));
    model.set_objective(Objective::Min, objective);
    let d = model.extract().unwrap();
    assert_eq!(floats(&d.obj), vec![5.0, 4.0]);
    assert_eq!(d.objsense, 1);
}

#[test]
fn objective_replaced_by_second_call() {
    let mut model = Model::new();
    let x = model.new_integer_var();
    model.set_objective(Objective::Max, x.times(r(7.0)));
    model.set_objective(Objective::Min, x.times(r(3.0)));
    let d = model.extract().unwrap();
    assert_eq!(floats(&d.obj), vec![3.0]);
    assert_eq!(d.objsense, 1);
    assert_eq!(d.ctype, vec![b'I']);
}

#[test]
fn constraint_without_expression_is_an_error() {
    let mut model = Model::new();
    let x = model.new_binary_var();
    model.add_ineq(x.times(r(1.0)), Sense::LessThan, r(1.0), None);
    model.add_constraint(Constraint::new(Sense::Equal, r(0.0)));
    model.set_objective(Objective::Max, x.times(r(1.0)));
    model.add_var(x);
    let e = model.extract().unwrap_err();
    assert_eq!(e.code(), 0);
    assert_eq!(e.description(), MISSING_EXPRESSION);
}

#[test]
fn constraint_with_expression_set_later_loads() {
    let mut model = Model::new();
    let x = model.new_binary_var();
    let mut c = Constraint::new(Sense::Equal, r(0.0));
    c.set_expr(x.times(r(2.0))).set_sense(Sense::GreaterThan).set_rhs(r(1.5)).set_name("half");
    model.add_constraint(c);
    model.set_objective(Objective::Min, Expr::new());
    model.add_var(x);
    let d = model.extract().unwrap();
    assert_eq!(d.sense, vec![b'G']);
    assert_eq!(floats(&d.rhs), vec![1.5]);
    assert_eq!(d.rownames, vec![Some("half".to_string())]);
    assert_eq!(d.matind, vec![0]);
    assert_eq!(floats(&d.matval), vec![2.0]);
    assert_eq!(floats(&d.obj), vec![0.0]);
}

#[test]
fn missing_objective_is_an_error() {
    let mut model = Model::new();
    let x = model.new_binary_var();
    model.add_var(x);
    let e = model.extract().unwrap_err();
    assert_eq!(e.code(), 0);
    assert_eq!(e.description(), MISSING_OBJECTIVE);
}

#[test]
fn term_outside_columns_is_an_error() {
    let mut model = Model::new();
    let x = model.new_binary_var();
    let y = model.new_binary_var();
    model.add_ineq(x.plus(&y), Sense::LessThan, r(1.0), None);
    model.set_objective(Objective::Max, x.times(r(1.0)));
    model.add_var(x);
    let e = model.extract().unwrap_err();
    assert_eq!(e.code(), 0);
    assert_eq!(e.description(), UNKNOWN_VARIABLE);
}

#[test]
fn variable_outside_columns_is_an_error() {
    let mut model = Model::new();
    let _x = model.new_binary_var();
    let y = model.new_binary_var();
    model.set_objective(Objective::Max, Expr::new());
    model.add_var(y);
    let e = model.extract().unwrap_err();
    assert_eq!(e.description(), UNKNOWN_VARIABLE);
}

#[test]
fn column_without_variable_gets_defaults() {
    let mut model = Model::new();
    let _x = model.new_binary_var();
    let y = model.new_binary_var().set_lb(r(-1.0)).set_ub(r(4.0));
    model.set_objective(Objective::Max, y.times(r(1.0)));
    model.add_var(y.clone().set_name("first"));
    model.add_var(y.set_name("y"));
    let d = model.extract().unwrap();
    assert_eq!(d.numcols, 2);
    assert_eq!(d.ctype, vec![b'C', b'B']);
    assert_eq!(d.colnames, vec![None, Some("y".to_string())]);
    assert_eq!(floats(&d.lb), vec![f64::MIN, -1.0]);
    assert_eq!(floats(&d.ub), vec![f64::MAX, 4.0]);
    assert_eq!(floats(&d.obj), vec![0.0, 1.0]);
}

#[test]
fn offsets_travel_with_their_row() {
    let mut model = Model::new();
    let x = model.new_numeric_var();
    let e = x.times(r(1.0)).plus(Expr::constant(r(2.0))).plus(Expr::constant(r(0.5)));
    model.add_ineq(e, Sense::LessThan, r(10.0), None);
    model.set_objective(Objective::Min, x.times(r(1.0)));
    let d = model.extract().unwrap();
    assert_eq!(floats(&d.rhs), vec![10.0]);
    assert_eq!(d.rhs_offsets.len(), 1);
    assert_eq!(floats(&d.rhs_offsets[0]), vec![2.0, 0.5]);
    assert_eq!(d.matind, vec![0]);
}

#[test]
fn empty_model_loads_empty_arrays() {
    let mut model = Model::new();
    model.set_objective(Objective::Min, Expr::new());
    let d = model.extract().unwrap();
    assert_eq!(d.numcols, 0);
    assert_eq!(d.numrows, 0);
    assert!(d.obj.is_empty() && d.matbeg.is_empty() && d.matind.is_empty());
}

#[test]
fn variables_are_numbered_in_creation_order() {
    let mut model = Model::new();
    let a = model.new_numeric_var();
    let b = model.new_integer_var();
    let c = model.new_binary_var();
    assert_eq!((a.index(), b.index(), c.index()), (0, 1, 2));
    assert_eq!(a.var_type(), VarType::Numeric);
    assert_eq!(b.var_type(), VarType::Integer);
    assert_eq!(c.var_type(), VarType::Binary);
    assert_eq!(f(a.get_lb()), f64::MIN);
    assert_eq!(f(a.get_ub()), f64::MAX);
    assert_eq!(f(b.get_lb()), f64::MIN);
    assert_eq!(f(c.get_lb()), 0.0);
    assert_eq!(f(c.get_ub()), 1.0);
    assert_eq!(c.get_name(), None);
    let c = c.set_name("z");
    assert_eq!(c.get_name(), Some("z"));
}

#[test]
fn expression_composition_keeps_term_order() {
    let mut model = Model::new();
    let x = model.new_numeric_var();
    let y = model.new_numeric_var();
    let e = y.plus_expr(x.times(r(3.0)));
    assert_eq!(e.len(), 2);
    model.add_ineq(e, Sense::Equal, r(0.0), None);
    model.add_ineq(x.plus(&y).plus(Expr::from_mult(&y, r(-1.0))), Sense::Equal, r(0.0), None);
    model.set_objective(Objective::Min, Expr::new());
    let d = model.extract().unwrap();
    assert_eq!(d.matind, vec![0, 1, 0, 1, 1]);
    assert_eq!(floats(&d.matval), vec![3.0, 1.0, 1.0, 1.0, -1.0]);
    assert_eq!(d.matbeg, vec![0, 2]);
    assert_eq!(d.matcnt, vec![2, 3]);
    assert_eq!(d.sense, vec![b'E', b'E']);
}

#[test]
fn native_codes_of_enums() {
    assert_eq!(Sense::LessThan.code(), b'L');
    assert_eq!(Sense::Equal.code(), b'E');
    assert_eq!(Sense::GreaterThan.code(), b'G');
    assert_eq!(VarType::Numeric.code(), b'C');
    assert_eq!(VarType::Integer.code(), b'I');
    assert_eq!(VarType::Binary.code(), b'B');
    assert_eq!(Objective::Min.code(), 1);
    assert_eq!(Objective::Max.code(), -1);
}

#[test]
fn solve_dispatch_by_problem_type() {
    assert_eq!(optimizer_for(0), Some(Optimizer::Lp));
    assert_eq!(optimizer_for(1), Some(Optimizer::Mip));
    assert_eq!(optimizer_for(3), Some(Optimizer::Mip));
    assert_eq!(optimizer_for(5), None);
    assert_eq!(optimizer_for(-1), None);
}

#[test]
fn solution_range_lengths() {
    assert_eq!(solution_len(0, 2), 3);
    assert_eq!(solution_len(4, 4), 1);
    assert_eq!(solution_len(3, 1), 0);
    assert_eq!(solution_len(i32::MIN, i32::MAX), 1u64 << 32);
}

#[test]
fn numeric_and_integer_variables_are_columns_at_creation() {
    let mut model = Model::new();
    let x = model.new_numeric_var();
    let b = model.new_binary_var();
    let z = model.new_integer_var();
    model.add_ineq(x.plus(&z), Sense::LessThan, r(4.0), None);
    model.set_objective(Objective::Max, z.times(r(1.0)));
    // the binary variable is not a column until it is added
    let e = model.clone().extract().unwrap_err();
    assert_eq!(e.description(), UNKNOWN_VARIABLE);
    model.add_var(b);
    let d = model.extract().unwrap();
    assert_eq!(d.numcols, 3);
    // columns follow serial numbers: x, b, z
    assert_eq!(d.ctype, vec![b'C', b'B', b'I']);
    assert_eq!(floats(&d.lb), vec![f64::MIN, 0.0, f64::MIN]);
    assert_eq!(floats(&d.ub), vec![f64::MAX, 1.0, f64::MAX]);
    assert_eq!(floats(&d.obj), vec![0.0, 0.0, 1.0]);
    assert_eq!(d.matind, vec![0, 2]);
}
