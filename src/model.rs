//! Symbolic model building: variables, linear expressions, constraints and an
//! objective, compiled into the flat arrays of the native bulk load.
use vstd::prelude::*;

use crate::scalar::Real;

verus! {

/// Direction of the objective.
#[derive(Clone, Copy, PartialEq, Eq, Structural, Debug, Hash)]
pub enum Objective {
    /// The objective is minimised.
    Min,
    /// The objective is maximised.
    Max,
}

impl Objective {
    /// Native code of the direction: `1` to minimise, `-1` to maximise.
    pub open spec fn spec_code(self) -> i32 {
        match self {
            Objective::Min => 1i32,
            Objective::Max => -1i32,
        }
    }

    /// Native code of the direction.
    pub fn code(&self) -> (r: i32)
        ensures
            r == self.spec_code(),
    {
        match self {
            Objective::Min => 1,
            Objective::Max => -1,
        }
    }
}

/// Comparison of a constraint.
#[derive(Clone, Copy, PartialEq, Eq, Structural, Debug, Hash)]
pub enum Sense {
    /// Left-hand side at most the right-hand side (`'L'`).
    LessThan,
    /// Left-hand side equal to the right-hand side (`'E'`).
    Equal,
    /// Left-hand side at least the right-hand side (`'G'`).
    GreaterThan,
}

impl Sense {
    /// Native character code of the comparison.
    pub open spec fn spec_code(self) -> u8 {
        match self {
            Sense::LessThan => 76u8,
            Sense::Equal => 69u8,
            Sense::GreaterThan => 71u8,
        }
    }

    /// Native character code of the comparison.
    pub fn code(&self) -> (r: u8)
        ensures
            r == self.spec_code(),
    {
        match self {
            Sense::LessThan => 76u8,
            Sense::Equal => 69u8,
            Sense::GreaterThan => 71u8,
        }
    }
}

/// Type of a variable.
#[derive(Clone, Copy, PartialEq, Eq, Structural, Debug, Hash)]
pub enum VarType {
    /// A continuous variable (`'C'`).
    Numeric,
    /// An integer variable (`'I'`).
    Integer,
    /// A binary variable (`'B'`).
    Binary,
}

impl VarType {
    /// Native character code of the type.
    pub open spec fn spec_code(self) -> u8 {
        match self {
            VarType::Numeric => 67u8,
            VarType::Integer => 73u8,
            VarType::Binary => 66u8,
        }
    }

    /// Native character code of the type.
    pub fn code(&self) -> (r: u8)
        ensures
            r == self.spec_code(),
    {
        match self {
            VarType::Numeric => 67u8,
            VarType::Integer => 73u8,
            VarType::Binary => 66u8,
        }
    }
}

/// The view of an optional name.
pub open spec fn name_view(name: Option<String>) -> Option<Seq<char>> {
    match name {
        Some(s) => Some(s@),
        None => None,
    }
}

/// A copy of an optional name.
pub(crate) fn clone_name(name: &Option<String>) -> (r: Option<String>)
    ensures
        r == *name,
{
    match name {
        Some(s) => Some(s.clone()),
        None => None,
    }
}

/// A variable of a model: its serial number, which is its column, its type,
/// its bounds and an optional name.
#[derive(Clone, Debug)]
pub struct Var {
    pub(crate) index: usize,
    pub(crate) kind: VarType,
    pub(crate) lb: Real,
    pub(crate) ub: Real,
    pub(crate) name: Option<String>,
}

impl Var {
    /// Serial number of the variable in its model.
    pub open(crate) spec fn spec_index(&self) -> usize {
        self.index
    }

    pub open(crate) spec fn spec_kind(&self) -> VarType {
        self.kind
    }

    pub open(crate) spec fn spec_lb(&self) -> Real {
        self.lb
    }

    pub open(crate) spec fn spec_ub(&self) -> Real {
        self.ub
    }

    pub open(crate) spec fn spec_name(&self) -> Option<String> {
        self.name
    }

    /// Serial number of the variable in its model.
    pub fn index(&self) -> (r: usize)
        ensures
            r == self.spec_index(),
    {
        self.index
    }

    /// Type of the variable.
    pub fn var_type(&self) -> (r: VarType)
        ensures
            r == self.spec_kind(),
    {
        self.kind
    }

    /// Set the lower bound of this variable.
    pub fn set_lb(self, lb: Real) -> (r: Var)
        ensures
            r.spec_lb() == lb,
            r.spec_ub() == self.spec_ub(),
            r.spec_index() == self.spec_index(),
            r.spec_kind() == self.spec_kind(),
            r.spec_name() == self.spec_name(),
    {
        Var { lb, ..self }
    }

    /// The lower bound of this variable.
    pub fn get_lb(&self) -> (r: Real)
        ensures
            r == self.spec_lb(),
    {
        self.lb
    }

    /// Set the upper bound of this variable.
    pub fn set_ub(self, ub: Real) -> (r: Var)
        ensures
            r.spec_ub() == ub,
            r.spec_lb() == self.spec_lb(),
            r.spec_index() == self.spec_index(),
            r.spec_kind() == self.spec_kind(),
            r.spec_name() == self.spec_name(),
    {
        Var { ub, ..self }
    }

    /// The upper bound of this variable.
    pub fn get_ub(&self) -> (r: Real)
        ensures
            r == self.spec_ub(),
    {
        self.ub
    }

    /// Set the name of this variable.
    pub fn set_name(self, name: &str) -> (r: Var)
        ensures
            name_view(r.spec_name()) == Some(name@),
            r.spec_lb() == self.spec_lb(),
            r.spec_ub() == self.spec_ub(),
            r.spec_index() == self.spec_index(),
            r.spec_kind() == self.spec_kind(),
    {
        Var { name: Some(name.to_owned()), ..self }
    }

    /// The name of this variable, if it has one.
    pub fn get_name(&self) -> (r: Option<&str>)
        ensures
            match r {
                Some(s) => name_view(self.spec_name()) == Some(s@),
                None => self.spec_name() is None,
            },
    {
        match &self.name {
            Some(s) => Some(s.as_str()),
            None => None,
        }
    }

    /// The expression `coef * self`.
    pub fn times(&self, coef: Real) -> (r: Expr)
        ensures
            r.spec_terms() == seq![(self.spec_index(), coef)],
            r.spec_offsets() == Seq::<Real>::empty(),
    {
        Expr::from_mult(self, coef)
    }

    /// The expression `self + other`.
    pub fn plus(&self, other: &Var) -> (r: Expr)
        ensures
            r.spec_terms() == seq![(self.spec_index(), Real::one_spec()), (other.spec_index(), Real::one_spec())],
            r.spec_offsets() == Seq::<Real>::empty(),
    {
        let mut terms: Vec<(usize, Real)> = Vec::new();
        terms.push((self.index, Real::one()));
        terms.push((other.index, Real::one()));
        proof {
            assert(terms@ =~= seq![(self.spec_index(), Real::one_spec()), (other.spec_index(), Real::one_spec())]);
        }
        Expr { terms, offsets: Vec::new() }
    }

    /// The expression `self + e`: the terms of `e`, then `self` with coefficient one.
    pub fn plus_expr(&self, e: Expr) -> (r: Expr)
        ensures
            r.spec_terms() == e.spec_terms().push((self.spec_index(), Real::one_spec())),
            r.spec_offsets() == e.spec_offsets(),
    {
        e.plus_var(self)
    }
}

/// A linear expression: a sequence of (variable index, coefficient) terms and a
/// constant offset. Terms on the same variable are kept apart, in order. The
/// offset is kept as its summands, in order; they are added where the row is
/// handed to the native library.
#[derive(Clone, Debug)]
pub struct Expr {
    pub(crate) terms: Vec<(usize, Real)>,
    pub(crate) offsets: Vec<Real>,
}

impl Expr {
    pub open(crate) spec fn spec_terms(&self) -> Seq<(usize, Real)> {
        self.terms@
    }

    pub open(crate) spec fn spec_offsets(&self) -> Seq<Real> {
        self.offsets@
    }

    /// The expression with no terms and no offset.
    pub fn new() -> (r: Expr)
        ensures
            r.spec_terms() == Seq::<(usize, Real)>::empty(),
            r.spec_offsets() == Seq::<Real>::empty(),
    {
        Expr { terms: Vec::new(), offsets: Vec::new() }
    }

    /// The constant expression `c`.
    pub fn constant(c: Real) -> (r: Expr)
        ensures
            r.spec_terms() == Seq::<(usize, Real)>::empty(),
            r.spec_offsets() == seq![c],
    {
        let mut offsets: Vec<Real> = Vec::new();
        offsets.push(c);
        proof {
            assert(offsets@ =~= seq![c]);
        }
        Expr { terms: Vec::new(), offsets }
    }

    /// The expression `coef * v`.
    pub fn from_mult(v: &Var, coef: Real) -> (r: Expr)
        ensures
            r.spec_terms() == seq![(v.spec_index(), coef)],
            r.spec_offsets() == Seq::<Real>::empty(),
    {
        let mut terms: Vec<(usize, Real)> = Vec::new();
        terms.push((v.index, coef));
        proof {
            assert(terms@ =~= seq![(v.spec_index(), coef)]);
        }
        Expr { terms, offsets: Vec::new() }
    }

    /// The expression `self + v`: `v` is appended with coefficient one.
    pub fn plus_var(self, v: &Var) -> (r: Expr)
        ensures
            r.spec_terms() == self.spec_terms().push((v.spec_index(), Real::one_spec())),
            r.spec_offsets() == self.spec_offsets(),
    {
        let mut e = self;
        e.terms.push((v.index, Real::one()));
        e
    }

    /// The expression `self + other`: the terms of `other` follow those of
    /// `self`, and so do the summands of its offset.
    pub fn plus(self, other: Expr) -> (r: Expr)
        ensures
            r.spec_terms() == self.spec_terms() + other.spec_terms(),
            r.spec_offsets() == self.spec_offsets() + other.spec_offsets(),
    {
        let mut e = self;
        let mut other = other;
        e.terms.append(&mut other.terms);
        e.offsets.append(&mut other.offsets);
        e
    }

    /// Number of terms.
    pub fn len(&self) -> (r: usize)
        ensures
            r == self.spec_terms().len(),
    {
        self.terms.len()
    }
}

/// A constraint: a comparison of an expression with a right-hand side.
/// The constraint's serial number is its position in its model.
#[derive(Clone, Debug)]
pub struct Constraint {
    pub(crate) sense: Sense,
    pub(crate) rhs: Real,
    pub(crate) expr: Option<Expr>,
    pub(crate) name: Option<String>,
}

impl Constraint {
    pub open(crate) spec fn spec_sense(&self) -> Sense {
        self.sense
    }

    pub open(crate) spec fn spec_rhs(&self) -> Real {
        self.rhs
    }

    pub open(crate) spec fn spec_expr(&self) -> Option<Expr> {
        self.expr
    }

    pub open(crate) spec fn spec_name(&self) -> Option<String> {
        self.name
    }

    /// A constraint with the given comparison and right-hand side, with no
    /// expression and no name yet.
    pub fn new(sense: Sense, rhs: Real) -> (r: Constraint)
        ensures
            r.spec_sense() == sense,
            r.spec_rhs() == rhs,
            r.spec_expr() is None,
            r.spec_name() is None,
    {
        Constraint { sense, rhs, expr: None, name: None }
    }

    /// Set the expression of the constraint.
    pub fn set_expr(&mut self, expr: Expr) -> (r: &mut Constraint)
        ensures
            r.spec_expr() == Some(expr),
            r.spec_sense() == old(self).spec_sense(),
            r.spec_rhs() == old(self).spec_rhs(),
            r.spec_name() == old(self).spec_name(),
            *final(self) == *final(r),
    {
        self.expr = Some(expr);
        self
    }

    /// Set the comparison of the constraint.
    pub fn set_sense(&mut self, sense: Sense) -> (r: &mut Constraint)
        ensures
            r.spec_sense() == sense,
            r.spec_expr() == old(self).spec_expr(),
            r.spec_rhs() == old(self).spec_rhs(),
            r.spec_name() == old(self).spec_name(),
            *final(self) == *final(r),
    {
        self.sense = sense;
        self
    }

    /// Set the right-hand side of the constraint.
    pub fn set_rhs(&mut self, rhs: Real) -> (r: &mut Constraint)
        ensures
            r.spec_rhs() == rhs,
            r.spec_expr() == old(self).spec_expr(),
            r.spec_sense() == old(self).spec_sense(),
            r.spec_name() == old(self).spec_name(),
            *final(self) == *final(r),
    {
        self.rhs = rhs;
        self
    }

    /// Set the name of the constraint.
    pub fn set_name(&mut self, name: &str) -> (r: &mut Constraint)
        ensures
            name_view(r.spec_name()) == Some(name@),
            r.spec_expr() == old(self).spec_expr(),
            r.spec_sense() == old(self).spec_sense(),
            r.spec_rhs() == old(self).spec_rhs(),
            *final(self) == *final(r),
    {
        self.name = Some(name.to_owned());
        self
    }
}

/// A model: variables, constraints in the order of their serial numbers, and
/// an objective. Variables are numbered as they are created. Numeric and
/// integer variables become columns of the model when they are created; a
/// binary variable, or any other, when it is added with `add_var`.
#[derive(Clone, Debug)]
pub struct Model {
    pub(crate) v_cnt: usize,
    pub(crate) vars: Vec<Var>,
    pub(crate) constraints: Vec<Constraint>,
    pub(crate) obj: Objective,
    pub(crate) obj_fun: Option<Expr>,
}

impl Model {
    /// Serial number that the next variable created will get.
    pub open(crate) spec fn spec_var_count(&self) -> usize {
        self.v_cnt
    }

    /// Variables added to the model, in the order they were added.
    pub open(crate) spec fn spec_vars(&self) -> Seq<Var> {
        self.vars@
    }

    /// Constraints of the model; a constraint's position is its serial number.
    pub open(crate) spec fn spec_constraints(&self) -> Seq<Constraint> {
        self.constraints@
    }

    pub open(crate) spec fn spec_objective(&self) -> Objective {
        self.obj
    }

    pub open(crate) spec fn spec_objective_expr(&self) -> Option<Expr> {
        self.obj_fun
    }

    /// An empty model that minimises and has no objective expression yet.
    pub fn new() -> (r: Model)
        ensures
            r.spec_var_count() == 0,
            r.spec_vars() == Seq::<Var>::empty(),
            r.spec_constraints() == Seq::<Constraint>::empty(),
            r.spec_objective() == Objective::Min,
            r.spec_objective_expr() is None,
    {
        Model {
            v_cnt: 0,
            vars: Vec::new(),
            constraints: Vec::new(),
            obj: Objective::Min,
            obj_fun: None,
        }
    }

    /// Append a constraint; it gets the next constraint serial number.
    pub fn add_constraint(&mut self, c: Constraint) -> (r: &mut Model)
        ensures
            r.spec_constraints() == old(self).spec_constraints().push(c),
            r.spec_vars() == old(self).spec_vars(),
            r.spec_var_count() == old(self).spec_var_count(),
            r.spec_objective() == old(self).spec_objective(),
            r.spec_objective_expr() == old(self).spec_objective_expr(),
            *final(self) == *final(r),
    {
        self.constraints.push(c);
        self
    }

    /// Append the constraint `expr s rhs`, with an optional name.
    pub fn add_ineq(&mut self, expr: Expr, s: Sense, rhs: Real, name: Option<&str>) -> (r: &mut Model)
        ensures
            r.spec_constraints().len() == old(self).spec_constraints().len() + 1,
            r.spec_constraints().drop_last() == old(self).spec_constraints(),
            r.spec_constraints().last().spec_sense() == s,
            r.spec_constraints().last().spec_rhs() == rhs,
            r.spec_constraints().last().spec_expr() == Some(expr),
            name_view(r.spec_constraints().last().spec_name()) == match name {
                Some(t) => Some(t@),
                None => None::<Seq<char>>,
            },
            r.spec_vars() == old(self).spec_vars(),
            r.spec_var_count() == old(self).spec_var_count(),
            r.spec_objective() == old(self).spec_objective(),
            r.spec_objective_expr() == old(self).spec_objective_expr(),
            *final(self) == *final(r),
    {
        let name = match name {
            Some(t) => Some(t.to_owned()),
            None => None,
        };
        let c = Constraint { sense: s, rhs, expr: Some(expr), name };
        self.constraints.push(c);
        proof {
            assert(self.constraints@.drop_last() =~= old(self).constraints@);
        }
        self
    }

    /// Add a variable: it becomes a column of the model.
    pub fn add_var(&mut self, v: Var) -> (r: &mut Model)
        ensures
            r.spec_vars() == old(self).spec_vars().push(v),
            r.spec_constraints() == old(self).spec_constraints(),
            r.spec_var_count() == old(self).spec_var_count(),
            r.spec_objective() == old(self).spec_objective(),
            r.spec_objective_expr() == old(self).spec_objective_expr(),
            *final(self) == *final(r),
    {
        self.vars.push(v);
        self
    }

    /// Set the objective; it replaces any objective set before.
    pub fn set_objective(&mut self, m: Objective, o: Expr) -> (r: &mut Model)
        ensures
            r.spec_objective() == m,
            r.spec_objective_expr() == Some(o),
            r.spec_vars() == old(self).spec_vars(),
            r.spec_constraints() == old(self).spec_constraints(),
            r.spec_var_count() == old(self).spec_var_count(),
            *final(self) == *final(r),
    {
        self.obj = m;
        self.obj_fun = Some(o);
        self
    }

    /// A fresh variable of the given type and bounds: it gets the next serial
    /// number.
    fn new_var(&mut self, kind: VarType, lb: Real, ub: Real) -> (r: Var)
        requires
            old(self).spec_var_count() < usize::MAX,
        ensures
            r.spec_index() == old(self).spec_var_count(),
            r.spec_kind() == kind,
            r.spec_lb() == lb,
            r.spec_ub() == ub,
            r.spec_name() is None,
            final(self).spec_var_count() == old(self).spec_var_count() + 1,
            final(self).spec_vars() == old(self).spec_vars(),
            final(self).spec_constraints() == old(self).spec_constraints(),
            final(self).spec_objective() == old(self).spec_objective(),
            final(self).spec_objective_expr() == old(self).spec_objective_expr(),
    {
        let index = self.v_cnt;
        self.v_cnt = self.v_cnt + 1;
        Var { index, kind, lb, ub, name: None }
    }

    /// A fresh continuous variable, unbounded (from the lowest to the highest
    /// finite double). It becomes a column of the model at once: the model
    /// records it as created, and the variable returned is a copy.
    pub fn new_numeric_var(&mut self) -> (r: Var)
        requires
            old(self).spec_var_count() < usize::MAX,
        ensures
            r.spec_index() == old(self).spec_var_count(),
            r.spec_kind() == VarType::Numeric,
            r.spec_lb() == Real::lowest_spec(),
            r.spec_ub() == Real::highest_spec(),
            r.spec_name() is None,
            final(self).spec_var_count() == old(self).spec_var_count() + 1,
            final(self).spec_vars() == old(self).spec_vars().push(r),
            final(self).spec_constraints() == old(self).spec_constraints(),
            final(self).spec_objective() == old(self).spec_objective(),
            final(self).spec_objective_expr() == old(self).spec_objective_expr(),
    {
        let v = self.new_var(VarType::Numeric, Real::lowest(), Real::highest());
        self.vars.push(Var { index: v.index, kind: v.kind, lb: v.lb, ub: v.ub, name: None });
        v
    }

    /// A fresh integer variable, unbounded (from the lowest to the highest
    /// finite double). It becomes a column of the model at once: the model
    /// records it as created, and the variable returned is a copy.
    pub fn new_integer_var(&mut self) -> (r: Var)
        requires
            old(self).spec_var_count() < usize::MAX,
        ensures
            r.spec_index() == old(self).spec_var_count(),
            r.spec_kind() == VarType::Integer,
            r.spec_lb() == Real::lowest_spec(),
            r.spec_ub() == Real::highest_spec(),
            r.spec_name() is None,
            final(self).spec_var_count() == old(self).spec_var_count() + 1,
            final(self).spec_vars() == old(self).spec_vars().push(r),
            final(self).spec_constraints() == old(self).spec_constraints(),
            final(self).spec_objective() == old(self).spec_objective(),
            final(self).spec_objective_expr() == old(self).spec_objective_expr(),
    {
        let v = self.new_var(VarType::Integer, Real::lowest(), Real::highest());
        self.vars.push(Var { index: v.index, kind: v.kind, lb: v.lb, ub: v.ub, name: None });
        v
    }

    /// A fresh binary variable, with bounds `[0, 1]`. It becomes a column of
    /// the model when it is added with `add_var`.
    pub fn new_binary_var(&mut self) -> (r: Var)
        requires
            old(self).spec_var_count() < usize::MAX,
        ensures
            r.spec_index() == old(self).spec_var_count(),
            r.spec_kind() == VarType::Binary,
            r.spec_lb() == Real::zero_spec(),
            r.spec_ub() == Real::one_spec(),
            r.spec_name() is None,
            final(self).spec_var_count() == old(self).spec_var_count() + 1,
            final(self).spec_vars() == old(self).spec_vars(),
            final(self).spec_constraints() == old(self).spec_constraints(),
            final(self).spec_objective() == old(self).spec_objective(),
            final(self).spec_objective_expr() == old(self).spec_objective_expr(),
    {
        self.new_var(VarType::Binary, Real::zero(), Real::one())
    }
}

} // verus!
