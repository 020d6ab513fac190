//! Compilation of a model into the arrays of the native bulk load.
use vstd::prelude::*;

use crate::error::{Error, PrivateErrorConstructor};
use crate::model::{Constraint, Model, Var, VarType};
use crate::scalar::Real;

verus! {

/// Message of the error for a constraint without an expression.
pub const MISSING_EXPRESSION: &'static str = "Extracted Constraint did not contain an extractable Expression";

/// Message of the error for a model without an objective expression.
pub const MISSING_OBJECTIVE: &'static str = "No extractable objective function was set";

/// Message of the error for a variable index outside the model's columns.
pub const UNKNOWN_VARIABLE: &'static str = "A variable index lies outside the columns of the model";

/// Message of the error for a model whose counts exceed the native index types.
pub const TOO_LARGE: &'static str = "The model exceeds the index range of the native library";

/// Largest value of the native row and column index type.
pub const MAX_DIM: usize = 0x7fff_ffff;

/// Largest value of the native nonzero-count type.
pub const MAX_NNZ: u64 = 0x7fff_ffff_ffff_ffff;

/// The arrays that the native bulk load takes, row-major: row `i` has its
/// `matcnt[i]` entries at `matbeg[i]..` of `matind` and `matval`. Offsets of a
/// row are the summands of its expression's constant, to be subtracted from
/// its right-hand side.
#[derive(Debug)]
pub struct ProblemData {
    pub numcols: i32,
    pub numrows: i32,
    pub objsense: i32,
    pub obj: Vec<Real>,
    pub rhs: Vec<Real>,
    pub rhs_offsets: Vec<Vec<Real>>,
    pub sense: Vec<u8>,
    pub matbeg: Vec<i64>,
    pub matcnt: Vec<i32>,
    pub matind: Vec<i32>,
    pub matval: Vec<Real>,
    pub lb: Vec<Real>,
    pub ub: Vec<Real>,
    pub ctype: Vec<u8>,
    pub colnames: Vec<Option<String>>,
    pub rownames: Vec<Option<String>>,
}

/// Every term of `terms` names a column below `n`.
pub open spec fn terms_within(terms: Seq<(usize, Real)>, n: int) -> bool {
    forall|k: int| 0 <= k < terms.len() ==> (#[trigger] terms[k]).0 < n
}

/// Every variable of `vars` has a serial number below `n`.
pub open spec fn vars_within(vars: Seq<Var>, n: int) -> bool {
    forall|k: int| 0 <= k < vars.len() ==> (#[trigger] vars[k]).spec_index() < n
}

/// The terms of a constraint's expression; none without one.
pub open spec fn row_terms(c: Constraint) -> Seq<(usize, Real)> {
    match c.spec_expr() {
        Some(e) => e.spec_terms(),
        None => Seq::empty(),
    }
}

/// The offset summands of a constraint's expression; none without one.
pub open spec fn row_offsets(c: Constraint) -> Seq<Real> {
    match c.spec_expr() {
        Some(e) => e.spec_offsets(),
        None => Seq::empty(),
    }
}

/// The terms of all rows, row after row.
pub open spec fn flat_terms(cs: Seq<Constraint>) -> Seq<(usize, Real)>
    decreases cs.len(),
{
    if cs.len() == 0 {
        Seq::empty()
    } else {
        flat_terms(cs.drop_last()) + row_terms(cs.last())
    }
}

/// The variable that defines column `j`: the last one added with serial
/// number `j`, if any.
pub open spec fn column_var(vars: Seq<Var>, j: int) -> Option<Var>
    decreases vars.len(),
{
    if vars.len() == 0 {
        None
    } else if vars.last().spec_index() == j {
        Some(vars.last())
    } else {
        column_var(vars.drop_last(), j)
    }
}

/// Objective coefficient of column `j`: the last coefficient that `terms`
/// gives it, zero if none.
pub open spec fn objective_coef(terms: Seq<(usize, Real)>, j: int) -> Real
    decreases terms.len(),
{
    if terms.len() == 0 {
        Real::zero_spec()
    } else if terms.last().0 == j {
        terms.last().1
    } else {
        objective_coef(terms.drop_last(), j)
    }
}

/// Message for the first of the rows `cs` that cannot be loaded, where `nnz`
/// entries come before them; none if all can.
pub open spec fn rows_failure(cs: Seq<Constraint>, n: int, nnz: int) -> Option<Seq<char>>
    decreases cs.len(),
{
    if cs.len() == 0 {
        None
    } else {
        match cs[0].spec_expr() {
            None => Some(MISSING_EXPRESSION@),
            Some(e) => if !terms_within(e.spec_terms(), n) {
                Some(UNKNOWN_VARIABLE@)
            } else if e.spec_terms().len() > MAX_DIM || nnz + e.spec_terms().len() > MAX_NNZ {
                Some(TOO_LARGE@)
            } else {
                rows_failure(cs.drop_first(), n, nnz + e.spec_terms().len())
            },
        }
    }
}

/// Why a model cannot be loaded, checked in this order: counts beyond the
/// native index types, a variable outside the columns, the first row that
/// cannot be loaded, a missing objective, an objective term outside the
/// columns. None if it can be loaded.
pub open spec fn extract_failure(m: Model) -> Option<Seq<char>> {
    let n = m.spec_vars().len() as int;
    if n > MAX_DIM || m.spec_constraints().len() > MAX_DIM {
        Some(TOO_LARGE@)
    } else if !vars_within(m.spec_vars(), n) {
        Some(UNKNOWN_VARIABLE@)
    } else {
        match rows_failure(m.spec_constraints(), n, 0) {
            Some(msg) => Some(msg),
            None => match m.spec_objective_expr() {
                None => Some(MISSING_OBJECTIVE@),
                Some(o) => if terms_within(o.spec_terms(), n) {
                    None
                } else {
                    Some(UNKNOWN_VARIABLE@)
                },
            },
        }
    }
}

/// Column `j` of the column arrays holds the bounds, type and name of the
/// variable of `vars` that defines it, or the defaults of a continuous,
/// unbounded, unnamed column.
pub open spec fn column_loaded(
    lb: Seq<Real>,
    ub: Seq<Real>,
    ctype: Seq<u8>,
    colnames: Seq<Option<String>>,
    vars: Seq<Var>,
    j: int,
) -> bool {
    match column_var(vars, j) {
        Some(v) => {
            &&& lb[j] == v.spec_lb()
            &&& ub[j] == v.spec_ub()
            &&& ctype[j] == v.spec_kind().spec_code()
            &&& colnames[j] == v.spec_name()
        },
        None => {
            &&& lb[j] == Real::lowest_spec()
            &&& ub[j] == Real::highest_spec()
            &&& ctype[j] == VarType::Numeric.spec_code()
            &&& colnames[j] is None
        },
    }
}

/// Row `i` of the row arrays holds the comparison, right-hand side, offsets,
/// name and place in the flat matrix of constraint `cs[i]`.
pub open spec fn row_loaded(
    sense: Seq<u8>,
    rhs: Seq<Real>,
    rhs_offsets: Seq<Vec<Real>>,
    rownames: Seq<Option<String>>,
    matbeg: Seq<i64>,
    matcnt: Seq<i32>,
    cs: Seq<Constraint>,
    i: int,
) -> bool {
    &&& sense[i] == cs[i].spec_sense().spec_code()
    &&& rhs[i] == cs[i].spec_rhs()
    &&& rhs_offsets[i]@ == row_offsets(cs[i])
    &&& rownames[i] == cs[i].spec_name()
    &&& matbeg[i] == flat_terms(cs.take(i)).len()
    &&& matcnt[i] == row_terms(cs[i]).len()
}

/// `d` is the bulk load of model `m`.
pub open spec fn describes(d: ProblemData, m: Model) -> bool {
    let vars = m.spec_vars();
    let cs = m.spec_constraints();
    let n = vars.len() as int;
    let flat = flat_terms(cs);
    let objective = match m.spec_objective_expr() {
        Some(o) => o.spec_terms(),
        None => Seq::empty(),
    };
    &&& d.numcols == n
    &&& d.numrows == cs.len()
    &&& d.objsense == m.spec_objective().spec_code()
    &&& d.obj@.len() == n
    &&& d.lb@.len() == n
    &&& d.ub@.len() == n
    &&& d.ctype@.len() == n
    &&& d.colnames@.len() == n
    &&& forall|j: int| 0 <= j < n ==> #[trigger] d.obj@[j] == objective_coef(objective, j)
    &&& forall|j: int| 0 <= j < n ==> #[trigger] column_loaded(d.lb@, d.ub@, d.ctype@, d.colnames@, vars, j)
    &&& d.sense@.len() == cs.len()
    &&& d.rhs@.len() == cs.len()
    &&& d.rhs_offsets@.len() == cs.len()
    &&& d.rownames@.len() == cs.len()
    &&& d.matbeg@.len() == cs.len()
    &&& d.matcnt@.len() == cs.len()
    &&& forall|i: int| 0 <= i < cs.len() ==> #[trigger] row_loaded(d.sense@, d.rhs@, d.rhs_offsets@, d.rownames@, d.matbeg@, d.matcnt@, cs, i)
    &&& d.matind@.len() == flat.len()
    &&& d.matval@.len() == flat.len()
    &&& forall|k: int| 0 <= k < flat.len() ==> d.matind@[k] == (#[trigger] flat[k]).0
    &&& forall|k: int| 0 <= k < flat.len() ==> d.matval@[k] == flat[k].1
}

/// A model that can be compiled into the arrays of the native bulk load.
pub trait ExtractableModel: Sized {
    /// Why the model cannot be loaded, if it cannot.
    spec fn spec_failure(&self) -> Option<Seq<char>>;

    /// `d` is the bulk load of the model.
    spec fn spec_describes(&self, d: ProblemData) -> bool;

    /// Compile the model into the arrays of the native bulk load.
    fn extract(self) -> (r: Result<ProblemData, Error>)
        ensures
            match r {
                Ok(d) => self.spec_failure() is None && self.spec_describes(d),
                Err(e) => e.spec_code() == 0 && self.spec_failure() == Some(e.spec_description()),
            },
    ;
}

/// Rows of `cs` fail to load when one of them has no expression.
proof fn lemma_rows_fail_without_expression(cs: Seq<Constraint>, n: int, nnz: int, i: int)
    requires
        0 <= i < cs.len(),
        cs[i].spec_expr() is None,
    ensures
        rows_failure(cs, n, nnz) is Some,
    decreases i,
{
    if i > 0 {
        if let Some(e) = cs[0].spec_expr() {
            let len = e.spec_terms().len();
            if terms_within(e.spec_terms(), n) && !(len > MAX_DIM || nnz + len > MAX_NNZ) {
                assert(cs.drop_first()[i - 1] == cs[i]);
                lemma_rows_fail_without_expression(cs.drop_first(), n, nnz + len, i - 1);
            }
        }
    }
}

/// A model with a constraint that has no expression cannot be loaded:
/// extraction returns an error rather than an empty row.
pub proof fn lemma_missing_expression_fails(m: Model, i: int)
    requires
        0 <= i < m.spec_constraints().len(),
        m.spec_constraints()[i].spec_expr() is None,
    ensures
        extract_failure(m) is Some,
{
    lemma_rows_fail_without_expression(m.spec_constraints(), m.spec_vars().len() as int, 0, i);
}

/// A row that loads into `n` columns: it has an expression whose terms all
/// name columns below `n` and whose count fits the native index type.
pub open spec fn row_fits(c: Constraint, n: int) -> bool {
    &&& c.spec_expr() is Some
    &&& terms_within(row_terms(c), n)
    &&& row_terms(c).len() <= MAX_DIM
}

/// The flat terms count the first row's terms, then those of the others.
proof fn lemma_flat_front(cs: Seq<Constraint>)
    requires
        cs.len() > 0,
    ensures
        flat_terms(cs).len() == row_terms(cs[0]).len() + flat_terms(cs.drop_first()).len(),
    decreases cs.len(),
{
    if cs.len() > 1 {
        lemma_flat_front(cs.drop_last());
        assert(cs.drop_last().drop_first() =~= cs.drop_first().drop_last());
        assert(cs.drop_last()[0] == cs[0]);
        assert(cs.drop_first().last() == cs.last());
        assert(flat_terms(cs).len() == flat_terms(cs.drop_last()).len() + row_terms(cs.last()).len());
        assert(flat_terms(cs.drop_first()).len() == flat_terms(cs.drop_first().drop_last()).len()
            + row_terms(cs.drop_first().last()).len());
    } else {
        assert(cs.drop_last().len() == 0);
        assert(cs.drop_first().len() == 0);
        assert(flat_terms(cs.drop_last()).len() == 0);
        assert(flat_terms(cs.drop_first()).len() == 0);
        assert(cs.last() == cs[0]);
    }
}

/// Rows that all fit, with room for their entries after `nnz` others, load.
proof fn lemma_rows_load(cs: Seq<Constraint>, n: int, nnz: int)
    requires
        forall|i: int| 0 <= i < cs.len() ==> row_fits(#[trigger] cs[i], n),
        0 <= nnz,
        nnz + flat_terms(cs).len() <= MAX_NNZ,
    ensures
        rows_failure(cs, n, nnz) is None,
    decreases cs.len(),
{
    if cs.len() > 0 {
        lemma_flat_front(cs);
        assert(row_fits(cs[0], n));
        let rest = cs.drop_first();
        assert forall|i: int| 0 <= i < rest.len() implies row_fits(#[trigger] rest[i], n) by {
            assert(rest[i] == cs[i + 1]);
        }
        lemma_rows_load(rest, n, nnz + row_terms(cs[0]).len());
    }
}

/// A well-formed model loads: where every variable added has a serial number
/// below the number of columns, every constraint has an expression over those
/// columns, an objective over them is set, and the counts fit the native index
/// types, extraction succeeds, with one column per variable added and one row
/// per constraint.
pub proof fn lemma_well_formed_model_loads(m: Model)
    requires
        m.spec_vars().len() <= MAX_DIM,
        m.spec_constraints().len() <= MAX_DIM,
        vars_within(m.spec_vars(), m.spec_vars().len() as int),
        forall|i: int|
            0 <= i < m.spec_constraints().len() ==> row_fits(
                #[trigger] m.spec_constraints()[i],
                m.spec_vars().len() as int,
            ),
        flat_terms(m.spec_constraints()).len() <= MAX_NNZ,
        m.spec_objective_expr() is Some,
        terms_within(m.spec_objective_expr()->Some_0.spec_terms(), m.spec_vars().len() as int),
    ensures
        extract_failure(m) is None,
        forall|d: ProblemData|
            describes(d, m) ==> d.numcols == m.spec_vars().len() && d.numrows
                == m.spec_constraints().len(),
{
    lemma_rows_load(m.spec_constraints(), m.spec_vars().len() as int, 0);
}

/// The coefficient of column `terms[k].0` is `terms[k].1` when no later term
/// names that column.
proof fn lemma_last_coef(terms: Seq<(usize, Real)>, k: int)
    requires
        0 <= k < terms.len(),
        forall|q: int| k < q < terms.len() ==> (#[trigger] terms[q]).0 != terms[k].0,
    ensures
        objective_coef(terms, terms[k].0 as int) == terms[k].1,
    decreases terms.len(),
{
    if k < terms.len() - 1 {
        let front = terms.drop_last();
        assert forall|q: int| k < q < front.len() implies (#[trigger] front[q]).0 != front[k].0 by {
            assert(front[q] == terms[q]);
        }
        lemma_last_coef(front, k);
    }
}

/// Where the objective gives a column several coefficients, the load keeps
/// the last one written.
pub proof fn lemma_objective_keeps_last(m: Model, d: ProblemData, k: int)
    requires
        describes(d, m),
        m.spec_objective_expr() is Some,
        0 <= k < m.spec_objective_expr()->Some_0.spec_terms().len(),
        m.spec_objective_expr()->Some_0.spec_terms()[k].0 < m.spec_vars().len(),
        forall|q: int|
            k < q < m.spec_objective_expr()->Some_0.spec_terms().len() ==> (
            #[trigger] m.spec_objective_expr()->Some_0.spec_terms()[q]).0
                != m.spec_objective_expr()->Some_0.spec_terms()[k].0,
    ensures
        d.obj@[m.spec_objective_expr()->Some_0.spec_terms()[k].0 as int]
            == m.spec_objective_expr()->Some_0.spec_terms()[k].1,
{
    let terms = m.spec_objective_expr()->Some_0.spec_terms();
    lemma_last_coef(terms, k);
    assert(d.obj@[terms[k].0 as int] == objective_coef(terms, terms[k].0 as int));
}

/// Problem type code of a continuous linear problem.
pub const PROB_LP: i32 = 0;

/// Problem type code of a mixed-integer linear problem.
pub const PROB_MILP: i32 = 1;

/// Problem type code of a mixed-integer problem with its integers fixed.
pub const PROB_FIXEDMILP: i32 = 3;

/// Message of the error for a problem type that `solve` does not handle.
pub const UNSUPPORTED_PROBLEM: &'static str = "The problem type is not supported by solve";

/// The optimizer entry point that a problem type calls for.
#[derive(Clone, Copy, PartialEq, Eq, Structural, Debug)]
pub enum Optimizer {
    /// The continuous linear optimizer.
    Lp,
    /// The mixed-integer optimizer.
    Mip,
}

/// The optimizer for a native problem type: the linear one for a continuous
/// problem, the mixed-integer one for a mixed-integer problem, fixed or not;
/// none for any other type.
pub fn optimizer_for(prob_type: i32) -> (r: Option<Optimizer>)
    ensures
        r == if prob_type == PROB_LP {
            Some(Optimizer::Lp)
        } else if prob_type == PROB_MILP || prob_type == PROB_FIXEDMILP {
            Some(Optimizer::Mip)
        } else {
            None
        },
{
    if prob_type == PROB_LP {
        Some(Optimizer::Lp)
    } else if prob_type == PROB_MILP || prob_type == PROB_FIXEDMILP {
        Some(Optimizer::Mip)
    } else {
        None
    }
}

/// Number of solution values in the column range `begin..=end`; zero for an
/// empty range, which the native library then judges.
pub fn solution_len(begin: i32, end: i32) -> (r: u64)
    ensures
        r == if begin <= end { end - begin + 1 } else { 0 },
{
    if begin <= end {
        (end as i64 - begin as i64 + 1) as u64
    } else {
        0
    }
}

/// `n` copies of `x`.
fn filled<T: Copy>(x: T, n: usize) -> (r: Vec<T>)
    ensures
        r@.len() == n,
        forall|j: int| 0 <= j < n ==> r@[j] == x,
{
    let mut r: Vec<T> = Vec::new();
    let mut k: usize = 0;
    while k < n
        invariant
            k <= n,
            r@.len() == k,
            forall|j: int| 0 <= j < k ==> r@[j] == x,
        decreases n - k,
    {
        r.push(x);
        k = k + 1;
    }
    r
}

/// `n` absent names.
fn no_names(n: usize) -> (r: Vec<Option<String>>)
    ensures
        r@.len() == n,
        forall|j: int| 0 <= j < n ==> r@[j] is None,
{
    let mut r: Vec<Option<String>> = Vec::new();
    let mut k: usize = 0;
    while k < n
        invariant
            k <= n,
            r@.len() == k,
            forall|j: int| 0 <= j < k ==> r@[j] is None,
        decreases n - k,
    {
        r.push(None);
        k = k + 1;
    }
    r
}

/// A copy of `v`.
fn copy_reals(v: &Vec<Real>) -> (r: Vec<Real>)
    ensures
        r@ == v@,
{
    let mut r: Vec<Real> = Vec::new();
    let mut k: usize = 0;
    while k < v.len()
        invariant
            k <= v@.len(),
            r@ == v@.take(k as int),
        decreases v@.len() - k,
    {
        r.push(v[k]);
        proof {
            assert(v@.take(k + 1) =~= v@.take(k as int).push(v@[k as int]));
        }
        k = k + 1;
    }
    proof {
        assert(v@.take(v@.len() as int) =~= v@);
    }
    r
}

/// Whether every term of `terms` names a column below `n`.
fn terms_in_range(terms: &Vec<(usize, Real)>, n: usize) -> (r: bool)
    ensures
        r == terms_within(terms@, n as int),
{
    let mut t: usize = 0;
    while t < terms.len()
        invariant
            t <= terms@.len(),
            forall|q: int| 0 <= q < t ==> (#[trigger] terms@[q]).0 < n,
        decreases terms@.len() - t,
    {
        if terms[t].0 >= n {
            assert(terms@[t as int].0 >= n);
            return false;
        }
        t = t + 1;
    }
    true
}

impl ExtractableModel for Model {
    open spec fn spec_failure(&self) -> Option<Seq<char>> {
        extract_failure(*self)
    }

    open spec fn spec_describes(&self, d: ProblemData) -> bool {
        describes(d, *self)
    }

    fn extract(self) -> (r: Result<ProblemData, Error>) {
        let n = self.vars.len();
        let rows = self.constraints.len();
        if n > MAX_DIM || rows > MAX_DIM {
            return Err(Error::custom_error(TOO_LARGE));
        }
        let ghost vars = self.vars@;
        let ghost cs = self.constraints@;

        // columns, indexed by serial number
        let mut lb = filled(Real::lowest(), n);
        let mut ub = filled(Real::highest(), n);
        let mut ctype = filled(VarType::Numeric.code(), n);
        let mut colnames = no_names(n);
        let mut k: usize = 0;
        while k < n
            invariant
                vars == self.vars@,
                n == vars.len(),
                n <= MAX_DIM,
                rows == cs.len(),
                rows <= MAX_DIM,
                cs == self.constraints@,
                k <= n,
                lb@.len() == n,
                ub@.len() == n,
                ctype@.len() == n,
                colnames@.len() == n,
                forall|q: int| 0 <= q < k ==> (#[trigger] vars[q]).spec_index() < n,
                forall|j: int|
                    0 <= j < n ==> #[trigger] column_loaded(
                        lb@,
                        ub@,
                        ctype@,
                        colnames@,
                        vars.take(k as int),
                        j,
                    ),
            decreases n - k,
        {
            let v = &self.vars[k];
            if v.index >= n {
                return Err(Error::custom_error(UNKNOWN_VARIABLE));
            }
            let ghost before = vars.take(k as int);
            let ghost old_lb = lb;
            let ghost old_ub = ub;
            let ghost old_ctype = ctype;
            let ghost old_colnames = colnames;
            lb.set(v.index, v.lb);
            ub.set(v.index, v.ub);
            ctype.set(v.index, v.kind.code());
            colnames.set(v.index, crate::model::clone_name(&v.name));
            proof {
                let after = vars.take(k + 1);
                assert(after.drop_last() =~= before);
                assert(after.last() == vars[k as int]);
                assert forall|j: int| 0 <= j < n implies #[trigger] column_loaded(
                    lb@,
                    ub@,
                    ctype@,
                    colnames@,
                    after,
                    j,
                ) by {
                    if j != v.index {
                        assert(column_var(after, j) == column_var(before, j));
                        assert(column_loaded(old_lb@, old_ub@, old_ctype@, old_colnames@, before, j));
                    }
                }
            }
            k = k + 1;
        }
        proof {
            assert(vars.take(n as int) =~= vars);
            assert(vars_within(vars, n as int));
        }

        // rows, in serial order
        let mut sense: Vec<u8> = Vec::new();
        let mut rhs: Vec<Real> = Vec::new();
        let mut rhs_offsets: Vec<Vec<Real>> = Vec::new();
        let mut rownames: Vec<Option<String>> = Vec::new();
        let mut matbeg: Vec<i64> = Vec::new();
        let mut matcnt: Vec<i32> = Vec::new();
        let mut matind: Vec<i32> = Vec::new();
        let mut matval: Vec<Real> = Vec::new();
        let mut i: usize = 0;
        proof {
            assert(cs.subrange(0, rows as int) =~= cs);
        }
        while i < rows
            invariant
                vars == self.vars@,
                cs == self.constraints@,
                n == vars.len(),
                n <= MAX_DIM,
                rows == cs.len(),
                rows <= MAX_DIM,
                vars_within(vars, n as int),
                i <= rows,
                rows_failure(cs, n as int, 0) == rows_failure(
                    cs.subrange(i as int, rows as int),
                    n as int,
                    matind@.len() as int,
                ),
                matind@.len() == flat_terms(cs.take(i as int)).len(),
                matind@.len() <= MAX_NNZ,
                matval@.len() == matind@.len(),
                forall|t: int|
                    0 <= t < matind@.len() ==> matind@[t] == (#[trigger] flat_terms(
                        cs.take(i as int),
                    )[t]).0,
                forall|t: int|
                    0 <= t < matind@.len() ==> matval@[t] == flat_terms(cs.take(i as int))[t].1,
                sense@.len() == i,
                rhs@.len() == i,
                rhs_offsets@.len() == i,
                rownames@.len() == i,
                matbeg@.len() == i,
                matcnt@.len() == i,
                forall|q: int|
                    0 <= q < i ==> #[trigger] row_loaded(
                        sense@,
                        rhs@,
                        rhs_offsets@,
                        rownames@,
                        matbeg@,
                        matcnt@,
                        cs,
                        q,
                    ),
            decreases rows - i,
        {
            let c = &self.constraints[i];
            let ghost suffix = cs.subrange(i as int, rows as int);
            let ghost nnz = matind@.len() as int;
            proof {
                assert(suffix[0] == cs[i as int]);
                assert(suffix.drop_first() =~= cs.subrange(i + 1, rows as int));
            }
            let e = match &c.expr {
                None => {
                    return Err(Error::custom_error(MISSING_EXPRESSION));
                },
                Some(e) => e,
            };
            let len = e.terms.len();
            if !terms_in_range(&e.terms, n) {
                return Err(Error::custom_error(UNKNOWN_VARIABLE));
            }
            if len > MAX_DIM || len as u64 > MAX_NNZ - matind.len() as u64 {
                return Err(Error::custom_error(TOO_LARGE));
            }
            let ghost old_matind = matind@;
            let ghost old_matval = matval@;
            let ghost old_sense = sense@;
            let ghost old_rhs = rhs@;
            let ghost old_rhs_offsets = rhs_offsets@;
            let ghost old_rownames = rownames@;
            let ghost old_matbeg = matbeg@;
            let ghost old_matcnt = matcnt@;
            sense.push(c.sense.code());
            rhs.push(c.rhs);
            rhs_offsets.push(copy_reals(&e.offsets));
            rownames.push(crate::model::clone_name(&c.name));
            matbeg.push(matind.len() as i64);
            matcnt.push(len as i32);
            let mut t: usize = 0;
            while t < len
                invariant
                    len == e.terms@.len(),
                    t <= len,
                    terms_within(e.terms@, n as int),
                    n <= MAX_DIM,
                    matind@.len() == old_matind.len() + t,
                    matval@.len() == old_matval.len() + t,
                    matind@.take(old_matind.len() as int) == old_matind,
                    matval@.take(old_matval.len() as int) == old_matval,
                    forall|q: int|
                        0 <= q < t ==> matind@[old_matind.len() + q] == (#[trigger] e.terms@[q]).0,
                    forall|q: int|
                        0 <= q < t ==> matval@[old_matval.len() + q] == (#[trigger] e.terms@[q]).1,
                decreases len - t,
            {
                let (index, coef) = e.terms[t];
                assert(e.terms@[t as int].0 < n);
                matind.push(index as i32);
                matval.push(coef);
                proof {
                    assert(matind@.take(old_matind.len() as int) =~= old_matind);
                    assert(matval@.take(old_matval.len() as int) =~= old_matval);
                }
                t = t + 1;
            }
            proof {
                let before = cs.take(i as int);
                let after = cs.take(i + 1);
                assert(after.drop_last() =~= before);
                assert(after.last() == cs[i as int]);
                assert(row_terms(cs[i as int]) == e.terms@);
                assert(flat_terms(after) == flat_terms(before) + e.terms@);
                assert forall|t: int| 0 <= t < matind@.len() implies matind@[t] == (
                #[trigger] flat_terms(after)[t]).0 && matval@[t] == flat_terms(after)[t].1 by {
                    if t < old_matind.len() {
                        assert(matind@[t] == matind@.take(old_matind.len() as int)[t]);
                        assert(matval@[t] == matval@.take(old_matval.len() as int)[t]);
                    } else {
                        assert(e.terms@[t - old_matind.len()] == flat_terms(after)[t]);
                    }
                }
                assert forall|q: int| 0 <= q < i + 1 implies #[trigger] row_loaded(
                    sense@,
                    rhs@,
                    rhs_offsets@,
                    rownames@,
                    matbeg@,
                    matcnt@,
                    cs,
                    q,
                ) by {
                    if q < i {
                        assert(row_loaded(
                            old_sense,
                            old_rhs,
                            old_rhs_offsets,
                            old_rownames,
                            old_matbeg,
                            old_matcnt,
                            cs,
                            q,
                        ));
                    }
                }
            }
            i = i + 1;
        }
        proof {
            assert(cs.take(rows as int) =~= cs);
            assert(rows_failure(cs, n as int, 0) is None);
        }

        // objective, last coefficient of a column wins
        let o = match &self.obj_fun {
            None => {
                return Err(Error::custom_error(MISSING_OBJECTIVE));
            },
            Some(o) => o,
        };
        if !terms_in_range(&o.terms, n) {
            return Err(Error::custom_error(UNKNOWN_VARIABLE));
        }
        let mut obj = filled(Real::zero(), n);
        let len = o.terms.len();
        let ghost oterms = o.terms@;
        let mut t: usize = 0;
        while t < len
            invariant
                oterms == o.terms@,
                len == oterms.len(),
                n == vars.len(),
                t <= len,
                obj@.len() == n,
                terms_within(oterms, n as int),
                forall|j: int|
                    0 <= j < n ==> obj@[j] == #[trigger] objective_coef(oterms.take(t as int), j),
            decreases len - t,
        {
            let (index, coef) = o.terms[t];
            assert(oterms[t as int].0 < n);
            obj.set(index, coef);
            proof {
                let before = oterms.take(t as int);
                let after = oterms.take(t + 1);
                assert(after.drop_last() =~= before);
                assert(after.last() == oterms[t as int]);
                assert forall|j: int| 0 <= j < n implies obj@[j] == #[trigger] objective_coef(
                    after,
                    j,
                ) by {
                    if j != index {
                        assert(objective_coef(after, j) == objective_coef(before, j));
                    }
                }
            }
            t = t + 1;
        }
        proof {
            assert(oterms.take(len as int) =~= oterms);
        }
        Ok(ProblemData {
            numcols: n as i32,
            numrows: rows as i32,
            objsense: self.obj.code(),
            obj,
            rhs,
            rhs_offsets,
            sense,
            matbeg,
            matcnt,
            matind,
            matval,
            lb,
            ub,
            ctype,
            colnames,
            rownames,
        })
    }
}

} // verus!
