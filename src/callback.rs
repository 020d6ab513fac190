//! Decisions of the callback bridge: which closures are registered, what the
//! solver is told when one is absent, and how a cut crosses the boundary.
use vstd::prelude::*;

use crate::error::{Error, PrivateErrorConstructor};
use crate::model::{Expr, Sense};
use crate::problem::{MAX_DIM, TOO_LARGE};
use crate::scalar::Real;

verus! {

/// Return values of callbacks advise the solver on further calculations.
///
/// The meaning of the values depends on the type and context of the callback.
#[derive(Clone, Copy, PartialEq, Eq, Structural, Debug)]
pub enum Action {
    /// The default action.
    Default,
    /// Abort the solve, dismiss all values set.
    Fail,
    /// Use the values set.
    SetValues,
    /// Abort the cut loop of this node and go on with branch and cut. Only the
    /// user-cut callback may return it.
    AbortLoop,
}

impl Action {
    /// Native code of the action.
    pub open spec fn spec_code(self) -> i32 {
        match self {
            Action::Default => 0,
            Action::Fail => 1,
            Action::SetValues => 2,
            Action::AbortLoop => 3,
        }
    }

    /// Native code of the action.
    pub fn code(&self) -> (r: i32)
        ensures
            r == self.spec_code(),
    {
        match self {
            Action::Default => 0,
            Action::Fail => 1,
            Action::SetValues => 2,
            Action::AbortLoop => 3,
        }
    }
}

/// Action code told to the solver after a user-cut callback: that of the
/// closure's answer, or the default action where no closure is registered.
pub fn user_cut_reply(answer: Option<Action>) -> (code: i32)
    ensures
        code == match answer {
            Some(a) => a.spec_code(),
            None => Action::Default.spec_code(),
        },
{
    match answer {
        Some(a) => a.code(),
        None => Action::Default.code(),
    }
}

/// Flag and action code told to the solver after an incumbent or heuristic
/// callback: the closure's answer, with the flag as `1` or `0`; where no
/// closure is registered, flag `0` and the default action.
pub fn decision_reply(answer: Option<(bool, Action)>) -> (r: (i32, i32))
    ensures
        r == match answer {
            Some((flag, a)) => (if flag { 1i32 } else { 0i32 }, a.spec_code()),
            None => (0i32, Action::Default.spec_code()),
        },
{
    match answer {
        Some((flag, a)) => (
            if flag {
                1
            } else {
                0
            },
            a.code(),
        ),
        None => (0, Action::Default.code()),
    }
}

/// A cut as the native cut-injection call takes it: parallel arrays of column
/// indices and coefficients, the comparison code, the right-hand side, and
/// whether the solver may purge it (`1`) or not (`0`).
#[derive(Debug)]
pub struct Cut {
    pub ind: Vec<i32>,
    pub val: Vec<Real>,
    pub sense: i32,
    pub rhs: Real,
    pub purgeable: i32,
}

impl Cut {
    /// The cut `expr sense rhs`: the terms of `expr`, in order, split into
    /// indices and coefficients. Fails, with code `0`, where the number of
    /// terms or an index exceeds the native index type.
    pub fn from_expr(expr: &Expr, sense: Sense, rhs: Real, purgeable: bool) -> (r: Result<Cut, Error>)
        ensures
            match r {
                Ok(c) => {
                    &&& expr.spec_terms().len() <= MAX_DIM
                    &&& c.ind@.len() == expr.spec_terms().len()
                    &&& c.val@.len() == expr.spec_terms().len()
                    &&& forall|k: int|
                        0 <= k < c.ind@.len() ==> c.ind@[k] == (#[trigger] expr.spec_terms()[k]).0
                    &&& forall|k: int| 0 <= k < c.val@.len() ==> c.val@[k] == expr.spec_terms()[k].1
                    &&& c.sense == sense.spec_code()
                    &&& c.rhs == rhs
                    &&& c.purgeable == if purgeable { 1i32 } else { 0i32 }
                },
                Err(e) => {
                    &&& e.spec_code() == 0
                    &&& e.spec_description() == TOO_LARGE@
                    &&& (expr.spec_terms().len() > MAX_DIM || exists|k: int|
                        0 <= k < expr.spec_terms().len() && (#[trigger] expr.spec_terms()[k]).0
                            > MAX_DIM)
                },
            },
            r is Err <==> (expr.spec_terms().len() > MAX_DIM || exists|k: int|
                0 <= k < expr.spec_terms().len() && (#[trigger] expr.spec_terms()[k]).0 > MAX_DIM),
    {
        let len = expr.terms.len();
        if len > MAX_DIM {
            return Err(Error::custom_error(TOO_LARGE));
        }
        let mut ind: Vec<i32> = Vec::new();
        let mut val: Vec<Real> = Vec::new();
        let mut t: usize = 0;
        while t < len
            invariant
                len == expr.terms@.len(),
                t <= len,
                ind@.len() == t,
                val@.len() == t,
                forall|k: int| 0 <= k < t ==> (#[trigger] expr.terms@[k]).0 <= MAX_DIM,
                forall|k: int| 0 <= k < t ==> ind@[k] == (#[trigger] expr.terms@[k]).0,
                forall|k: int| 0 <= k < t ==> val@[k] == (#[trigger] expr.terms@[k]).1,
            decreases len - t,
        {
            let (index, coef) = expr.terms[t];
            if index > MAX_DIM {
                assert(expr.terms@[t as int].0 > MAX_DIM);
                return Err(Error::custom_error(TOO_LARGE));
            }
            ind.push(index as i32);
            val.push(coef);
            t = t + 1;
        }
        Ok(
            Cut {
                ind,
                val,
                sense: sense.code() as i32,
                rhs,
                purgeable: if purgeable {
                    1
                } else {
                    0
                },
            },
        )
    }
}

/// The closures registered on an environment, one optional slot per kind of
/// callback. A callback kind is handed to the solver exactly when its slot is
/// filled.
pub struct CallbackSlots<U, I, H> {
    user: Option<U>,
    incumbent: Option<I>,
    heuristic: Option<H>,
}

impl<U, I, H> CallbackSlots<U, I, H> {
    pub closed spec fn spec_user(&self) -> Option<U> {
        self.user
    }

    pub closed spec fn spec_incumbent(&self) -> Option<I> {
        self.incumbent
    }

    pub closed spec fn spec_heuristic(&self) -> Option<H> {
        self.heuristic
    }

    /// No slot filled.
    pub fn new() -> (r: Self)
        ensures
            r.spec_user() is None,
            r.spec_incumbent() is None,
            r.spec_heuristic() is None,
    {
        CallbackSlots { user: None, incumbent: None, heuristic: None }
    }

    /// The slots after registering `f` as user-cut closure.
    pub closed spec fn after_set_user(self, f: U) -> Self {
        CallbackSlots { user: Some(f), ..self }
    }

    /// The slots after clearing the user-cut closure.
    pub closed spec fn after_clear_user(self) -> Self {
        CallbackSlots { user: None, ..self }
    }

    /// Register `f` as user-cut closure; a closure registered before is dropped.
    pub fn set_user(&mut self, f: U)
        ensures
            *final(self) == old(self).after_set_user(f),
            final(self).spec_user() == Some(f),
    {
        self.user = Some(f);
    }

    /// Clear the user-cut closure.
    pub fn clear_user(&mut self)
        ensures
            *final(self) == old(self).after_clear_user(),
            final(self).spec_user() is None,
    {
        self.user = None;
    }

    /// Whether a user-cut closure is registered.
    pub fn has_user(&self) -> (r: bool)
        ensures
            r == self.spec_user() is Some,
    {
        self.user.is_some()
    }

    /// The registered user-cut closure, to call it.
    pub fn user_mut(&mut self) -> (r: Option<&mut U>)
        ensures
            r is Some == old(self).spec_user() is Some,
            match r {
                Some(p) => old(self).spec_user() == Some(*p) && final(self).spec_user() == Some(*final(p)),
                None => final(self).spec_user() is None,
            },
            final(self).spec_incumbent() == old(self).spec_incumbent(),
            final(self).spec_heuristic() == old(self).spec_heuristic(),
    {
        self.user.as_mut()
    }

    /// The slots after registering `f` as incumbent closure.
    pub closed spec fn after_set_incumbent(self, f: I) -> Self {
        CallbackSlots { incumbent: Some(f), ..self }
    }

    /// The slots after clearing the incumbent closure.
    pub closed spec fn after_clear_incumbent(self) -> Self {
        CallbackSlots { incumbent: None, ..self }
    }

    /// Register `f` as incumbent closure; a closure registered before is dropped.
    pub fn set_incumbent(&mut self, f: I)
        ensures
            *final(self) == old(self).after_set_incumbent(f),
            final(self).spec_incumbent() == Some(f),
    {
        self.incumbent = Some(f);
    }

    /// Clear the incumbent closure.
    pub fn clear_incumbent(&mut self)
        ensures
            *final(self) == old(self).after_clear_incumbent(),
            final(self).spec_incumbent() is None,
    {
        self.incumbent = None;
    }

    /// Whether a incumbent closure is registered.
    pub fn has_incumbent(&self) -> (r: bool)
        ensures
            r == self.spec_incumbent() is Some,
    {
        self.incumbent.is_some()
    }

    /// The registered incumbent closure, to call it.
    pub fn incumbent_mut(&mut self) -> (r: Option<&mut I>)
        ensures
            r is Some == old(self).spec_incumbent() is Some,
            match r {
                Some(p) => old(self).spec_incumbent() == Some(*p) && final(self).spec_incumbent() == Some(*final(p)),
                None => final(self).spec_incumbent() is None,
            },
            final(self).spec_user() == old(self).spec_user(),
            final(self).spec_heuristic() == old(self).spec_heuristic(),
    {
        self.incumbent.as_mut()
    }

    /// The slots after registering `f` as heuristic closure.
    pub closed spec fn after_set_heuristic(self, f: H) -> Self {
        CallbackSlots { heuristic: Some(f), ..self }
    }

    /// The slots after clearing the heuristic closure.
    pub closed spec fn after_clear_heuristic(self) -> Self {
        CallbackSlots { heuristic: None, ..self }
    }

    /// Register `f` as heuristic closure; a closure registered before is dropped.
    pub fn set_heuristic(&mut self, f: H)
        ensures
            *final(self) == old(self).after_set_heuristic(f),
            final(self).spec_heuristic() == Some(f),
    {
        self.heuristic = Some(f);
    }

    /// Clear the heuristic closure.
    pub fn clear_heuristic(&mut self)
        ensures
            *final(self) == old(self).after_clear_heuristic(),
            final(self).spec_heuristic() is None,
    {
        self.heuristic = None;
    }

    /// Whether a heuristic closure is registered.
    pub fn has_heuristic(&self) -> (r: bool)
        ensures
            r == self.spec_heuristic() is Some,
    {
        self.heuristic.is_some()
    }

    /// The registered heuristic closure, to call it.
    pub fn heuristic_mut(&mut self) -> (r: Option<&mut H>)
        ensures
            r is Some == old(self).spec_heuristic() is Some,
            match r {
                Some(p) => old(self).spec_heuristic() == Some(*p) && final(self).spec_heuristic() == Some(*final(p)),
                None => final(self).spec_heuristic() is None,
            },
            final(self).spec_user() == old(self).spec_user(),
            final(self).spec_incumbent() == old(self).spec_incumbent(),
    {
        self.heuristic.as_mut()
    }
}

/// Registering a closure of a kind that was not registered, then clearing it,
/// leaves the slots as they were: the solver sees no difference.
pub proof fn lemma_set_then_clear<U, I, H>(s: CallbackSlots<U, I, H>, u: U, i: I, h: H)
    ensures
        s.spec_user() is None ==> s.after_set_user(u).after_clear_user() == s,
        s.spec_incumbent() is None ==> s.after_set_incumbent(i).after_clear_incumbent() == s,
        s.spec_heuristic() is None ==> s.after_set_heuristic(h).after_clear_heuristic() == s,
{
}

/// Registering twice keeps only the second closure.
pub proof fn lemma_set_replaces<U, I, H>(s: CallbackSlots<U, I, H>, u1: U, u2: U)
    ensures
        s.after_set_user(u1).after_set_user(u2) == s.after_set_user(u2),
{
}

} // verus!
