//! Ownership of native handles.
//!
//! An environment or problem either owns its native handle, and releases it
//! once, or is a view over a handle that the solver lent during a callback, and
//! never releases it.
use vstd::prelude::*;

verus! {

/// Whether a native handle is owned, and whether it has been released.
#[derive(Clone, Copy, PartialEq, Eq, Structural, Debug)]
pub struct Ownership {
    owned: bool,
    released: bool,
}

impl Ownership {
    pub closed spec fn spec_owned(self) -> bool {
        self.owned
    }

    pub closed spec fn spec_released(self) -> bool {
        self.released
    }

    /// Whether a release is due, and the state after deciding it: a release is
    /// due for an owned handle that has not been released.
    pub open spec fn release_step(self) -> (Ownership, bool) {
        let due = self.spec_owned() && !self.spec_released();
        (Ownership::from_parts(self.spec_owned(), self.spec_released() || due), due)
    }

    pub closed spec fn from_parts(owned: bool, released: bool) -> Ownership {
        Ownership { owned, released }
    }

    /// A handle that this side created and must release.
    pub fn owning() -> (r: Ownership)
        ensures
            r.spec_owned(),
            !r.spec_released(),
    {
        Ownership { owned: true, released: false }
    }

    /// A handle lent by the solver, which must not be released here.
    pub fn borrowed() -> (r: Ownership)
        ensures
            !r.spec_owned(),
            !r.spec_released(),
    {
        Ownership { owned: false, released: false }
    }

    /// Whether the handle owns what it points to.
    pub fn is_owned(&self) -> (r: bool)
        ensures
            r == self.spec_owned(),
    {
        self.owned
    }

    /// Decide whether to release the handle now; after a `true` the handle
    /// counts as released.
    pub fn take_release(&mut self) -> (r: bool)
        ensures
            (*final(self), r) == old(self).release_step(),
            r == (old(self).spec_owned() && !old(self).spec_released()),
            final(self).spec_owned() == old(self).spec_owned(),
            final(self).spec_released() == (old(self).spec_released() || r),
    {
        let due = self.owned && !self.released;
        if due {
            self.released = true;
        }
        proof {
            assert(Ownership::from_parts(old(self).owned, old(self).released || due) == *self);
        }
        due
    }
}

/// A handle is released at most once, and a lent handle never.
pub proof fn lemma_release_at_most_once(o: Ownership)
    ensures
        !(o.release_step().1 && o.release_step().0.release_step().1),
        !o.spec_owned() ==> !o.release_step().1,
        o.spec_owned() && !o.spec_released() ==> o.release_step().1,
{
}

} // verus!
