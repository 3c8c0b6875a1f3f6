//! The change predicate on application data.

use vstd::prelude::*;

verus! {

/// Application data: a value that can be compared with an earlier version of
/// itself, to find out whether anything changed between two passes, and of
/// which a widget can keep a copy for that comparison.
pub trait Data: Sized {
    /// Whether two values count as the same.
    spec fn spec_same(&self, other: &Self) -> bool;

    /// Whether `other` counts as the same value as `self`.
    fn same(&self, other: &Self) -> (b: bool)
        ensures
            b == self.spec_same(other),
    ;

    /// A copy of the value.
    fn duplicate(&self) -> (r: Self)
        ensures
            r == *self,
    ;

    /// Every value is the same as itself.
    proof fn lemma_same_reflexive(&self)
        ensures
            self.spec_same(self),
    ;
}

impl Data for bool {
    open spec fn spec_same(&self, other: &Self) -> bool {
        *self == *other
    }

    fn same(&self, other: &Self) -> (b: bool) {
        *self == *other
    }

    fn duplicate(&self) -> (r: Self) {
        *self
    }

    proof fn lemma_same_reflexive(&self) {
    }
}

impl Data for u32 {
    open spec fn spec_same(&self, other: &Self) -> bool {
        *self == *other
    }

    fn same(&self, other: &Self) -> (b: bool) {
        *self == *other
    }

    fn duplicate(&self) -> (r: Self) {
        *self
    }

    proof fn lemma_same_reflexive(&self) {
    }
}

impl Data for u64 {
    open spec fn spec_same(&self, other: &Self) -> bool {
        *self == *other
    }

    fn same(&self, other: &Self) -> (b: bool) {
        *self == *other
    }

    fn duplicate(&self) -> (r: Self) {
        *self
    }

    proof fn lemma_same_reflexive(&self) {
    }
}

impl Data for i64 {
    open spec fn spec_same(&self, other: &Self) -> bool {
        *self == *other
    }

    fn same(&self, other: &Self) -> (b: bool) {
        *self == *other
    }

    fn duplicate(&self) -> (r: Self) {
        *self
    }

    proof fn lemma_same_reflexive(&self) {
    }
}

impl Data for String {
    /// Two strings are the same where they hold the same characters.
    open spec fn spec_same(&self, other: &Self) -> bool {
        self@ == other@
    }

    fn same(&self, other: &Self) -> (b: bool) {
        *self == *other
    }

    fn duplicate(&self) -> (r: Self) {
        self.clone()
    }

    proof fn lemma_same_reflexive(&self) {
    }
}

impl<A: Data, B: Data> Data for (A, B) {
    /// A pair is the same where both parts are.
    open spec fn spec_same(&self, other: &Self) -> bool {
        self.0.spec_same(&other.0) && self.1.spec_same(&other.1)
    }

    fn same(&self, other: &Self) -> (b: bool) {
        self.0.same(&other.0) && self.1.same(&other.1)
    }

    fn duplicate(&self) -> (r: Self) {
        (self.0.duplicate(), self.1.duplicate())
    }

    proof fn lemma_same_reflexive(&self) {
        self.0.lemma_same_reflexive();
        self.1.lemma_same_reflexive();
    }
}

impl<T: Data> Data for Option<T> {
    /// Two optional values are the same where both are absent, or both are
    /// present and the same.
    open spec fn spec_same(&self, other: &Self) -> bool {
        match (*self, *other) {
            (Some(a), Some(b)) => a.spec_same(&b),
            (None, None) => true,
            _ => false,
        }
    }

    fn same(&self, other: &Self) -> (b: bool) {
        match self {
            Some(a) => match other {
                Some(b) => a.same(b),
                None => false,
            },
            None => match other {
                Some(_) => false,
                None => true,
            },
        }
    }

    fn duplicate(&self) -> (r: Self) {
        match self {
            Some(a) => Some(a.duplicate()),
            None => None,
        }
    }

    proof fn lemma_same_reflexive(&self) {
        match *self {
            Some(a) => {
                a.lemma_same_reflexive();
            },
            None => {},
        }
    }
}

} // verus!
