//! Equality by value: two values are equal when their mathematical views are.

use vstd::prelude::*;

verus! {

/// Comparison by value, agreeing with the view.
pub trait Equals: DeepView + Sized {
    fn equals(&self, other: &Self) -> (r: bool)
        ensures
            r == (self.deep_view() == other.deep_view()),
    ;
}

impl Equals for String {
    fn equals(&self, other: &Self) -> (r: bool) {
        *self == *other
    }
}

impl Equals for usize {
    fn equals(&self, other: &Self) -> (r: bool) {
        *self == *other
    }
}

impl Equals for i32 {
    fn equals(&self, other: &Self) -> (r: bool) {
        *self == *other
    }
}

impl Equals for i64 {
    fn equals(&self, other: &Self) -> (r: bool) {
        *self == *other
    }
}

impl Equals for u8 {
    fn equals(&self, other: &Self) -> (r: bool) {
        *self == *other
    }
}

impl Equals for u32 {
    fn equals(&self, other: &Self) -> (r: bool) {
        *self == *other
    }
}

impl Equals for u64 {
    fn equals(&self, other: &Self) -> (r: bool) {
        *self == *other
    }
}

impl Equals for bool {
    fn equals(&self, other: &Self) -> (r: bool) {
        *self == *other
    }
}

impl<A: Equals, B: Equals> Equals for (A, B) {
    fn equals(&self, other: &Self) -> (r: bool) {
        self.0.equals(&other.0) && self.1.equals(&other.1)
    }
}

impl<T: Equals> Equals for Option<T> {
    fn equals(&self, other: &Self) -> (r: bool) {
        match (self, other) {
            (Some(a), Some(b)) => a.equals(b),
            (None, None) => true,
            _ => false,
        }
    }
}

impl<T: Equals> Equals for Vec<T> {
    fn equals(&self, other: &Self) -> (r: bool) {
        if self.len() != other.len() {
            assert(self.deep_view().len() != other.deep_view().len());
            return false;
        }
        let mut i: usize = 0;
        while i < self.len()
            invariant
                self.len() == other.len(),
                i <= self.len(),
                forall|k: int| 0 <= k < i ==> self@[k].deep_view() == other@[k].deep_view(),
            decreases self.len() - i,
        {
            if !self[i].equals(&other[i]) {
                assert(self.deep_view()[i as int] != other.deep_view()[i as int]);
                return false;
            }
            i = i + 1;
        }
        assert(self.deep_view() =~= other.deep_view());
        true
    }
}

} // verus!
