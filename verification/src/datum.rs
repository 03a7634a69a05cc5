//! Copying and comparing values by their mathematical content.

use std::collections::VecDeque;
use vstd::prelude::*;

verus! {

/// A value that can be copied with its content.
pub trait Datum: DeepView + Sized {
    /// An independent value with the same content.
    fn replica(&self) -> (copy: Self)
        ensures
            copy.deep_view() == self.deep_view(),
    ;
}

/// A value whose content can be compared.
pub trait Same: DeepView + Sized {
    /// Whether both values have the same content.
    fn same(&self, other: &Self) -> (same: bool)
        ensures
            same == (self.deep_view() == other.deep_view()),
    ;
}

impl Datum for String {
    fn replica(&self) -> (copy: Self) {
        self.clone()
    }
}

impl Same for String {
    fn same(&self, other: &Self) -> (same: bool) {
        *self == *other
    }
}

impl<T: Datum> Datum for Option<T> {
    fn replica(&self) -> (copy: Self) {
        match self {
            Some(value) => Some(value.replica()),
            None => None,
        }
    }
}

impl<T: Same> Same for Option<T> {
    fn same(&self, other: &Self) -> (same: bool) {
        match (self, other) {
            (Some(left), Some(right)) => left.same(right),
            (None, None) => true,
            _ => false,
        }
    }
}

impl<T: Datum> Datum for Vec<T> {
    fn replica(&self) -> (copy: Self) {
        let mut copy: Vec<T> = Vec::with_capacity(self.len());
        let mut index: usize = 0;
        while index < self.len()
            invariant
                index <= self.len(),
                copy.len() == index,
                forall|i: int| 0 <= i < index ==> copy[i].deep_view() == self[i].deep_view(),
            decreases self.len() - index,
        {
            copy.push(self[index].replica());
            index += 1;
        }
        assert(copy.deep_view() =~= self.deep_view());
        copy
    }
}

impl<T: Same> Same for Vec<T> {
    fn same(&self, other: &Self) -> (same: bool) {
        if self.len() != other.len() {
            assert(self.deep_view().len() != other.deep_view().len());
            return false;
        }
        let mut index: usize = 0;
        while index < self.len()
            invariant
                self.len() == other.len(),
                index <= self.len(),
                forall|i: int| 0 <= i < index ==> self[i].deep_view() == other[i].deep_view(),
            decreases self.len() - index,
        {
            if !self[index].same(&other[index]) {
                assert(self.deep_view()[index as int] != other.deep_view()[index as int]);
                return false;
            }
            index += 1;
        }
        assert(self.deep_view() =~= other.deep_view());
        true
    }
}

impl<T: Datum> Datum for VecDeque<T> {
    fn replica(&self) -> (copy: Self) {
        let mut copy: VecDeque<T> = VecDeque::new();
        let mut index: usize = 0;
        while index < self.len()
            invariant
                index <= self.len(),
                copy.len() == index,
                forall|i: int| 0 <= i < index ==> copy@[i].deep_view() == self@[i].deep_view(),
            decreases self.len() - index,
        {
            copy.push_back(self[index].replica());
            index += 1;
        }
        assert(copy.deep_view() =~= self.deep_view());
        copy
    }
}

} // verus!
