//! Equality and order of cells and of handles: those of the values read
//! from them.

use core::cmp::Ordering;
use vstd::prelude::*;
use vstd::std_specs::cmp::OrdSpec;
use vstd::std_specs::cmp::PartialEqSpec;
use vstd::std_specs::cmp::PartialOrdSpec;

use crate::borrowed::ReadRef;
use crate::owned::ReadCell;

verus! {

impl<T: PartialEq + ?Sized> PartialEq for ReadCell<T> {
    fn eq(&self, other: &ReadCell<T>) -> (same: bool) {
        *self.peek() == *other.peek()
    }
}

impl<T: PartialEq + ?Sized> vstd::std_specs::cmp::PartialEqSpecImpl for ReadCell<T> {
    open spec fn obeys_eq_spec() -> bool {
        T::obeys_eq_spec()
    }

    open spec fn eq_spec(&self, other: &ReadCell<T>) -> bool {
        self.value().eq_spec(other.value())
    }
}

impl<T: Eq + ?Sized> Eq for ReadCell<T> {

}

impl<T: PartialOrd + ?Sized> PartialOrd for ReadCell<T> {
    fn partial_cmp(&self, other: &ReadCell<T>) -> (order: Option<Ordering>) {
        self.peek().partial_cmp(other.peek())
    }

    fn lt(&self, other: &ReadCell<T>) -> (below: bool) {
        *self.peek() < *other.peek()
    }

    fn le(&self, other: &ReadCell<T>) -> (at_most: bool) {
        *self.peek() <= *other.peek()
    }

    fn gt(&self, other: &ReadCell<T>) -> (above: bool) {
        *self.peek() > *other.peek()
    }

    fn ge(&self, other: &ReadCell<T>) -> (at_least: bool) {
        *self.peek() >= *other.peek()
    }
}

impl<T: PartialOrd + ?Sized> vstd::std_specs::cmp::PartialOrdSpecImpl for ReadCell<T> {
    open spec fn obeys_partial_cmp_spec() -> bool {
        T::obeys_partial_cmp_spec()
    }

    open spec fn partial_cmp_spec(&self, other: &ReadCell<T>) -> Option<Ordering> {
        self.value().partial_cmp_spec(other.value())
    }
}

impl<T: Ord + ?Sized> ReadCell<T> {
    /// Compares the values of two cells.
    ///
    /// The `Ord` of this type is derived and calls the same comparison of
    /// `T`; this method is the one with a contract.
    pub fn cmp(&self, other: &ReadCell<T>) -> (order: Ordering)
        ensures
            T::obeys_cmp_spec() ==> order == self.value().cmp_spec(other.value()),
    {
        self.peek().cmp(other.peek())
    }
}

/// Two handles are compared by the values read through them at the moment of
/// the call, never by where they look.
///
/// What a handle on a cell reads is not a function of the handle, so the
/// comparison of handles has no `eq_spec` to obey; the contract of `eq` says
/// which values were compared.
impl<'a, T: PartialEq + Copy> PartialEq for ReadRef<'a, T> {
    fn eq(&self, other: &ReadRef<'a, T>) -> (same: bool)
        ensures
            T::obeys_eq_spec() && self.is_frozen() && other.is_frozen() ==> same
                == self.value().eq_spec(other.value()),
            exists|left: T, right: T|
                #![trigger self.reads(left), other.reads(right)]
                self.reads(left) && other.reads(right) && (T::obeys_eq_spec() ==> same
                    == left.eq_spec(&right)),
    {
        let left = self.get();
        let right = other.get();
        let same = left == right;
        assert(self.reads(left) && other.reads(right) && (T::obeys_eq_spec() ==> same
            == left.eq_spec(&right)));
        same
    }
}

impl<'a, T: PartialEq + Copy> vstd::std_specs::cmp::PartialEqSpecImpl for ReadRef<'a, T> {
    open spec fn obeys_eq_spec() -> bool {
        false
    }

    open spec fn eq_spec(&self, other: &ReadRef<'a, T>) -> bool {
        self.value().eq_spec(other.value())
    }
}

impl<'a, T: Eq + Copy> Eq for ReadRef<'a, T> {

}

impl<'a, T: PartialOrd + Copy> PartialOrd for ReadRef<'a, T> {
    fn partial_cmp(&self, other: &ReadRef<'a, T>) -> (order: Option<Ordering>)
        ensures
            T::obeys_partial_cmp_spec() && self.is_frozen() && other.is_frozen() ==> order == self.value().partial_cmp_spec(other.value()),
            exists|left: T, right: T|
                #![trigger self.reads(left), other.reads(right)]
                self.reads(left) && other.reads(right) && (T::obeys_partial_cmp_spec()
                    ==> order == left.partial_cmp_spec(&right)),
    {
        let left = self.get();
        let right = other.get();
        let order = left.partial_cmp(&right);
        assert(self.reads(left) && other.reads(right) && (T::obeys_partial_cmp_spec()
            ==> order == left.partial_cmp_spec(&right)));
        order
    }

    fn lt(&self, other: &ReadRef<'a, T>) -> (below: bool)
        ensures
            T::obeys_partial_cmp_spec() && self.is_frozen() && other.is_frozen() ==> (below <==> self.value().partial_cmp_spec(other.value()) == Some(Ordering::Less)),
            exists|left: T, right: T|
                #![trigger self.reads(left), other.reads(right)]
                self.reads(left) && other.reads(right) && (T::obeys_partial_cmp_spec()
                    ==> (below <==> left.partial_cmp_spec(&right) == Some(Ordering::Less))),
    {
        let left = self.get();
        let right = other.get();
        let below = left < right;
        assert(self.reads(left) && other.reads(right) && (T::obeys_partial_cmp_spec()
            ==> (below <==> left.partial_cmp_spec(&right) == Some(Ordering::Less))));
        below
    }

    fn le(&self, other: &ReadRef<'a, T>) -> (at_most: bool)
        ensures
            T::obeys_partial_cmp_spec() && self.is_frozen() && other.is_frozen() ==> (at_most <==> self.value().partial_cmp_spec(other.value()) matches Some(Ordering::Less | Ordering::Equal)),
            exists|left: T, right: T|
                #![trigger self.reads(left), other.reads(right)]
                self.reads(left) && other.reads(right) && (T::obeys_partial_cmp_spec()
                    ==> (at_most <==> left.partial_cmp_spec(&right) matches Some(Ordering::Less | Ordering::Equal))),
    {
        let left = self.get();
        let right = other.get();
        let at_most = left <= right;
        assert(self.reads(left) && other.reads(right) && (T::obeys_partial_cmp_spec()
            ==> (at_most <==> left.partial_cmp_spec(&right) matches Some(Ordering::Less | Ordering::Equal))));
        at_most
    }

    fn gt(&self, other: &ReadRef<'a, T>) -> (above: bool)
        ensures
            T::obeys_partial_cmp_spec() && self.is_frozen() && other.is_frozen() ==> (above <==> self.value().partial_cmp_spec(other.value()) == Some(Ordering::Greater)),
            exists|left: T, right: T|
                #![trigger self.reads(left), other.reads(right)]
                self.reads(left) && other.reads(right) && (T::obeys_partial_cmp_spec()
                    ==> (above <==> left.partial_cmp_spec(&right) == Some(Ordering::Greater))),
    {
        let left = self.get();
        let right = other.get();
        let above = left > right;
        assert(self.reads(left) && other.reads(right) && (T::obeys_partial_cmp_spec()
            ==> (above <==> left.partial_cmp_spec(&right) == Some(Ordering::Greater))));
        above
    }

    fn ge(&self, other: &ReadRef<'a, T>) -> (at_least: bool)
        ensures
            T::obeys_partial_cmp_spec() && self.is_frozen() && other.is_frozen() ==> (at_least <==> self.value().partial_cmp_spec(other.value()) matches Some(Ordering::Greater | Ordering::Equal)),
            exists|left: T, right: T|
                #![trigger self.reads(left), other.reads(right)]
                self.reads(left) && other.reads(right) && (T::obeys_partial_cmp_spec()
                    ==> (at_least <==> left.partial_cmp_spec(&right) matches Some(Ordering::Greater | Ordering::Equal))),
    {
        let left = self.get();
        let right = other.get();
        let at_least = left >= right;
        assert(self.reads(left) && other.reads(right) && (T::obeys_partial_cmp_spec()
            ==> (at_least <==> left.partial_cmp_spec(&right) matches Some(Ordering::Greater | Ordering::Equal))));
        at_least
    }
}

impl<'a, T: PartialOrd + Copy> vstd::std_specs::cmp::PartialOrdSpecImpl for ReadRef<'a, T> {
    open spec fn obeys_partial_cmp_spec() -> bool {
        false
    }

    open spec fn partial_cmp_spec(&self, other: &ReadRef<'a, T>) -> Option<Ordering> {
        self.value().partial_cmp_spec(other.value())
    }
}

impl<'a, T: Ord + Copy> ReadRef<'a, T> {
    /// Compares the values read through two handles at the moment of the
    /// call.
    pub fn cmp(&self, other: &ReadRef<'a, T>) -> (order: Ordering)
        ensures
            T::obeys_cmp_spec() && self.is_frozen() && other.is_frozen() ==> order
                == self.value().cmp_spec(other.value()),
            exists|left: T, right: T|
                #![trigger self.reads(left), other.reads(right)]
                self.reads(left) && other.reads(right) && (T::obeys_cmp_spec() ==> order
                    == left.cmp_spec(&right)),
    {
        let left = self.get();
        let right = other.get();
        let order = left.cmp(&right);
        assert(self.reads(left) && other.reads(right) && (T::obeys_cmp_spec() ==> order
            == left.cmp_spec(&right)));
        order
    }
}

} // verus!
