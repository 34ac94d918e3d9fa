//! The cell that owns its value.

use core::cell::Cell;
use core::marker::PhantomData;
use vstd::prelude::*;

use crate::borrowed::ReadRef;

verus! {

/// A value that can be read, but not written, through a shared reference.
///
/// The one way to change the value is [`ReadCell::get_mut`], which takes the
/// cell by exclusive reference. Like [`Cell`], a `ReadCell` is not `Sync`:
/// the first field is there to say so and holds nothing.
#[derive(Ord)]
pub struct ReadCell<T: ?Sized> {
    unshared: PhantomData<Cell<()>>,
    value: T,
}

impl<T: ?Sized> ReadCell<T> {
    /// The value that the cell holds.
    pub closed spec fn value(&self) -> &T {
        &self.value
    }
}

impl<T> View for ReadCell<T> {
    type V = T;

    open spec fn view(&self) -> T {
        *self.value()
    }
}

impl<T> ReadCell<T> {
    /// The cell that holds `value`.
    pub closed spec fn holding(value: T) -> ReadCell<T> {
        ReadCell { unshared: PhantomData, value }
    }

    /// The cell that holds `value` has `value` as its view.
    pub proof fn holding_views(value: T)
        ensures
            Self::holding(value)@ == value,
    {
    }

    /// Makes a cell that owns `value`.
    pub fn new(value: T) -> (cell: ReadCell<T>)
        ensures
            cell == Self::holding(value),
            cell@ == value,
    {
        ReadCell { unshared: PhantomData, value }
    }

    /// Takes the cell apart and gives back the value it owned.
    pub fn into_inner(self) -> (value: T)
        ensures
            value == self@,
    {
        self.value
    }
}

impl<T: Copy> ReadCell<T> {
    /// Copies the value out of the cell.
    pub fn get(&self) -> (value: T)
        ensures
            value == self@,
    {
        self.value
    }
}

impl<T: ?Sized> ReadCell<T> {
    /// The value in place, for the comparisons of this crate.
    pub(crate) fn peek(&self) -> (value: &T)
        ensures
            value == self.value(),
    {
        &self.value
    }

    /// Gives exclusive access to the value in the cell.
    ///
    /// The call borrows the cell mutably, so no other reference to the cell
    /// is alive while the returned one is. When that borrow ends, the cell
    /// holds what was last written through it.
    pub fn get_mut(&mut self) -> (slot: &mut T)
        ensures
            &*slot == old(self).value(),
            final(self).value() == &*final(slot),
    {
        &mut self.value
    }

    /// Returns a frozen handle on the cell's own value.
    ///
    /// While the handle lives the cell is borrowed, so the value stays as it
    /// is.
    pub fn borrow(&self) -> (handle: ReadRef<'_, T>)
        ensures
            handle.is_frozen(),
            handle.value() == self.value(),
    {
        ReadCell::from_ref(&self.value)
    }
}

impl<T> ReadCell<[T]> {
    /// Returns one frozen handle for each item of the slice in the cell, in
    /// order.
    pub fn as_slice_of_cells(&self) -> (handles: Vec<ReadRef<'_, T>>)
        ensures
            ReadRef::look_at(handles@, self.value()@),
    {
        ReadRef::of_items(&self.value)
    }
}

impl<T, const N: usize> ReadCell<[T; N]> {
    /// Returns an array of frozen handles, one for each item of the array in
    /// the cell, in order.
    pub fn as_array_of_cells(&self) -> (handles: [ReadRef<'_, T>; N])
        ensures
            ReadRef::look_at(handles@, self@@),
    {
        self.borrow().as_array_of_cells()
    }
}

impl<T: Copy> Clone for ReadCell<T> {
    /// Returns a new cell that holds a copy of the value.
    fn clone(&self) -> (copy: ReadCell<T>)
        ensures
            copy@ == self@,
    {
        ReadCell::new(self.get())
    }
}

impl<T: Default> Default for ReadCell<T> {
    /// Makes a cell that owns the default value of `T`.
    fn default() -> (cell: ReadCell<T>)
        ensures
            call_ensures(T::default, (), cell@),
    {
        ReadCell::new(T::default())
    }
}

impl<T> From<T> for ReadCell<T> {
    /// Makes a cell that owns `value`, as [`ReadCell::new`] does.
    fn from(value: T) -> (cell: ReadCell<T>)
        ensures
            cell@ == value,
    {
        ReadCell::new(value)
    }
}

impl<T> vstd::std_specs::convert::FromSpecImpl<T> for ReadCell<T> {
    open spec fn obeys_from_spec() -> bool {
        true
    }

    open spec fn from_spec(value: T) -> ReadCell<T> {
        ReadCell::holding(value)
    }
}

} // verus!
