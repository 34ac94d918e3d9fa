//! Read-only handles on locations that somebody else owns.

use core::cell::Cell;
use vstd::prelude::*;

use crate::owned::ReadCell;
use crate::std_cell::vec_into_array;

verus! {

/// Where a handle looks.
#[verifier::reject_recursive_types(T)]
enum Target<'a, T: ?Sized> {
    /// A location behind a plain shared reference.
    Plain(&'a T),
    /// A location inside a cell.
    InCell(&'a Cell<T>),
}

impl<'a, T: ?Sized> Clone for Target<'a, T> {
    fn clone(&self) -> (copy: Self)
        ensures
            copy == *self,
    {
        *self
    }
}

impl<'a, T: ?Sized> Copy for Target<'a, T> {

}

/// A read-only handle on a location that is also reachable through a plain
/// shared reference or through a [`Cell`].
///
/// A handle made from a plain reference is *frozen*: for as long as it
/// lives nobody can write to its location, so every read gives the same
/// value. A handle made from a cell is not: the cell's other users may set
/// it between two reads, and each read gives what the cell holds then.
///
/// A handle is copied like a reference. Two handles are compared by the
/// values read through them, and [`ReadRef::clone`] copies the value out
/// into a [`ReadCell`] of its own.
#[verifier::reject_recursive_types(T)]
pub struct ReadRef<'a, T: ?Sized> {
    target: Target<'a, T>,
}

/// Copies the handle, as a reference is copied. This is what makes the type
/// `Copy`; where `T` is `Copy`, `handle.clone()` is [`ReadRef::clone`], which
/// copies the value out into a cell of its own.
impl<'a, T: ?Sized> Clone for ReadRef<'a, T> {
    fn clone(&self) -> (copy: Self)
        ensures
            copy == *self,
    {
        *self
    }
}

impl<'a, T: ?Sized> Copy for ReadRef<'a, T> {

}

impl<'a, T: ?Sized> ReadRef<'a, T> {
    /// Whether the location cannot change while the handle lives.
    pub closed spec fn is_frozen(&self) -> bool {
        self.target is Plain
    }

    /// What a frozen handle's location holds.
    pub closed spec fn value(&self) -> &'a T {
        self.target->Plain_0
    }

    /// The cell that a handle looks into when it is not frozen.
    pub closed spec fn cell(&self) -> &'a Cell<T> {
        self.target->InCell_0
    }
}

impl<T: ?Sized> ReadCell<T> {
    /// Returns a read-only handle on the location behind a plain reference.
    pub fn from_ref<'a>(t: &'a T) -> (handle: ReadRef<'a, T>)
        ensures
            handle.is_frozen(),
            handle.value() == t,
    {
        ReadRef { target: Target::Plain(t) }
    }

    /// Returns a read-only handle on the location inside a cell.
    ///
    /// The cell stays usable: what is set through it shows in later reads of
    /// the handle.
    pub fn from_cell<'a>(t: &'a Cell<T>) -> (handle: ReadRef<'a, T>)
        ensures
            !handle.is_frozen(),
            handle.cell() == t,
    {
        ReadRef { target: Target::InCell(t) }
    }
}

impl<'a, T: Copy> ReadRef<'a, T> {
    /// Copies out the value at the location.
    ///
    /// A frozen handle gives the value that it was made on. A handle on a
    /// cell gives what [`Cell::get`] gives for its cell at the moment of the
    /// call.
    pub fn get(&self) -> (value: T)
        ensures
            self.is_frozen() ==> value == *self.value(),
            !self.is_frozen() ==> call_ensures(Cell::<T>::get, (self.cell(),), value),
    {
        match self.target {
            Target::Plain(t) => *t,
            Target::InCell(cell) => cell.get(),
        }
    }

    /// Whether `value` is what a read through the handle can give: the value
    /// of a frozen handle, or a result of [`Cell::get`] on the handle's cell.
    pub open spec fn reads(&self, value: T) -> bool {
        if self.is_frozen() {
            value == *self.value()
        } else {
            call_ensures(Cell::<T>::get, (self.cell(),), value)
        }
    }

    /// Makes a cell that owns a copy of the value now at the location.
    ///
    /// The new cell has nothing to do with the location any more: what is
    /// written there afterwards does not show in it.
    pub fn clone(&self) -> (copy: ReadCell<T>)
        ensures
            self.is_frozen() ==> copy@ == *self.value(),
            !self.is_frozen() ==> call_ensures(Cell::<T>::get, (self.cell(),), copy@),
    {
        ReadCell::new(self.get())
    }
}

impl<'a, T> ReadRef<'a, T> {
    /// Whether `handles` are frozen handles on `items`, one for each item,
    /// in order.
    pub open spec fn look_at(handles: Seq<ReadRef<'a, T>>, items: Seq<T>) -> bool {
        &&& handles.len() == items.len()
        &&& forall|i: int|
            0 <= i < handles.len() ==> (#[trigger] handles[i]).is_frozen() && *handles[i].value()
                == items[i]
    }

    /// Whether `handles` are handles on `cells`, one for each cell, in
    /// order.
    pub open spec fn look_into(handles: Seq<ReadRef<'a, T>>, cells: Seq<Cell<T>>) -> bool {
        &&& handles.len() == cells.len()
        &&& forall|i: int|
            0 <= i < handles.len() ==> !(#[trigger] handles[i]).is_frozen() && *handles[i].cell()
                == cells[i]
    }

    /// Returns one frozen handle for each item of a slice, in order.
    pub fn of_items(items: &'a [T]) -> (handles: Vec<ReadRef<'a, T>>)
        ensures
            Self::look_at(handles@, items@),
    {
        let mut handles: Vec<ReadRef<'a, T>> = Vec::new();
        let mut i: usize = 0;
        while i < items.len()
            invariant
                i <= items@.len(),
                Self::look_at(handles@, items@.take(i as int)),
            decreases items@.len() - i,
        {
            handles.push(ReadCell::from_ref(&items[i]));
            i += 1;
        }
        handles
    }

    /// Returns one handle for each cell of a slice of cells, in order.
    pub fn of_cells(cells: &'a [Cell<T>]) -> (handles: Vec<ReadRef<'a, T>>)
        ensures
            Self::look_into(handles@, cells@),
    {
        let mut handles: Vec<ReadRef<'a, T>> = Vec::new();
        let mut i: usize = 0;
        while i < cells.len()
            invariant
                i <= cells@.len(),
                Self::look_into(handles@, cells@.take(i as int)),
            decreases cells@.len() - i,
        {
            handles.push(ReadCell::from_cell(&cells[i]));
            i += 1;
        }
        handles
    }
}

impl<'a, T> ReadRef<'a, [T]> {
    /// Splits a handle on a slice into one handle for each item, in order.
    ///
    /// The handles look at the items where they lie; nothing is copied. Taken
    /// from a frozen handle they are frozen. Taken from a handle on a cell
    /// they are handles on the cells that [`Cell::as_slice_of_cells`] gives
    /// for that cell.
    pub fn as_slice_of_cells(&self) -> (handles: Vec<ReadRef<'a, T>>)
        ensures
            self.is_frozen() ==> ReadRef::look_at(handles@, self.value()@),
            !self.is_frozen() ==> exists|cells: &'a [Cell<T>]|
                #[trigger] call_ensures(Cell::<[T]>::as_slice_of_cells, (self.cell(),), cells)
                    && ReadRef::look_into(handles@, cells@),
    {
        match self.target {
            Target::Plain(items) => ReadRef::of_items(items),
            Target::InCell(cell) => {
                let cells = cell.as_slice_of_cells();
                let handles = ReadRef::of_cells(cells);
                assert(call_ensures(Cell::<[T]>::as_slice_of_cells, (self.cell(),), cells)
                    && ReadRef::look_into(handles@, cells@));
                handles
            },
        }
    }
}

impl<'a, T, const N: usize> ReadRef<'a, [T; N]> {
    /// Splits a handle on an array into an array of handles, one for each
    /// item, in order.
    ///
    /// Taken from a frozen handle the handles are frozen. Taken from a handle
    /// on a cell they are handles on the cells that
    /// [`Cell::as_array_of_cells`] gives for that cell.
    pub fn as_array_of_cells(&self) -> (handles: [ReadRef<'a, T>; N])
        ensures
            self.is_frozen() ==> ReadRef::look_at(handles@, self.value()@),
            !self.is_frozen() ==> exists|cells: &'a [Cell<T>; N]|
                #[trigger] call_ensures(Cell::<[T; N]>::as_array_of_cells, (self.cell(),), cells)
                    && ReadRef::look_into(handles@, cells@),
    {
        let collected = match self.target {
            Target::Plain(items) => ReadRef::of_items(items.as_slice()),
            Target::InCell(cell) => {
                let cells = cell.as_array_of_cells();
                let collected = ReadRef::of_cells(cells.as_slice());
                assert(call_ensures(Cell::<[T; N]>::as_array_of_cells, (self.cell(),), cells)
                    && ReadRef::look_into(collected@, cells@));
                collected
            },
        };
        match vec_into_array(collected) {
            Ok(handles) => handles,
            Err(_) => unreached(),
        }
    }
}

} // verus!
