//! What holds when the operations of this crate are put together.
//!
//! Each statement speaks of every result that the named calls can give: a
//! premise `call_ensures(f, args, r)` reads "`r` is a result of `f(args)`".

use core::cell::Cell;
use core::cmp::Ordering;
use vstd::prelude::*;
use vstd::std_specs::cmp::OrdSpec;
use vstd::std_specs::cmp::PartialEqSpec;
use vstd::std_specs::cmp::PartialOrdSpec;

use crate::borrowed::ReadRef;
use crate::owned::ReadCell;

verus! {

/// Reading a new cell gives the value it was made with.
pub proof fn new_then_get<T: Copy>(value: T, cell: ReadCell<T>, read: T)
    requires
        call_ensures(ReadCell::<T>::new, (value,), cell),
        call_ensures(ReadCell::<T>::get, (&cell,), read),
    ensures
        read == value,
{
}

/// Unwrapping a new cell gives the value it was made with.
pub proof fn new_then_into_inner<T>(value: T, cell: ReadCell<T>, unwrapped: T)
    requires
        call_ensures(ReadCell::<T>::new, (value,), cell),
        call_ensures(ReadCell::<T>::into_inner, (cell,), unwrapped),
    ensures
        unwrapped == value,
{
}

/// Converting a value into a cell is the same as making a cell with it.
pub proof fn from_is_new<T>(value: T, converted: ReadCell<T>, made: ReadCell<T>)
    requires
        call_ensures(ReadCell::<T>::from, (value,), converted),
        call_ensures(ReadCell::<T>::new, (value,), made),
    ensures
        converted == made,
{
}

/// Reading a handle made from a plain reference gives the value behind the
/// reference.
pub proof fn from_ref_then_get<'a, T: Copy>(value: &'a T, handle: ReadRef<'a, T>, read: T)
    requires
        call_ensures(ReadCell::<T>::from_ref, (value,), handle),
        call_ensures(ReadRef::<T>::get, (&handle,), read),
    ensures
        read == *value,
{
}

/// Reading a handle made from a [`Cell`] is reading the cell: what comes
/// back is what [`Cell::get`] gave for that cell.
pub proof fn from_cell_then_get<'a, T: Copy>(cell: &'a Cell<T>, handle: ReadRef<'a, T>, read: T)
    requires
        call_ensures(ReadCell::<T>::from_cell, (cell,), handle),
        call_ensures(ReadRef::<T>::get, (&handle,), read),
    ensures
        call_ensures(Cell::<T>::get, (cell,), read),
{
}

/// A handle made from a [`Cell`] of a slice splits into handles on the cells
/// that [`Cell::as_slice_of_cells`] gave for that cell, as many and in the
/// same order.
pub proof fn cell_slice_handles_follow_cells<'a, T>(
    cell: &'a Cell<[T]>,
    whole: ReadRef<'a, [T]>,
    handles: Vec<ReadRef<'a, T>>,
)
    requires
        call_ensures(ReadCell::<[T]>::from_cell, (cell,), whole),
        call_ensures(ReadRef::<[T]>::as_slice_of_cells, (&whole,), handles),
    ensures
        exists|cells: &'a [Cell<T>]|
            #[trigger] call_ensures(Cell::<[T]>::as_slice_of_cells, (cell,), cells)
                && ReadRef::look_into(handles@, cells@),
{
}

/// A handle made from a [`Cell`] of an array splits into handles on the
/// cells that [`Cell::as_array_of_cells`] gave for that cell, in the same
/// order.
pub proof fn cell_array_handles_follow_cells<'a, T, const N: usize>(
    cell: &'a Cell<[T; N]>,
    whole: ReadRef<'a, [T; N]>,
    handles: [ReadRef<'a, T>; N],
)
    requires
        call_ensures(ReadCell::<[T; N]>::from_cell, (cell,), whole),
        call_ensures(ReadRef::<[T; N]>::as_array_of_cells, (&whole,), handles),
    ensures
        exists|cells: &'a [Cell<T>; N]|
            #[trigger] call_ensures(Cell::<[T; N]>::as_array_of_cells, (cell,), cells)
                && ReadRef::look_into(handles@, cells@),
{
}

/// Reading a handle borrowed from a cell gives what reading the cell gives.
pub proof fn borrow_then_get<'a, T: Copy>(
    cell: &'a ReadCell<T>,
    handle: ReadRef<'a, T>,
    through_handle: T,
    direct: T,
)
    requires
        call_ensures(ReadCell::<T>::borrow, (cell,), handle),
        call_ensures(ReadRef::<T>::get, (&handle,), through_handle),
        call_ensures(ReadCell::<T>::get, (cell,), direct),
    ensures
        through_handle == direct,
{
}

/// A handle on a slice of `n` items splits into `n` handles, and reading the
/// handle at an index gives the item at that index.
pub proof fn slice_handles_read_items<'a, T: Copy>(
    items: &'a [T],
    whole: ReadRef<'a, [T]>,
    handles: Vec<ReadRef<'a, T>>,
)
    requires
        call_ensures(ReadCell::<[T]>::from_ref, (items,), whole),
        call_ensures(ReadRef::<[T]>::as_slice_of_cells, (&whole,), handles),
    ensures
        handles@.len() == items@.len(),
        forall|i: int, read: T|
            0 <= i < items@.len() && #[trigger] call_ensures(
                ReadRef::<T>::get,
                (&handles@[i],),
                read,
            ) ==> read == items@[i],
{
}

/// A handle on an array of `N` items splits into `N` handles, and reading
/// the handle at an index gives the item at that index.
pub proof fn array_handles_read_items<'a, T: Copy, const N: usize>(
    items: &'a [T; N],
    whole: ReadRef<'a, [T; N]>,
    handles: [ReadRef<'a, T>; N],
)
    requires
        call_ensures(ReadCell::<[T; N]>::from_ref, (items,), whole),
        call_ensures(ReadRef::<[T; N]>::as_array_of_cells, (&whole,), handles),
    ensures
        handles@.len() == N,
        forall|i: int, read: T|
            0 <= i < N && #[trigger] call_ensures(ReadRef::<T>::get, (&handles@[i],), read)
                ==> read == items@[i],
{
}

/// Reading a clone gives what reading the cell it was cloned from gives.
pub proof fn clone_then_get<T: Copy>(cell: ReadCell<T>, copy: ReadCell<T>, first: T, second: T)
    requires
        call_ensures(ReadCell::<T>::clone, (&cell,), copy),
        call_ensures(ReadCell::<T>::get, (&cell,), first),
        call_ensures(ReadCell::<T>::get, (&copy,), second),
    ensures
        second == first,
{
}

/// Reading a default cell gives a default value of `T`.
pub proof fn default_then_get<T: Default + Copy>(cell: ReadCell<T>, read: T)
    requires
        call_ensures(ReadCell::<T>::default, (), cell),
        call_ensures(ReadCell::<T>::get, (&cell,), read),
    ensures
        call_ensures(T::default, (), read),
{
}

/// Two cells are equal exactly when the values read from them are.
pub proof fn eq_follows_values<T: PartialEq + Copy>(
    left: ReadCell<T>,
    right: ReadCell<T>,
    left_value: T,
    right_value: T,
    same: bool,
)
    requires
        T::obeys_eq_spec(),
        call_ensures(ReadCell::<T>::get, (&left,), left_value),
        call_ensures(ReadCell::<T>::get, (&right,), right_value),
        call_ensures(ReadCell::<T>::eq, (&left, &right), same),
    ensures
        same == left_value.eq_spec(&right_value),
{
}

/// Two cells are ordered as the values read from them are.
pub proof fn partial_cmp_follows_values<T: PartialOrd + Copy>(
    left: ReadCell<T>,
    right: ReadCell<T>,
    left_value: T,
    right_value: T,
    order: Option<Ordering>,
)
    requires
        T::obeys_partial_cmp_spec(),
        call_ensures(ReadCell::<T>::get, (&left,), left_value),
        call_ensures(ReadCell::<T>::get, (&right,), right_value),
        call_ensures(ReadCell::<T>::partial_cmp, (&left, &right), order),
    ensures
        order == left_value.partial_cmp_spec(&right_value),
{
}

/// `<`, `<=`, `>` and `>=` on two cells say what the order of the values
/// read from them says.
pub proof fn operators_follow_values<T: PartialOrd + Copy>(
    left: ReadCell<T>,
    right: ReadCell<T>,
    left_value: T,
    right_value: T,
    below: bool,
    at_most: bool,
    above: bool,
    at_least: bool,
)
    requires
        T::obeys_partial_cmp_spec(),
        call_ensures(ReadCell::<T>::get, (&left,), left_value),
        call_ensures(ReadCell::<T>::get, (&right,), right_value),
        call_ensures(ReadCell::<T>::lt, (&left, &right), below),
        call_ensures(ReadCell::<T>::le, (&left, &right), at_most),
        call_ensures(ReadCell::<T>::gt, (&left, &right), above),
        call_ensures(ReadCell::<T>::ge, (&left, &right), at_least),
    ensures
        below <==> left_value.partial_cmp_spec(&right_value) == Some(Ordering::Less),
        at_most <==> left_value.partial_cmp_spec(&right_value) matches Some(
            Ordering::Less
            | Ordering::Equal,
        ),
        above <==> left_value.partial_cmp_spec(&right_value) == Some(Ordering::Greater),
        at_least <==> left_value.partial_cmp_spec(&right_value) matches Some(
            Ordering::Greater
            | Ordering::Equal,
        ),
{
}

/// The three-way comparison of two cells is that of the values read from
/// them.
pub proof fn cmp_follows_values<T: Ord + Copy>(
    left: ReadCell<T>,
    right: ReadCell<T>,
    left_value: T,
    right_value: T,
    order: Ordering,
)
    requires
        T::obeys_cmp_spec(),
        call_ensures(ReadCell::<T>::get, (&left,), left_value),
        call_ensures(ReadCell::<T>::get, (&right,), right_value),
        call_ensures(ReadCell::<T>::cmp, (&left, &right), order),
    ensures
        order == left_value.cmp_spec(&right_value),
{
}

/// Cloning a handle gives a cell that reads as one read through the handle:
/// the value of a frozen handle, a result of [`Cell::get`] on the cell of
/// another.
pub proof fn handle_clone_then_get<'a, T: Copy>(
    handle: ReadRef<'a, T>,
    copy: ReadCell<T>,
    read: T,
)
    requires
        call_ensures(ReadRef::<T>::clone, (&handle,), copy),
        call_ensures(ReadCell::<T>::get, (&copy,), read),
    ensures
        handle.reads(read),
{
}

/// Cloning a handle made from a plain reference gives a cell that reads as
/// the value behind the reference.
pub proof fn from_ref_then_clone<'a, T: Copy>(
    value: &'a T,
    handle: ReadRef<'a, T>,
    copy: ReadCell<T>,
    read: T,
)
    requires
        call_ensures(ReadCell::<T>::from_ref, (value,), handle),
        call_ensures(ReadRef::<T>::clone, (&handle,), copy),
        call_ensures(ReadCell::<T>::get, (&copy,), read),
    ensures
        read == *value,
{
}

/// Two handles made from plain references are equal exactly when the values
/// behind the references are.
pub proof fn handle_eq_follows_values<'a, T: PartialEq + Copy>(
    left_value: &'a T,
    right_value: &'a T,
    left: ReadRef<'a, T>,
    right: ReadRef<'a, T>,
    same: bool,
)
    requires
        T::obeys_eq_spec(),
        call_ensures(ReadCell::<T>::from_ref, (left_value,), left),
        call_ensures(ReadCell::<T>::from_ref, (right_value,), right),
        call_ensures(ReadRef::<T>::eq, (&left, &right), same),
    ensures
        same == left_value.eq_spec(right_value),
{
}

/// Two handles made from plain references are ordered as the values behind
/// the references are.
pub proof fn handle_partial_cmp_follows_values<'a, T: PartialOrd + Copy>(
    left_value: &'a T,
    right_value: &'a T,
    left: ReadRef<'a, T>,
    right: ReadRef<'a, T>,
    order: Option<Ordering>,
)
    requires
        T::obeys_partial_cmp_spec(),
        call_ensures(ReadCell::<T>::from_ref, (left_value,), left),
        call_ensures(ReadCell::<T>::from_ref, (right_value,), right),
        call_ensures(ReadRef::<T>::partial_cmp, (&left, &right), order),
    ensures
        order == left_value.partial_cmp_spec(right_value),
{
}

/// The three-way comparison of two handles made from plain references is
/// that of the values behind the references.
pub proof fn handle_cmp_follows_values<'a, T: Ord + Copy>(
    left_value: &'a T,
    right_value: &'a T,
    left: ReadRef<'a, T>,
    right: ReadRef<'a, T>,
    order: Ordering,
)
    requires
        T::obeys_cmp_spec(),
        call_ensures(ReadCell::<T>::from_ref, (left_value,), left),
        call_ensures(ReadCell::<T>::from_ref, (right_value,), right),
        call_ensures(ReadRef::<T>::cmp, (&left, &right), order),
    ensures
        order == left_value.cmp_spec(right_value),
{
}

} // verus!
