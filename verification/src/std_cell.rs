//! What this crate takes on trust from the standard library.
//!
//! [`core::cell::Cell`] changes behind a shared reference, so to the verifier
//! a cell is only an identity: nothing here says what a cell holds.

use core::cell::Cell;
use vstd::prelude::*;

verus! {

/// `core::cell::Cell`, carried through as an opaque value.
#[verifier::external_type_specification]
#[verifier::external_body]
#[verifier::reject_recursive_types(T)]
pub struct ExCell<T: ?Sized>(Cell<T>);

/// `Cell::get` copies out what the cell holds at the moment of the call.
/// Whoever shares the cell may have set it since the last look, so nothing is
/// claimed of the value that comes back.
pub assume_specification<T: Copy>[ Cell::<T>::get ](cell: &Cell<T>) -> (value: T);

/// `Cell::as_slice_of_cells` turns a cell of a slice into a slice of cells
/// over the same items. The length of the slice inside a cell is not a value
/// the verifier sees, so nothing is claimed of the result.
pub assume_specification<T>[ Cell::<[T]>::as_slice_of_cells ](cell: &Cell<[T]>) -> (cells: &[Cell<
    T,
>]);

/// `Cell::as_array_of_cells` turns a cell of an array into an array of cells
/// over the same items. The type gives the length; nothing else is claimed.
pub assume_specification<T, const N: usize>[ Cell::<[T; N]>::as_array_of_cells ](
    cell: &Cell<[T; N]>,
) -> (cells: &[Cell<T>; N]);

/// `<[U; N] as TryFrom<Vec<U>>>::try_from` moves the items of a vector into
/// an array, in order, when there are exactly `N` of them, and gives the
/// vector back untouched when there are not.
#[verifier::external_body]
pub(crate) fn vec_into_array<U, const N: usize>(items: Vec<U>) -> (converted: Result<
    [U; N],
    Vec<U>,
>)
    ensures
        match converted {
            Ok(array) => items@.len() == N && array@ == items@,
            Err(back) => items@.len() != N && back@ == items@,
        },
{
    <[U; N]>::try_from(items)
}

} // verus!
