//! A cell for values that threads may share.

use crate::unsafecell::UnsafeCell;
use vstd::prelude::*;

verus! {

/// Owns one value, like `UnsafeCell`, and may be shared between threads
/// whenever the value may.
///
/// The value is reached through the cell's owner only: there is no way to it
/// that goes around the rules of borrowing.
pub struct SyncUnsafeCell<T> {
    value: UnsafeCell<T>,
}

impl<T> View for SyncUnsafeCell<T> {
    type V = T;

    closed spec fn view(&self) -> T {
        self.value@
    }
}

impl<T> SyncUnsafeCell<T> {
    /// The cell that holds `value`.
    pub closed spec fn holding(value: T) -> Self {
        SyncUnsafeCell { value: UnsafeCell::holding(value) }
    }

    /// A cell that holds `value`.
    pub fn new(value: T) -> (cell: Self)
        ensures
            cell == Self::holding(value),
            cell@ == value,
    {
        Self { value: UnsafeCell::new(value) }
    }

    /// Unwraps the value, consuming the cell.
    pub fn into_inner(self) -> (value: T)
        ensures
            value == self@,
    {
        self.value.into_inner()
    }

    /// The value, to read.
    pub fn get(&self) -> (value: &T)
        ensures
            *value == self@,
    {
        self.value.get()
    }

    /// The value, to change in place: what the borrower leaves there is what
    /// the cell holds afterwards.
    pub fn get_mut(&mut self) -> (value: &mut T)
        ensures
            *value == old(self)@,
            final(self)@ == *final(value),
    {
        self.value.get_mut()
    }
}

impl<T: Default> Default for SyncUnsafeCell<T> {
    /// A cell around the default of `T`.
    fn default() -> (cell: Self)
        ensures
            call_ensures(T::default, (), cell@),
    {
        Self::new(T::default())
    }
}

impl<T> From<T> for SyncUnsafeCell<T> {
    /// A cell that holds `t`.
    fn from(t: T) -> (cell: Self)
        ensures
            cell@ == t,
    {
        SyncUnsafeCell::new(t)
    }
}

impl<T> vstd::std_specs::convert::FromSpecImpl<T> for SyncUnsafeCell<T> {
    open spec fn obeys_from_spec() -> bool {
        true
    }

    open spec fn from_spec(t: T) -> Self {
        Self::holding(t)
    }
}

} // verus!
