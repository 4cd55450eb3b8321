//! The innermost cell: a value and nothing else.

use vstd::prelude::*;

verus! {

/// Owns one value. Every other cell in this crate is built around it.
///
/// The value is reached through the cell's owner only: there is no way to it
/// that goes around the rules of borrowing.
#[derive(Debug)]
pub struct UnsafeCell<T> {
    value: T,
}

impl<T> View for UnsafeCell<T> {
    type V = T;

    closed spec fn view(&self) -> T {
        self.value
    }
}

impl<T> UnsafeCell<T> {
    /// The cell that holds `value`.
    pub closed spec fn holding(value: T) -> Self {
        UnsafeCell { value }
    }

    /// A cell that holds `value`.
    pub fn new(value: T) -> (cell: Self)
        ensures
            cell == Self::holding(value),
            cell@ == value,
    {
        Self { value }
    }

    /// Unwraps the value, consuming the cell.
    pub fn into_inner(self) -> (value: T)
        ensures
            value == self@,
    {
        self.value
    }

    /// The value, to read.
    pub fn get(&self) -> (value: &T)
        ensures
            *value == self@,
    {
        &self.value
    }

    /// The value, to change in place: what the borrower leaves there is what
    /// the cell holds afterwards.
    pub fn get_mut(&mut self) -> (value: &mut T)
        ensures
            *value == old(self)@,
            final(self)@ == *final(value),
    {
        &mut self.value
    }
}

impl<T: Default> Default for UnsafeCell<T> {
    /// A cell around the default of `T`.
    fn default() -> (cell: Self)
        ensures
            call_ensures(T::default, (), cell@),
    {
        Self::new(T::default())
    }
}

impl<T> From<T> for UnsafeCell<T> {
    /// A cell that holds `t`.
    fn from(t: T) -> (cell: Self)
        ensures
            cell@ == t,
    {
        UnsafeCell::new(t)
    }
}

impl<T> vstd::std_specs::convert::FromSpecImpl<T> for UnsafeCell<T> {
    open spec fn obeys_from_spec() -> bool {
        true
    }

    open spec fn from_spec(t: T) -> Self {
        Self::holding(t)
    }
}

} // verus!
