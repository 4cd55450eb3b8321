//! A cell whose value is replaced as a whole.

use crate::unsafecell::UnsafeCell;
use vstd::prelude::*;
use vstd::std_specs::cmp::PartialEqSpec;
use vstd::std_specs::convert::FromSpecImpl;

verus! {

/// Holds one value that is set and, where it can be copied, read as a whole.
/// Its view is that value.
#[derive(Debug)]
pub struct Cell<T> {
    value: UnsafeCell<T>,
}

impl<T> View for Cell<T> {
    type V = T;

    closed spec fn view(&self) -> T {
        self.value@
    }
}

impl<T: Copy> Clone for Cell<T> {
    /// A second cell with a copy of the value.
    fn clone(&self) -> (other: Self)
        ensures
            other@ == self@,
    {
        Cell::new(self.get())
    }
}

impl<T: Default> Default for Cell<T> {
    /// A cell around the default of `T`.
    fn default() -> (cell: Self)
        ensures
            call_ensures(T::default, (), cell@),
    {
        Cell::new(T::default())
    }
}

impl<T: PartialEq + Copy> PartialEq for Cell<T> {
    /// Two cells are equal when their values are.
    fn eq(&self, other: &Cell<T>) -> (r: bool) {
        self.get() == other.get()
    }
}

impl<T: PartialEq + Copy> vstd::std_specs::cmp::PartialEqSpecImpl for Cell<T> {
    open spec fn obeys_eq_spec() -> bool {
        T::obeys_eq_spec()
    }

    open spec fn eq_spec(&self, other: &Cell<T>) -> bool {
        self@.eq_spec(&other@)
    }
}

impl<T> From<T> for Cell<T> {
    /// A cell that holds `t`.
    fn from(t: T) -> (cell: Self)
        ensures
            cell@ == t,
    {
        Cell::new(t)
    }
}

impl<T> FromSpecImpl<T> for Cell<T> {
    open spec fn obeys_from_spec() -> bool {
        true
    }

    open spec fn from_spec(t: T) -> Self {
        Self::holding(t)
    }
}

impl<T> Cell<T> {
    /// The cell that holds `value`.
    pub closed spec fn holding(value: T) -> Self {
        Cell { value: UnsafeCell::holding(value) }
    }

    /// A cell that holds `value`.
    pub fn new(value: T) -> (cell: Self)
        ensures
            cell == Self::holding(value),
            cell@ == value,
    {
        Self { value: UnsafeCell::new(value) }
    }

    /// Puts `val` in the place of the value held.
    pub fn set(&mut self, val: T)
        ensures
            final(self)@ == val,
    {
        self.replace(val);
    }

    /// Puts `val` in the place of the value held, which is dropped.
    pub fn replace(&mut self, val: T)
        ensures
            final(self)@ == val,
    {
        let slot = self.value.get_mut();
        *slot = val;
    }

    /// Unwraps the value, consuming the cell.
    pub fn into_inner(self) -> (value: T)
        ensures
            value == self@,
    {
        self.value.into_inner()
    }

    /// Where the value is, as a reference that the borrow rules keep valid.
    pub fn as_ptr(&self) -> (value: &T)
        ensures
            *value == self@,
    {
        self.value.get()
    }

    /// The value, to change in place: what the borrower leaves there is what
    /// the cell holds afterwards.
    pub fn get_mut(&mut self) -> (value: &mut T)
        ensures
            *value == old(self)@,
            final(self)@ == *final(value),
    {
        self.value.get_mut()
    }
}

impl<T: Copy> Cell<T> {
    /// A copy of the value held.
    pub fn get(&self) -> (value: T)
        ensures
            value == self@,
    {
        *self.value.get()
    }
}

} // verus!
