//! A cell that is filled at most once.

use crate::unsafecell::UnsafeCell;
use vstd::prelude::*;
use vstd::std_specs::cmp::PartialEqSpec;
use vstd::std_specs::convert::FromSpecImpl;

verus! {

/// A slot that starts empty and takes a value once: a second `set` is turned
/// away and hands its value back. Only `take` empties it again.
///
/// Its view is what the slot holds.
#[derive(Debug)]
pub struct OnceCell<T> {
    inner: UnsafeCell<Option<T>>,
}

impl<T> View for OnceCell<T> {
    type V = Option<T>;

    closed spec fn view(&self) -> Option<T> {
        self.inner@
    }
}

impl<T> OnceCell<T> {
    /// The cell that holds `slot`.
    pub closed spec fn holding(slot: Option<T>) -> Self {
        OnceCell { inner: UnsafeCell::holding(slot) }
    }

    /// An empty cell.
    pub fn new() -> (cell: Self)
        ensures
            cell == Self::holding(None),
            cell@ is None,
    {
        Self { inner: UnsafeCell::new(None) }
    }

    /// The value, if the cell was filled.
    pub fn get(&self) -> (value: Option<&T>)
        ensures
            value is Some <==> self@ is Some,
            value is Some ==> *value->0 == self@->0,
    {
        self.inner.get().as_ref()
    }

    /// The value, if the cell was filled, to change in place. An empty cell
    /// stays empty.
    pub fn get_mut(&mut self) -> (value: Option<&mut T>)
        ensures
            match old(self)@ {
                None => final(self)@ is None && value is None,
                Some(v) => value is Some && *value.unwrap() == v && final(self)@ == Some(
                    *final(value.unwrap()),
                ),
            },
    {
        self.inner.get_mut().as_mut()
    }

    /// Fills an empty cell with `value`. A cell that is filled already keeps
    /// what it holds, and `value` comes back as the error.
    pub fn set(&mut self, value: T) -> (r: Result<(), T>)
        ensures
            old(self)@ is None ==> r is Ok && final(self)@ == Some(value),
            old(self)@ is Some ==> r == Err::<(), T>(value) && final(self)@ == old(self)@,
    {
        match self.try_insert(value) {
            Ok(_) => Ok(()),
            Err((_, value)) => Err(value),
        }
    }

    /// Fills an empty cell with `value` and returns the value now held. On a
    /// cell that is filled already the error holds the value found there and
    /// `value`, and the cell is unchanged.
    pub fn try_insert(&mut self, value: T) -> (r: Result<&T, (&T, T)>)
        ensures
            old(self)@ is None ==> r is Ok && *r->Ok_0 == value && final(self)@ == Some(value),
            old(self)@ is Some ==> r is Err && *(r->Err_0).0 == old(self)@->0 && (r->Err_0).1
                == value && final(self)@ == old(self)@,
    {
        if self.inner.get().is_some() {
            Err((self.inner.get().as_ref().unwrap(), value))
        } else {
            let slot = self.inner.get_mut();
            *slot = Some(value);
            Ok(self.inner.get().as_ref().unwrap())
        }
    }

    /// Unwraps what the cell holds, consuming the cell.
    pub fn into_inner(self) -> (slot: Option<T>)
        ensures
            slot == self@,
    {
        self.inner.into_inner()
    }

    /// Takes the value out and leaves the cell empty, ready to be filled
    /// again. On an empty cell: `None`, and nothing changes.
    pub fn take(&mut self) -> (slot: Option<T>)
        ensures
            slot == old(self)@,
            final(self)@ is None,
    {
        let mut out = OnceCell::new();
        std::mem::swap(self, &mut out);
        out.into_inner()
    }
}

impl<T> Default for OnceCell<T> {
    /// An empty cell.
    fn default() -> (cell: Self)
        ensures
            cell@ is None,
    {
        Self::new()
    }
}

impl<T: Clone> Clone for OnceCell<T> {
    /// A cell of its own that is empty if this one is, and else holds a clone
    /// of the value.
    fn clone(&self) -> (other: Self)
        ensures
            self@ is None <==> other@ is None,
            self@ is Some ==> cloned(self@->0, other@->0),
    {
        let mut new_cell = OnceCell::new();
        if let Some(curr) = self.get() {
            let _ = new_cell.set(curr.clone());
        }
        new_cell
    }
}

impl<T> From<T> for OnceCell<T> {
    /// A cell filled with `value`.
    fn from(value: T) -> (cell: Self)
        ensures
            cell@ == Some(value),
    {
        OnceCell { inner: UnsafeCell::new(Some(value)) }
    }
}

impl<T> FromSpecImpl<T> for OnceCell<T> {
    open spec fn obeys_from_spec() -> bool {
        true
    }

    open spec fn from_spec(value: T) -> Self {
        Self::holding(Some(value))
    }
}

impl<T: PartialEq> PartialEq for OnceCell<T> {
    /// Two cells are equal when both are empty or their values are equal.
    fn eq(&self, other: &Self) -> (r: bool) {
        self.get() == other.get()
    }
}

impl<T: PartialEq> vstd::std_specs::cmp::PartialEqSpecImpl for OnceCell<T> {
    open spec fn obeys_eq_spec() -> bool {
        T::obeys_eq_spec()
    }

    open spec fn eq_spec(&self, other: &Self) -> bool {
        PartialEqSpec::eq_spec(&self@, &other@)
    }
}

impl<T: Eq> Eq for OnceCell<T> {
}

} // verus!
