//! Clone on write: borrowed data that is copied only when it has to change.

use std::borrow::{Borrow, ToOwned};
use std::ops::Deref;
use vstd::prelude::*;

verus! {

/// Either a reference to data owned elsewhere or data of its own. Reading
/// goes through both alike; the first request to change or keep the data
/// turns a borrowed value into an owned one.
#[verifier::reject_recursive_types(B)]
pub enum Cow<'a, B: ?Sized + ToOwned + 'a> {
    Borrowed(&'a B),
    Owned(B::Owned),
}

/// `ToOwned::to_owned`: owned data made from borrowed data. What it holds is
/// up to the type's own implementation, so nothing is claimed of it.
#[verifier::external_body]
fn make_owned<B: ?Sized + ToOwned>(borrowed: &B) -> (owned: B::Owned) {
    borrowed.to_owned()
}

/// `Borrow::borrow`: the borrowed form of owned data. What it holds is up to
/// the type's own implementation, so nothing is claimed of it.
#[verifier::external_body]
fn lend<'o, B: ?Sized + ToOwned>(owned: &'o B::Owned) -> (borrowed: &'o B) {
    owned.borrow()
}

impl<'a, B: ?Sized + ToOwned> Borrow<B> for Cow<'a, B> {
    /// The data, to read, as `deref` gives it: of a borrowed value the
    /// reference held, of an owned one the owned data lent out.
    fn borrow(&self) -> (r: &B)
        ensures
            self is Borrowed ==> self.holds_reference(r),
    {
        self.deref()
    }
}

impl<'a, B: ?Sized + ToOwned> Deref for Cow<'a, B> {
    type Target = B;

    /// The data, to read: the reference held, or the owned data lent out.
    fn deref(&self) -> (r: &B)
        ensures
            self matches Cow::Borrowed(b) ==> r == b,
    {
        match self {
            Cow::Borrowed(b) => b,
            Cow::Owned(o) => lend::<B>(o),
        }
    }
}

impl<'a, B: ?Sized + ToOwned> Clone for Cow<'a, B> {
    /// A borrowed value is copied as the same reference; owned data is lent
    /// out and made owned again.
    fn clone(&self) -> (other: Self)
        ensures
            self matches Cow::Borrowed(b) ==> other == Cow::<B>::Borrowed(b),
            self is Owned ==> other is Owned,
    {
        match self {
            Cow::Borrowed(b) => Cow::Borrowed(b),
            Cow::Owned(o) => {
                let b: &B = lend::<B>(o);
                Cow::Owned(make_owned(b))
            },
        }
    }
}

impl<'a, B: ?Sized + ToOwned> Cow<'a, B> {
    /// The value is borrowed, and `r` is the reference that it holds.
    pub open spec fn holds_reference(&self, r: &B) -> bool {
        match *self {
            Cow::Borrowed(b) => r == b,
            Cow::Owned(_) => false,
        }
    }

    /// Whether the data is borrowed.
    pub fn is_borrowed(&self) -> (b: bool)
        ensures
            b == (self is Borrowed),
    {
        match self {
            Cow::Borrowed(_) => true,
            _ => false,
        }
    }

    /// Whether the data is owned.
    pub fn is_owned(&self) -> (b: bool)
        ensures
            b == (self is Owned),
    {
        !self.is_borrowed()
    }

    /// The owned data, to change in place. A borrowed value is made owned
    /// first. What the borrower leaves is what the value holds afterwards.
    pub fn to_mut(&mut self) -> (owned: &mut B::Owned)
        ensures
            *old(self) matches Cow::Owned(o) ==> *owned == o,
            *final(self) == Cow::<B>::Owned(*final(owned)),
    {
        if let Cow::Borrowed(borrowed) = *self {
            *self = Cow::Owned(make_owned(borrowed));
        }
        match self {
            Cow::Owned(owned) => owned,
            Cow::Borrowed(_) => unreached(),
        }
    }

    /// The data as owned data: what is owned already, or else what the
    /// borrowed data is made into.
    pub fn into_owned(self) -> (owned: B::Owned)
        ensures
            self matches Cow::Owned(o) ==> owned == o,
    {
        match self {
            Cow::Borrowed(borrowed) => make_owned(borrowed),
            Cow::Owned(owned) => owned,
        }
    }
}

} // verus!
