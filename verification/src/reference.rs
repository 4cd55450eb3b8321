//! The counting rules behind dynamically checked borrows.
//!
//! A borrow flag is one signed number: zero while nothing is borrowed, the
//! number of readers while shared borrows are out, and minus one while the one
//! exclusive borrow is out. The functions here say which borrow may be handed
//! out on which flag and what the flag is afterwards. Whoever keeps the flag
//! next to a value stores the result.

use vstd::prelude::*;

verus! {

pub type BorrowFlag = isize;

/// The flag of a value that nobody has borrowed.
pub const UNUSED: BorrowFlag = 0;

/// Whether shared borrows are out.
#[inline(always)]
pub fn is_reading(x: BorrowFlag) -> (b: bool)
    ensures
        b == (x > UNUSED),
{
    x > UNUSED
}

/// Whether the exclusive borrow is out.
#[inline(always)]
pub fn is_writing(x: BorrowFlag) -> (b: bool)
    ensures
        b == (x < UNUSED),
{
    x < UNUSED
}

/// The flag after one more shared borrow, where one may be had: not while the
/// exclusive borrow is out, and not when the count of readers is at its
/// largest.
pub open spec fn after_shared(flag: BorrowFlag) -> Option<BorrowFlag> {
    if UNUSED <= flag < isize::MAX {
        Some((flag + 1) as isize)
    } else {
        None
    }
}

/// The flag after the exclusive borrow was taken, where it may be had: on an
/// unused value only.
pub open spec fn after_exclusive(flag: BorrowFlag) -> Option<BorrowFlag> {
    if flag == UNUSED {
        Some(-1isize)
    } else {
        None
    }
}

/// Asks for a shared borrow on `flag`: the new flag, or `None` where the
/// borrow is refused.
pub fn acquire_shared(flag: BorrowFlag) -> (next: Option<BorrowFlag>)
    ensures
        next == after_shared(flag),
{
    let b = flag.wrapping_add(1);
    if !is_reading(b) {
        None
    } else {
        Some(b)
    }
}

/// Asks for the exclusive borrow on `flag`: the new flag, or `None` where the
/// borrow is refused.
pub fn acquire_exclusive(flag: BorrowFlag) -> (next: Option<BorrowFlag>)
    ensures
        next == after_exclusive(flag),
{
    if flag == UNUSED {
        Some(UNUSED - 1)
    } else {
        None
    }
}

/// The flag after a shared borrow was given back. While one is out the flag
/// is positive, which is well within the range asked for.
pub fn release_shared(flag: BorrowFlag) -> (next: BorrowFlag)
    requires
        flag > isize::MIN,
    ensures
        next == flag - 1,
{
    flag - 1
}

/// The flag after the exclusive borrow was given back. While it is out the
/// flag is negative, which is well within the range asked for.
pub fn release_exclusive(flag: BorrowFlag) -> (next: BorrowFlag)
    requires
        flag < isize::MAX,
    ensures
        next == flag + 1,
{
    flag + 1
}

/// A borrow that was handed out and then given back leaves the flag as it was.
pub proof fn lemma_release_undoes_acquire(flag: BorrowFlag)
    ensures
        after_shared(flag) matches Some(next) ==> next > UNUSED && next - 1 == flag,
        after_exclusive(flag) matches Some(next) ==> next < UNUSED && next + 1 == flag,
{
}

/// Readers and the writer exclude each other: while the exclusive borrow is
/// out nothing more is handed out, and while readers are out the exclusive
/// borrow is refused.
pub proof fn lemma_borrows_exclude(flag: BorrowFlag)
    ensures
        flag < UNUSED ==> after_shared(flag) is None && after_exclusive(flag) is None,
        flag > UNUSED ==> after_exclusive(flag) is None,
        after_shared(flag) matches Some(next) ==> next > UNUSED,
{
}

} // verus!
