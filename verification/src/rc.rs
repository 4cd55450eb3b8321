//! The counting rule behind shared ownership.
//!
//! A value owned through several pointers carries the number of those
//! pointers. The functions here say what the number is after a pointer was
//! cloned or dropped, and when the value itself has to go. Whoever keeps the
//! count next to the value stores the result.

use vstd::prelude::*;

verus! {

/// The count after one more pointer was made.
pub fn after_clone(count: usize) -> (next: usize)
    requires
        count < usize::MAX,
    ensures
        next == count + 1,
{
    count + 1
}

/// The count after one pointer was dropped, or `None` where that pointer was
/// the last one, so that the value is to be dropped with it.
pub fn after_drop(count: usize) -> (next: Option<usize>)
    requires
        count > 0,
    ensures
        count == 1 ==> next is None,
        count > 1 ==> next == Some((count - 1) as usize),
{
    if count == 1 {
        None
    } else {
        Some(count - 1)
    }
}

} // verus!
