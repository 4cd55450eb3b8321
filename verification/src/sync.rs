//! The lock and the condition variable of the standard library, as far as the
//! channel uses them.
//!
//! Nothing in this file is proved. A value behind a lock can be changed by any
//! thread that takes the lock, so no contract here says what a guard holds.

use crate::queue::Inner;
use std::sync::{Arc, Condvar, Mutex, MutexGuard};
use vstd::prelude::*;

verus! {

/// `std::sync::Mutex`, as a type that verified code may hold and pass on. What
/// is behind the lock is not part of its value.
#[verifier::external_type_specification]
#[verifier::external_body]
#[verifier::reject_recursive_types(T)]
pub struct ExMutex<T: ?Sized>(Mutex<T>);

/// `std::sync::MutexGuard`: the lock is held for as long as the guard lives.
#[verifier::external_type_specification]
#[verifier::external_body]
#[verifier::reject_recursive_types(T)]
pub struct ExMutexGuard<'a, T: ?Sized + 'a>(MutexGuard<'a, T>);

/// `std::sync::Condvar`.
#[verifier::external_type_specification]
#[verifier::external_body]
pub struct ExCondvar(Condvar);

/// `Mutex::new`: a lock around `t`. Nothing is claimed of the result.
pub assume_specification<T>[ Mutex::<T>::new ](t: T) -> (m: Mutex<T>)
;

/// `Condvar::new`: a condition variable with no waiter. Nothing is claimed of
/// the result.
pub assume_specification[ Condvar::new ]() -> (c: Condvar)
;

/// `Condvar::notify_one`: wakes at most one thread that waits on `c`. It
/// returns nothing.
pub assume_specification[ Condvar::notify_one ](c: &Condvar)
;

/// `Mutex::lock`, with the result unwrapped: blocks until the lock is free and
/// returns its guard. Nothing is claimed of the state behind the guard.
///
/// `lock` fails only on a lock that was poisoned, that is, after a thread
/// unwound while it held a guard. Guards of a channel's lock never leave this
/// crate and no function here unwinds while it holds one, so the failure does
/// not arise. A thread that locks twice may deadlock in `lock`; no function
/// here locks while it holds a guard.
#[verifier::external_body]
pub(crate) fn lock<'a, T>(m: &'a Mutex<Inner<T>>) -> (guard: MutexGuard<'a, Inner<T>>)
{
    m.lock().unwrap()
}

/// `DerefMut::deref_mut` on a guard: exclusive access to the state behind the
/// lock for as long as the guard is borrowed. Nothing is claimed of the state
/// found there: other threads wrote it.
#[verifier::external_body]
pub(crate) fn state<'a, 'g, T>(guard: &'a mut MutexGuard<'g, Inner<T>>) -> (inner: &'a mut Inner<T>)
{
    &mut **guard
}

/// `Condvar::wait_while`, with the result unwrapped: gives the lock up and
/// sleeps until a notification finds the state not idle, then returns with the
/// lock held again; returns at once if the state is not idle to begin with.
/// The test is `Inner::is_idle`, made each time under the lock.
///
/// Nothing is claimed of the result: what the guard holds is no value that a
/// contract could name. As with `lock`, the failure case is a poisoned lock.
#[verifier::external_body]
pub(crate) fn wait_while_idle<'a, T>(available: &Condvar, guard: MutexGuard<'a, Inner<T>>) -> (woken:
    MutexGuard<'a, Inner<T>>)
{
    available.wait_while(guard, |inner| inner.is_idle()).unwrap()
}

/// `Arc::clone`: one more handle to the same allocation.
#[verifier::external_body]
pub(crate) fn share<S>(a: &Arc<S>) -> (b: Arc<S>)
    ensures
        b == *a,
{
    Arc::clone(a)
}

} // verus!
