//! The handles of a channel: any number of senders, one receiver.

use crate::queue::Inner;
use crate::sync::{lock, share, state, wait_while_idle};
use std::collections::VecDeque;
use std::sync::{Arc, Condvar, Mutex};
use vstd::prelude::*;

verus! {

/// What all handles of one channel own together: the state under its lock,
/// and the condition variable on which the receiver sleeps.
///
/// The condition variable stands beside the lock, not under it: a thread that
/// wakes the receiver must not be holding what the receiver needs to wake up.
#[verifier::reject_recursive_types(T)]
struct Shared<T> {
    inner: Mutex<Inner<T>>,
    available: Condvar,
}

/// A sending handle. Cloning it gives one more; the channel closes when the
/// last one has been retired.
#[verifier::reject_recursive_types(T)]
pub struct Sender<T> {
    shared: Arc<Shared<T>>,
}

/// The receiving handle. There is one per channel: it cannot be cloned.
#[verifier::reject_recursive_types(T)]
pub struct Receiver<T> {
    shared: Arc<Shared<T>>,
    buffer: VecDeque<T>,
}

impl<T> Clone for Sender<T> {
    /// One more live sender of the same channel. The count is raised under the
    /// lock before the new handle exists.
    fn clone(&self) -> (other: Self)
        ensures
            other.same_channel(self),
    {
        {
            let mut guard = lock(&self.shared.inner);
            state(&mut guard).add_sender();
        }
        Sender { shared: share(&self.shared) }
    }
}

impl<T> Sender<T> {
    /// Both handles send into one channel.
    pub closed spec fn same_channel(&self, other: &Sender<T>) -> bool {
        self.shared == other.shared
    }

    /// What this handle sends is what `rx` receives.
    pub closed spec fn feeds(&self, rx: &Receiver<T>) -> bool {
        self.shared == rx.shared
    }

    /// Ends this handle's life: one live sender less. The last one to go wakes
    /// the receiver, which may be asleep waiting for a payload that can no
    /// longer come.
    ///
    /// A handle that merely goes out of scope is not counted out, and its
    /// channel then never closes: every sender is to end here. The handle is
    /// taken by value, so none is counted out twice.
    pub fn retire(self) {
        let mut guard = lock(&self.shared.inner);
        let last = state(&mut guard).remove_sender();
        if last {
            self.shared.available.notify_one();
        }
    }

    /// Appends `t` to the channel's queue and wakes the receiver if it sleeps.
    /// Never fails and never blocks longer than the lock is held elsewhere.
    pub fn send(&mut self, t: T)
        ensures
            final(self).same_channel(old(self)),
    {
        {
            let mut guard = lock(&self.shared.inner);
            state(&mut guard).enqueue(t);
        }
        self.shared.available.notify_one();
    }
}

impl<T> Receiver<T> {
    /// The payloads that this handle has already taken over from the shared
    /// queue and not handed out yet, oldest first.
    pub closed spec fn buffered(&self) -> Seq<T> {
        self.buffer@
    }

    /// Hands out the oldest payload not yet received, sleeping while there is
    /// none and a sender is alive. `None` says that the channel is closed and
    /// drained.
    ///
    /// While payloads are buffered in this handle the lock is not touched: the
    /// oldest of them is the result. Otherwise the result is taken from the
    /// shared queue, which other threads fill; of that case the contract says
    /// what holds whatever they did: a `None` leaves the buffer empty.
    pub fn recv(&mut self) -> (r: Option<T>)
        ensures
            forall|tx: &Sender<T>| tx.feeds(old(self)) ==> tx.feeds(final(self)),
            old(self).buffered().len() > 0 ==> r == Some(old(self).buffered()[0])
                && final(self).buffered() == old(self).buffered().skip(1),
            old(self).buffered().len() == 0 && r is None ==> final(self).buffered().len() == 0,
    {
        if let Some(t) = self.buffer.pop_front() {
            assert(self.buffer@ =~= old(self).buffer@.skip(1));
            return Some(t);
        }
        let guard = lock(&self.shared.inner);
        let mut guard = wait_while_idle(&self.shared.available, guard);
        state(&mut guard).take(&mut self.buffer)
    }
}

/// A fresh channel: one sender, one receiver, nothing queued or buffered.
pub fn channel<T>() -> (pair: (Sender<T>, Receiver<T>))
    ensures
        pair.0.feeds(&pair.1),
        pair.1.buffered() == Seq::<T>::empty(),
{
    let shared = Arc::new(Shared { inner: Mutex::new(Inner::new()), available: Condvar::new() });
    (Sender { shared: share(&shared) }, Receiver { shared, buffer: VecDeque::new() })
}

} // verus!
