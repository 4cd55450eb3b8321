//! The state that all handles of one channel share, as plain data.
//!
//! Everything a channel decides is decided here, on a value that the caller
//! holds exclusively: what `send` appends, what a receive hands out, when the
//! receiver has to sleep and when the channel counts as closed.

use std::collections::VecDeque;
use vstd::prelude::*;

verus! {

/// Mathematical picture of the shared state: the payloads still queued, oldest
/// first, and the number of live sending handles.
pub struct QueueState<T> {
    pub queue: Seq<T>,
    pub senders: nat,
}

/// The shared state after one more payload was sent.
pub open spec fn enqueued<T>(s: QueueState<T>, t: T) -> QueueState<T> {
    QueueState { queue: s.queue.push(t), senders: s.senders }
}

/// The shared state after one sending handle was cloned. Only a live handle
/// can be cloned, so a count of zero stays zero; and the count stops at
/// `usize::MAX`, which no program reaches, since every handle takes up memory.
pub open spec fn sender_added<T>(s: QueueState<T>) -> QueueState<T> {
    QueueState {
        queue: s.queue,
        senders: if 0 < s.senders < usize::MAX { s.senders + 1 } else { s.senders },
    }
}

/// The shared state after one sending handle was destroyed.
pub open spec fn sender_removed<T>(s: QueueState<T>) -> QueueState<T> {
    QueueState {
        queue: s.queue,
        senders: if s.senders > 0 { (s.senders - 1) as nat } else { 0 },
    }
}

/// No sending handle is left: nothing will ever be enqueued again.
pub open spec fn closed<T>(s: QueueState<T>) -> bool {
    s.senders == 0
}

/// Nothing is queued although a sender is still alive: a receiver that finds
/// the state like this has to sleep.
pub open spec fn idle<T>(s: QueueState<T>) -> bool {
    s.queue.len() == 0 && s.senders > 0
}

/// What a take on `s` hands out: the oldest queued payload.
pub open spec fn front_of<T>(s: QueueState<T>) -> Option<T> {
    if s.queue.len() > 0 {
        Some(s.queue[0])
    } else {
        None
    }
}

/// The shared state after a take by a receiver whose own buffer held `buffer`:
/// if more than one payload was queued, the queue is left holding `buffer`.
pub open spec fn after_take<T>(s: QueueState<T>, buffer: Seq<T>) -> QueueState<T> {
    QueueState {
        queue: if s.queue.len() > 1 { buffer } else { Seq::empty() },
        senders: s.senders,
    }
}

/// The receiver's buffer after a take: if more than one payload was queued,
/// all but the oldest, in their order.
pub open spec fn buffer_after_take<T>(s: QueueState<T>, buffer: Seq<T>) -> Seq<T> {
    if s.queue.len() > 1 {
        s.queue.skip(1)
    } else {
        buffer
    }
}

/// Queue and live-sender count of one channel.
pub struct Inner<T> {
    queue: VecDeque<T>,
    senders: usize,
}

impl<T> View for Inner<T> {
    type V = QueueState<T>;

    closed spec fn view(&self) -> QueueState<T> {
        QueueState { queue: self.queue@, senders: self.senders as nat }
    }
}

impl<T> Inner<T> {
    /// The state of a fresh channel: nothing queued, one sender.
    pub fn new() -> (s: Self)
        ensures
            s@.queue == Seq::<T>::empty(),
            s@.senders == 1,
    {
        Inner { queue: VecDeque::new(), senders: 1 }
    }

    /// Number of payloads queued.
    pub fn len(&self) -> (n: usize)
        ensures
            n == self@.queue.len(),
    {
        self.queue.len()
    }

    /// Number of live sending handles.
    pub fn senders(&self) -> (n: usize)
        ensures
            n == self@.senders,
    {
        self.senders
    }

    /// Appends `t` behind everything queued so far.
    pub fn enqueue(&mut self, t: T)
        ensures
            final(self)@ == enqueued(old(self)@, t),
    {
        self.queue.push_back(t);
    }

    /// Counts one more sending handle. A closed channel stays closed.
    pub fn add_sender(&mut self)
        ensures
            final(self)@ == sender_added(old(self)@),
    {
        if 0 < self.senders && self.senders < usize::MAX {
            self.senders = self.senders + 1;
        }
    }

    /// Counts one sending handle less and says whether that was the last one,
    /// in which case a sleeping receiver has to be woken.
    pub fn remove_sender(&mut self) -> (last: bool)
        ensures
            final(self)@ == sender_removed(old(self)@),
            last == closed(final(self)@),
    {
        if self.senders > 0 {
            self.senders = self.senders - 1;
        }
        self.senders == 0
    }

    /// Whether a receiver has to sleep on this state.
    pub fn is_idle(&self) -> (b: bool)
        ensures
            b == idle(self@),
    {
        self.queue.len() == 0 && self.senders > 0
    }

    /// Whether every sender is gone.
    pub fn is_closed(&self) -> (b: bool)
        ensures
            b == closed(self@),
    {
        self.senders == 0
    }

    /// Hands out the oldest queued payload, if there is one. Whatever was
    /// queued behind it changes places with `buffer`, so that the receiver
    /// can serve it later without coming back here.
    ///
    /// On an empty queue nothing changes and the result is `None`.
    pub fn take(&mut self, buffer: &mut VecDeque<T>) -> (r: Option<T>)
        ensures
            r == front_of(old(self)@),
            final(self)@ == after_take(old(self)@, old(buffer)@),
            final(buffer)@ == buffer_after_take(old(self)@, old(buffer)@),
    {
        let r = match self.queue.pop_front() {
            Some(t) => {
                if self.queue.len() != 0 {
                    std::mem::swap(buffer, &mut self.queue);
                }
                Some(t)
            },
            None => None,
        };
        proof {
            assert(self@.queue =~= after_take(old(self)@, old(buffer)@).queue);
            assert(buffer@ =~= buffer_after_take(old(self)@, old(buffer)@));
        }
        r
    }
}

} // verus!
