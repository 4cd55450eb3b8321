//! A channel seen from outside: what was sent, what is still on its way, what
//! the receiver is handed, in which order.
//!
//! The handles work on state behind a lock, which no contract can follow from
//! one call to the next. The statements here are about the transitions that
//! the handles make under that lock, in whatever order the lock lets them in.

use crate::queue::{
    after_take, buffer_after_take, closed, enqueued, front_of, idle, sender_added, sender_removed,
    QueueState,
};
use vstd::prelude::*;

verus! {

/// A whole channel: the shared state and the receiver's own buffer.
pub struct ChannelState<T> {
    pub shared: QueueState<T>,
    pub buffer: Seq<T>,
}

/// One call on a handle.
pub enum Op<T> {
    /// `send` of this payload by any sender.
    Send(T),
    /// `recv` by the receiver. One that finds nothing hands nothing out and
    /// changes nothing, whether it then sleeps or reports the channel closed.
    Recv,
    /// `clone` of any sender.
    Clone,
    /// `retire` of any sender.
    Retire,
}

/// The payloads on their way, in the order in which they will be handed out:
/// the receiver's buffer first, then the shared queue.
pub open spec fn pending<T>(c: ChannelState<T>) -> Seq<T> {
    c.buffer + c.shared.queue
}

/// What `recv` hands out on `c` without sleeping.
pub open spec fn received<T>(c: ChannelState<T>) -> Option<T> {
    if c.buffer.len() > 0 {
        Some(c.buffer[0])
    } else {
        front_of(c.shared)
    }
}

/// The channel after a `recv` on `c`: the buffer loses its oldest payload, or,
/// if it is empty, the shared queue is taken from.
pub open spec fn after_recv<T>(c: ChannelState<T>) -> ChannelState<T> {
    if c.buffer.len() > 0 {
        ChannelState { shared: c.shared, buffer: c.buffer.skip(1) }
    } else {
        ChannelState {
            shared: after_take(c.shared, c.buffer),
            buffer: buffer_after_take(c.shared, c.buffer),
        }
    }
}

/// The channel after a `send` of `t`.
pub open spec fn after_send<T>(c: ChannelState<T>, t: T) -> ChannelState<T> {
    ChannelState { shared: enqueued(c.shared, t), buffer: c.buffer }
}

/// The channel with its shared state replaced: what a call on a sending
/// handle makes of it.
pub open spec fn with_shared<T>(c: ChannelState<T>, shared: QueueState<T>) -> ChannelState<T> {
    ChannelState { shared, buffer: c.buffer }
}

/// The channel after one call.
pub open spec fn step<T>(c: ChannelState<T>, op: Op<T>) -> ChannelState<T> {
    match op {
        Op::Send(t) => after_send(c, t),
        Op::Recv => after_recv(c),
        Op::Clone => with_shared(c, sender_added(c.shared)),
        Op::Retire => with_shared(c, sender_removed(c.shared)),
    }
}

/// Whether the call can be made at all: a call on a sender needs a sender
/// that is alive. The receiver can always be asked.
pub open spec fn possible<T>(c: ChannelState<T>, op: Op<T>) -> bool {
    op is Recv || !closed(c.shared)
}

/// Whether the calls `ops` can be made in that order, starting on `c`.
pub open spec fn feasible<T>(c: ChannelState<T>, ops: Seq<Op<T>>) -> bool
    decreases ops.len(),
{
    ops.len() == 0 || (feasible(c, ops.drop_last()) && possible(
        run(c, ops.drop_last()),
        ops.last(),
    ))
}

/// The channel after the calls `ops`, made in that order.
pub open spec fn run<T>(c: ChannelState<T>, ops: Seq<Op<T>>) -> ChannelState<T>
    decreases ops.len(),
{
    if ops.len() == 0 {
        c
    } else {
        step(run(c, ops.drop_last()), ops.last())
    }
}

/// The payloads that the `send` calls among `ops` carried, in call order.
pub open spec fn sent<T>(ops: Seq<Op<T>>) -> Seq<T>
    decreases ops.len(),
{
    if ops.len() == 0 {
        Seq::empty()
    } else {
        match ops.last() {
            Op::Send(t) => sent(ops.drop_last()).push(t),
            _ => sent(ops.drop_last()),
        }
    }
}

/// The payloads that the `recv` calls among `ops` handed out, in call order,
/// when the calls start on `c`.
pub open spec fn delivered<T>(c: ChannelState<T>, ops: Seq<Op<T>>) -> Seq<T>
    decreases ops.len(),
{
    if ops.len() == 0 {
        Seq::empty()
    } else {
        let before = delivered(c, ops.drop_last());
        match ops.last() {
            Op::Recv => match received(run(c, ops.drop_last())) {
                Some(t) => before.push(t),
                None => before,
            },
            _ => before,
        }
    }
}

/// The channel after `n` calls of `recv` and no other call.
pub open spec fn drained<T>(c: ChannelState<T>, n: nat) -> ChannelState<T>
    decreases n,
{
    if n == 0 {
        c
    } else {
        after_recv(drained(c, (n - 1) as nat))
    }
}

/// A `recv` on `c` would sleep: it finds nothing, and a sender is alive that
/// may still send.
pub open spec fn sleeps<T>(c: ChannelState<T>) -> bool {
    c.buffer.len() == 0 && idle(c.shared)
}

/// A `recv` on `c` would report the channel closed: it finds nothing, and no
/// sender is left.
pub open spec fn reports_closed<T>(c: ChannelState<T>) -> bool {
    pending(c).len() == 0 && closed(c.shared)
}

/// A `recv` does exactly one of three things: it hands out a payload, it
/// sleeps, or it reports the channel closed.
pub proof fn lemma_recv_outcomes<T>(c: ChannelState<T>)
    ensures
        received(c) is Some || sleeps(c) || reports_closed(c),
        !(received(c) is Some && sleeps(c)),
        !(received(c) is Some && reports_closed(c)),
        !(sleeps(c) && reports_closed(c)),
{
}

/// The two calls that wake the receiver leave nothing to sleep on: after a
/// `send`, and after the retirement that closes the channel, a `recv` does
/// not sleep.
pub proof fn lemma_woken_receiver_proceeds<T>(c: ChannelState<T>, t: T)
    ensures
        !sleeps(after_send(c, t)),
        closed(sender_removed(c.shared)) ==> !sleeps(with_shared(c, sender_removed(c.shared))),
{
}

/// The calls that do not wake the receiver give it no reason to wake: a
/// `recv` that would sleep before a clone, or before a retirement that leaves
/// a sender alive, would sleep after it too.
pub proof fn lemma_unwoken_receiver_has_nothing<T>(c: ChannelState<T>)
    requires
        sleeps(c),
    ensures
        sleeps(with_shared(c, sender_added(c.shared))),
        !closed(sender_removed(c.shared)) ==> sleeps(with_shared(c, sender_removed(c.shared))),
{
}

/// The number of sending handles alive after the calls `ops`, when there
/// were `n` before: one more for each `clone`, one less for each `retire`.
pub open spec fn handles<T>(n: nat, ops: Seq<Op<T>>) -> int
    decreases ops.len(),
{
    if ops.len() == 0 {
        n as int
    } else {
        match ops.last() {
            Op::Clone => handles(n, ops.drop_last()) + 1,
            Op::Retire => handles(n, ops.drop_last()) - 1,
            _ => handles(n, ops.drop_last()),
        }
    }
}

/// The count under the lock is the number of sending handles alive, so the
/// channel is closed exactly when every sender, the first one and each clone
/// of it, has been retired.
pub proof fn lemma_count_follows_handles<T>(c: ChannelState<T>, ops: Seq<Op<T>>)
    requires
        feasible(c, ops),
        c.shared.senders + ops.len() < usize::MAX,
    ensures
        run(c, ops).shared.senders == handles(c.shared.senders, ops),
        run(c, ops).shared.senders <= c.shared.senders + ops.len(),
        closed(run(c, ops).shared) <==> handles(c.shared.senders, ops) == 0,
    decreases ops.len(),
{
    if ops.len() > 0 {
        lemma_count_follows_handles(c, ops.drop_last());
        lemma_recv_takes_oldest(run(c, ops.drop_last()));
    }
}

/// Retiring a clone undoes the cloning.
pub proof fn lemma_clone_then_retire<T>(s: QueueState<T>)
    requires
        0 < s.senders < usize::MAX,
    ensures
        sender_removed(sender_added(s)) == s,
{
}

/// Closing is one-way: no call on any handle brings a sender back once the
/// last one is gone.
pub proof fn lemma_closing_is_one_way<T>(s: QueueState<T>, t: T, buffer: Seq<T>)
    requires
        closed(s),
    ensures
        closed(enqueued(s, t)),
        closed(sender_added(s)),
        closed(sender_removed(s)),
        closed(after_take(s, buffer)),
{
}

/// A `send` puts its payload behind everything that is on its way.
pub proof fn lemma_send_appends<T>(c: ChannelState<T>, t: T)
    ensures
        pending(after_send(c, t)) == pending(c).push(t),
{
    assert(pending(after_send(c, t)) =~= pending(c).push(t));
}

/// A `recv` hands out the oldest payload on its way and leaves the others in
/// their order; it hands out nothing exactly when nothing is on its way, and
/// then changes nothing.
pub proof fn lemma_recv_takes_oldest<T>(c: ChannelState<T>)
    ensures
        pending(c).len() > 0 ==> received(c) == Some(pending(c)[0]),
        pending(c).len() == 0 <==> received(c) is None,
        pending(c).len() > 0 ==> pending(after_recv(c)) == pending(c).skip(1),
        received(c) is None ==> after_recv(c) == c,
        after_recv(c).shared.senders == c.shared.senders,
{
    if pending(c).len() > 0 {
        assert(pending(after_recv(c)) =~= pending(c).skip(1));
    }
    if received(c) is None {
        assert(after_recv(c).shared.queue =~= c.shared.queue);
        assert(after_recv(c).buffer =~= c.buffer);
    }
}

/// First in, first out. Whatever calls are made in whatever order, the
/// payloads handed out so far, followed by those still on their way, are the
/// payloads that were on their way at the start followed by those sent since:
/// nothing is lost, doubled or overtaken.
pub proof fn lemma_fifo<T>(c: ChannelState<T>, ops: Seq<Op<T>>)
    ensures
        delivered(c, ops) + pending(run(c, ops)) == pending(c) + sent(ops),
    decreases ops.len(),
{
    if ops.len() == 0 {
        assert(delivered(c, ops) + pending(run(c, ops)) =~= pending(c) + sent(ops));
    } else {
        let init = ops.drop_last();
        let mid = run(c, init);
        lemma_fifo(c, init);
        match ops.last() {
            Op::Send(t) => {
                lemma_send_appends(mid, t);
                assert(delivered(c, ops) + pending(run(c, ops)) =~= (delivered(c, init) + pending(
                    mid,
                )).push(t));
                assert(pending(c) + sent(ops) =~= (pending(c) + sent(init)).push(t));
            },
            Op::Recv => {
                lemma_recv_takes_oldest(mid);
                assert(delivered(c, ops) + pending(run(c, ops)) =~= delivered(c, init) + pending(
                    mid,
                ));
            },
            _ => {},
        }
    }
}

/// On a channel that starts empty, the payloads handed out are the first of
/// those sent, in the order of sending.
pub proof fn lemma_delivery_follows_sending<T>(c: ChannelState<T>, ops: Seq<Op<T>>)
    requires
        pending(c).len() == 0,
    ensures
        delivered(c, ops).len() <= sent(ops).len(),
        delivered(c, ops) == sent(ops).take(delivered(c, ops).len() as int),
{
    lemma_fifo(c, ops);
    let d = delivered(c, ops);
    let p = pending(run(c, ops));
    assert(pending(c) + sent(ops) =~= sent(ops));
    assert((d + p).len() == d.len() + p.len());
    assert(d =~= (d + p).take(d.len() as int));
}

/// Receiving and nothing else, as it is once the channel is closed: the
/// `n`-th call from now hands out the `n`-th payload on its way, and every
/// call after the last of them hands out nothing. The live-sender count is
/// left alone, so a closed channel stays closed and never puts the receiver
/// to sleep.
pub proof fn lemma_drain<T>(c: ChannelState<T>, n: nat)
    ensures
        pending(drained(c, n)) == pending(c).skip(
            if n <= pending(c).len() {
                n as int
            } else {
                pending(c).len() as int
            },
        ),
        received(drained(c, n)) == (if n < pending(c).len() {
            Some(pending(c)[n as int])
        } else {
            None
        }),
        drained(c, n).shared.senders == c.shared.senders,
        closed(c.shared) ==> closed(drained(c, n).shared) && !idle(drained(c, n).shared),
    decreases n,
{
    let len = pending(c).len();
    if n == 0 {
        assert(pending(c) =~= pending(c).skip(0));
        lemma_recv_takes_oldest(c);
    } else {
        let m = (n - 1) as nat;
        let prev = drained(c, m);
        lemma_drain(c, m);
        lemma_recv_takes_oldest(prev);
        lemma_recv_takes_oldest(drained(c, n));
        if n <= len {
            assert(pending(drained(c, n)) =~= pending(c).skip(n as int));
        } else {
            assert(pending(drained(c, n)) =~= pending(c).skip(len as int));
        }
    }
}

/// On a closed channel the receiver is the only handle left to call: whatever
/// calls can still be made are calls of `recv`, and the channel stays closed.
pub proof fn lemma_only_receiving_is_left<T>(c: ChannelState<T>, ops: Seq<Op<T>>)
    requires
        closed(c.shared),
        feasible(c, ops),
    ensures
        forall|i: int| 0 <= i < ops.len() ==> #[trigger] ops[i] is Recv,
        run(c, ops) == drained(c, ops.len()),
        closed(run(c, ops).shared),
    decreases ops.len(),
{
    if ops.len() > 0 {
        let init = ops.drop_last();
        lemma_only_receiving_is_left(c, init);
        lemma_drain(c, init.len());
        assert forall|i: int| 0 <= i < ops.len() implies #[trigger] ops[i] is Recv by {
            if i < init.len() {
                assert(ops[i] == init[i]);
            }
        }
        lemma_drain(c, ops.len());
    }
}

/// Once every sender is gone, whatever calls are still made hand out what
/// is on its way, oldest first and nothing else, for as long as it lasts.
pub proof fn lemma_closed_channel_drains<T>(c: ChannelState<T>, ops: Seq<Op<T>>)
    requires
        closed(c.shared),
        feasible(c, ops),
    ensures
        delivered(c, ops) == pending(c).take(
            if ops.len() <= pending(c).len() {
                ops.len() as int
            } else {
                pending(c).len() as int
            },
        ),
    decreases ops.len(),
{
    if ops.len() == 0 {
        assert(delivered(c, ops) =~= pending(c).take(0));
    } else {
        let init = ops.drop_last();
        lemma_closed_channel_drains(c, init);
        lemma_only_receiving_is_left(c, ops);
        lemma_only_receiving_is_left(c, init);
        lemma_drain(c, init.len());
        assert(ops[ops.len() - 1] is Recv);
        let len = pending(c).len();
        if init.len() < len {
            assert(delivered(c, ops) =~= pending(c).take(ops.len() as int));
        } else {
            assert(delivered(c, ops) =~= pending(c).take(len as int));
        }
    }
}

/// Once a `recv` has found nothing on a closed channel, every later one finds
/// nothing either: the channel is as it was, however often it is asked.
pub proof fn lemma_closed_for_good<T>(c: ChannelState<T>, n: nat)
    requires
        closed(c.shared),
        received(c) is None,
    ensures
        drained(c, n) == c,
        received(drained(c, n)) is None,
    decreases n,
{
    if n > 0 {
        lemma_closed_for_good(c, (n - 1) as nat);
        lemma_recv_takes_oldest(c);
    }
}

} // verus!
