//! The command channel: an unbounded first-in first-out queue of commands with a
//! single consumer.
use vstd::prelude::*;

use std::collections::VecDeque;

use crate::command::IoEvent;

verus! {

/// What receiving from a queue yields: its oldest command, if any, and the
/// commands left behind it.
pub open spec fn received(q: Seq<IoEvent>) -> (Option<IoEvent>, Seq<IoEvent>) {
    if q.len() == 0 {
        (None, q)
    } else {
        (Some(q[0]), q.drop_first())
    }
}

/// Commands waiting for the worker, oldest first. Once the consumer is gone the
/// channel is closed and refuses further commands.
pub struct CommandChannel {
    queue: VecDeque<IoEvent>,
    closed: bool,
}

impl View for CommandChannel {
    type V = Seq<IoEvent>;

    closed spec fn view(&self) -> Seq<IoEvent> {
        self.queue@
    }
}

impl CommandChannel {
    /// Whether the consumer is gone.
    pub closed spec fn is_closed(&self) -> bool {
        self.closed
    }

    /// An open, empty channel.
    pub fn new() -> (r: Self)
        ensures
            r@ == Seq::<IoEvent>::empty(),
            !r.is_closed(),
    {
        CommandChannel { queue: VecDeque::new(), closed: false }
    }

    /// Number of commands waiting.
    pub fn len(&self) -> (n: usize)
        ensures
            n == self@.len(),
    {
        self.queue.len()
    }

    /// Whether the consumer is gone.
    pub fn closed(&self) -> (r: bool)
        ensures
            r == self.is_closed(),
    {
        self.closed
    }

    /// Enqueues `cmd` last; when the channel is closed it is handed back instead.
    pub fn send(&mut self, cmd: IoEvent) -> (r: Result<(), IoEvent>)
        ensures
            final(self).is_closed() == old(self).is_closed(),
            old(self).is_closed() ==> r == Err::<(), IoEvent>(cmd) && final(self)@ == old(self)@,
            !old(self).is_closed() ==> r is Ok && final(self)@ == old(self)@.push(cmd),
    {
        if self.closed {
            Err(cmd)
        } else {
            self.queue.push_back(cmd);
            Ok(())
        }
    }

    /// Takes the oldest waiting command, if any.
    pub fn recv(&mut self) -> (r: Option<IoEvent>)
        ensures
            final(self).is_closed() == old(self).is_closed(),
            old(self)@.len() == 0 ==> r is None && final(self)@ == old(self)@,
            old(self)@.len() > 0 ==> r == Some(old(self)@[0]) && final(self)@ == old(self)@.drop_first(),
            (r, final(self)@) == received(old(self)@),
    {
        let r = self.queue.pop_front();
        proof {
            if old(self)@.len() > 0 {
                assert(self.queue@ =~= old(self)@.drop_first());
            }
        }
        r
    }

    /// Marks the consumer as gone; commands already queued stay.
    pub fn close(&mut self)
        ensures
            final(self).is_closed(),
            final(self)@ == old(self)@,
    {
        self.closed = true;
    }
}

/// Commands leave an open channel in the order they were sent: after `a` then
/// `b` are sent to an empty channel (each `send` appends), the first receive
/// yields `a` and the second `b`, and the channel is then empty.
pub proof fn lemma_fifo(a: IoEvent, b: IoEvent)
    ensures
        ({
            let q = Seq::<IoEvent>::empty().push(a).push(b);
            let (first, rest) = received(q);
            let (second, left) = received(rest);
            &&& first == Some(a)
            &&& second == Some(b)
            &&& left.len() == 0
        }),
{
    let q = Seq::<IoEvent>::empty().push(a).push(b);
    assert(q.drop_first() =~= seq![b]);
}

/// Whatever was already waiting leaves before a newly sent command.
pub proof fn lemma_sent_after_waiting(q: Seq<IoEvent>, c: IoEvent, i: int)
    requires
        0 <= i < q.len(),
    ensures
        q.push(c)[i] == q[i],
        q.push(c).last() == c,
{
}

} // verus!
