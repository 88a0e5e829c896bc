//! Single-slot command mailbox between the console and the control loop.
//!
//! A send that finds the slot taken drops the new intent and reports it; the
//! receiver takes the intent out and frees the slot.

use crate::events::SystemEvent;
use embassy_sync::blocking_mutex::raw::CriticalSectionRawMutex;
use embassy_sync::channel::Channel;
use vstd::prelude::*;

verus! {

/// Number of intents the mailbox holds.
pub const QUEUE_CAPACITY: usize = 1;

/// The command mailbox: an `embassy_sync` channel of capacity one.
#[verifier::external_body]
pub struct CommandQueue {
    channel: Channel<CriticalSectionRawMutex, SystemEvent, 1>,
}

/// The intents held by the mailbox's channel, oldest first.
pub uninterp spec fn queue_items(q: CommandQueue) -> Seq<SystemEvent>;

impl CommandQueue {
    /// Relies on `Channel::new`: a new channel holds nothing.
    #[verifier::external_body]
    fn channel_new() -> (r: CommandQueue)
        ensures
            queue_items(r) == Seq::<SystemEvent>::empty(),
    {
        CommandQueue { channel: Channel::new() }
    }

    /// Relies on `Channel::try_send`: the intent is appended when fewer than
    /// the capacity are held, and refused otherwise.
    #[verifier::external_body]
    fn channel_try_send(&mut self, e: SystemEvent) -> (r: bool)
        ensures
            r == (queue_items(*old(self)).len() < QUEUE_CAPACITY),
            r ==> queue_items(*final(self)) == queue_items(*old(self)).push(e),
            !r ==> queue_items(*final(self)) == queue_items(*old(self)),
    {
        self.channel.try_send(e).is_ok()
    }

    /// Relies on `Channel::try_receive`: the oldest intent is removed and
    /// returned, or nothing when the channel is empty.
    #[verifier::external_body]
    fn channel_try_receive(&mut self) -> (r: Option<SystemEvent>)
        ensures
            queue_items(*old(self)).len() == 0 ==> r is None && queue_items(*final(self)) == queue_items(*old(self)),
            queue_items(*old(self)).len() > 0 ==> r == Some(queue_items(*old(self))[0])
                && queue_items(*final(self)) == queue_items(*old(self)).drop_first(),
    {
        self.channel.try_receive().ok()
    }

    /// Relies on `Channel::len`: the number of intents held.
    #[verifier::external_body]
    fn channel_len(&self) -> (r: usize)
        ensures
            r == queue_items(*self).len(),
    {
        self.channel.len()
    }

    /// The intents waiting in the mailbox, oldest first.
    pub open spec fn view(&self) -> Seq<SystemEvent> {
        queue_items(*self)
    }

    /// At most one intent waits.
    pub open spec fn wf(&self) -> bool {
        self@.len() <= QUEUE_CAPACITY
    }

    /// An empty mailbox.
    pub fn new() -> (r: CommandQueue)
        ensures
            r@ == Seq::<SystemEvent>::empty(),
            r.wf(),
    {
        CommandQueue::channel_new()
    }

    /// Whether an intent waits.
    pub fn is_occupied(&self) -> (r: bool)
        requires
            self.wf(),
        ensures
            r == (self@.len() == 1),
    {
        self.channel_len() == 1
    }
}

/// Outcome of a send that does not wait: whether the intent was delivered,
/// and what the mailbox then holds.
pub open spec fn try_send_outcome(held: Seq<SystemEvent>, e: SystemEvent) -> (bool, Seq<SystemEvent>) {
    if held.len() == 0 {
        (true, seq![e])
    } else {
        (false, held)
    }
}

/// Outcome of a receive that does not wait: the intent taken, and what the
/// mailbox then holds.
pub open spec fn try_receive_outcome(held: Seq<SystemEvent>) -> (Option<SystemEvent>, Seq<SystemEvent>) {
    if held.len() == 0 {
        (None, held)
    } else {
        (Some(held[0]), held.drop_first())
    }
}

/// Two sends that do not wait, with no receive between them, into an empty
/// mailbox: the first is delivered, the second is refused and discarded, and
/// a receive then yields the first and leaves the mailbox empty.
pub proof fn lemma_drop_on_full(first: SystemEvent, second: SystemEvent)
    ensures
        ({
            let (d1, q1) = try_send_outcome(Seq::<SystemEvent>::empty(), first);
            let (d2, q2) = try_send_outcome(q1, second);
            let (got, q3) = try_receive_outcome(q2);
            d1 && !d2 && q2 == seq![first] && got == Some(first) && q3.len() == 0
        }),
{
}

/// Hand an intent to the control loop without waiting: it is delivered when
/// the slot is free, and dropped otherwise. Returns whether it was delivered.
pub fn event_try_send(queue: &mut CommandQueue, state: SystemEvent) -> (r: bool)
    requires
        old(queue).wf(),
    ensures
        final(queue).wf(),
        (r, final(queue)@) == try_send_outcome(old(queue)@, state),
{
    let r = queue.channel_try_send(state);
    proof {
        if r {
            assert(seq![state] =~= Seq::<SystemEvent>::empty().push(state));
            assert(old(queue)@ =~= Seq::<SystemEvent>::empty());
        }
    }
    r
}

/// Take the waiting intent out of the mailbox, if there is one.
pub fn event_try_receive(queue: &mut CommandQueue) -> (r: Option<SystemEvent>)
    requires
        old(queue).wf(),
    ensures
        final(queue).wf(),
        (r, final(queue)@) == try_receive_outcome(old(queue)@),
{
    queue.channel_try_receive()
}

} // verus!
