//! Bounded broadcast of status notifications.
//!
//! Each subscriber reads through its own cursor. Publishing never waits: when
//! a subscriber has `BUS_CAPACITY` notifications unread, the oldest of them is
//! overwritten. A subscriber that fell behind skips silently to the oldest
//! notification still held; it is not told how many it missed.

use crate::events::SystemNotify;
use embassy_sync::blocking_mutex::raw::CriticalSectionRawMutex;
use embassy_sync::pubsub::{PubSubChannel, Subscriber};
use vstd::prelude::*;

verus! {

/// Notifications held for a subscriber that has not read them.
pub const BUS_CAPACITY: usize = 4;
/// Subscribers the bus admits.
pub const BUS_SUBSCRIBERS: usize = 4;

/// Why a subscription was refused.
#[derive(Clone, Copy, Debug, PartialEq, Eq, Structural)]
pub enum NotifyError {
    MaximumSubscribersReached,
}

/// An `embassy_sync` publish/subscribe channel and the subscriptions made on
/// it. The channel is made here and never handed out, so these subscriptions
/// are the only ones.
#[verifier::external_body]
pub struct BusChannel {
    channel: &'static PubSubChannel<CriticalSectionRawMutex, SystemNotify, BUS_CAPACITY, BUS_SUBSCRIBERS, 2>,
    subscribers: Vec<Subscriber<'static, CriticalSectionRawMutex, SystemNotify, BUS_CAPACITY, BUS_SUBSCRIBERS, 2>>,
}

/// For each subscription, in the order they were made, the notifications it
/// has not read yet, oldest first.
pub uninterp spec fn bus_pending(b: BusChannel) -> Seq<Seq<SystemNotify>>;

/// What a subscriber has unread after one more notification is published.
pub open spec fn deliver(p: Seq<SystemNotify>, m: SystemNotify) -> Seq<SystemNotify> {
    if p.len() >= BUS_CAPACITY {
        p.drop_first().push(m)
    } else {
        p.push(m)
    }
}

impl BusChannel {
    /// Relies on `PubSubChannel::new`: a new channel has no subscriber. The
    /// channel lives as long as the program, as a bus does.
    #[verifier::external_body]
    fn channel_new() -> (r: BusChannel)
        ensures
            bus_pending(r) == Seq::<Seq<SystemNotify>>::empty(),
    {
        let channel = Box::leak(Box::new(PubSubChannel::new()));
        BusChannel { channel, subscribers: Vec::new() }
    }

    /// Relies on `PubSubChannel::subscriber`: it succeeds while fewer than
    /// `SUBS` subscribers exist, and the new one sees only what is published
    /// after it.
    #[verifier::external_body]
    fn channel_subscribe(&mut self) -> (r: bool)
        ensures
            r == (bus_pending(*old(self)).len() < BUS_SUBSCRIBERS),
            r ==> bus_pending(*final(self)) == bus_pending(*old(self)).push(Seq::<SystemNotify>::empty()),
            !r ==> bus_pending(*final(self)) == bus_pending(*old(self)),
    {
        match self.channel.subscriber() {
            Ok(s) => {
                self.subscribers.push(s);
                true
            },
            Err(_) => false,
        }
    }

    /// Relies on `ImmediatePublisher::publish_immediate`: when the channel is
    /// full its oldest entry is dropped, then the notification is queued for
    /// every subscriber.
    #[verifier::external_body]
    fn channel_publish(&mut self, m: SystemNotify) -> (r: ())
        ensures
            bus_pending(*final(self)) == bus_pending(*old(self)).map_values(|p: Seq<SystemNotify>| deliver(p, m)),
    {
        self.channel.immediate_publisher().publish_immediate(m)
    }

    /// Relies on `Subscriber::try_next_message_pure`: the oldest notification
    /// this subscriber has not read is taken, skipping over lost ones; the
    /// others are not affected.
    #[verifier::external_body]
    fn channel_try_next(&mut self, sub: usize) -> (r: Option<SystemNotify>)
        requires
            sub < bus_pending(*old(self)).len(),
        ensures
            bus_pending(*old(self))[sub as int].len() == 0 ==> r is None
                && bus_pending(*final(self)) == bus_pending(*old(self)),
            bus_pending(*old(self))[sub as int].len() > 0 ==> r == Some(bus_pending(*old(self))[sub as int][0])
                && bus_pending(*final(self)) == bus_pending(*old(self)).update(
                sub as int,
                bus_pending(*old(self))[sub as int].drop_first(),
            ),
    {
        self.subscribers[sub].try_next_message_pure()
    }
}

/// The notification bus.
pub struct NotifyBus {
    channel: BusChannel,
    /// Subscriptions made so far.
    subscriptions: usize,
}

impl NotifyBus {
    /// For each subscription, its unread notifications.
    pub closed spec fn view(&self) -> Seq<Seq<SystemNotify>> {
        bus_pending(self.channel)
    }

    /// The subscriber table and each subscriber's backlog stay in bounds.
    pub closed spec fn wf(&self) -> bool {
        &&& self.subscriptions == self@.len()
        &&& self@.len() <= BUS_SUBSCRIBERS
        &&& forall|i: int| 0 <= i < self@.len() ==> #[trigger] self@[i].len() <= BUS_CAPACITY
    }

    /// Number of subscriptions made on the bus.
    pub fn subscribers(&self) -> (r: usize)
        requires
            self.wf(),
        ensures
            r == self@.len(),
    {
        self.subscriptions
    }

    /// A bus with no subscriber.
    pub fn new() -> (r: NotifyBus)
        ensures
            r@ == Seq::<Seq<SystemNotify>>::empty(),
            r.wf(),
    {
        NotifyBus { channel: BusChannel::channel_new(), subscriptions: 0 }
    }

    /// Publish without waiting: every subscriber gets the notification, and
    /// one that already has `BUS_CAPACITY` unread loses its oldest.
    pub fn publish_immediate(&mut self, m: SystemNotify)
        requires
            old(self).wf(),
        ensures
            final(self).wf(),
            final(self)@.len() == old(self)@.len(),
            forall|i: int| 0 <= i < old(self)@.len() ==> #[trigger] final(self)@[i] == deliver(old(self)@[i], m),
    {
        self.channel.channel_publish(m);
    }

    /// The oldest unread notification of subscriber `sub`, if any.
    pub fn try_next(&mut self, sub: usize) -> (r: Option<SystemNotify>)
        requires
            old(self).wf(),
            sub < old(self)@.len(),
        ensures
            final(self).wf(),
            old(self)@[sub as int].len() == 0 ==> r is None && final(self)@ == old(self)@,
            old(self)@[sub as int].len() > 0 ==> r == Some(old(self)@[sub as int][0])
                && final(self)@ == old(self)@.update(sub as int, old(self)@[sub as int].drop_first()),
    {
        self.channel.channel_try_next(sub)
    }

    /// Register a new subscriber. Fails when the subscriber table is full.
    fn subscribe(&mut self) -> (r: Result<usize, NotifyError>)
        requires
            old(self).wf(),
        ensures
            final(self).wf(),
            old(self)@.len() < BUS_SUBSCRIBERS ==> r == Ok::<usize, NotifyError>(old(self)@.len() as usize)
                && final(self)@ == old(self)@.push(Seq::<SystemNotify>::empty()),
            old(self)@.len() >= BUS_SUBSCRIBERS ==> r == Err::<usize, NotifyError>(
                NotifyError::MaximumSubscribersReached,
            ) && final(self)@ == old(self)@,
    {
        let n = self.subscriptions;
        if self.channel.channel_subscribe() {
            self.subscriptions = n + 1;
            Ok(n)
        } else {
            Err(NotifyError::MaximumSubscribersReached)
        }
    }
}

/// Register a new subscriber; it sees what is published from now on. Fails
/// when the subscriber table is full.
pub fn notify_subscriber(bus: &mut NotifyBus) -> (r: Result<usize, NotifyError>)
    requires
        old(bus).wf(),
    ensures
        final(bus).wf(),
        old(bus)@.len() < BUS_SUBSCRIBERS ==> r == Ok::<usize, NotifyError>(old(bus)@.len() as usize)
            && final(bus)@ == old(bus)@.push(Seq::<SystemNotify>::empty()),
        old(bus)@.len() >= BUS_SUBSCRIBERS ==> r == Err::<usize, NotifyError>(NotifyError::MaximumSubscribersReached)
            && final(bus)@ == old(bus)@,
{
    bus.subscribe()
}

/// What a subscriber has unread after each of `ms` is published in turn.
pub open spec fn deliver_all(p: Seq<SystemNotify>, ms: Seq<SystemNotify>) -> Seq<SystemNotify>
    decreases ms.len(),
{
    if ms.len() == 0 {
        p
    } else {
        deliver(deliver_all(p, ms.drop_last()), ms.last())
    }
}

/// The last `n` entries of `s`, or all of them when it is shorter.
pub open spec fn latest(s: Seq<SystemNotify>, n: nat) -> Seq<SystemNotify> {
    if s.len() <= n {
        s
    } else {
        s.subrange(s.len() - n, s.len() as int)
    }
}

/// Publishing never blocks and never loses the newest: a subscriber holds
/// exactly the latest `BUS_CAPACITY` of what it had unread followed by what
/// was published.
pub proof fn lemma_retains_latest(p: Seq<SystemNotify>, ms: Seq<SystemNotify>)
    requires
        p.len() <= BUS_CAPACITY,
    ensures
        deliver_all(p, ms) == latest(p + ms, BUS_CAPACITY as nat),
    decreases ms.len(),
{
    if ms.len() == 0 {
        assert(p + ms =~= p);
    } else {
        let prev = ms.drop_last();
        lemma_retains_latest(p, prev);
        let q = deliver_all(p, prev);
        assert(p + ms =~= (p + prev).push(ms.last()));
        let s = p + prev;
        if s.len() < BUS_CAPACITY {
            assert(q == s);
        } else {
            assert(q =~= s.subrange(s.len() - BUS_CAPACITY, s.len() as int));
            assert(q.drop_first().push(ms.last()) =~= (p + ms).subrange(
                (p + ms).len() - BUS_CAPACITY,
                (p + ms).len() as int,
            ));
        }
    }
}

/// A subscriber that has read nothing while `BUS_CAPACITY + 1` notifications
/// were published first reads the second of them: the oldest one retained,
/// not the first ever published.
pub proof fn lemma_overwrite_oldest(ms: Seq<SystemNotify>)
    requires
        ms.len() == BUS_CAPACITY + 1,
    ensures
        deliver_all(Seq::<SystemNotify>::empty(), ms) == ms.drop_first(),
        deliver_all(Seq::<SystemNotify>::empty(), ms)[0] == ms[1],
{
    lemma_retains_latest(Seq::<SystemNotify>::empty(), ms);
    assert(Seq::<SystemNotify>::empty() + ms =~= ms);
    assert(ms.subrange(1, ms.len() as int) =~= ms.drop_first());
}

} // verus!
