//! Routing of the messages that arrive on one connection to the requests
//! that wait for them, keyed by message id and message number.
use vstd::prelude::*;

use crate::error::Error;
use crate::model::Bc;

verus! {

/// How many messages a subscriber may leave unread before it is dropped.
pub const SUBSCRIBER_QUEUE: usize = 100;

pub struct Subscription {
    pub msg_id: u32,
    pub msg_num: u16,
    pub queue: Vec<Bc>,
}

/// What became of an arriving message.
#[derive(Debug, PartialEq, Eq)]
pub enum Dispatch {
    /// Queued for a subscriber.
    Delivered,
    /// Nobody waits for it.
    NoSubscriber,
    /// Its subscriber had a full queue and was dropped.
    DroppedSlowConsumer,
}

/// What a subscriber finds.
#[derive(Debug, PartialEq, Eq)]
pub enum Received {
    /// The oldest unread message.
    Message(Bc),
    /// Nothing yet.
    Empty,
    /// The subscription is over.
    Ended(Error),
}

pub struct SubscriptionMux {
    subs: Vec<Subscription>,
    next_num: u16,
    closed: bool,
}

/// The first subscription with this key.
pub open spec fn first_match(keys: Seq<(u32, u16)>, key: (u32, u16), i: int) -> bool {
    0 <= i < keys.len() && keys[i] == key && forall|j: int| 0 <= j < i ==> keys[j] != key
}

impl SubscriptionMux {
    /// The key of each subscription, in the order they were made.
    pub closed spec fn keys(&self) -> Seq<(u32, u16)> {
        Seq::new(self.subs@.len(), |i: int| (self.subs@[i].msg_id, self.subs@[i].msg_num))
    }

    /// The unread messages of each subscription, oldest first.
    pub closed spec fn queues(&self) -> Seq<Seq<Bc>> {
        Seq::new(self.subs@.len(), |i: int| self.subs@[i].queue@)
    }

    /// Whether the transport has closed.
    pub closed spec fn is_closed(&self) -> bool {
        self.closed
    }

    /// The message number that the next request gets.
    pub closed spec fn upcoming(&self) -> u16 {
        self.next_num
    }

    pub fn new() -> (r: SubscriptionMux)
        ensures
            r.keys() == Seq::<(u32, u16)>::empty(),
            r.queues() == Seq::<Seq<Bc>>::empty(),
            !r.is_closed(),
            r.upcoming() == 0,
    {
        let r = SubscriptionMux { subs: Vec::new(), next_num: 0, closed: false };
        assert(r.keys() =~= Seq::<(u32, u16)>::empty());
        assert(r.queues() =~= Seq::<Seq<Bc>>::empty());
        r
    }

    /// A fresh message number for a request; numbers increase and wrap
    /// around after 65535.
    pub fn new_message_num(&mut self) -> (r: u16)
        ensures
            r == old(self).upcoming(),
            final(self).upcoming() == (old(self).upcoming() + 1) % 65536,
            final(self).keys() == old(self).keys(),
            final(self).queues() == old(self).queues(),
            final(self).is_closed() == old(self).is_closed(),
    {
        let r = self.next_num;
        self.next_num = if r == 65535 {
            0
        } else {
            r + 1
        };
        r
    }

    fn find(&self, msg_id: u32, msg_num: u16) -> (r: Option<usize>)
        ensures
            r matches Some(i) ==> first_match(self.keys(), (msg_id, msg_num), i as int),
            r is None ==> forall|j: int| 0 <= j < self.keys().len() ==> self.keys()[j] != (msg_id, msg_num),
    {
        let mut i: usize = 0;
        while i < self.subs.len()
            invariant
                i <= self.subs@.len(),
                forall|j: int| 0 <= j < i ==> self.keys()[j] != (msg_id, msg_num),
            decreases self.subs@.len() - i,
        {
            if self.subs[i].msg_id == msg_id && self.subs[i].msg_num == msg_num {
                return Some(i);
            }
            i += 1;
        }
        None
    }

    /// Waits for messages with this key. Subscribe before sending a request so
    /// that its reply is not lost. Fails once the transport has closed.
    pub fn subscribe(&mut self, msg_id: u32, msg_num: u16) -> (r: Result<(), Error>)
        ensures
            old(self).is_closed() ==> r == Err::<(), Error>(Error::DroppedConnection) && final(self).keys()
                == old(self).keys() && final(self).queues() == old(self).queues(),
            !old(self).is_closed() ==> r is Ok && final(self).keys() == old(self).keys().push(
                (msg_id, msg_num),
            ) && final(self).queues() == old(self).queues().push(Seq::empty()),
            final(self).is_closed() == old(self).is_closed(),
            final(self).upcoming() == old(self).upcoming(),
    {
        if self.closed {
            return Err(Error::DroppedConnection);
        }
        self.subs.push(Subscription { msg_id, msg_num, queue: Vec::new() });
        assert(self.keys() =~= old(self).keys().push((msg_id, msg_num)));
        assert(self.queues() =~= old(self).queues().push(Seq::empty()));
        Ok(())
    }

    /// Hands an arriving message to the first subscriber with its key. A
    /// subscriber whose queue is full is dropped rather than waited for.
    pub fn dispatch(&mut self, msg: Bc) -> (r: Dispatch)
        ensures
            final(self).is_closed() == old(self).is_closed(),
            final(self).upcoming() == old(self).upcoming(),
            ({
                let key = (msg.meta.msg_id, msg.meta.msg_num);
                if exists|i: int| first_match(old(self).keys(), key, i) {
                    let i = choose|i: int| first_match(old(self).keys(), key, i);
                    if old(self).queues()[i].len() < SUBSCRIBER_QUEUE {
                        &&& r == Dispatch::Delivered
                        &&& final(self).keys() == old(self).keys()
                        &&& final(self).queues() == old(self).queues().update(
                            i,
                            old(self).queues()[i].push(msg),
                        )
                    } else {
                        &&& r == Dispatch::DroppedSlowConsumer
                        &&& final(self).keys() == old(self).keys().remove(i)
                        &&& final(self).queues() == old(self).queues().remove(i)
                    }
                } else {
                    &&& r == Dispatch::NoSubscriber
                    &&& final(self).keys() == old(self).keys()
                    &&& final(self).queues() == old(self).queues()
                }
            }),
    {
        let ghost key = (msg.meta.msg_id, msg.meta.msg_num);
        match self.find(msg.meta.msg_id, msg.meta.msg_num) {
            None => {
                assert(!exists|i: int| first_match(old(self).keys(), key, i));
                Dispatch::NoSubscriber
            },
            Some(i) => {
                proof {
                    let c = choose|c: int| first_match(old(self).keys(), key, c);
                    assert(c == i as int) by {
                        if c < i {
                            assert(old(self).keys()[c] != key);
                        } else if c > i {
                            assert(old(self).keys()[i as int] != key);
                        }
                    }
                }
                let mut s = self.subs.remove(i);
                if s.queue.len() < SUBSCRIBER_QUEUE {
                    s.queue.push(msg);
                    self.subs.insert(i, s);
                    assert(self.keys() =~= old(self).keys());
                    assert(self.queues() =~= old(self).queues().update(
                        i as int,
                        old(self).queues()[i as int].push(msg),
                    ));
                    Dispatch::Delivered
                } else {
                    assert(self.keys() =~= old(self).keys().remove(i as int));
                    assert(self.queues() =~= old(self).queues().remove(i as int));
                    Dispatch::DroppedSlowConsumer
                }
            },
        }
    }

    /// Takes the oldest unread message of the first subscription with this
    /// key. A subscription that is gone has ended: with `DroppedConnection`
    /// once the transport has closed, else because it was dropped as slow.
    pub fn recv(&mut self, msg_id: u32, msg_num: u16) -> (r: Received)
        ensures
            final(self).is_closed() == old(self).is_closed(),
            final(self).upcoming() == old(self).upcoming(),
            final(self).keys() == old(self).keys(),
            ({
                let key = (msg_id, msg_num);
                if exists|i: int| first_match(old(self).keys(), key, i) {
                    let i = choose|i: int| first_match(old(self).keys(), key, i);
                    if old(self).queues()[i].len() == 0 {
                        r == Received::Empty && final(self).queues() == old(self).queues()
                    } else {
                        &&& r == Received::Message(old(self).queues()[i][0])
                        &&& final(self).queues() == old(self).queues().update(
                            i,
                            old(self).queues()[i].subrange(1, old(self).queues()[i].len() as int),
                        )
                    }
                } else {
                    &&& final(self).queues() == old(self).queues()
                    &&& r == Received::Ended(
                        if old(self).is_closed() {
                            Error::DroppedConnection
                        } else {
                            Error::SlowConsumer
                        },
                    )
                }
            }),
    {
        let ghost key = (msg_id, msg_num);
        match self.find(msg_id, msg_num) {
            None => {
                assert(!exists|i: int| first_match(old(self).keys(), key, i));
                if self.closed {
                    Received::Ended(Error::DroppedConnection)
                } else {
                    Received::Ended(Error::SlowConsumer)
                }
            },
            Some(i) => {
                proof {
                    let c = choose|c: int| first_match(old(self).keys(), key, c);
                    assert(c == i as int) by {
                        if c < i {
                            assert(old(self).keys()[c] != key);
                        } else if c > i {
                            assert(old(self).keys()[i as int] != key);
                        }
                    }
                }
                if self.subs[i].queue.len() == 0 {
                    return Received::Empty;
                }
                let mut s = self.subs.remove(i);
                let m = s.queue.remove(0);
                self.subs.insert(i, s);
                assert(self.keys() =~= old(self).keys());
                assert(self.queues() =~= old(self).queues().update(
                    i as int,
                    old(self).queues()[i as int].subrange(1, old(self).queues()[i as int].len() as int),
                ));
                Received::Message(m)
            },
        }
    }

    /// Ends the first subscription with this key.
    pub fn unsubscribe(&mut self, msg_id: u32, msg_num: u16)
        ensures
            final(self).is_closed() == old(self).is_closed(),
            final(self).upcoming() == old(self).upcoming(),
            ({
                let key = (msg_id, msg_num);
                if exists|i: int| first_match(old(self).keys(), key, i) {
                    let i = choose|i: int| first_match(old(self).keys(), key, i);
                    final(self).keys() == old(self).keys().remove(i) && final(self).queues() == old(
                        self,
                    ).queues().remove(i)
                } else {
                    final(self).keys() == old(self).keys() && final(self).queues() == old(
                        self,
                    ).queues()
                }
            }),
    {
        let ghost key = (msg_id, msg_num);
        match self.find(msg_id, msg_num) {
            None => {
                assert(!exists|i: int| first_match(old(self).keys(), key, i));
            },
            Some(i) => {
                proof {
                    let c = choose|c: int| first_match(old(self).keys(), key, c);
                    assert(c == i as int) by {
                        if c < i {
                            assert(old(self).keys()[c] != key);
                        } else if c > i {
                            assert(old(self).keys()[i as int] != key);
                        }
                    }
                }
                self.subs.remove(i);
                assert(self.keys() =~= old(self).keys().remove(i as int));
                assert(self.queues() =~= old(self).queues().remove(i as int));
            },
        }
    }

    /// The transport closed: every subscription ends with `DroppedConnection`.
    pub fn shutdown(&mut self)
        ensures
            final(self).is_closed(),
            final(self).keys() == Seq::<(u32, u16)>::empty(),
            final(self).queues() == Seq::<Seq<Bc>>::empty(),
            final(self).upcoming() == old(self).upcoming(),
    {
        self.subs.clear();
        self.closed = true;
        assert(self.keys() =~= Seq::<(u32, u16)>::empty());
        assert(self.queues() =~= Seq::<Seq<Bc>>::empty());
    }
}

} // verus!
