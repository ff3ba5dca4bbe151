//! The job queue: a bounded first-in, first-out buffer of item identifiers
//! between the coordinator of a batch and its workers.
//!
//! The buffer is a bounded channel of the `crossbeam` crate, both of whose
//! ends the queue keeps to itself. It is used without ever waiting on it: a
//! full queue refuses an item, an empty one gives none.

use crossbeam::channel::{Receiver, Sender};
use vstd::prelude::*;

verus! {

#[verifier::external_type_specification]
#[verifier::external_body]
#[verifier::reject_recursive_types(T)]
pub struct ExSender<T>(Sender<T>);

#[verifier::external_type_specification]
#[verifier::external_body]
#[verifier::reject_recursive_types(T)]
pub struct ExReceiver<T>(Receiver<T>);

/// The messages that wait in the channel behind `receiver`, oldest first.
pub uninterp spec fn channel_items(receiver: Receiver<u32>) -> Seq<u32>;

/// The number of messages that the channel behind `receiver` was made to hold.
pub uninterp spec fn channel_capacity(receiver: Receiver<u32>) -> nat;

/// `sender` and `receiver` are the two ends of one channel.
pub uninterp spec fn channel_joins(sender: Sender<u32>, receiver: Receiver<u32>) -> bool;

/// Largest capacity that a queue is made with.
pub const MAX_CAPACITY: usize = 65536;

/// Calls `crossbeam::channel::bounded`.
///
/// Claimed of it: the new channel is empty, holds up to `capacity` messages,
/// and the two values returned are its ends.
#[verifier::external_body]
fn channel_bounded(capacity: usize) -> (ends: (Sender<u32>, Receiver<u32>))
    requires
        0 < capacity <= MAX_CAPACITY,
    ensures
        channel_items(ends.1) == Seq::<u32>::empty(),
        channel_capacity(ends.1) == capacity,
        channel_joins(ends.0, ends.1),
{
    crossbeam::channel::bounded(capacity)
}

/// Calls `Sender::try_send` on the sending end of the channel behind
/// `receiver`, which no other thread may hold an end of.
///
/// Claimed of it: the item is taken, and then is the newest message, exactly
/// if the channel holds fewer messages than its capacity; else nothing
/// changes.
#[verifier::external_body]
#[allow(unused_variables)]
fn channel_try_send(sender: &Sender<u32>, receiver: &mut Receiver<u32>, item: u32) -> (sent: bool)
    requires
        channel_joins(*sender, *old(receiver)),
    ensures
        sent == (channel_items(*old(receiver)).len() < channel_capacity(*old(receiver))),
        channel_items(*final(receiver)) == (if sent {
            channel_items(*old(receiver)).push(item)
        } else {
            channel_items(*old(receiver))
        }),
        channel_capacity(*final(receiver)) == channel_capacity(*old(receiver)),
        forall|s: Sender<u32>|
            channel_joins(s, *final(receiver)) == #[trigger] channel_joins(s, *old(receiver)),
{
    sender.try_send(item).is_ok()
}

/// Calls `Receiver::try_recv` on a channel which no other thread holds an
/// end of.
///
/// Claimed of it: the oldest message is taken out and returned; an empty
/// channel gives nothing and stays as it is, whether or not its sending end
/// still exists.
#[verifier::external_body]
fn channel_try_recv(receiver: &mut Receiver<u32>) -> (item: Option<u32>)
    ensures
        item == (if channel_items(*old(receiver)).len() > 0 {
            Some(channel_items(*old(receiver))[0])
        } else {
            None
        }),
        channel_items(*final(receiver)) == (if channel_items(*old(receiver)).len() > 0 {
            channel_items(*old(receiver)).drop_first()
        } else {
            channel_items(*old(receiver))
        }),
        channel_capacity(*final(receiver)) == channel_capacity(*old(receiver)),
        forall|s: Sender<u32>|
            channel_joins(s, *final(receiver)) == #[trigger] channel_joins(s, *old(receiver)),
{
    receiver.try_recv().ok()
}

/// A bounded queue of item identifiers that can be closed.
///
/// A closed queue takes no further item; what it holds can still be taken out.
pub struct JobQueue {
    sender: Option<Sender<u32>>,
    receiver: Receiver<u32>,
}

impl JobQueue {
    /// The items in the queue, oldest first.
    pub closed spec fn items(&self) -> Seq<u32> {
        channel_items(self.receiver)
    }

    /// The number of items that the queue can hold.
    pub closed spec fn capacity(&self) -> nat {
        channel_capacity(self.receiver)
    }

    /// The queue was closed.
    pub closed spec fn closed(&self) -> bool {
        self.sender.is_none()
    }

    /// The queue holds no more than its capacity, which is positive.
    pub closed spec fn wf(&self) -> bool {
        &&& 0 < self.capacity()
        &&& self.items().len() <= self.capacity()
        &&& (self.sender matches Some(sender) ==> channel_joins(sender, self.receiver))
    }

    /// An empty, open queue for up to `capacity` items.
    pub fn new(capacity: usize) -> (queue: JobQueue)
        requires
            0 < capacity <= MAX_CAPACITY,
        ensures
            queue.wf(),
            queue.items() == Seq::<u32>::empty(),
            queue.capacity() == capacity,
            !queue.closed(),
    {
        let (sender, receiver) = channel_bounded(capacity);
        JobQueue { sender: Some(sender), receiver }
    }

    /// Tells whether the queue was closed.
    pub fn is_closed(&self) -> (closed: bool)
        ensures
            closed == self.closed(),
    {
        self.sender.is_none()
    }

    /// Puts `item` at the end of the queue, unless the queue is full or
    /// closed, and tells whether it did.
    pub fn try_push(&mut self, item: u32) -> (pushed: bool)
        requires
            old(self).wf(),
        ensures
            final(self).wf(),
            final(self).capacity() == old(self).capacity(),
            final(self).closed() == old(self).closed(),
            pushed == (!old(self).closed() && old(self).items().len() < old(self).capacity()),
            final(self).items() == (if pushed {
                old(self).items().push(item)
            } else {
                old(self).items()
            }),
    {
        match &self.sender {
            Some(sender) => channel_try_send(sender, &mut self.receiver, item),
            None => false,
        }
    }

    /// Takes the oldest item out of the queue, if there is one.
    pub fn try_pop(&mut self) -> (item: Option<u32>)
        requires
            old(self).wf(),
        ensures
            final(self).wf(),
            final(self).capacity() == old(self).capacity(),
            final(self).closed() == old(self).closed(),
            item == (if old(self).items().len() > 0 {
                Some(old(self).items()[0])
            } else {
                None
            }),
            final(self).items() == (if old(self).items().len() > 0 {
                old(self).items().drop_first()
            } else {
                old(self).items()
            }),
    {
        channel_try_recv(&mut self.receiver)
    }

    /// Closes the queue: from now on it takes no item.
    pub fn close(&mut self)
        requires
            old(self).wf(),
        ensures
            final(self).wf(),
            final(self).closed(),
            final(self).capacity() == old(self).capacity(),
            final(self).items() == old(self).items(),
    {
        self.sender = None;
    }
}

} // verus!
