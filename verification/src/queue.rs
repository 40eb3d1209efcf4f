//! Queues between callers, router and workers: channels of the
//! `async_channel` crate, made here and handed out by their two ends.
use vstd::prelude::*;

verus! {

/// The sending end of a channel, as an opaque handle.
#[verifier::external_type_specification]
#[verifier::external_body]
#[verifier::reject_recursive_types(T)]
pub struct ExSender<T>(async_channel::Sender<T>);

/// The receiving end of a channel, as an opaque handle.
#[verifier::external_type_specification]
#[verifier::external_body]
#[verifier::reject_recursive_types(T)]
pub struct ExReceiver<T>(async_channel::Receiver<T>);

/// `async_channel::bounded` makes the two ends of a new channel that holds at
/// most `cap` messages. It panics on a capacity of zero, which is left out
/// here. Nothing is claimed of the ends.
pub assume_specification<T>[ async_channel::bounded::<T> ](cap: usize) -> (ends: (
    async_channel::Sender<T>,
    async_channel::Receiver<T>,
))
    requires
        cap > 0,
;

/// `async_channel::unbounded` makes the two ends of a new channel without a
/// limit. Nothing is claimed of the ends.
pub assume_specification<T>[ async_channel::unbounded::<T> ]() -> (ends: (
    async_channel::Sender<T>,
    async_channel::Receiver<T>,
));

/// `Clone` for `async_channel::Sender`: one more sending end of the same
/// channel. A sender holds nothing but its share of the channel, so the copy
/// is the same handle as the one it was made from.
pub assume_specification<T>[ <async_channel::Sender<T> as Clone>::clone ](
    sender: &async_channel::Sender<T>,
) -> (copy: async_channel::Sender<T>)
    ensures
        copy == *sender,
;

/// How many messages a queue may hold: `None` for no limit, `Some(n)` for at
/// most `n`, which must be positive.
pub open spec fn capacity_allowed(capacity: Option<usize>) -> bool {
    capacity matches Some(limit) ==> limit > 0
}

/// Both ends of one channel, with the capacity it was made with.
#[derive(Debug)]
#[verifier::reject_recursive_types(T)]
pub struct Queue<T> {
    sender: async_channel::Sender<T>,
    receiver: async_channel::Receiver<T>,
    capacity: Option<usize>,
}

impl<T> Queue<T> {
    /// The capacity the queue was made with.
    pub closed spec fn capacity_spec(&self) -> Option<usize> {
        self.capacity
    }

    /// The sending end of the queue.
    pub closed spec fn sender_spec(&self) -> async_channel::Sender<T> {
        self.sender
    }

    /// The receiving end of the queue.
    pub closed spec fn receiver_spec(&self) -> async_channel::Receiver<T> {
        self.receiver
    }

    /// A new queue: bounded by `limit` for `Some(limit)`, unbounded for
    /// `None`.
    pub fn with_capacity(capacity: Option<usize>) -> (queue: Self)
        requires
            capacity_allowed(capacity),
        ensures
            queue.capacity_spec() == capacity,
    {
        let (sender, receiver) = match capacity {
            Some(limit) => async_channel::bounded(limit),
            None => async_channel::unbounded(),
        };
        Queue { sender, receiver, capacity }
    }

    /// The capacity the queue was made with.
    #[verifier::when_used_as_spec(capacity_spec)]
    pub fn capacity(&self) -> (capacity: Option<usize>)
        ensures
            capacity == self.capacity_spec(),
    {
        self.capacity
    }

    /// The sending end of the queue, once more.
    #[verifier::when_used_as_spec(sender_spec)]
    pub fn sender(&self) -> (end: async_channel::Sender<T>)
        ensures
            end == self.sender_spec(),
    {
        self.sender.clone()
    }

    /// The receiving end of the queue, once more.
    #[verifier::when_used_as_spec(receiver_spec)]
    pub fn receiver(&self) -> (end: async_channel::Receiver<T>)
        ensures
            end == self.receiver_spec(),
    {
        receiving_end(self)
    }
}

/// `Clone` for `async_channel::Receiver`, called on a queue's own receiving
/// end: one more receiving end of the same channel. The copy holds its share
/// of the channel and no listener. A queue's own end holds no listener
/// either, since it is made without one and never polled as a stream, so the
/// copy is the same handle as the queue's end.
#[verifier::external_body]
fn receiving_end<T>(queue: &Queue<T>) -> (end: async_channel::Receiver<T>)
    ensures
        end == queue.receiver_spec(),
{
    queue.receiver.clone()
}

} // verus!
