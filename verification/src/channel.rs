//! The bounded chunk channel between a real-time capture callback and an
//! encoder forwarding task.
//!
//! The producer side never blocks: a callback makes one non-blocking
//! enqueue attempt per chunk and drops the chunk when the buffer is full,
//! favouring real-time safety over completeness. The buffer is therefore
//! never observed holding more than its capacity, which
//! [`lemma_sends_never_exceed_capacity`] states for any number of attempts.
use vstd::prelude::*;

verus! {

/// Message capacity of each per-stream chunk channel.
pub const CHANNEL_CAPACITY: usize = 2048;

/// A bounded FIFO of serialized sample chunks. Both endpoints of a
/// `tokio::sync::mpsc` bounded channel are held together, so the channel is
/// never closed while the value lives and its buffered contents are a
/// well-defined queue.
#[verifier::external_body]
pub struct ChunkChannel {
    tx: tokio::sync::mpsc::Sender<Vec<u8>>,
    rx: tokio::sync::mpsc::Receiver<Vec<u8>>,
}

/// The chunks currently buffered in the channel, oldest first.
pub uninterp spec fn chunk_channel_contents(c: ChunkChannel) -> Seq<Seq<u8>>;

/// The message capacity the channel was created with.
pub uninterp spec fn chunk_channel_capacity(c: ChunkChannel) -> nat;

/// One non-blocking enqueue attempt: the chunk enters the queue exactly
/// when the buffer is below capacity, and is dropped otherwise.
pub open spec fn send_step(cap: nat, q: Seq<Seq<u8>>, chunk: Seq<u8>) -> Seq<Seq<u8>> {
    if q.len() < cap {
        q.push(chunk)
    } else {
        q
    }
}

/// The queue left after a whole sequence of non-blocking enqueue attempts.
pub open spec fn apply_sends(cap: nat, q: Seq<Seq<u8>>, sends: Seq<Seq<u8>>) -> Seq<Seq<u8>>
    decreases sends.len(),
{
    if sends.len() == 0 {
        q
    } else {
        apply_sends(cap, send_step(cap, q, sends[0]), sends.drop_first())
    }
}

impl ChunkChannel {
    /// Relies on `tokio::sync::mpsc::channel`: creates a bounded channel
    /// that buffers up to `capacity` messages. The bound keeps well clear
    /// of the capacity limit at which `channel` panics, on any platform.
    #[verifier::external_body]
    pub(crate) fn new(capacity: usize) -> (c: ChunkChannel)
        requires
            1 <= capacity <= 0x1000_0000,
        ensures
            chunk_channel_contents(c) == Seq::<Seq<u8>>::empty(),
            chunk_channel_capacity(c) == capacity,
    {
        let (tx, rx) = tokio::sync::mpsc::channel(capacity);
        ChunkChannel { tx, rx }
    }

    /// Relies on `tokio::sync::mpsc::Sender::try_send`: without blocking,
    /// queues the message in arrival order exactly when the buffer is below
    /// capacity, and fails without queueing anything otherwise. The
    /// receiver is owned by `self`, so the channel is never closed.
    #[verifier::external_body]
    pub(crate) fn try_send(&mut self, chunk: Vec<u8>) -> (sent: bool)
        ensures
            chunk_channel_capacity(*final(self)) == chunk_channel_capacity(*old(self)),
            sent == (chunk_channel_contents(*old(self)).len() < chunk_channel_capacity(
                *old(self),
            )),
            chunk_channel_contents(*final(self)) == send_step(
                chunk_channel_capacity(*old(self)),
                chunk_channel_contents(*old(self)),
                chunk@,
            ),
    {
        self.tx.try_send(chunk).is_ok()
    }

    /// Relies on `tokio::sync::mpsc::Receiver::try_recv`: without blocking,
    /// dequeues the oldest buffered message, or returns nothing when the
    /// buffer is empty. The sender is owned by `self`, so the channel is
    /// never disconnected.
    #[verifier::external_body]
    pub(crate) fn try_recv(&mut self) -> (r: Option<Vec<u8>>)
        ensures
            chunk_channel_capacity(*final(self)) == chunk_channel_capacity(*old(self)),
            match r {
                Option::Some(chunk) => chunk_channel_contents(*old(self)).len() > 0 && chunk@
                    == chunk_channel_contents(*old(self))[0] && chunk_channel_contents(
                    *final(self),
                ) == chunk_channel_contents(*old(self)).drop_first(),
                Option::None => chunk_channel_contents(*old(self)).len() == 0
                    && chunk_channel_contents(*final(self)) == chunk_channel_contents(*old(self)),
            },
    {
        match self.rx.try_recv() {
            Ok(chunk) => Some(chunk),
            Err(_) => None,
        }
    }
}

/// Law: however many chunks producers attempt to enqueue, and however
/// slowly the consumer drains, the buffer never exceeds the capacity it was
/// created with — each attempt is non-blocking and simply drops its chunk
/// when the buffer is full, so a consumer never observes more than
/// `cap` queued items.
pub proof fn lemma_sends_never_exceed_capacity(cap: nat, q: Seq<Seq<u8>>, sends: Seq<Seq<u8>>)
    requires
        q.len() <= cap,
    ensures
        apply_sends(cap, q, sends).len() <= cap,
    decreases sends.len(),
{
    if sends.len() > 0 {
        lemma_sends_never_exceed_capacity(cap, send_step(cap, q, sends[0]), sends.drop_first());
    }
}

} // verus!
