//! The intake buffer: messages wait here, in arrival order, between the bus
//! and the batch processor.
//!
//! The buffer itself is plain data. Whoever shares it among tasks puts it
//! behind one lock and takes that lock exclusively for `push` and for
//! `drain_all`, so that every interleaving of producers and the consumer is
//! some sequence of these two operations.

use vstd::prelude::*;

verus! {

/// Messages awaiting the next drain, oldest first.
pub struct IntakeBuffer<T> {
    items: Vec<T>,
}

impl<T> View for IntakeBuffer<T> {
    type V = Seq<T>;

    closed spec fn view(&self) -> Seq<T> {
        self.items@
    }
}

impl<T> IntakeBuffer<T> {
    /// An empty buffer.
    pub fn new() -> (buffer: Self)
        ensures
            buffer@ == Seq::<T>::empty(),
    {
        IntakeBuffer { items: Vec::new() }
    }

    /// Appends a message at the tail.
    pub fn push(&mut self, item: T)
        ensures
            final(self)@ == old(self)@.push(item),
    {
        self.items.push(item);
    }

    /// The number of messages waiting.
    pub fn len(&self) -> (n: usize)
        ensures
            n == self@.len(),
    {
        self.items.len()
    }

    /// Whether no message is waiting.
    pub fn is_empty(&self) -> (r: bool)
        ensures
            r == (self@.len() == 0),
    {
        self.items.len() == 0
    }

    /// Hands out every waiting message, oldest first, and leaves the buffer
    /// empty. The backing storage is swapped for a fresh one, so the call
    /// takes the same short time however many messages wait.
    pub fn drain_all(&mut self) -> (drained: Vec<T>)
        ensures
            drained@ == old(self)@,
            final(self)@ == Seq::<T>::empty(),
    {
        let mut drained: Vec<T> = Vec::new();
        std::mem::swap(&mut self.items, &mut drained);
        drained
    }
}

/// One operation on a shared buffer.
pub enum BufferOp<T> {
    /// A producer appends a message.
    Push(T),
    /// The consumer takes everything.
    Drain,
}

/// What the buffer holds after `ops`, starting empty.
pub open spec fn buffered<T>(ops: Seq<BufferOp<T>>) -> Seq<T>
    decreases ops.len(),
{
    if ops.len() == 0 {
        Seq::empty()
    } else {
        match ops.last() {
            BufferOp::Push(item) => buffered(ops.drop_last()).push(item),
            BufferOp::Drain => Seq::empty(),
        }
    }
}

/// Every message that the drains among `ops` handed out, in the order in
/// which they handed them out.
pub open spec fn handed_out<T>(ops: Seq<BufferOp<T>>) -> Seq<T>
    decreases ops.len(),
{
    if ops.len() == 0 {
        Seq::empty()
    } else {
        match ops.last() {
            BufferOp::Push(_) => handed_out(ops.drop_last()),
            BufferOp::Drain => handed_out(ops.drop_last()) + buffered(ops.drop_last()),
        }
    }
}

/// Every message that was pushed among `ops`, in push order.
pub open spec fn pushed<T>(ops: Seq<BufferOp<T>>) -> Seq<T>
    decreases ops.len(),
{
    if ops.len() == 0 {
        Seq::empty()
    } else {
        match ops.last() {
            BufferOp::Push(item) => pushed(ops.drop_last()).push(item),
            BufferOp::Drain => pushed(ops.drop_last()),
        }
    }
}

/// Whatever the order of pushes and drains, the messages handed out so far
/// followed by those still waiting are exactly the messages pushed, each once
/// and in push order: no drain returns a message twice, none is lost, and a
/// message not returned by one drain waits for the next.
pub proof fn lemma_drain_exclusive<T>(ops: Seq<BufferOp<T>>)
    ensures
        handed_out(ops) + buffered(ops) == pushed(ops),
    decreases ops.len(),
{
    if ops.len() == 0 {
        assert(handed_out(ops) + buffered(ops) =~= pushed(ops));
    } else {
        let front = ops.drop_last();
        lemma_drain_exclusive(front);
        match ops.last() {
            BufferOp::Push(item) => {
                assert(handed_out(front) + buffered(front).push(item) =~= (handed_out(front)
                    + buffered(front)).push(item));
            },
            BufferOp::Drain => {
                assert(handed_out(front) + buffered(front) + Seq::<T>::empty() =~= handed_out(
                    front,
                ) + buffered(front));
            },
        }
    }
}

} // verus!
