//! The sequence numbers of block changes that wait to be acknowledged.

use smallvec::SmallVec;
use vstd::prelude::*;

verus! {

/// A `SmallVec` of sequence numbers with room for 16 of them before it
/// allocates.
#[verifier::external_body]
pub struct SequenceStore {
    items: SmallVec<[i32; 16]>,
}

/// The sequence numbers that a store holds, oldest first.
pub uninterp spec fn ack_queue_items(q: SequenceStore) -> Seq<i32>;

/// `SmallVec::new`: a vector without items.
#[verifier::external_body]
fn store_new() -> (q: SequenceStore)
    ensures
        ack_queue_items(q) == Seq::<i32>::empty(),
{
    SequenceStore { items: SmallVec::new() }
}

/// `SmallVec::len`: the number of items held.
#[verifier::external_body]
fn store_len(q: &SequenceStore) -> (n: usize)
    ensures
        n == ack_queue_items(*q).len(),
{
    q.items.len()
}

/// `SmallVec::push`: the item is appended after the items held.
#[verifier::external_body]
fn store_push(q: &mut SequenceStore, item: i32)
    ensures
        ack_queue_items(*final(q)) == ack_queue_items(*old(q)).push(item),
{
    q.items.push(item)
}

/// Indexing a `SmallVec`: the item at a position below the length.
#[verifier::external_body]
fn store_get(q: &SequenceStore, index: usize) -> (item: i32)
    requires
        index < ack_queue_items(*q).len(),
    ensures
        item == ack_queue_items(*q)[index as int],
{
    q.items[index]
}

/// `SmallVec::clear`: no item is left.
#[verifier::external_body]
fn store_clear(q: &mut SequenceStore)
    ensures
        ack_queue_items(*final(q)) == Seq::<i32>::empty(),
{
    q.items.clear()
}

/// Sequence numbers that wait to be acknowledged, oldest first. The first
/// 16 need no allocation.
pub struct AckQueue {
    items: SequenceStore,
}

impl View for AckQueue {
    type V = Seq<i32>;

    closed spec fn view(&self) -> Seq<i32> {
        ack_queue_items(self.items)
    }
}

impl AckQueue {
    /// An empty queue.
    pub fn new() -> (q: AckQueue)
        ensures
            q@ == Seq::<i32>::empty(),
    {
        AckQueue { items: store_new() }
    }

    /// How many sequence numbers wait.
    pub fn len(&self) -> (n: usize)
        ensures
            n == self@.len(),
    {
        store_len(&self.items)
    }

    /// Appends a sequence number.
    pub fn push(&mut self, sequence: i32)
        ensures
            final(self)@ == old(self)@.push(sequence),
    {
        store_push(&mut self.items, sequence)
    }

    /// The sequence number at a position.
    pub fn get(&self, index: usize) -> (sequence: i32)
        requires
            index < self@.len(),
        ensures
            sequence == self@[index as int],
    {
        store_get(&self.items, index)
    }

    /// Forgets all sequence numbers.
    pub fn clear(&mut self)
        ensures
            final(self)@ == Seq::<i32>::empty(),
    {
        store_clear(&mut self.items)
    }
}

} // verus!
