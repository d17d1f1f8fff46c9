//! The queue of positions whose blocks wait for an update.

use crate::pos::BlockPos;
use smallvec::SmallVec;
use vstd::prelude::*;

verus! {

/// A `SmallVec` of coordinates with room for 1024 of them before it
/// allocates.
#[verifier::external_body]
pub struct CoordinateStore {
    items: SmallVec<[(i16, i16, i16); 1024]>,
}

/// The coordinates that a store holds, oldest first.
pub uninterp spec fn update_queue_items(q: CoordinateStore) -> Seq<(i16, i16, i16)>;

/// `SmallVec::new`: a vector without items.
#[verifier::external_body]
fn queue_new() -> (q: CoordinateStore)
    ensures
        update_queue_items(q) == Seq::<(i16, i16, i16)>::empty(),
{
    CoordinateStore { items: SmallVec::new() }
}

/// `SmallVec::len`: the number of items held.
#[verifier::external_body]
fn queue_len(q: &CoordinateStore) -> (n: usize)
    ensures
        n == update_queue_items(*q).len(),
{
    q.items.len()
}

/// `SmallVec::push`: the item is appended after the items held.
#[verifier::external_body]
fn queue_push(q: &mut CoordinateStore, item: (i16, i16, i16))
    ensures
        update_queue_items(*final(q)) == update_queue_items(*old(q)).push(item),
{
    q.items.push(item)
}

/// `SmallVec::remove` at index 0: the first item is taken out and
/// returned, the others move up in their order.
#[verifier::external_body]
fn queue_remove_first(q: &mut CoordinateStore) -> (item: (i16, i16, i16))
    requires
        update_queue_items(*old(q)).len() > 0,
    ensures
        item == update_queue_items(*old(q))[0],
        update_queue_items(*final(q)) == update_queue_items(*old(q)).skip(1),
{
    q.items.remove(0)
}

/// Positions that wait for a block update, first in, first out. The first
/// 1024 need no allocation.
pub struct BlockUpdateQueue {
    items: CoordinateStore,
}

impl View for BlockUpdateQueue {
    type V = Seq<BlockPos>;

    closed spec fn view(&self) -> Seq<BlockPos> {
        update_queue_items(self.items).map_values(
            |c: (i16, i16, i16)| BlockPos { x: c.0, y: c.1, z: c.2 },
        )
    }
}

impl BlockUpdateQueue {
    /// An empty queue.
    pub fn new() -> (q: BlockUpdateQueue)
        ensures
            q@ == Seq::<BlockPos>::empty(),
    {
        let q = BlockUpdateQueue { items: queue_new() };
        assert(q@ =~= Seq::<BlockPos>::empty());
        q
    }

    /// How many positions wait.
    pub fn len(&self) -> (n: usize)
        ensures
            n == self@.len(),
    {
        queue_len(&self.items)
    }

    /// Appends a position.
    pub fn push(&mut self, pos: BlockPos)
        ensures
            final(self)@ == old(self)@.push(pos),
    {
        queue_push(&mut self.items, (pos.x, pos.y, pos.z));
        assert(self@ =~= old(self)@.push(pos));
    }

    /// Takes the position that has waited longest.
    pub fn pop(&mut self) -> (r: Option<BlockPos>)
        ensures
            old(self)@.len() == 0 ==> r is None && final(self)@ == old(self)@,
            old(self)@.len() > 0 ==> r == Some(old(self)@[0]) && final(self)@ == old(self)@.skip(1),
    {
        if queue_len(&self.items) == 0 {
            return None;
        }
        let (x, y, z) = queue_remove_first(&mut self.items);
        assert(self@ =~= old(self)@.skip(1));
        Some(BlockPos { x, y, z })
    }
}

} // verus!
