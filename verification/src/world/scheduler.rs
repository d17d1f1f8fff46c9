//! The ordered set of scheduled block ticks.

use crate::pos::BlockPos;
use vstd::prelude::*;

verus! {

/// A block tick that waits for its time.
#[derive(Debug, Copy, Clone, Eq, PartialEq, Structural)]
pub struct BlockTick {
    pub pos: BlockPos,
    /// The game tick at which it fires.
    pub tick: u32,
    pub priority: i8,
    /// Its place in the order of scheduling; once the numbers have run
    /// out, every new tick gets the greatest one.
    pub sequence: u64,
}

/// Whether `a` fires before `b`: the earlier fire time first, then the
/// higher priority, then the earlier scheduling.
pub open spec fn fires_before(a: BlockTick, b: BlockTick) -> bool {
    a.tick < b.tick || (a.tick == b.tick && (a.priority > b.priority || (a.priority == b.priority
        && a.sequence < b.sequence)))
}

/// Whether ticks stand in firing order: none fires before one that
/// stands in front of it.
pub open spec fn in_firing_order(ticks: Seq<BlockTick>) -> bool {
    forall|i: int, j: int| 0 <= i < j < ticks.len() ==> !fires_before(ticks[j], ticks[i])
}

/// Whether some tick waits for a position.
pub open spec fn is_pending(ticks: Seq<BlockTick>, pos: BlockPos) -> bool {
    exists|i: int| 0 <= i < ticks.len() && (#[trigger] ticks[i]).pos == pos
}

/// How many ticks stand before the place of `t` in firing order: the
/// place behind every tick that `t` does not fire before.
pub open spec fn firing_place(ticks: Seq<BlockTick>, t: BlockTick) -> int
    decreases ticks.len(),
{
    if ticks.len() == 0 {
        0
    } else if !fires_before(t, ticks.last()) {
        ticks.len() as int
    } else {
        firing_place(ticks.drop_last(), t)
    }
}

/// The number that follows a sequence number; the greatest number
/// follows itself.
pub open spec fn next_sequence(sequence: u64) -> u64 {
    if sequence == u64::MAX {
        sequence
    } else {
        (sequence + 1) as u64
    }
}

/// The pending ticks after a request to tick `pos` at `tick`: as before
/// if a tick waits for `pos` already, else with the new tick in its
/// place.
pub open spec fn scheduled(
    ticks: Seq<BlockTick>,
    sequence: u64,
    pos: BlockPos,
    tick: u32,
    priority: i8,
) -> Seq<BlockTick> {
    if is_pending(ticks, pos) {
        ticks
    } else {
        let t = BlockTick { pos, tick, priority, sequence };
        ticks.insert(firing_place(ticks, t), t)
    }
}

/// The pending ticks after the first one was taken, if it is due at
/// `tick`.
pub open spec fn popped(ticks: Seq<BlockTick>, tick: u32) -> Seq<BlockTick> {
    if ticks.len() > 0 && ticks[0].tick <= tick {
        ticks.skip(1)
    } else {
        ticks
    }
}

/// The scheduled block ticks, in firing order, at most one for each
/// position.
pub struct BlockTickScheduler {
    ticks: Vec<BlockTick>,
    sequence: u64,
}

impl View for BlockTickScheduler {
    type V = Seq<BlockTick>;

    closed spec fn view(&self) -> Seq<BlockTick> {
        self.ticks@
    }
}

/// Whether pending ticks are a valid schedule at a sequence number: in
/// firing order, one for each position, none numbered above `sequence`.
pub open spec fn valid_schedule(ticks: Seq<BlockTick>, sequence: u64) -> bool {
    &&& in_firing_order(ticks)
    &&& forall|i: int, j: int|
        0 <= i < j < ticks.len() ==> (#[trigger] ticks[i]).pos != (#[trigger] ticks[j]).pos
    &&& forall|i: int| 0 <= i < ticks.len() ==> (#[trigger] ticks[i]).sequence <= sequence
}

proof fn lemma_firing_place(ticks: Seq<BlockTick>, t: BlockTick)
    requires
        in_firing_order(ticks),
    ensures
        0 <= firing_place(ticks, t) <= ticks.len(),
        forall|i: int| 0 <= i < firing_place(ticks, t) ==> !fires_before(t, #[trigger] ticks[i]),
        forall|i: int|
            firing_place(ticks, t) <= i < ticks.len() ==> fires_before(t, #[trigger] ticks[i]),
    decreases ticks.len(),
{
    if ticks.len() > 0 && fires_before(t, ticks.last()) {
        let front = ticks.drop_last();
        assert forall|i: int, j: int| 0 <= i < j < front.len() implies !fires_before(
            front[j],
            front[i],
        ) by {
            assert(front[i] == ticks[i] && front[j] == ticks[j]);
        }
        lemma_firing_place(front, t);
        assert forall|i: int| firing_place(ticks, t) <= i < ticks.len() implies fires_before(
            t,
            #[trigger] ticks[i],
        ) by {
            if i < front.len() {
                assert(front[i] == ticks[i]);
            } else {
                assert(ticks[i] == ticks.last());
            }
        }
        assert forall|i: int| 0 <= i < firing_place(ticks, t) implies !fires_before(
            t,
            #[trigger] ticks[i],
        ) by {
            assert(front[i] == ticks[i]);
        }
    } else if ticks.len() > 0 {
        assert forall|i: int| 0 <= i < ticks.len() implies !fires_before(t, #[trigger] ticks[i]) by {
            if i < ticks.len() - 1 {
                assert(!fires_before(ticks.last(), ticks[i]));
            }
        }
    }
}

/// Scheduling keeps a schedule valid, and afterwards a tick waits for
/// the position.
pub proof fn lemma_scheduled_valid(
    ticks: Seq<BlockTick>,
    sequence: u64,
    pos: BlockPos,
    tick: u32,
    priority: i8,
)
    requires
        valid_schedule(ticks, sequence),
    ensures
        valid_schedule(
            scheduled(ticks, sequence, pos, tick, priority),
            if is_pending(ticks, pos) {
                sequence
            } else {
                next_sequence(sequence)
            },
        ),
        is_pending(scheduled(ticks, sequence, pos, tick, priority), pos),
{
    if !is_pending(ticks, pos) {
        let t = BlockTick { pos, tick, priority, sequence };
        lemma_firing_place(ticks, t);
        let at = firing_place(ticks, t);
        let next = ticks.insert(at, t);
        assert(next[at] == t);
        assert forall|i: int, j: int| 0 <= i < j < next.len() implies !fires_before(
            next[j],
            next[i],
        ) && next[i].pos != next[j].pos by {
            let a = if i < at {
                i
            } else {
                i - 1
            };
            let b = if j < at {
                j
            } else {
                j - 1
            };
            if i != at && j != at {
                assert(next[i] == ticks[a] && next[j] == ticks[b]);
            } else if i == at {
                assert(next[j] == ticks[b]);
            } else {
                assert(next[i] == ticks[a]);
            }
        }
        assert forall|i: int| 0 <= i < next.len() implies (#[trigger] next[i]).sequence
            <= next_sequence(sequence) by {
            if i < at {
                assert(next[i] == ticks[i]);
            } else if i > at {
                assert(next[i] == ticks[i - 1]);
            }
        }
    }
}

/// After a request for a position at which nothing waited, the one tick
/// that waits for the position is the requested one.
pub proof fn lemma_scheduled_tick(
    ticks: Seq<BlockTick>,
    sequence: u64,
    pos: BlockPos,
    tick: u32,
    priority: i8,
)
    requires
        valid_schedule(ticks, sequence),
        !is_pending(ticks, pos),
    ensures
        ({
            let after = scheduled(ticks, sequence, pos, tick, priority);
            &&& is_pending(after, pos)
            &&& forall|j: int|
                0 <= j < after.len() && (#[trigger] after[j]).pos == pos ==> after[j] == (BlockTick {
                    pos,
                    tick,
                    priority,
                    sequence,
                })
        }),
{
    let t = BlockTick { pos, tick, priority, sequence };
    lemma_firing_place(ticks, t);
    lemma_scheduled_valid(ticks, sequence, pos, tick, priority);
    let at = firing_place(ticks, t);
    let after = ticks.insert(at, t);
    assert forall|j: int| 0 <= j < after.len() && (#[trigger] after[j]).pos == pos implies after[j]
        == t by {
        if j < at {
            assert(after[j] == ticks[j]);
        } else if j > at {
            assert(after[j] == ticks[j - 1]);
        }
    }
}

/// No tick is taken before its time: a tick that is not due at `now`
/// still waits after a tick was taken at `now`.
pub proof fn lemma_not_taken_early(ticks: Seq<BlockTick>, now: u32, i: int)
    requires
        0 <= i < ticks.len(),
        ticks[i].tick > now,
    ensures
        exists|j: int|
            0 <= j < popped(ticks, now).len() && #[trigger] popped(ticks, now)[j] == ticks[i],
{
    if ticks[0].tick <= now {
        assert(popped(ticks, now)[i - 1] == ticks[i]);
    } else {
        assert(popped(ticks, now)[i] == ticks[i]);
    }
}

/// A second request for a position changes nothing while the first one
/// waits, and a position never has more than one tick waiting.
pub proof fn lemma_schedule_idempotent(
    ticks: Seq<BlockTick>,
    sequence: u64,
    pos: BlockPos,
    tick: u32,
    priority: i8,
    tick2: u32,
    priority2: i8,
)
    requires
        valid_schedule(ticks, sequence),
    ensures
        ({
            let once = scheduled(ticks, sequence, pos, tick, priority);
            let next = if is_pending(ticks, pos) {
                sequence
            } else {
                next_sequence(sequence)
            };
            &&& is_pending(once, pos)
            &&& scheduled(once, next, pos, tick2, priority2) == once
            &&& forall|i: int, j: int|
                0 <= i < once.len() && 0 <= j < once.len() && (#[trigger] once[i]).pos == pos && (
                #[trigger] once[j]).pos == pos ==> i == j
        }),
{
    lemma_scheduled_valid(ticks, sequence, pos, tick, priority);
}

/// No pending tick fires before the first one, so ticks are taken in the
/// order of fire time, then falling priority, then scheduling.
pub proof fn lemma_pop_order(ticks: Seq<BlockTick>, sequence: u64, tick: u32)
    requires
        valid_schedule(ticks, sequence),
        ticks.len() > 0,
    ensures
        valid_schedule(popped(ticks, tick), sequence),
        forall|i: int| 0 < i < ticks.len() ==> !fires_before(#[trigger] ticks[i], ticks[0]),
        popped(ticks, tick).len() > 0 && ticks[0].tick <= tick ==> !fires_before(
            popped(ticks, tick)[0],
            ticks[0],
        ),
{
    let rest = ticks.skip(1);
    assert forall|i: int, j: int| 0 <= i < j < rest.len() implies !fires_before(rest[j], rest[i])
        && rest[i].pos != rest[j].pos by {
        assert(rest[i] == ticks[i + 1] && rest[j] == ticks[j + 1]);
    }
    assert forall|i: int| 0 <= i < rest.len() implies (#[trigger] rest[i]).sequence <= sequence by {
        assert(rest[i] == ticks[i + 1]);
    }
    if rest.len() > 0 {
        assert(rest[0] == ticks[1]);
    }
}

impl BlockTickScheduler {
    /// The number that the next scheduled tick gets.
    pub closed spec fn spec_sequence(&self) -> u64 {
        self.sequence
    }

    /// The pending ticks are a valid schedule.
    pub open spec fn wf(&self) -> bool {
        valid_schedule(self@, self.spec_sequence())
    }

    /// A schedule without ticks.
    pub fn new() -> (s: BlockTickScheduler)
        ensures
            s.wf(),
            s@ == Seq::<BlockTick>::empty(),
            s.spec_sequence() == 0,
    {
        BlockTickScheduler { ticks: Vec::new(), sequence: 0 }
    }

    /// How many ticks wait.
    pub fn len(&self) -> (n: usize)
        ensures
            n == self@.len(),
    {
        self.ticks.len()
    }

    /// Whether a tick waits for a position.
    pub fn is_scheduled(&self, pos: BlockPos) -> (b: bool)
        ensures
            b == is_pending(self@, pos),
    {
        let mut i: usize = 0;
        while i < self.ticks.len()
            invariant
                i <= self.ticks@.len(),
                forall|k: int| 0 <= k < i ==> (#[trigger] self.ticks@[k]).pos != pos,
            decreases self.ticks@.len() - i,
        {
            if self.ticks[i].pos == pos {
                return true;
            }
            i = i + 1;
        }
        false
    }

    /// Schedules a tick for `pos` at game tick `tick`, unless one waits
    /// for `pos` already. Among ticks that are equal in time, priority and
    /// number, the one scheduled first stands first.
    pub fn schedule(&mut self, pos: BlockPos, tick: u32, priority: i8)
        requires
            old(self).wf(),
        ensures
            final(self).wf(),
            final(self)@ == scheduled(old(self)@, old(self).spec_sequence(), pos, tick, priority),
            final(self).spec_sequence() == (if is_pending(old(self)@, pos) {
                old(self).spec_sequence()
            } else {
                next_sequence(old(self).spec_sequence())
            }),
    {
        proof {
            lemma_scheduled_valid(self@, self.sequence, pos, tick, priority);
        }
        if self.is_scheduled(pos) {
            return ;
        }
        let t = BlockTick { pos, tick, priority, sequence: self.sequence };
        let mut at: usize = self.ticks.len();
        assert(self.ticks@.take(at as int) =~= self.ticks@);
        while at > 0 && ticks_in_order(&t, &self.ticks[at - 1])
            invariant
                at <= self.ticks@.len(),
                firing_place(self.ticks@, t) == firing_place(self.ticks@.take(at as int), t),
            decreases at,
        {
            proof {
                let front = self.ticks@.take(at as int);
                assert(front.last() == self.ticks@[at - 1]);
                assert(front.drop_last() =~= self.ticks@.take(at - 1));
            }
            at = at - 1;
        }
        proof {
            let front = self.ticks@.take(at as int);
            if at > 0 {
                assert(front.last() == self.ticks@[at - 1]);
            }
            assert(firing_place(front, t) == at);
        }
        self.ticks.insert(at, t);
        if self.sequence < u64::MAX {
            self.sequence = self.sequence + 1;
        }
    }

    /// Takes the first tick if it is due at game tick `tick`.
    pub fn pop_at_or_before(&mut self, tick: u32) -> (r: Option<BlockTick>)
        requires
            old(self).wf(),
        ensures
            final(self).wf(),
            final(self)@ == popped(old(self)@, tick),
            final(self).spec_sequence() == old(self).spec_sequence(),
            r == (if old(self)@.len() > 0 && old(self)@[0].tick <= tick {
                Some(old(self)@[0])
            } else {
                None
            }),
            r matches Some(first) ==> forall|i: int|
                0 <= i < final(self)@.len() ==> !fires_before(#[trigger] final(self)@[i], first),
    {
        if self.ticks.len() == 0 {
            return None;
        }
        if self.ticks[0].tick <= tick {
            proof {
                lemma_pop_order(self@, self.sequence, tick);
            }
            let first = self.ticks.remove(0);
            assert(self.ticks@ =~= old(self)@.skip(1));
            assert forall|i: int| 0 <= i < self@.len() implies !fires_before(
                #[trigger] self@[i],
                first,
            ) by {
                assert(self@[i] == old(self)@[i + 1]);
            }
            Some(first)
        } else {
            None
        }
    }
}

/// Whether `a` fires before `b`.
pub fn ticks_in_order(a: &BlockTick, b: &BlockTick) -> (r: bool)
    ensures
        r == fires_before(*a, *b),
{
    a.tick < b.tick || (a.tick == b.tick && (a.priority > b.priority || (a.priority == b.priority
        && a.sequence < b.sequence)))
}

} // verus!
