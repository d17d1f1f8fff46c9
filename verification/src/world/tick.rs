//! The tick engine: which behaviour answers for a block, and what one
//! game tick does.

use crate::direction::{Direction, HorizontalDirection};
use crate::pos::BlockPos;
use crate::world::block::blocks::lever::LeverBlock;
use crate::world::block::blocks::redstone_comparator::RedstoneComparatorBlock;
use crate::world::block::blocks::redstone_lamp::RedstoneLampBlock;
use crate::world::block::blocks::redstone_repeater::RedstoneRepeaterBlock;
use crate::world::block::blocks::redstone_torch::RedstoneTorchBlock;
use crate::world::block::blocks::redstone_wire::RedstoneWireBlock;
use crate::world::block::registry::BlockKind;
use crate::world::block::BlockState;
use crate::world::scheduler::BlockTick;
use crate::world::world::{wrap_tick, LocalWorld, RedstoneOverride, WorldModel};
use vstd::prelude::*;

verus! {

/// How many scheduled ticks one game tick runs at most; what is left
/// waits for the next game tick.
pub const MAX_SCHEDULED_PER_TICK: u32 = 0x1_0000;

/// How many block updates one game tick runs at most; what is left waits
/// for the next game tick.
pub const MAX_UPDATES_PER_TICK: u32 = 0x10_0000;

impl WorldModel {
    /// The world after the scheduled tick of the block in state `bs` at
    /// `pos`.
    pub open spec fn block_ticked(self, pos: BlockPos, bs: BlockState) -> WorldModel {
        match self.registry.spec_kind_of(bs) {
            BlockKind::RedstoneRepeater => self.repeater_ticked(pos, bs),
            BlockKind::RedstoneComparator => self.comparator_ticked(pos, bs),
            BlockKind::RedstoneTorch => self.torch_ticked(pos, bs),
            BlockKind::RedstoneWallTorch => self.torch_ticked(pos, bs),
            BlockKind::RedstoneLamp => self.lamp_ticked(pos, bs),
            _ => self,
        }
    }

    /// The world after the update of the block in state `bs` at `pos`.
    pub open spec fn block_updated(self, pos: BlockPos, bs: BlockState) -> WorldModel {
        match self.registry.spec_kind_of(bs) {
            BlockKind::RedstoneWire => self.wire_updated(pos, bs),
            BlockKind::RedstoneRepeater => self.repeater_updated(pos, bs),
            BlockKind::RedstoneComparator => self.comparator_updated(pos, bs),
            BlockKind::RedstoneTorch => self.torch_updated(pos, bs),
            BlockKind::RedstoneWallTorch => self.torch_updated(pos, bs),
            BlockKind::RedstoneLamp => self.lamp_updated(pos, bs),
            _ => self,
        }
    }

    /// The world after a player's click with an empty hand on the block
    /// in state `bs` at `pos`.
    pub open spec fn block_used(self, pos: BlockPos, bs: BlockState) -> WorldModel {
        match self.registry.spec_kind_of(bs) {
            BlockKind::Lever => self.lever_used(pos, bs),
            BlockKind::RedstoneRepeater => self.repeater_used(pos, bs),
            BlockKind::RedstoneComparator => self.comparator_used(pos, bs),
            BlockKind::RedstoneWire => self.wire_used(pos, bs),
            _ => self,
        }
    }

    /// The world after a block in state `bs` was put at `pos`.
    pub open spec fn block_placed(self, pos: BlockPos, bs: BlockState) -> WorldModel {
        match self.registry.spec_kind_of(bs) {
            BlockKind::RedstoneWire => self.wire_placed(pos),
            BlockKind::RedstoneTorch => self.torch_placed(pos),
            BlockKind::RedstoneWallTorch => self.torch_placed(pos),
            _ => self,
        }
    }

    /// The world after a block in state `bs` was taken from `pos`.
    pub open spec fn block_destroyed(self, pos: BlockPos, bs: BlockState) -> WorldModel {
        match self.registry.spec_kind_of(bs) {
            BlockKind::RedstoneWire => self.wire_destroyed(pos),
            BlockKind::RedstoneTorch => self.torch_destroyed(pos),
            BlockKind::RedstoneWallTorch => self.torch_destroyed(pos),
            BlockKind::RedstoneComparator => self.remove_output(pos),
            _ => self,
        }
    }

    /// The state in which the block that owns `bs` is put at `pos`
    /// against the face `face` of a block, by a player whose cursor leans
    /// toward `toward`.
    pub open spec fn state_for_placement(
        self,
        bs: BlockState,
        pos: BlockPos,
        face: Direction,
        toward: HorizontalDirection,
    ) -> BlockState {
        match self.registry.spec_kind_of(bs) {
            BlockKind::Lever => LeverBlock::spec_state_for_placement(face),
            BlockKind::RedstoneRepeater => RedstoneRepeaterBlock::spec_state_for_placement(toward),
            BlockKind::RedstoneComparator => RedstoneComparatorBlock::spec_state_for_placement(
                toward,
            ),
            BlockKind::RedstoneWire => self.wire_shape(
                pos,
                RedstoneWireBlock::spec_default_state(),
            ),
            BlockKind::RedstoneTorch => RedstoneTorchBlock::spec_state_for_placement(face),
            BlockKind::RedstoneWallTorch => RedstoneTorchBlock::spec_state_for_placement(face),
            _ => self.registry.spec_get_block(bs).spec_default_state(),
        }
    }

    /// The world without its first scheduled tick.
    pub open spec fn without_first_tick(self) -> WorldModel {
        WorldModel { scheduled: self.scheduled.skip(1), ..self }
    }

    /// The world without its oldest queued update.
    pub open spec fn without_first_update(self) -> WorldModel {
        WorldModel { updates: self.updates.skip(1), ..self }
    }

    /// The world after the scheduled ticks that are due at game tick
    /// `current` have run, at most `budget` of them: each is taken from
    /// the schedule, then the block at its position ticks. Ticks that a
    /// block schedules for `current` or earlier run in the same pass.
    pub open spec fn scheduled_run(self, current: u32, budget: nat) -> WorldModel
        decreases budget,
    {
        if budget == 0 || self.scheduled.len() == 0 || self.scheduled[0].tick > current {
            self
        } else {
            let at = self.scheduled[0].pos;
            let taken = self.without_first_tick();
            (match taken.block(at) {
                Some(bs) => taken.block_ticked(at, bs),
                None => taken,
            }).scheduled_run(current, (budget - 1) as nat)
        }
    }

    /// The world after the queued updates have run, oldest first, at most
    /// `budget` of them: each is taken from the queue, then the block at
    /// its position is updated. Updates that a block queues run in the
    /// same pass.
    pub open spec fn updates_run(self, budget: nat) -> WorldModel
        decreases budget,
    {
        if budget == 0 || self.updates.len() == 0 {
            self
        } else {
            let at = self.updates[0];
            let taken = self.without_first_update();
            (match taken.block(at) {
                Some(bs) => taken.block_updated(at, bs),
                None => taken,
            }).updates_run((budget - 1) as nat)
        }
    }

    /// The world after one game tick: the due scheduled ticks run, then
    /// the queued updates, then the tick counter goes up by one.
    pub open spec fn ticked(self) -> WorldModel {
        let run = self.scheduled_run(self.tick, MAX_SCHEDULED_PER_TICK as nat).updates_run(
            MAX_UPDATES_PER_TICK as nat,
        );
        WorldModel { tick: wrap_tick(run.tick + 1), ..run }
    }
}

impl WorldModel {
    /// The world after `n` game ticks.
    pub open spec fn ticked_times(self, n: nat) -> WorldModel
        decreases n,
    {
        if n == 0 {
            self
        } else {
            self.ticked().ticked_times((n - 1) as nat)
        }
    }
}

/// A game tick at which no scheduled tick is due and no update is queued
/// changes nothing but the tick counter.
pub proof fn lemma_idle_tick(m: WorldModel)
    requires
        m.updates.len() == 0,
        m.scheduled.len() == 0 || m.scheduled[0].tick > m.tick,
    ensures
        m.ticked() == (WorldModel { tick: wrap_tick(m.tick + 1), ..m }),
{
    let run = m.scheduled_run(m.tick, MAX_SCHEDULED_PER_TICK as nat);
    assert(run == m);
    assert(run.updates_run(MAX_UPDATES_PER_TICK as nat) == m);
}

/// A scheduled tick waits for its time: while the first scheduled tick
/// is not due and no update is queued, game ticks change nothing but the
/// tick counter, so the tick is still the first one when its time has
/// come.
pub proof fn lemma_scheduled_tick_waits(m: WorldModel, n: nat)
    requires
        m.updates.len() == 0,
        m.scheduled.len() > 0,
        m.tick + n <= m.scheduled[0].tick,
    ensures
        m.ticked_times(n) == (WorldModel { tick: (m.tick + n) as u32, ..m }),
    decreases n,
{
    if n > 0 {
        lemma_idle_tick(m);
        let next = m.ticked();
        assert(next == (WorldModel { tick: (m.tick + 1) as u32, ..m }));
        lemma_scheduled_tick_waits(next, (n - 1) as nat);
    }
}

impl<R: RedstoneOverride> LocalWorld<R> {
    /// Runs the scheduled tick of the block in state `bs` at `pos`.
    pub fn tick_block(&mut self, pos: BlockPos, bs: BlockState)
        requires
            old(self).wf(),
        ensures
            final(self).wf(),
            final(self).same_frame(old(self)),
            final(self)@ == old(self)@.block_ticked(pos, bs),
    {
        match self.kind_of(bs) {
            BlockKind::RedstoneRepeater => RedstoneRepeaterBlock::tick(self, pos, bs),
            BlockKind::RedstoneComparator => RedstoneComparatorBlock::tick(self, pos, bs),
            BlockKind::RedstoneTorch => RedstoneTorchBlock::tick(self, pos, bs),
            BlockKind::RedstoneWallTorch => RedstoneTorchBlock::tick(self, pos, bs),
            BlockKind::RedstoneLamp => RedstoneLampBlock::tick(self, pos, bs),
            _ => {},
        }
    }

    /// Runs the update of the block in state `bs` at `pos`.
    pub fn update_block_now(&mut self, pos: BlockPos, bs: BlockState)
        requires
            old(self).wf(),
        ensures
            final(self).wf(),
            final(self).same_frame(old(self)),
            final(self)@ == old(self)@.block_updated(pos, bs),
    {
        match self.kind_of(bs) {
            BlockKind::RedstoneWire => RedstoneWireBlock::update(self, pos, bs),
            BlockKind::RedstoneRepeater => RedstoneRepeaterBlock::update(self, pos, bs),
            BlockKind::RedstoneComparator => RedstoneComparatorBlock::update(self, pos, bs),
            BlockKind::RedstoneTorch => RedstoneTorchBlock::update(self, pos, bs),
            BlockKind::RedstoneWallTorch => RedstoneTorchBlock::update(self, pos, bs),
            BlockKind::RedstoneLamp => RedstoneLampBlock::update(self, pos, bs),
            _ => {},
        }
    }

    /// What happens when a player clicks with an empty hand on the block
    /// in state `bs` at `pos`.
    pub fn on_use_without_item(&mut self, pos: BlockPos, bs: BlockState)
        requires
            old(self).wf(),
        ensures
            final(self).wf(),
            final(self).same_frame(old(self)),
            final(self)@ == old(self)@.block_used(pos, bs),
    {
        match self.kind_of(bs) {
            BlockKind::Lever => LeverBlock::on_use_without_item(self, pos, bs),
            BlockKind::RedstoneRepeater => RedstoneRepeaterBlock::on_use_without_item(
                self,
                pos,
                bs,
            ),
            BlockKind::RedstoneComparator => RedstoneComparatorBlock::on_use_without_item(
                self,
                pos,
                bs,
            ),
            BlockKind::RedstoneWire => RedstoneWireBlock::on_use_without_item(self, pos, bs),
            _ => {},
        }
    }

    /// What happens when a block in state `bs` was put at `pos`.
    pub fn on_placed(&mut self, pos: BlockPos, bs: BlockState)
        requires
            old(self).wf(),
        ensures
            final(self).wf(),
            final(self).same_frame(old(self)),
            final(self)@ == old(self)@.block_placed(pos, bs),
    {
        match self.kind_of(bs) {
            BlockKind::RedstoneWire => RedstoneWireBlock::on_placed(self, pos),
            BlockKind::RedstoneTorch => RedstoneTorchBlock::on_placed(self, pos),
            BlockKind::RedstoneWallTorch => RedstoneTorchBlock::on_placed(self, pos),
            _ => {},
        }
    }

    /// What happens when a block in state `bs` was taken from `pos`.
    pub fn on_destroyed(&mut self, pos: BlockPos, bs: BlockState)
        requires
            old(self).wf(),
        ensures
            final(self).wf(),
            final(self).same_frame(old(self)),
            final(self)@ == old(self)@.block_destroyed(pos, bs),
    {
        match self.kind_of(bs) {
            BlockKind::RedstoneWire => RedstoneWireBlock::on_destroyed(self, pos),
            BlockKind::RedstoneTorch => RedstoneTorchBlock::on_destroyed(self, pos),
            BlockKind::RedstoneWallTorch => RedstoneTorchBlock::on_destroyed(self, pos),
            BlockKind::RedstoneComparator => RedstoneComparatorBlock::on_destroyed(self, pos),
            _ => {},
        }
    }

    /// The state in which the block that owns `bs` is put at `pos`.
    pub fn get_state_for_placement(
        &self,
        bs: BlockState,
        pos: BlockPos,
        face: Direction,
        toward: HorizontalDirection,
    ) -> (state: BlockState)
        requires
            self.wf(),
        ensures
            state == self@.state_for_placement(bs, pos, face, toward),
    {
        match self.kind_of(bs) {
            BlockKind::Lever => LeverBlock::get_state_for_placement(face),
            BlockKind::RedstoneRepeater => RedstoneRepeaterBlock::get_state_for_placement(toward),
            BlockKind::RedstoneComparator => RedstoneComparatorBlock::get_state_for_placement(
                toward,
            ),
            BlockKind::RedstoneWire => RedstoneWireBlock::get_state_for_placement(self, pos),
            BlockKind::RedstoneTorch => RedstoneTorchBlock::get_state_for_placement(face),
            BlockKind::RedstoneWallTorch => RedstoneTorchBlock::get_state_for_placement(face),
            _ => {
                proof {
                    self.lemma_view();
                }
                self.registry().get_block(bs).default_state()
            },
        }
    }

    /// Runs the scheduled ticks that are due at game tick `current`, at
    /// most `budget` of them.
    fn run_scheduled(&mut self, current: u32, budget: u32)
        requires
            old(self).wf(),
        ensures
            final(self).wf(),
            final(self).same_frame(old(self)),
            final(self)@ == old(self)@.scheduled_run(current, budget as nat),
    {
        let mut left = budget;
        while left > 0
            invariant
                self.wf(),
                self.same_frame(old(self)),
                old(self)@.scheduled_run(current, budget as nat) == self@.scheduled_run(
                    current,
                    left as nat,
                ),
            decreases left,
        {
            let block_tick = match self.pop_scheduled(current) {
                Some(t) => t,
                None => {
                    return ;
                },
            };
            if let Ok(blockstate) = self.get_block_state(block_tick.pos) {
                self.tick_block(block_tick.pos, blockstate);
            }
            left = left - 1;
        }
    }

    /// Runs the queued updates, oldest first, at most `budget` of them.
    fn run_updates(&mut self, budget: u32)
        requires
            old(self).wf(),
        ensures
            final(self).wf(),
            final(self).same_frame(old(self)),
            final(self)@ == old(self)@.updates_run(budget as nat),
    {
        let mut left = budget;
        while left > 0
            invariant
                self.wf(),
                self.same_frame(old(self)),
                old(self)@.updates_run(budget as nat) == self@.updates_run(left as nat),
            decreases left,
        {
            let pos = match self.pop_update() {
                Some(p) => p,
                None => {
                    return ;
                },
            };
            if let Ok(blockstate) = self.get_block_state(pos) {
                self.update_block_now(pos, blockstate);
            }
            left = left - 1;
        }
    }

    /// One game tick: the due scheduled ticks run, then the queued
    /// updates, then the tick counter goes up by one.
    pub fn tick(&mut self)
        requires
            old(self).wf(),
        ensures
            final(self).wf(),
            final(self).same_frame(old(self)),
            final(self)@ == old(self)@.ticked(),
    {
        let current_tick = self.tick_number();
        self.run_scheduled(current_tick, MAX_SCHEDULED_PER_TICK);
        self.run_updates(MAX_UPDATES_PER_TICK);
        self.advance_tick();
    }
}

} // verus!
