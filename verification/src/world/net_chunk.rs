//! The wire form of a whole chunk, and the update packets of a world.

use crate::network::mc_packet::MCPacketBuffer;
use crate::network::primitives::be_bytes_u64;
use crate::network::varint::{i32_as_u32, varint_bytes};
use crate::pos::{wrap_i16, BlockPos, ChunkPos};
use crate::world::block::BlockState;
use crate::world::chunk::{
    change_entry, lemma_no_change_no_packet, lemma_one_section_one_packet, lemma_single_change,
    packet_bodies, section_bytes, section_location, sections_update_packets, update_packet_bytes,
    Chunk, SECTION_BLOCKS, SECTION_BLOCKS_UPDATE,
};
use crate::world::world::{LocalWorld, RedstoneOverride, WorldModel};
use vstd::prelude::*;

verus! {

/// The height of the lowest section that is sent.
pub const NET_BOTTOM_SECTION: i16 = -4;

/// How many sections of a chunk are sent.
pub const NET_SECTION_COUNT: u8 = 24;

/// The bit mask that marks the sections with sky light.
pub const SKY_LIGHT_MASK: u64 = 0xFFFF_FF00_0000_0000;

/// The wire form of a section of air, and of a section that is not
/// there.
pub open spec fn empty_section_bytes() -> Seq<u8> {
    seq![0u8, 0u8, 0u8, 0u8]
}

/// The biome data that follows every section: a palette of one entry,
/// entry 0.
pub open spec fn biome_bytes() -> Seq<u8> {
    seq![0u8, 0u8]
}

/// The wire form of the first `upto` sections that are sent of a chunk,
/// each followed by its biome data. A missing chunk and a missing section
/// are sent as air.
pub open spec fn sections_payload(chunk: Option<Chunk>, upto: int) -> Seq<u8>
    decreases upto,
{
    if upto <= 0 {
        Seq::empty()
    } else {
        let y = NET_BOTTOM_SECTION + upto - 1;
        sections_payload(chunk, upto - 1) + (match chunk {
            Some(c) => if c.spec_has_section(y) {
                section_bytes(c.spec_section(y).spec_blocks())
            } else {
                empty_section_bytes()
            },
            None => empty_section_bytes(),
        }) + biome_bytes()
    }
}

/// What follows the sections: no block entities, then the light data:
/// one empty sky-light mask and one empty block-light mask, the two
/// masks of sections without light, and no light arrays.
pub open spec fn chunk_tail_bytes() -> Seq<u8> {
    seq![0u8] + seq![1u8] + be_bytes_u64(0) + seq![1u8] + be_bytes_u64(0) + seq![1u8]
        + be_bytes_u64(SKY_LIGHT_MASK) + seq![1u8] + be_bytes_u64(SKY_LIGHT_MASK) + seq![0u8, 0u8]
}

/// The wire form of a chunk: an empty height map, the byte length of the
/// sections, the sections, then the tail.
pub open spec fn net_chunk_bytes(chunk: Option<Chunk>) -> Seq<u8> {
    let payload = sections_payload(chunk, NET_SECTION_COUNT as int);
    seq![0u8] + varint_bytes(payload.len()) + payload + chunk_tail_bytes()
}

impl<R: RedstoneOverride> LocalWorld<R> {
    /// The update packets of the first `upto` chunk slots, slot by slot.
    pub open spec fn spec_update_packets(&self, upto: int) -> Seq<Seq<u8>>
        decreases upto,
    {
        if upto <= 0 {
            Seq::empty()
        } else {
            self.spec_update_packets(upto - 1) + match self.spec_chunks()[upto - 1] {
                Some(chunk) => sections_update_packets(
                    chunk.spec_sections(),
                    self.spec_slot_pos(upto - 1),
                    chunk.spec_sections().len() as int,
                ),
                None => Seq::<Seq<u8>>::empty(),
            }
        }
    }

    /// Whether a section of a slot's chunk holds no block that differs
    /// from what was last reported. It holds of a slot without a chunk and
    /// of a section that the chunk does not have.
    pub open spec fn section_reported(&self, slot: int, section: int) -> bool {
        self.spec_chunks()[slot] matches Some(chunk) ==> (0 <= section
            < chunk.spec_sections().len() ==> chunk.spec_sections()[section].spec_blocks()
            == chunk.spec_sections()[section].spec_baseline())
    }

    /// A world with nothing to report gives no update packet.
    pub proof fn lemma_nothing_changed_nothing_sent(&self, upto: int)
        requires
            upto <= self.spec_chunks().len(),
            forall|i: int, k: int| 0 <= i < upto ==> #[trigger] self.section_reported(i, k),
        ensures
            self.spec_update_packets(upto) == Seq::<Seq<u8>>::empty(),
        decreases upto,
    {
        if upto > 0 {
            self.lemma_nothing_changed_nothing_sent(upto - 1);
            match self.spec_chunks()[upto - 1] {
                Some(chunk) => {
                    let sections = chunk.spec_sections();
                    assert forall|k: int| 0 <= k < sections.len() implies (
                    #[trigger] sections[k]).spec_blocks() == sections[k].spec_baseline() by {
                        assert(self.section_reported(upto - 1, k));
                    }
                    lemma_no_change_no_packet(
                        sections,
                        self.spec_slot_pos(upto - 1),
                        sections.len() as int,
                    );
                },
                None => {},
            }
        }
    }

    /// A world in which one block alone differs from what was last
    /// reported gives one update packet: that of the block's section,
    /// with the block as its one entry.
    pub proof fn lemma_one_change_one_packet(
        &self,
        slot: int,
        section: int,
        index: int,
        s: BlockState,
        upto: int,
    )
        requires
            0 <= slot < upto <= self.spec_chunks().len(),
            self.spec_chunks()[slot] is Some,
            0 <= section < self.spec_chunks()[slot]->0.spec_sections().len(),
            0 <= index < SECTION_BLOCKS,
            ({
                let changed = self.spec_chunks()[slot]->0.spec_sections()[section];
                &&& changed.spec_baseline().len() == SECTION_BLOCKS
                &&& s != changed.spec_baseline()[index]
                &&& changed.spec_blocks() == changed.spec_baseline().update(index, s)
            }),
            forall|i: int, k: int|
                0 <= i < upto && !(i == slot && k == section) ==> #[trigger] self.section_reported(
                    i,
                    k,
                ),
        ensures
            ({
                let changed = self.spec_chunks()[slot]->0.spec_sections()[section];
                self.spec_update_packets(upto) == seq![
                    varint_bytes(i32_as_u32(SECTION_BLOCKS_UPDATE) as nat) + be_bytes_u64(
                        section_location(self.spec_slot_pos(slot), changed.spec_section_y() as int),
                    ) + seq![1u8] + varint_bytes(change_entry(index, s) as nat),
                ]
            }),
        decreases upto,
    {
        let chunk = self.spec_chunks()[slot]->0;
        let sections = chunk.spec_sections();
        let changed = sections[section];
        let pos = self.spec_slot_pos(slot);
        let packet = update_packet_bytes(
            pos,
            changed.spec_section_y() as int,
            changed.spec_blocks(),
            changed.spec_baseline(),
        );
        lemma_single_change(
            pos,
            changed.spec_section_y() as int,
            changed.spec_baseline(),
            index,
            s,
        );
        if upto - 1 == slot {
            self.lemma_nothing_changed_nothing_sent(upto - 1);
            assert(changed.spec_blocks()[index] != changed.spec_baseline()[index]);
            assert forall|k: int| 0 <= k < sections.len() && k != section implies (
            #[trigger] sections[k]).spec_blocks() == sections[k].spec_baseline() by {
                assert(self.section_reported(slot, k));
            }
            lemma_one_section_one_packet(sections, pos, section, sections.len() as int);
            assert(Seq::<Seq<u8>>::empty() + seq![packet] =~= seq![packet]);
        } else {
            self.lemma_one_change_one_packet(slot, section, index, s, upto - 1);
            match self.spec_chunks()[upto - 1] {
                Some(other) => {
                    let others = other.spec_sections();
                    assert forall|k: int| 0 <= k < others.len() implies (
                    #[trigger] others[k]).spec_blocks() == others[k].spec_baseline() by {
                        assert(self.section_reported(upto - 1, k));
                    }
                    lemma_no_change_no_packet(
                        others,
                        self.spec_slot_pos(upto - 1),
                        others.len() as int,
                    );
                },
                None => {},
            }
            assert(seq![packet] + Seq::<Seq<u8>>::empty() =~= seq![packet]);
        }
    }

    /// The chunk position of the slot with index `i`.
    pub open spec fn spec_slot_pos(&self, i: int) -> ChunkPos {
        ChunkPos {
            x: wrap_i16(self.spec_min_corner().x + i / (self.spec_size().1 as int)),
            z: wrap_i16(self.spec_min_corner().z + i % (self.spec_size().1 as int)),
        }
    }

    /// Appends the wire form of the chunk at `pos` to a packet. A chunk
    /// that is not there is sent as air.
    pub fn write_net_chunk(&self, pos: ChunkPos, writer: &mut MCPacketBuffer)
        requires
            self.wf(),
        ensures
            final(writer)@ == old(writer)@ + net_chunk_bytes(self.spec_chunk(pos)),
    {
        let chunk = self.get_chunk(pos);
        let ghost found = self.spec_chunk(pos);
        let mut payload = MCPacketBuffer::part(0x3_0000);
        let mut i: u8 = 0;
        assert(payload@ =~= sections_payload(found, 0));
        while i < NET_SECTION_COUNT
            invariant
                i <= NET_SECTION_COUNT,
                self.wf(),
                found == self.spec_chunk(pos),
                chunk is Ok <==> found is Some,
                chunk matches Ok(c) ==> found == Some(*c) && c.wf(),
                payload@ == sections_payload(found, i as int),
            decreases NET_SECTION_COUNT - i,
        {
            let cy: i16 = NET_BOTTOM_SECTION + i as i16;
            let ghost before = payload@;
            let section = match &chunk {
                Ok(c) => c.get_section(cy),
                Err(_) => Err(()),
            };
            match section {
                Ok(s) => s.serialize_into(&mut payload),
                Err(_) => {
                    payload.write_be_u16(0);
                    payload.write_u8(0);
                    let _ = payload.write_varint_u32(0);
                    assert(payload@ =~= before + empty_section_bytes());
                },
            }
            payload.write_u8(0);
            let _ = payload.write_varint_u32(0);
            assert(payload@ =~= sections_payload(found, i + 1));
            i = i + 1;
        }
        let _ = writer.write_varint_u32(0);
        let body = payload.as_slice();
        let _ = writer.write_varlong(body.len() as u64);
        writer.write_all(body);
        let _ = writer.write_varint_u32(0);
        let _ = writer.write_varint_u32(1);
        writer.write_be_u64(0);
        let _ = writer.write_varint_u32(1);
        writer.write_be_u64(0);
        let _ = writer.write_varint_u32(1);
        writer.write_be_u64(SKY_LIGHT_MASK);
        let _ = writer.write_varint_u32(1);
        writer.write_be_u64(SKY_LIGHT_MASK);
        let _ = writer.write_varint_u32(0);
        let _ = writer.write_varint_u32(0);
        assert(writer@ =~= old(writer)@ + net_chunk_bytes(found));
    }
}

} // verus!
