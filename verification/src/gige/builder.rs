//! Assembling one block from its packets.

use crate::gige::packet::{ImageLeader, PacketHeader};
use crate::gige::payload::{ImageInfo, Payload, PayloadType, PayloadView};
use vstd::prelude::*;

verus! {

/// Why a packet does not continue the block that is being assembled.
#[derive(Debug, Clone, Copy, PartialEq, Eq, Structural)]
pub enum PacketMismatch {
    /// The packet is of a later block, or a packet of the block before it is missing.
    TooNew,
    /// The packet is of an earlier block.
    TooOld,
}

/// A block that is being assembled, with its bytes as a sequence.
pub struct Block<P> {
    pub block_id: u64,
    pub leader: ImageLeader<P>,
    /// The number of the last packet whose bytes were taken, 0 if there is none yet.
    pub last_packet_id: u32,
    pub data: Seq<u8>,
}

impl<P> Block<P> {
    /// A block of which only the leader has arrived.
    pub open spec fn started(header: PacketHeader, leader: ImageLeader<P>) -> Block<P> {
        Block { block_id: header.block_id, leader, last_packet_id: 0, data: Seq::empty() }
    }

    /// Whether a packet with this header belongs to the block and leaves no gap behind it.
    pub open spec fn verdict(self, header: PacketHeader) -> Result<(), PacketMismatch> {
        if header.block_id < self.block_id {
            Err(PacketMismatch::TooOld)
        } else if header.block_id > self.block_id || header.packet_id > self.last_packet_id + 1 {
            Err(PacketMismatch::TooNew)
        } else {
            Ok(())
        }
    }

    /// The packet numbers are not used up, unless the packet is of another block anyway.
    pub open spec fn can_verify(self, header: PacketHeader) -> bool {
        header.block_id == self.block_id ==> self.last_packet_id < u32::MAX
    }

    /// The packet is no repetition of one whose bytes were taken.
    pub open spec fn can_push(self, header: PacketHeader) -> bool {
        &&& self.can_verify(header)
        &&& self.verdict(header) is Ok ==> header.packet_id == self.last_packet_id + 1
    }

    /// The block with the bytes of its next packet.
    pub open spec fn with(self, data: Seq<u8>) -> Block<P> {
        Block {
            last_packet_id: (self.last_packet_id + 1) as u32,
            data: self.data + data,
            ..self
        }
    }

    /// The payload that the block makes when its trailer arrives.
    pub open spec fn complete(self) -> PayloadView<P> {
        PayloadView {
            id: self.block_id,
            payload_type: PayloadType::Image,
            image_info: Some(
                ImageInfo {
                    width: self.leader.width as usize,
                    height: self.leader.height as usize,
                    x_offset: self.leader.x_offset as usize,
                    y_offset: self.leader.y_offset as usize,
                    pixel_format: self.leader.pixel_format,
                    image_size: self.data.len() as usize,
                },
            ),
            payload: self.data,
            valid_payload_size: self.data.len() as int,
            timestamp: self.leader.timestamp,
        }
    }
}

/// Assembles one block from the packets between its leader and its trailer.
#[derive(Debug)]
pub struct PayloadBuilder<P> {
    payload: Vec<u8>,
    leader: ImageLeader<P>,
    block_id: u64,
    last_packet_id: u32,
}

impl<P> View for PayloadBuilder<P> {
    type V = Block<P>;

    closed spec fn view(&self) -> Block<P> {
        Block {
            block_id: self.block_id,
            leader: self.leader,
            last_packet_id: self.last_packet_id,
            data: self.payload@,
        }
    }
}

impl<P> PayloadBuilder<P> {
    /// Starts the block that `leader` announces. The bytes are collected in `payload`, whose
    /// content is discarded.
    pub fn new(header: PacketHeader, leader: ImageLeader<P>, payload: Vec<u8>) -> (builder: Self)
        ensures
            builder@ == Block::started(header, leader),
            builder@.block_id == header.block_id,
            builder@.leader == leader,
            builder@.last_packet_id == 0,
            builder@.data.len() == 0,
    {
        let mut payload = payload;
        payload.clear();
        PayloadBuilder { payload, leader, block_id: header.block_id, last_packet_id: 0 }
    }

    /// Whether a packet with this header continues the block.
    pub fn verify_header(&self, header: &PacketHeader) -> (verdict: Result<(), PacketMismatch>)
        requires
            self@.can_verify(*header),
        ensures
            verdict == self@.verdict(*header),
            verdict == Err::<(), PacketMismatch>(PacketMismatch::TooOld) <==> header.block_id
                < self@.block_id,
            verdict == Err::<(), PacketMismatch>(PacketMismatch::TooNew) <==> header.block_id
                > self@.block_id || (header.block_id == self@.block_id && header.packet_id
                > self@.last_packet_id + 1),
    {
        if header.block_id < self.block_id {
            // A packet of an earlier block, which is presumed lost, is ignored.
            return Err(PacketMismatch::TooOld);
        }
        if header.block_id > self.block_id || header.packet_id > self.last_packet_id + 1 {
            // A new block, or a packet past a gap: the missing packets will not come any more.
            return Err(PacketMismatch::TooNew);
        }
        Ok(())
    }

    /// Whether [`Self::verify_header`] and [`Self::build`] take a header: not if the packet
    /// numbers are used up.
    pub fn can_verify(&self, header: &PacketHeader) -> (r: bool)
        ensures
            r == self@.can_verify(*header),
            r == !(header.block_id == self@.block_id && self@.last_packet_id == u32::MAX),
    {
        header.block_id != self.block_id || self.last_packet_id < u32::MAX
    }

    /// Whether [`Self::push`] takes a packet with this header: not if it repeats a packet whose
    /// bytes were taken, and not if the packet numbers are used up.
    pub fn can_push(&self, header: &PacketHeader) -> (r: bool)
        ensures
            r == self@.can_push(*header),
            r == !(header.block_id == self@.block_id && (self@.last_packet_id == u32::MAX
                || header.packet_id <= self@.last_packet_id)),
    {
        header.block_id != self.block_id || (self.last_packet_id < u32::MAX && header.packet_id
            > self.last_packet_id)
    }

    /// Appends the bytes of the next packet of the block.
    pub fn push(&mut self, header: PacketHeader, data: &[u8]) -> (r: Result<(), PacketMismatch>)
        requires
            old(self)@.can_push(header),
        ensures
            r == old(self)@.verdict(header),
            r is Ok ==> final(self)@ == old(self)@.with(data@),
            r is Err ==> *final(self) == *old(self),
            r == Err::<(), PacketMismatch>(PacketMismatch::TooOld) <==> header.block_id
                < old(self)@.block_id,
            r is Ok <==> header.block_id == old(self)@.block_id && header.packet_id
                == old(self)@.last_packet_id + 1,
            r is Ok ==> {
                &&& final(self)@.block_id == old(self)@.block_id
                &&& final(self)@.leader == old(self)@.leader
                &&& final(self)@.last_packet_id == header.packet_id
                &&& final(self)@.data.len() == old(self)@.data.len() + data@.len()
                &&& forall|i: int|
                    0 <= i < old(self)@.data.len() ==> #[trigger] final(self)@.data[i]
                        == old(self)@.data[i]
                &&& forall|i: int|
                    0 <= i < data@.len() ==> final(self)@.data[old(self)@.data.len() + i]
                        == #[trigger] data@[i]
            },
    {
        match self.verify_header(&header) {
            Ok(()) => {
                self.last_packet_id = self.last_packet_id + 1;
                self.payload.extend_from_slice(data);
                proof {
                    assert(self.payload@ =~= old(self).payload@ + data@);
                }
                Ok(())
            },
            Err(mismatch) => Err(mismatch),
        }
    }

    /// Ends the block with the trailer that carries `header`.
    pub fn build(self, header: PacketHeader) -> (r: Result<Payload<P>, PacketMismatch>)
        requires
            self@.can_verify(header),
        ensures
            match r {
                Ok(payload) => self@.verdict(header) is Ok && payload@ == self@.complete(),
                Err(mismatch) => self@.verdict(header) == Err::<(), PacketMismatch>(mismatch),
            },
            r is Ok <==> header.block_id == self@.block_id && header.packet_id
                <= self@.last_packet_id + 1,
            r matches Err(mismatch) ==> (mismatch is TooOld <==> header.block_id < self@.block_id),
            r matches Ok(payload) ==> {
                &&& payload.id == self@.block_id
                &&& payload.payload_type is Image
                &&& payload.payload@ == self@.data
                &&& payload.valid_payload_size == self@.data.len()
                &&& payload.timestamp == self@.leader.timestamp
                &&& payload.image_info matches Some(info)
                &&& info.width == self@.leader.width
                &&& info.height == self@.leader.height
                &&& info.x_offset == self@.leader.x_offset
                &&& info.y_offset == self@.leader.y_offset
                &&& info.pixel_format == self@.leader.pixel_format
                &&& info.image_size == self@.data.len()
            },
    {
        match self.verify_header(&header) {
            Ok(()) => {
                let size: usize = self.payload.len();
                Ok(
                    Payload {
                        id: self.block_id,
                        payload_type: PayloadType::Image,
                        image_info: Some(
                            ImageInfo {
                                width: self.leader.width as usize,
                                height: self.leader.height as usize,
                                x_offset: self.leader.x_offset as usize,
                                y_offset: self.leader.y_offset as usize,
                                pixel_format: self.leader.pixel_format,
                                image_size: size,
                            },
                        ),
                        payload: self.payload,
                        valid_payload_size: size,
                        timestamp: self.leader.timestamp,
                    },
                )
            },
            Err(mismatch) => Err(mismatch),
        }
    }
}

/// A packet of an earlier block is too old, whatever its number. A packet of a later block, or of
/// the block itself with a number past the next one, is too new. Every other packet fits.
pub proof fn law_verdict_goes_by_block_and_number<P>(block: Block<P>, header: PacketHeader)
    ensures
        header.block_id < block.block_id ==> block.verdict(header) == Err::<(), PacketMismatch>(
            PacketMismatch::TooOld,
        ),
        header.block_id > block.block_id ==> block.verdict(header) == Err::<(), PacketMismatch>(
            PacketMismatch::TooNew,
        ),
        header.block_id == block.block_id && header.packet_id > block.last_packet_id + 1
            ==> block.verdict(header) == Err::<(), PacketMismatch>(PacketMismatch::TooNew),
        header.block_id == block.block_id && header.packet_id <= block.last_packet_id + 1
            ==> block.verdict(header) is Ok,
{
}

/// The only payload packets that a block refuses are those of its own that repeat one whose bytes
/// were taken, or that come when the packet numbers are used up. The only headers that cannot be
/// verified are the block's own when the packet numbers are used up.
pub proof fn law_only_repetitions_are_refused<P>(block: Block<P>, header: PacketHeader)
    ensures
        !block.can_push(header) <==> header.block_id == block.block_id && (header.packet_id
            <= block.last_packet_id || block.last_packet_id == u32::MAX),
        !block.can_verify(header) <==> header.block_id == block.block_id && block.last_packet_id
            == u32::MAX,
{
}

/// A block starts empty, under the number of its leader's block and with the leader's description.
pub proof fn law_block_starts_empty<P>(header: PacketHeader, leader: ImageLeader<P>)
    ensures
        Block::started(header, leader).block_id == header.block_id,
        Block::started(header, leader).leader == leader,
        Block::started(header, leader).last_packet_id == 0,
        Block::started(header, leader).data.len() == 0,
{
}

/// Taking the bytes of a packet adds all of them, in order, behind those that the block has, and
/// counts the packet. Nothing else of the block changes.
pub proof fn law_packet_adds_all_its_bytes<P>(block: Block<P>, data: Seq<u8>)
    requires
        block.last_packet_id < u32::MAX,
    ensures
        block.with(data).data.len() == block.data.len() + data.len(),
        forall|i: int|
            0 <= i < block.data.len() ==> #[trigger] block.with(data).data[i] == block.data[i],
        forall|i: int|
            0 <= i < data.len() ==> block.with(data).data[block.data.len() + i]
                == #[trigger] data[i],
        block.with(data).last_packet_id == block.last_packet_id + 1,
        block.with(data).block_id == block.block_id,
        block.with(data).leader == block.leader,
{
}

/// The payload of a block has the block's number and all its bytes, counts each of them as valid
/// and as part of the image, and describes the image as the leader did.
pub proof fn law_payload_tells_what_the_block_holds<P>(block: Block<P>)
    ensures
        block.complete().id == block.block_id,
        block.complete().payload_type is Image,
        block.complete().payload == block.data,
        block.complete().valid_payload_size == block.data.len(),
        block.complete().timestamp == block.leader.timestamp,
        block.complete().image_info matches Some(info) && {
            &&& info.width == block.leader.width
            &&& info.height == block.leader.height
            &&& info.x_offset == block.leader.x_offset
            &&& info.y_offset == block.leader.y_offset
            &&& info.pixel_format == block.leader.pixel_format
            &&& block.data.len() <= usize::MAX ==> info.image_size == block.data.len()
        },
{
}

} // verus!
