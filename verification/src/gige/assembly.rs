//! What each packet does to the block that is being assembled.
//!
//! The state of the assembly is the block that is open, if there is one. A leader opens a block,
//! the payload packets fill it and its trailer closes it.

use crate::gige::builder::{Block, PacketMismatch};
use crate::gige::packet::{ImageLeader, PacketHeader};
use crate::gige::payload::PayloadView;
use vstd::prelude::*;

verus! {

/// The part of a leader or a trailer that is specific to images.
#[derive(Debug)]
pub enum ImagePart<T> {
    /// The payload type in front of it could not be read.
    NoType,
    /// The packet is of a block that holds no image.
    NotImage,
    /// The payload type is that of an image, and what follows it could not be read.
    Malformed,
    /// What the packet says of the image.
    Image(T),
}

/// A packet, with `D` for the bytes of a payload packet: the bytes themselves, or the place in the
/// datagram at which they start. They go on to the end of the datagram.
#[derive(Debug)]
pub enum Packet<P, D> {
    /// A packet whose header could not be read.
    Unreadable,
    /// Opens a block.
    Leader(PacketHeader, ImagePart<ImageLeader<P>>),
    /// Closes a block.
    Trailer(PacketHeader, ImagePart<()>),
    /// Bytes of a block.
    GenericPayload(PacketHeader, D),
    /// Bytes of a block that is a compressed video stream.
    H264Payload,
    /// Bytes of one zone of a block.
    MultiZonePayload,
}

/// What became of a packet, with `T` for a payload.
#[derive(Debug)]
pub enum Outcome<T> {
    /// The packet could not be read.
    Unreadable,
    /// The packet is of a block that holds no image.
    NotImage,
    /// Packets of this type are not supported.
    NotSupported,
    /// The packet opened a block.
    Opened,
    /// The packet opened a block, and the block before it never got its trailer.
    Reopened,
    /// No block is open.
    NoLeader,
    /// The bytes of the packet were appended.
    Appended,
    /// The packet is of an earlier block.
    Outdated,
    /// Packets were lost, so the open block is given up.
    Lost,
    /// The packet closed the block.
    Complete(T),
}

impl<P> Packet<P, usize> {
    /// The packet, with the bytes that it holds when it is `datagram`.
    pub open spec fn lying_in(self, datagram: Seq<u8>) -> Packet<P, Seq<u8>> {
        match self {
            Packet::Unreadable => Packet::Unreadable,
            Packet::Leader(header, part) => Packet::Leader(header, part),
            Packet::Trailer(header, part) => Packet::Trailer(header, part),
            Packet::GenericPayload(header, start) => Packet::GenericPayload(
                header,
                datagram.skip(start as int),
            ),
            Packet::H264Payload => Packet::H264Payload,
            Packet::MultiZonePayload => Packet::MultiZonePayload,
        }
    }
}

/// Whether the packet can be handled while `open` is the open block. It cannot be if it repeats
/// a payload packet of that block, or if the packet numbers of the block are used up.
pub open spec fn acceptable<P, D>(open: Option<Block<P>>, packet: Packet<P, D>) -> bool {
    match (packet, open) {
        (Packet::GenericPayload(header, _), Some(block)) => block.can_push(header),
        (Packet::Trailer(header, ImagePart::Image(_)), Some(block)) => block.can_verify(header),
        _ => true,
    }
}

/// The block that is open after the packet. An image packet of an earlier block is ignored, be it
/// a payload packet or a trailer. Any other trailer leaves no block open, unless its payload type
/// could not be read.
pub open spec fn open_after<P>(open: Option<Block<P>>, packet: Packet<P, Seq<u8>>) -> Option<
    Block<P>,
> {
    match packet {
        Packet::Leader(header, ImagePart::Image(leader)) => Some(Block::started(header, leader)),
        Packet::Trailer(_, ImagePart::NoType) => open,
        Packet::Trailer(header, ImagePart::Image(_)) => match open {
            Some(block) if block.verdict(header) == Err::<(), PacketMismatch>(
                PacketMismatch::TooOld,
            ) => open,
            _ => None,
        },
        Packet::Trailer(_, _) => None,
        Packet::GenericPayload(header, data) => match open {
            Some(block) => match block.verdict(header) {
                Ok(()) => Some(block.with(data)),
                Err(PacketMismatch::TooOld) => open,
                Err(PacketMismatch::TooNew) => None,
            },
            None => None,
        },
        _ => open,
    }
}

/// What becomes of the packet.
pub open spec fn outcome<P>(open: Option<Block<P>>, packet: Packet<P, Seq<u8>>) -> Outcome<
    PayloadView<P>,
> {
    match packet {
        Packet::Unreadable => Outcome::Unreadable,
        Packet::H264Payload | Packet::MultiZonePayload => Outcome::NotSupported,
        Packet::Leader(_, part) => match part {
            ImagePart::NoType | ImagePart::Malformed => Outcome::Unreadable,
            ImagePart::NotImage => Outcome::NotImage,
            ImagePart::Image(_) => if open is Some {
                Outcome::Reopened
            } else {
                Outcome::Opened
            },
        },
        Packet::Trailer(_, ImagePart::NoType) => Outcome::Unreadable,
        Packet::Trailer(header, part) => match open {
            None => Outcome::NoLeader,
            Some(block) => match part {
                ImagePart::NotImage => Outcome::NotImage,
                ImagePart::Image(_) => match block.verdict(header) {
                    Ok(()) => Outcome::Complete(block.complete()),
                    Err(PacketMismatch::TooOld) => Outcome::Outdated,
                    Err(PacketMismatch::TooNew) => Outcome::Lost,
                },
                _ => Outcome::Unreadable,
            },
        },
        Packet::GenericPayload(header, _) => match open {
            None => Outcome::NoLeader,
            Some(block) => match block.verdict(header) {
                Ok(()) => Outcome::Appended,
                Err(PacketMismatch::TooOld) => Outcome::Outdated,
                Err(PacketMismatch::TooNew) => Outcome::Lost,
            },
        },
    }
}

/// The block that is open after a whole run of packets, the first of which found none open.
pub open spec fn open_after_all<P>(packets: Seq<Packet<P, Seq<u8>>>) -> Option<Block<P>>
    decreases packets.len(),
{
    if packets.len() == 0 {
        None
    } else {
        open_after(open_after_all(packets.drop_last()), packets.last())
    }
}

/// Whether each packet of the run can be handled when its turn comes.
pub open spec fn all_acceptable<P>(packets: Seq<Packet<P, Seq<u8>>>) -> bool
    decreases packets.len(),
{
    packets.len() == 0 || (all_acceptable(packets.drop_last()) && acceptable(
        open_after_all(packets.drop_last()),
        packets.last(),
    ))
}

/// The payload packets of one block in a run, in the order of arrival: their numbers and bytes.
pub open spec fn fragments<P>(packets: Seq<Packet<P, Seq<u8>>>, block_id: u64) -> Seq<
    (u32, Seq<u8>),
>
    decreases packets.len(),
{
    if packets.len() == 0 {
        Seq::empty()
    } else {
        let before = fragments(packets.drop_last(), block_id);
        match packets.last() {
            Packet::GenericPayload(header, data) if header.block_id == block_id => before.push(
                (header.packet_id, data),
            ),
            _ => before,
        }
    }
}

/// The bytes of the fragments, one after the other.
pub open spec fn joined(fragments: Seq<(u32, Seq<u8>)>) -> Seq<u8>
    decreases fragments.len(),
{
    if fragments.len() == 0 {
        Seq::empty()
    } else {
        joined(fragments.drop_last()) + fragments.last().1
    }
}

/// The fragments are numbered from 1 on, without a gap and without a repetition.
pub open spec fn numbered(fragments: Seq<(u32, Seq<u8>)>) -> bool {
    forall|i: int| 0 <= i < fragments.len() ==> (#[trigger] fragments[i]).0 == i + 1
}

/// The packet opens a block.
pub open spec fn opens<P>(packet: Packet<P, Seq<u8>>) -> bool {
    packet matches Packet::Leader(_, ImagePart::Image(_))
}

/// The block consists of the leader at position `k` of the run and of every payload packet of
/// the same block after it, and those arrived in order, complete up to the last one.
pub open spec fn assembled_from<P>(
    block: Block<P>,
    packets: Seq<Packet<P, Seq<u8>>>,
    k: int,
) -> bool {
    let parts = fragments(packets.skip(k + 1), block.block_id);
    &&& 0 <= k < packets.len()
    &&& packets[k] matches Packet::Leader(header, ImagePart::Image(leader))
    &&& header.block_id == block.block_id
    &&& leader == block.leader
    &&& forall|j: int| k < j < packets.len() ==> !opens(#[trigger] packets[j])
    &&& numbered(parts)
    &&& parts.len() == block.last_packet_id
    &&& joined(parts) == block.data
}

/// The fragments of a block are the payload packets of that block, each with its number and all its
/// bytes, in the order of arrival.
pub proof fn law_fragments_are_the_payload_packets<P>(
    packets: Seq<Packet<P, Seq<u8>>>,
    block_id: u64,
)
    ensures
        fragments(packets, block_id) == packets.filter_map(
            |packet: Packet<P, Seq<u8>>|
                match packet {
                    Packet::GenericPayload(header, data) => if header.block_id == block_id {
                        Some((header.packet_id, data))
                    } else {
                        None
                    },
                    _ => None,
                },
        ),
    decreases packets.len(),
{
    if packets.len() > 0 {
        law_fragments_are_the_payload_packets(packets.drop_last(), block_id);
    }
}

/// Joining fragments puts the bytes of each behind those of the ones before it, and loses none.
pub proof fn law_joined_keeps_every_byte(parts: Seq<(u32, Seq<u8>)>)
    ensures
        joined(parts) == parts.map_values(|part: (u32, Seq<u8>)| part.1).flatten(),
    decreases parts.len(),
{
    let bytes = parts.map_values(|part: (u32, Seq<u8>)| part.1);
    if parts.len() > 0 {
        let shorter = parts.drop_last();
        law_joined_keeps_every_byte(shorter);
        let bytes_before = shorter.map_values(|part: (u32, Seq<u8>)| part.1);
        assert(bytes =~= bytes_before.push(parts.last().1));
        bytes_before.lemma_flatten_push(parts.last().1);
    }
}

/// A block that is open was never damaged: whatever packets arrived, it holds the bytes of the
/// payload packets that followed its leader, in order and without a gap, and nothing else.
pub proof fn law_open_block_has_no_gap<P>(packets: Seq<Packet<P, Seq<u8>>>)
    requires
        all_acceptable(packets),
        open_after_all(packets) is Some,
    ensures
        exists|k: int| #[trigger]
            assembled_from(open_after_all(packets)->0, packets, k),
    decreases packets.len(),
{
    let n = packets.len() as int;
    let before = packets.drop_last();
    let packet = packets.last();
    let block = open_after_all(packets)->0;
    if opens(packet) {
        assert(packets.skip(n) =~= Seq::empty());
        assert(assembled_from(block, packets, n - 1));
    } else {
        law_open_block_has_no_gap(before);
        let block_before = open_after_all(before)->0;
        let k = choose|k: int| #[trigger] assembled_from(block_before, before, k);
        assert(packets.skip(k + 1).drop_last() =~= before.skip(k + 1));
        assert(packets.skip(k + 1).last() == packet);
        assert(packets[k] == before[k]);
        let parts_before = fragments(before.skip(k + 1), block.block_id);
        let parts = fragments(packets.skip(k + 1), block.block_id);
        assert(block.block_id == block_before.block_id);
        if let Packet::GenericPayload(header, data) = packet {
            if header.block_id == block.block_id {
                assert(parts == parts_before.push((header.packet_id, data)));
                assert(parts.drop_last() =~= parts_before);
            }
        }
        assert forall|j: int| k < j < packets.len() implies !opens(#[trigger] packets[j]) by {
            if j < n - 1 {
                assert(packets[j] == before[j]);
            }
        }
        assert(assembled_from(block, packets, k));
    }
}

/// A payload is handed on only for the trailer of the open block, and it holds what the packets
/// between leader and trailer carried, in order and without a gap, with the leader's description.
pub proof fn law_payload_is_the_whole_block<P>(
    packets: Seq<Packet<P, Seq<u8>>>,
    trailer: Packet<P, Seq<u8>>,
)
    requires
        all_acceptable(packets),
        outcome(open_after_all(packets), trailer) is Complete,
    ensures
        exists|block: Block<P>, k: int| #[trigger]
            assembled_from(block, packets, k) && outcome(open_after_all(packets), trailer)
                == Outcome::Complete(block.complete()) && (trailer matches Packet::Trailer(
                header,
                ImagePart::Image(_),
            ) && header.block_id == block.block_id && header.packet_id <= block.last_packet_id + 1),
        trailer matches Packet::Trailer(end, ImagePart::Image(_)) && outcome(
            open_after_all(packets),
            trailer,
        ) matches Outcome::Complete(payload) && exists|k: int|
            {
                let parts = fragments(packets.skip(k + 1), end.block_id);
                &&& 0 <= k < packets.len()
                &&& #[trigger] packets[k] matches Packet::Leader(header, ImagePart::Image(leader))
                &&& header.block_id == end.block_id
                &&& end.packet_id <= parts.len() + 1
                &&& forall|i: int| 0 <= i < parts.len() ==> (#[trigger] parts[i]).0 == i + 1
                &&& payload.id == end.block_id
                &&& payload.payload_type is Image
                &&& payload.payload == parts.map_values(|part: (u32, Seq<u8>)| part.1).flatten()
                &&& payload.valid_payload_size == payload.payload.len()
                &&& payload.timestamp == leader.timestamp
                &&& payload.image_info matches Some(info)
                &&& info.width == leader.width
                &&& info.height == leader.height
                &&& info.x_offset == leader.x_offset
                &&& info.y_offset == leader.y_offset
                &&& info.pixel_format == leader.pixel_format
                &&& payload.payload.len() <= usize::MAX ==> info.image_size
                    == payload.payload.len()
            },
{
    law_open_block_has_no_gap(packets);
    let block = open_after_all(packets)->0;
    let k = choose|k: int| #[trigger] assembled_from(block, packets, k);
    assert(assembled_from(block, packets, k));
    law_joined_keeps_every_byte(fragments(packets.skip(k + 1), block.block_id));
    assert(packets[k] is Leader);
}

/// The packets of one block, from its leader to its last payload packet.
pub open spec fn block_packets<P>(
    header: PacketHeader,
    leader: ImageLeader<P>,
    parts: Seq<(u32, Seq<u8>)>,
) -> Seq<Packet<P, Seq<u8>>> {
    seq![Packet::Leader(header, ImagePart::Image(leader))] + parts.map_values(
        |part: (u32, Seq<u8>)|
            Packet::GenericPayload(
                PacketHeader { block_id: header.block_id, packet_id: part.0 },
                part.1,
            ),
    )
}

/// A block whose packets all arrive in order is filled with all their bytes, whatever arrived
/// before its leader.
pub proof fn law_block_in_order_is_filled<P>(
    before: Seq<Packet<P, Seq<u8>>>,
    header: PacketHeader,
    leader: ImageLeader<P>,
    parts: Seq<(u32, Seq<u8>)>,
)
    requires
        all_acceptable(before),
        numbered(parts),
        parts.len() <= u32::MAX,
    ensures
        all_acceptable(before + block_packets(header, leader, parts)),
        open_after_all(before + block_packets(header, leader, parts)) == Some(
            Block {
                block_id: header.block_id,
                leader,
                last_packet_id: parts.len() as u32,
                data: joined(parts),
            },
        ),
        open_after_all(before + block_packets(header, leader, parts)) matches Some(block) && {
            &&& block.block_id == header.block_id
            &&& block.leader == leader
            &&& block.last_packet_id == parts.len()
            &&& block.data == parts.map_values(|part: (u32, Seq<u8>)| part.1).flatten()
        },
    decreases parts.len(),
{
    law_joined_keeps_every_byte(parts);
    let packets = before + block_packets(header, leader, parts);
    if parts.len() == 0 {
        assert(packets.drop_last() =~= before);
    } else {
        let shorter = parts.drop_last();
        law_block_in_order_is_filled(before, header, leader, shorter);
        assert(packets.drop_last() =~= before + block_packets(header, leader, shorter));
        let part = parts.last();
        assert(packets.last() == Packet::<P, Seq<u8>>::GenericPayload(
            PacketHeader { block_id: header.block_id, packet_id: part.0 },
            part.1,
        ));
    }
}

/// A block whose packets all arrive in order is handed on as soon as its trailer arrives.
pub proof fn law_block_in_order_is_delivered<P>(
    before: Seq<Packet<P, Seq<u8>>>,
    header: PacketHeader,
    leader: ImageLeader<P>,
    parts: Seq<(u32, Seq<u8>)>,
    trailer: PacketHeader,
)
    requires
        all_acceptable(before),
        numbered(parts),
        parts.len() < u32::MAX,
        trailer.block_id == header.block_id,
        trailer.packet_id <= parts.len() + 1,
    ensures
        ({
            let packets = before + block_packets(header, leader, parts);
            let end = Packet::<P, Seq<u8>>::Trailer(trailer, ImagePart::Image(()));
            let block = Block {
                block_id: header.block_id,
                leader,
                last_packet_id: parts.len() as u32,
                data: joined(parts),
            };
            &&& acceptable(open_after_all(packets), end)
            &&& outcome(open_after_all(packets), end) == Outcome::Complete(block.complete())
            &&& open_after(open_after_all(packets), end) is None
        }),
        outcome(
            open_after_all(before + block_packets(header, leader, parts)),
            Packet::Trailer(trailer, ImagePart::Image(())),
        ) matches Outcome::Complete(payload) && {
            &&& payload.id == header.block_id
            &&& payload.payload_type is Image
            &&& payload.payload == parts.map_values(|part: (u32, Seq<u8>)| part.1).flatten()
            &&& payload.valid_payload_size == payload.payload.len()
            &&& payload.timestamp == leader.timestamp
            &&& payload.image_info matches Some(info)
            &&& info.width == leader.width
            &&& info.height == leader.height
            &&& info.x_offset == leader.x_offset
            &&& info.y_offset == leader.y_offset
            &&& info.pixel_format == leader.pixel_format
            &&& payload.payload.len() <= usize::MAX ==> info.image_size == payload.payload.len()
        },
{
    law_block_in_order_is_filled(before, header, leader, parts);
}

/// A packet of an earlier block, be it a payload packet or the trailer of an image, is ignored
/// whatever its number: the open block goes on being assembled as if it had not arrived.
pub proof fn law_outdated_packet_is_ignored<P>(
    block: Block<P>,
    header: PacketHeader,
    data: Seq<u8>,
)
    requires
        header.block_id < block.block_id,
    ensures
        ({
            let payload = Packet::<P, Seq<u8>>::GenericPayload(header, data);
            let trailer = Packet::<P, Seq<u8>>::Trailer(header, ImagePart::Image(()));
            &&& acceptable(Some(block), payload)
            &&& open_after(Some(block), payload) == Some(block)
            &&& outcome(Some(block), payload) is Outdated
            &&& acceptable(Some(block), trailer)
            &&& open_after(Some(block), trailer) == Some(block)
            &&& outcome(Some(block), trailer) is Outdated
        }),
{
}

/// A packet that shows that packets were lost, because it is of a later block or because packets
/// of the open block before it are missing, can always be handled and gives the block up.
pub proof fn law_gap_gives_the_block_up<P>(
    block: Block<P>,
    header: PacketHeader,
    data: Seq<u8>,
)
    requires
        header.block_id > block.block_id || (header.block_id == block.block_id && header.packet_id
            > block.last_packet_id + 1),
    ensures
        ({
            let payload = Packet::<P, Seq<u8>>::GenericPayload(header, data);
            let trailer = Packet::<P, Seq<u8>>::Trailer(header, ImagePart::Image(()));
            &&& acceptable(Some(block), payload)
            &&& open_after(Some(block), payload) is None
            &&& outcome(Some(block), payload) is Lost
            &&& acceptable(Some(block), trailer)
            &&& open_after(Some(block), trailer) is None
            &&& outcome(Some(block), trailer) is Lost
        }),
{
}

/// While no block is open, only a leader changes that, and no payload is handed on.
pub proof fn law_nothing_without_a_leader<P>(packet: Packet<P, Seq<u8>>)
    ensures
        open_after(None, packet) is Some <==> opens(packet),
        outcome(None, packet) !is Complete,
{
}

/// Once no block is open, whether because packets were lost or because the last one was closed,
/// nothing is handed on until the next leader, whatever else arrives: what was collected before is
/// gone.
pub proof fn law_nothing_until_the_next_leader<P>(
    before: Seq<Packet<P, Seq<u8>>>,
    after: Seq<Packet<P, Seq<u8>>>,
    packet: Packet<P, Seq<u8>>,
)
    requires
        open_after_all(before) is None,
        forall|i: int| 0 <= i < after.len() ==> !opens(#[trigger] after[i]),
    ensures
        open_after_all(before + after) is None,
        outcome(open_after_all(before + after), packet) !is Complete,
    decreases after.len(),
{
    if after.len() == 0 {
        assert(before + after =~= before);
    } else {
        assert forall|i: int| 0 <= i < after.drop_last().len() implies !opens(
            #[trigger] after.drop_last()[i],
        ) by {
            assert(after.drop_last()[i] == after[i]);
        }
        law_nothing_until_the_next_leader(before, after.drop_last(), packet);
        assert((before + after).drop_last() =~= before + after.drop_last());
        assert((before + after).last() == after[after.len() - 1]);
    }
}

/// A leader opens its block whatever was open before, and finds it empty.
pub proof fn law_leader_starts_afresh<P>(
    open: Option<Block<P>>,
    header: PacketHeader,
    leader: ImageLeader<P>,
)
    ensures
        open_after(open, Packet::Leader(header, ImagePart::Image(leader))) == Some(
            Block::started(header, leader),
        ),
        acceptable(open, Packet::<P, Seq<u8>>::Leader(header, ImagePart::Image(leader))),
        open_after(open, Packet::Leader(header, ImagePart::Image(leader))) matches Some(block) && {
            &&& block.block_id == header.block_id
            &&& block.leader == leader
            &&& block.last_packet_id == 0
            &&& block.data.len() == 0
        },
        open is Some ==> outcome(
            open,
            Packet::Leader(header, ImagePart::Image(leader)),
        ) is Reopened,
        open is None ==> outcome(open, Packet::Leader(header, ImagePart::Image(leader))) is Opened,
{
}

/// After a payload has been handed on, no block is open, so no block is handed on twice.
pub proof fn law_payload_is_delivered_once<P>(
    open: Option<Block<P>>,
    packet: Packet<P, Seq<u8>>,
)
    requires
        outcome(open, packet) is Complete,
    ensures
        open_after(open, packet) is None,
{
}

/// The only packets that cannot be handled are the payload packets and the image trailers of the
/// open block that come when its packet numbers are used up, and its payload packets that repeat
/// one whose bytes it has.
pub proof fn law_only_repetitions_cannot_be_handled<P, D>(
    open: Option<Block<P>>,
    packet: Packet<P, D>,
)
    ensures
        !acceptable(open, packet) <==> (open matches Some(block) && {
            ||| packet matches Packet::GenericPayload(header, _) && header.block_id
                == block.block_id && (header.packet_id <= block.last_packet_id
                || block.last_packet_id == u32::MAX)
            ||| packet matches Packet::Trailer(header, ImagePart::Image(_)) && header.block_id
                == block.block_id && block.last_packet_id == u32::MAX
        }),
{
}

/// A packet that cannot be read, that is of a type without support, or that is a leader without an
/// image leaves the open block as it is, and so does a trailer whose payload type cannot be read.
pub proof fn law_unusable_packet_changes_nothing<P>(
    open: Option<Block<P>>,
    packet: Packet<P, Seq<u8>>,
)
    ensures
        packet is Unreadable ==> open_after(open, packet) == open && outcome(
            open,
            packet,
        ) is Unreadable,
        packet is H264Payload || packet is MultiZonePayload ==> open_after(open, packet) == open
            && outcome(open, packet) is NotSupported,
        packet matches Packet::Leader(_, ImagePart::NotImage) ==> open_after(open, packet) == open
            && outcome(open, packet) is NotImage,
        packet matches Packet::Leader(_, ImagePart::NoType) ==> open_after(open, packet) == open
            && outcome(open, packet) is Unreadable,
        packet matches Packet::Leader(_, ImagePart::Malformed) ==> open_after(open, packet) == open
            && outcome(open, packet) is Unreadable,
        packet matches Packet::Trailer(_, ImagePart::NoType) ==> open_after(open, packet) == open
            && outcome(open, packet) is Unreadable,
{
}

/// A trailer whose payload type says that there is no image, or whose image part cannot be read,
/// leaves no block open, whatever block it is of.
pub proof fn law_trailer_without_an_image_gives_the_block_up<P>(
    open: Option<Block<P>>,
    header: PacketHeader,
)
    ensures
        ({
            let other = Packet::<P, Seq<u8>>::Trailer(header, ImagePart::NotImage);
            let broken = Packet::<P, Seq<u8>>::Trailer(header, ImagePart::Malformed);
            &&& open_after(open, other) is None
            &&& open_after(open, broken) is None
            &&& open is Some ==> outcome(open, other) is NotImage
            &&& open is Some ==> outcome(open, broken) is Unreadable
            &&& open is None ==> outcome(open, other) is NoLeader
            &&& open is None ==> outcome(open, broken) is NoLeader
        }),
{
}

/// While no block is open, the payload packets and the image trailers of any block are reported to
/// be without a leader, and none is opened.
pub proof fn law_packet_without_a_leader_is_reported<P>(header: PacketHeader, data: Seq<u8>)
    ensures
        open_after(None, Packet::<P, Seq<u8>>::GenericPayload(header, data)) is None,
        outcome(None, Packet::<P, Seq<u8>>::GenericPayload(header, data)) is NoLeader,
        open_after(None, Packet::<P, Seq<u8>>::Trailer(header, ImagePart::Image(()))) is None,
        outcome(None, Packet::<P, Seq<u8>>::Trailer(header, ImagePart::Image(()))) is NoLeader,
{
}

/// The payload packet that is next in the open block adds all its bytes, in order, behind those
/// that are there, and is counted.
pub proof fn law_next_packet_is_appended<P>(block: Block<P>, header: PacketHeader, data: Seq<u8>)
    requires
        header.block_id == block.block_id,
        header.packet_id == block.last_packet_id + 1,
    ensures
        acceptable(Some(block), Packet::<P, Seq<u8>>::GenericPayload(header, data)),
        outcome(Some(block), Packet::GenericPayload(header, data)) is Appended,
        open_after(Some(block), Packet::GenericPayload(header, data)) matches Some(grown) && {
            &&& grown.block_id == block.block_id
            &&& grown.leader == block.leader
            &&& grown.last_packet_id == header.packet_id
            &&& grown.data.len() == block.data.len() + data.len()
            &&& forall|i: int|
                0 <= i < block.data.len() ==> #[trigger] grown.data[i] == block.data[i]
            &&& forall|i: int|
                0 <= i < data.len() ==> grown.data[block.data.len() + i] == #[trigger] data[i]
        },
{
}

/// The image trailer of the open block closes it, unless it shows that packets were lost, and hands
/// on all its bytes with the leader's description.
pub proof fn law_trailer_hands_the_block_on<P>(block: Block<P>, header: PacketHeader)
    requires
        header.block_id == block.block_id,
        header.packet_id <= block.last_packet_id + 1,
    ensures
        open_after(
            Some(block),
            Packet::<P, Seq<u8>>::Trailer(header, ImagePart::Image(())),
        ) is None,
        outcome(
            Some(block),
            Packet::<P, Seq<u8>>::Trailer(header, ImagePart::Image(())),
        ) matches Outcome::Complete(payload) && {
            &&& payload.id == block.block_id
            &&& payload.payload_type is Image
            &&& payload.payload == block.data
            &&& payload.valid_payload_size == block.data.len()
            &&& payload.timestamp == block.leader.timestamp
            &&& payload.image_info matches Some(info)
            &&& info.width == block.leader.width
            &&& info.height == block.leader.height
            &&& info.x_offset == block.leader.x_offset
            &&& info.y_offset == block.leader.y_offset
            &&& info.pixel_format == block.leader.pixel_format
            &&& block.data.len() <= usize::MAX ==> info.image_size == block.data.len()
        },
{
}

/// A run of packets is handled one after the other, each on what the ones before it left open, and
/// it can be handled only if each of its packets can.
pub proof fn law_run_is_handled_in_order<P>(
    packets: Seq<Packet<P, Seq<u8>>>,
    packet: Packet<P, Seq<u8>>,
)
    ensures
        open_after_all(Seq::<Packet<P, Seq<u8>>>::empty()) is None,
        all_acceptable(Seq::<Packet<P, Seq<u8>>>::empty()),
        open_after_all(packets.push(packet)) == open_after(open_after_all(packets), packet),
        all_acceptable(packets.push(packet)) <==> all_acceptable(packets) && acceptable(
            open_after_all(packets),
            packet,
        ),
{
    assert(packets.push(packet).drop_last() =~= packets);
}

} // verus!
