//! The decisions of the loop that receives the stream.

use crate::gige::assembly::{acceptable, open_after, outcome, ImagePart, Outcome, Packet};
use crate::gige::builder::{Block, PacketMismatch, PayloadBuilder};
use crate::gige::cancellation::asks_to_stop;
use crate::gige::completion::Completion;
use crate::gige::packet::PacketHeader;
use crate::gige::payload::{Payload, PayloadView};
use futures_channel::oneshot;
use vstd::prelude::*;
use vstd::slice::slice_subrange;

verus! {

/// How long a receive waits, in milliseconds, before the loop comes back to check whether it has
/// been asked to stop. A camera that delivers nothing would otherwise leave the receive blocked
/// with no arrival to wake it, and the stop waiting on a loop that never looks.
pub const RECV_TIMEOUT_MILLIS: u64 = 100;

/// How long the loop rests, in milliseconds, after a receive that failed. It keeps a socket that
/// fails every receive from spinning the loop.
pub const RECV_ERROR_BACKOFF_MILLIS: u64 = 100;

/// The size of the receive buffer: no datagram is larger.
pub const BUFFER_SIZE: usize = 65536;

/// How a receive failed.
#[derive(Debug, Clone, Copy, PartialEq, Eq, Structural)]
pub enum RecvError {
    /// Nothing arrived in time, as some platforms report it.
    WouldBlock,
    /// Nothing arrived in time, as the other platforms report it.
    TimedOut,
    /// The receive failed in another way.
    Failed,
}

/// Whether the receive ended because nothing arrived in time.
pub fn is_recv_timeout(err: &RecvError) -> (r: bool)
    ensures
        r == (err is WouldBlock || err is TimedOut),
{
    match err {
        RecvError::WouldBlock | RecvError::TimedOut => true,
        RecvError::Failed => false,
    }
}

/// For how many milliseconds the loop rests once a receive has failed with `err`, if it does.
/// Either way it then looks again whether it has been asked to stop: no failure ends the loop,
/// and none keeps it from looking.
pub fn pause_after(err: &RecvError) -> (millis: Option<u64>)
    ensures
        millis == (if err is Failed {
            Some(RECV_ERROR_BACKOFF_MILLIS)
        } else {
            None
        }),
        err is Failed ==> millis == Some(100u64),
        err !is Failed ==> millis is None,
{
    if is_recv_timeout(err) {
        None
    } else {
        Some(RECV_ERROR_BACKOFF_MILLIS)
    }
}

/// What the loop does next.
#[derive(Debug, Clone, Copy, PartialEq, Eq, Structural)]
pub enum Task {
    /// It looks whether it has been asked to stop.
    Poll,
    /// It receives a datagram.
    Receive,
    /// It reads and handles the packet that it received.
    Handle,
    /// It rests for this many milliseconds.
    Rest(u64),
    /// It ends.
    End,
}

/// How a task of the loop went.
#[derive(Debug, Clone, Copy, PartialEq, Eq, Structural)]
pub enum Report {
    /// The loop looked: whether it has been asked to stop.
    Polled(bool),
    /// A datagram was received.
    Received,
    /// The receive failed.
    ReceiveFailed(RecvError),
    /// The packet was handled, whatever became of it.
    Handled,
    /// The rest is over.
    Rested,
}

/// The task that follows a report.
pub open spec fn task_after(report: Report) -> Task {
    match report {
        Report::Polled(true) => Task::End,
        Report::Polled(false) => Task::Receive,
        Report::Received => Task::Handle,
        Report::ReceiveFailed(RecvError::Failed) => Task::Rest(RECV_ERROR_BACKOFF_MILLIS),
        Report::ReceiveFailed(_) => Task::Poll,
        Report::Handled => Task::Poll,
        Report::Rested => Task::Poll,
    }
}

/// The report is one that the task can end with.
pub open spec fn answers(report: Report, task: Task) -> bool {
    match task {
        Task::Poll => report is Polled,
        Task::Receive => report is Received || report is ReceiveFailed,
        Task::Handle => report is Handled,
        Task::Rest(_) => report is Rested,
        Task::End => false,
    }
}

/// The task that a loop begins with.
pub open spec fn initial_task() -> Task {
    Task::Poll
}

/// The task that a loop has come to once its tasks so far ended with these reports.
pub open spec fn task_at(reports: Seq<Report>) -> Task {
    if reports.len() == 0 {
        initial_task()
    } else {
        task_after(reports.last())
    }
}

/// What the loop does first: it looks whether it has been asked to stop.
pub fn first_task() -> (task: Task)
    ensures
        task == initial_task(),
        task is Poll,
{
    Task::Poll
}

/// What the loop does next.
pub fn next_task(report: &Report) -> (task: Task)
    ensures
        task == task_after(*report),
        task is End <==> *report == Report::Polled(true),
        task is Receive <==> *report == Report::Polled(false),
        task is Handle <==> report is Received,
        task == Task::Rest(100) <==> *report == Report::ReceiveFailed(RecvError::Failed),
        task is Poll <==> {
            ||| report is Handled
            ||| report is Rested
            ||| *report == Report::ReceiveFailed(RecvError::WouldBlock)
            ||| *report == Report::ReceiveFailed(RecvError::TimedOut)
        },
{
    match report {
        Report::Polled(cancelled) => if *cancelled {
            Task::End
        } else {
            Task::Receive
        },
        Report::Received => Task::Handle,
        Report::ReceiveFailed(err) => match pause_after(err) {
            None => Task::Poll,
            Some(millis) => Task::Rest(millis),
        },
        Report::Handled | Report::Rested => Task::Poll,
    }
}

/// A loop that has been asked to stop ends with the third task from now at the latest, wherever
/// it stands and whether datagrams arrive, receives time out or receives fail.
pub proof fn law_cancelled_loop_ends(task: Task, first: Report, second: Report, third: Report)
    requires
        answers(first, task),
        task_after(first) !is End ==> answers(second, task_after(first)),
        task_after(first) !is End && task_after(second) !is End ==> answers(
            third,
            task_after(second),
        ),
        first is Polled ==> first == Report::Polled(true),
        second is Polled ==> second == Report::Polled(true),
        third is Polled ==> third == Report::Polled(true),
    ensures
        task_after(first) is End || task_after(second) is End || task_after(third) is End,
{
}

/// From its first task on, a loop ends only because it has been asked to, and it receives only
/// right after it has looked and found that it has not.
pub proof fn law_loop_looks_before_each_receive(reports: Seq<Report>)
    ensures
        task_at(reports) is End <==> reports.len() > 0 && reports.last() == Report::Polled(true),
        task_at(reports) is Receive <==> reports.len() > 0 && reports.last() == Report::Polled(
            false,
        ),
{
}

/// Each datagram that is received is handled before anything else, and the loop looks again
/// whether it has been asked to stop as soon as that is done. It also looks again right after a
/// receive that timed out, and after a receive that failed once it has rested for a tenth of a
/// second.
pub proof fn law_every_datagram_is_handled(report: Report)
    ensures
        task_after(report) is Handle <==> report is Received,
        report is Handled || report is Rested ==> task_after(report) is Poll,
        report == Report::ReceiveFailed(RecvError::WouldBlock) ==> task_after(report) is Poll,
        report == Report::ReceiveFailed(RecvError::TimedOut) ==> task_after(report) is Poll,
        report == Report::ReceiveFailed(RecvError::Failed) ==> task_after(report) == Task::Rest(
            100,
        ),
        task_after(report) is Rest ==> report is ReceiveFailed,
{
}

/// Reads the part of a leader or a trailer that is specific to images: `is_image` is what its
/// payload type says, if that could be read, and `read` reads what follows the payload type. It
/// is read for images only.
pub fn read_image_part<T, F: FnOnce() -> Option<T>>(is_image: Option<bool>, read: F) -> (part:
    ImagePart<T>)
    requires
        is_image == Some(true) ==> read.requires(()),
    ensures
        match is_image {
            None => part is NoType,
            Some(false) => part is NotImage,
            Some(true) => match part {
                ImagePart::Malformed => read.ensures((), None),
                ImagePart::Image(image) => read.ensures((), Some(image)),
                _ => false,
            },
        },
{
    match is_image {
        None => ImagePart::NoType,
        Some(false) => ImagePart::NotImage,
        Some(true) => match read() {
            None => ImagePart::Malformed,
            Some(image) => ImagePart::Image(image),
        },
    }
}

impl<P> View for Outcome<Payload<P>> {
    type V = Outcome<PayloadView<P>>;

    open spec fn view(&self) -> Outcome<PayloadView<P>> {
        match self {
            Outcome::Unreadable => Outcome::Unreadable,
            Outcome::NotImage => Outcome::NotImage,
            Outcome::NotSupported => Outcome::NotSupported,
            Outcome::Opened => Outcome::Opened,
            Outcome::Reopened => Outcome::Reopened,
            Outcome::NoLeader => Outcome::NoLeader,
            Outcome::Appended => Outcome::Appended,
            Outcome::Outdated => Outcome::Outdated,
            Outcome::Lost => Outcome::Lost,
            Outcome::Complete(payload) => Outcome::Complete(payload@),
        }
    }
}

/// The state of a loop that receives packets and assembles them.
#[derive(Debug)]
pub struct StreamingLoop<P> {
    buffer: Vec<u8>,
    length: usize,
    builder: Option<PayloadBuilder<P>>,
    cancellation_rx: oneshot::Receiver<()>,
    completion: Completion,
}

impl<P> StreamingLoop<P> {
    /// The block that is open, if there is one.
    pub closed spec fn open(self) -> Option<Block<P>> {
        match self.builder {
            Some(builder) => Some(builder@),
            None => None,
        }
    }

    /// What the receive buffer holds.
    pub closed spec fn received(self) -> Seq<u8> {
        self.buffer@
    }

    /// How many bytes of the receive buffer the last datagram fills.
    pub closed spec fn datagram_len(self) -> usize {
        self.length
    }

    /// The last datagram.
    pub open spec fn datagram(self) -> Seq<u8> {
        self.received().take(self.datagram_len() as int)
    }

    /// Where the loop is asked to stop.
    pub closed spec fn cancellation(self) -> oneshot::Receiver<()> {
        self.cancellation_rx
    }

    /// What the loop sets and signals once it has ended.
    pub closed spec fn completing(self) -> Completion {
        self.completion
    }

    /// Whether the packet, which is the last datagram, can be handled now: see [`acceptable`].
    /// While a block is open, the bytes of a payload packet lie in the datagram, and that lies in
    /// the receive buffer. So no byte that an earlier datagram left there gets into a block.
    pub open spec fn handles(self, packet: Packet<P, usize>) -> bool {
        &&& acceptable(self.open(), packet)
        &&& match packet {
            Packet::GenericPayload(_, start) => self.open() is Some ==> start
                <= self.datagram_len() <= self.received().len(),
            _ => true,
        }
    }

    /// A loop that has received nothing, that is asked to stop through `cancellation_rx` and that
    /// sets and signals `completion` once it has ended.
    pub fn new(cancellation_rx: oneshot::Receiver<()>, completion: Completion) -> (r: Self)
        ensures
            r.open() is None,
            r.cancellation() == cancellation_rx,
            r.completing() == completion,
            r.datagram_len() == 0,
            r.received() == Seq::new(BUFFER_SIZE as nat, |i: int| 0u8),
            r.received().len() == 65536,
    {
        let buffer: Vec<u8> = vec![0u8; BUFFER_SIZE];
        proof {
            assert(buffer@ =~= Seq::new(BUFFER_SIZE as nat, |i: int| 0u8));
        }
        StreamingLoop { buffer, length: 0, builder: None, cancellation_rx, completion }
    }

    /// What the loop sets and signals once it has ended.
    pub fn completion(&self) -> (r: &Completion)
        ensures
            *r == self.completing(),
    {
        &self.completion
    }

    /// The receive buffer.
    pub fn buffer(&self) -> (r: &[u8])
        ensures
            r@ == self.received(),
    {
        self.buffer.as_slice()
    }

    /// The receive buffer, for a datagram to be received in it.
    pub fn buffer_mut(&mut self) -> (r: &mut [u8])
        ensures
            r@ == old(self).received(),
            final(self).received() == final(r)@,
            final(self).datagram_len() == old(self).datagram_len(),
            final(self).open() == old(self).open(),
            final(self).cancellation() == old(self).cancellation(),
            final(self).completing() == old(self).completing(),
    {
        self.buffer.as_mut_slice()
    }

    /// Takes note of how the receive into [`Self::buffer_mut`] went: with a datagram of so many
    /// bytes, or with an error.
    pub fn after_receive(&mut self, received: Result<usize, RecvError>) -> (report: Report)
        ensures
            match received {
                Ok(length) => {
                    &&& report is Received
                    &&& final(self).datagram_len() == length
                },
                Err(err) => {
                    &&& report == Report::ReceiveFailed(err)
                    &&& final(self).datagram_len() == old(self).datagram_len()
                },
            },
            final(self).received() == old(self).received(),
            final(self).open() == old(self).open(),
            final(self).cancellation() == old(self).cancellation(),
            final(self).completing() == old(self).completing(),
    {
        match received {
            Ok(length) => {
                self.length = length;
                Report::Received
            },
            Err(err) => Report::ReceiveFailed(err),
        }
    }

    /// Whether the loop has been asked to stop, as its channel has it at the moment.
    pub fn is_cancelled(&mut self) -> (r: bool)
        ensures
            *final(self) == *old(self),
            exists|rx: &mut oneshot::Receiver<()>, polled: Result<Option<()>, oneshot::Canceled>|
                {
                    &&& *rx == old(self).cancellation()
                    &&& #[trigger] call_ensures(
                        oneshot::Receiver::<()>::try_recv,
                        (rx,),
                        polled,
                    )
                    &&& r == !(polled matches Ok(None))
                },
    {
        let polled = self.cancellation_rx.try_recv();
        asks_to_stop(&polled)
    }

    /// Whether [`Self::handle`] takes the packet.
    pub fn can_handle(&self, packet: &Packet<P, usize>) -> (r: bool)
        ensures
            r == self.handles(*packet),
            self.open() is None ==> r,
            self.open() matches Some(block) ==> match *packet {
                Packet::GenericPayload(header, start) => r == (start <= self.datagram_len()
                    && self.datagram_len() <= self.received().len() && !(header.block_id
                    == block.block_id && (header.packet_id <= block.last_packet_id
                    || block.last_packet_id == u32::MAX))),
                Packet::Trailer(header, ImagePart::Image(_)) => r == !(header.block_id
                    == block.block_id && block.last_packet_id == u32::MAX),
                _ => r,
            },
    {
        match &self.builder {
            None => true,
            Some(builder) => match packet {
                Packet::GenericPayload(header, start) => {
                    *start <= self.length && self.length <= self.buffer.len() && builder.can_push(
                        header,
                    )
                },
                Packet::Trailer(header, ImagePart::Image(_)) => builder.can_verify(header),
                _ => true,
            },
        }
    }

    /// Handles the packet that is the last datagram.
    pub fn handle(&mut self, packet: Packet<P, usize>) -> (r: Outcome<Payload<P>>)
        requires
            old(self).handles(packet),
        ensures
            r@ == outcome(old(self).open(), packet.lying_in(old(self).datagram())),
            final(self).open() == open_after(
                old(self).open(),
                packet.lying_in(old(self).datagram()),
            ),
            final(self).received() == old(self).received(),
            final(self).datagram_len() == old(self).datagram_len(),
            final(self).cancellation() == old(self).cancellation(),
            final(self).completing() == old(self).completing(),
            match packet {
                Packet::Unreadable => r is Unreadable && final(self).open() == old(self).open(),
                Packet::H264Payload | Packet::MultiZonePayload => {
                    &&& r is NotSupported
                    &&& final(self).open() == old(self).open()
                },
                Packet::Leader(_, ImagePart::NotImage) => r is NotImage && final(self).open()
                    == old(self).open(),
                Packet::Leader(_, ImagePart::NoType) | Packet::Leader(_, ImagePart::Malformed) => r
                    is Unreadable && final(self).open() == old(self).open(),
                Packet::Leader(header, ImagePart::Image(leader)) => {
                    &&& old(self).open() is Some ==> r is Reopened
                    &&& old(self).open() is None ==> r is Opened
                    &&& final(self).open() matches Some(block)
                    &&& block.block_id == header.block_id
                    &&& block.leader == leader
                    &&& block.last_packet_id == 0
                    &&& block.data.len() == 0
                },
                Packet::Trailer(_, ImagePart::NoType) => r is Unreadable && final(self).open()
                    == old(self).open(),
                Packet::Trailer(_, ImagePart::NotImage) => {
                    &&& old(self).open() is Some ==> r is NotImage
                    &&& old(self).open() is None ==> r is NoLeader
                    &&& final(self).open() is None
                },
                Packet::Trailer(_, ImagePart::Malformed) => {
                    &&& old(self).open() is Some ==> r is Unreadable
                    &&& old(self).open() is None ==> r is NoLeader
                    &&& final(self).open() is None
                },
                Packet::Trailer(_, ImagePart::Image(_)) | Packet::GenericPayload(_, _) => {
                    old(self).open() is None ==> r is NoLeader && final(self).open() is None
                },
            },
            old(self).open() matches Some(block) ==> match packet {
                Packet::Trailer(header, ImagePart::Image(_)) => {
                    if header.block_id < block.block_id {
                        r is Outdated && final(self).open() == Some(block)
                    } else if header.block_id > block.block_id || header.packet_id
                        > block.last_packet_id + 1 {
                        r is Lost && final(self).open() is None
                    } else {
                        &&& final(self).open() is None
                        &&& r matches Outcome::Complete(payload)
                        &&& payload.id == block.block_id
                        &&& payload.payload_type is Image
                        &&& payload.payload@ == block.data
                        &&& payload.valid_payload_size == block.data.len()
                        &&& payload.timestamp == block.leader.timestamp
                        &&& payload.image_info matches Some(info)
                        &&& info.width == block.leader.width
                        &&& info.height == block.leader.height
                        &&& info.x_offset == block.leader.x_offset
                        &&& info.y_offset == block.leader.y_offset
                        &&& info.pixel_format == block.leader.pixel_format
                        &&& info.image_size == block.data.len()
                    }
                },
                Packet::GenericPayload(header, start) => {
                    if header.block_id < block.block_id {
                        r is Outdated && final(self).open() == Some(block)
                    } else if header.block_id > block.block_id || header.packet_id
                        > block.last_packet_id + 1 {
                        r is Lost && final(self).open() is None
                    } else {
                        &&& r is Appended
                        &&& final(self).open() matches Some(grown)
                        &&& grown.block_id == block.block_id
                        &&& grown.leader == block.leader
                        &&& grown.last_packet_id == header.packet_id
                        &&& grown.data.len() == block.data.len() + old(self).datagram_len() - start
                        &&& forall|i: int|
                            0 <= i < block.data.len() ==> #[trigger] grown.data[i] == block.data[i]
                        &&& forall|i: int|
                            0 <= i < old(self).datagram_len() - start ==> #[trigger] grown.data[
                            block.data.len() + i] == old(self).received()[start + i]
                    }
                },
                _ => true,
            },
    {
        match packet {
            Packet::Unreadable => Outcome::Unreadable,
            Packet::Leader(header, part) => match part {
                ImagePart::NoType | ImagePart::Malformed => Outcome::Unreadable,
                ImagePart::NotImage => Outcome::NotImage,
                ImagePart::Image(leader) => {
                    let reopened = self.builder.is_some();
                    self.builder = Some(PayloadBuilder::new(header, leader, Vec::new()));
                    if reopened {
                        Outcome::Reopened
                    } else {
                        Outcome::Opened
                    }
                },
            },
            Packet::Trailer(header, part) => {
                if let ImagePart::NoType = part {
                    return Outcome::Unreadable;
                }
                match self.builder.take() {
                    None => Outcome::NoLeader,
                    Some(builder) => match part {
                        ImagePart::NotImage => Outcome::NotImage,
                        ImagePart::Image(()) => match builder.verify_header(&header) {
                            Err(PacketMismatch::TooOld) => {
                                self.builder = Some(builder);
                                Outcome::Outdated
                            },
                            _ => match builder.build(header) {
                                Ok(payload) => Outcome::Complete(payload),
                                Err(_) => Outcome::Lost,
                            },
                        },
                        _ => Outcome::Unreadable,
                    },
                }
            },
            Packet::GenericPayload(header, start) => match self.builder.take() {
                None => Outcome::NoLeader,
                Some(builder) => {
                    let mut builder = builder;
                    let data = slice_subrange(self.buffer.as_slice(), start, self.length);
                    proof {
                        assert(data@ =~= old(self).datagram().skip(start as int));
                    }
                    match builder.push(header, data) {
                        Ok(()) => {
                            self.builder = Some(builder);
                            Outcome::Appended
                        },
                        Err(PacketMismatch::TooOld) => {
                            self.builder = Some(builder);
                            Outcome::Outdated
                        },
                        Err(PacketMismatch::TooNew) => Outcome::Lost,
                    }
                },
            },
            Packet::H264Payload | Packet::MultiZonePayload => Outcome::NotSupported,
        }
    }
}

/// Every byte of a payload packet that is taken gets into the open block: the block grows by the
/// bytes of the datagram from where the packet's bytes start to its end, in the order in which
/// they were received, behind those that it has.
pub proof fn law_taken_packet_adds_its_bytes<P>(
    streaming: StreamingLoop<P>,
    header: PacketHeader,
    start: usize,
)
    requires
        streaming.open() is Some,
        header.block_id == (streaming.open()->0).block_id,
        header.packet_id == (streaming.open()->0).last_packet_id + 1,
        start <= streaming.datagram_len() <= streaming.received().len(),
    ensures
        streaming.handles(Packet::GenericPayload(header, start)),
        outcome(
            streaming.open(),
            Packet::GenericPayload(header, start).lying_in(streaming.datagram()),
        ) is Appended,
        open_after(
            streaming.open(),
            Packet::GenericPayload(header, start).lying_in(streaming.datagram()),
        ) matches Some(grown) && streaming.open() matches Some(block) && {
            &&& grown.block_id == block.block_id
            &&& grown.leader == block.leader
            &&& grown.last_packet_id == header.packet_id
            &&& grown.data.len() == block.data.len() + streaming.datagram_len() - start
            &&& forall|i: int|
                0 <= i < block.data.len() ==> #[trigger] grown.data[i] == block.data[i]
            &&& forall|i: int|
                0 <= i < streaming.datagram_len() - start ==> #[trigger] grown.data[block.data.len()
                    + i] == streaming.received()[start + i]
        },
{
}

/// While no block is open every packet can be handled. Else a payload packet can be handled if its
/// bytes lie in the datagram and that lies in the receive buffer, unless it repeats one of the open
/// block or comes when the packet numbers of the block are used up. An image trailer can be handled
/// unless they are used up, and any other packet always.
pub proof fn law_loop_refuses_only_repetitions<P>(
    streaming: StreamingLoop<P>,
    packet: Packet<P, usize>,
)
    ensures
        streaming.open() is None ==> streaming.handles(packet),
        packet !is GenericPayload && packet !is Trailer ==> streaming.handles(packet),
        packet matches Packet::Trailer(_, part) && part !is Image ==> streaming.handles(packet),
        streaming.open() matches Some(block) ==> (packet matches Packet::Trailer(
            header,
            ImagePart::Image(_),
        ) ==> (!streaming.handles(packet) <==> header.block_id == block.block_id
            && block.last_packet_id == u32::MAX)),
        streaming.open() matches Some(block) ==> (packet matches Packet::GenericPayload(
            header,
            start,
        ) ==> (streaming.handles(packet) <==> start <= streaming.datagram_len()
            && streaming.datagram_len() <= streaming.received().len() && !(header.block_id
            == block.block_id && (header.packet_id <= block.last_packet_id || block.last_packet_id
            == u32::MAX)))),
{
}

/// Where its bytes lie makes no difference to what a packet is: a leader or a trailer is the same
/// whatever the datagram, and a payload packet keeps its header and has the bytes of the datagram
/// from its start on.
pub proof fn law_packet_has_the_bytes_from_its_start<P>(
    packet: Packet<P, usize>,
    datagram: Seq<u8>,
)
    ensures
        packet is Unreadable <==> packet.lying_in(datagram) is Unreadable,
        packet is H264Payload <==> packet.lying_in(datagram) is H264Payload,
        packet is MultiZonePayload <==> packet.lying_in(datagram) is MultiZonePayload,
        packet matches Packet::Leader(header, part) ==> packet.lying_in(datagram)
            == Packet::<P, Seq<u8>>::Leader(header, part),
        packet matches Packet::Trailer(header, part) ==> packet.lying_in(datagram)
            == Packet::<P, Seq<u8>>::Trailer(header, part),
        packet matches Packet::GenericPayload(header, start) ==> (start <= datagram.len() ==> {
            &&& packet.lying_in(datagram) matches Packet::GenericPayload(same, data)
            &&& same == header
            &&& data.len() == datagram.len() - start
            &&& forall|i: int|
                0 <= i < datagram.len() - start ==> #[trigger] data[i] == datagram[start + i]
        }),
{
}

} // verus!
