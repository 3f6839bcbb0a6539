use cameleon::gige::assembly::{ImagePart, Outcome, Packet};
use cameleon::gige::completion::new_completion;
use cameleon::gige::builder::{PacketMismatch, PayloadBuilder};
use cameleon::gige::packet::{ImageLeader, PacketHeader};
use cameleon::gige::payload::{Payload, PayloadType};
use cameleon::gige::streaming_loop::{read_image_part, RecvError, Report, StreamingLoop};
use futures_channel::oneshot;
use std::time::Duration;

type Format = &'static str;

fn header(block_id: u64, packet_id: u32) -> PacketHeader {
    PacketHeader { block_id, packet_id }
}

fn leader() -> ImageLeader<Format> {
    ImageLeader {
        timestamp: Duration::from_nanos(42),
        pixel_format: "Mono8",
        width: 640,
        height: 480,
        x_offset: 3,
        y_offset: 4,
    }
}

fn new_loop() -> StreamingLoop<Format> {
    let (_tx, rx) = oneshot::channel();
    StreamingLoop::new(rx, new_completion())
}

fn give_leader(streaming: &mut StreamingLoop<Format>, block_id: u64) -> Outcome<Payload<Format>> {
    streaming.handle(Packet::Leader(header(block_id, 0), ImagePart::Image(leader())))
}

/// Puts the bytes behind a header of 8 bytes, as a datagram has them.
fn give_data(
    streaming: &mut StreamingLoop<Format>,
    block_id: u64,
    packet_id: u32,
    data: &[u8],
) -> Outcome<Payload<Format>> {
    let end = 8 + data.len();
    streaming.buffer_mut()[8..end].copy_from_slice(data);
    assert_eq!(streaming.after_receive(Ok(end)), Report::Received);
    let packet = Packet::GenericPayload(header(block_id, packet_id), 8);
    assert!(streaming.can_handle(&packet));
    streaming.handle(packet)
}

fn give_trailer(
    streaming: &mut StreamingLoop<Format>,
    block_id: u64,
    packet_id: u32,
) -> Outcome<Payload<Format>> {
    let packet = Packet::Trailer(header(block_id, packet_id), ImagePart::Image(()));
    assert!(streaming.can_handle(&packet));
    streaming.handle(packet)
}

#[test]
fn builder_discards_the_buffer_it_is_given() {
    let builder = PayloadBuilder::new(header(7, 0), leader(), vec![9, 9, 9]);
    let payload = builder.build(header(7, 1)).unwrap();
    assert!(payload.payload.is_empty());
    assert_eq!(payload.valid_payload_size, 0);
}

#[test]
fn builder_describes_the_image_as_its_leader_did() {
    let mut builder = PayloadBuilder::new(header(7, 0), leader(), Vec::new());
    assert_eq!(builder.push(header(7, 1), &[1, 2, 3]), Ok(()));
    assert_eq!(builder.push(header(7, 2), &[4]), Ok(()));
    let payload = builder.build(header(7, 3)).unwrap();
    assert_eq!(payload.id, 7);
    assert_eq!(payload.payload_type, PayloadType::Image);
    assert_eq!(payload.payload, vec![1, 2, 3, 4]);
    assert_eq!(payload.valid_payload_size, 4);
    assert_eq!(payload.timestamp, Duration::from_nanos(42));
    let info = payload.image_info.unwrap();
    assert_eq!(info.width, 640);
    assert_eq!(info.height, 480);
    assert_eq!(info.x_offset, 3);
    assert_eq!(info.y_offset, 4);
    assert_eq!(info.pixel_format, "Mono8");
    assert_eq!(info.image_size, 4);
}

#[test]
fn builder_tells_packets_that_do_not_fit_apart() {
    let mut builder = PayloadBuilder::new(header(7, 0), leader(), Vec::new());
    assert_eq!(builder.push(header(8, 1), &[1]), Err(PacketMismatch::TooNew));
    assert_eq!(builder.push(header(7, 2), &[1]), Err(PacketMismatch::TooNew));
    assert_eq!(builder.push(header(6, 1), &[1]), Err(PacketMismatch::TooOld));
    // A packet of an earlier block shows no loss, whatever its number.
    assert_eq!(builder.push(header(6, 2), &[1]), Err(PacketMismatch::TooOld));
    assert_eq!(builder.verify_header(&header(6, 300)), Err(PacketMismatch::TooOld));
    assert_eq!(builder.verify_header(&header(7, 1)), Ok(()));
    assert_eq!(builder.push(header(7, 1), &[5]), Ok(()));
    assert_eq!(builder.verify_header(&header(7, 0)), Ok(()));
    assert_eq!(builder.build(header(8, 2)).unwrap_err(), PacketMismatch::TooNew);
}

#[test]
fn builder_takes_no_packet_twice() {
    let mut builder = PayloadBuilder::new(header(7, 0), leader(), Vec::new());
    assert!(builder.can_push(&header(7, 1)));
    assert!(!builder.can_push(&header(7, 0)));
    assert_eq!(builder.push(header(7, 1), &[5]), Ok(()));
    assert!(!builder.can_push(&header(7, 1)));
    assert!(builder.can_push(&header(7, 2)));
    assert!(builder.can_push(&header(7, 9)));
    assert!(builder.can_push(&header(6, 1)));
    assert!(builder.can_push(&header(8, 1)));
    assert!(builder.can_verify(&header(7, 1)));
}

#[test]
fn block_in_order_is_delivered() {
    let mut streaming = new_loop();
    assert!(matches!(give_leader(&mut streaming, 1), Outcome::Opened));
    assert!(matches!(give_data(&mut streaming, 1, 1, &[10, 11]), Outcome::Appended));
    assert!(matches!(give_data(&mut streaming, 1, 2, &[12]), Outcome::Appended));
    match give_trailer(&mut streaming, 1, 3) {
        Outcome::Complete(payload) => {
            assert_eq!(payload.id, 1);
            assert_eq!(payload.payload, vec![10, 11, 12]);
        }
        other => panic!("{:?}", other),
    }
    // It is delivered once.
    assert!(matches!(give_trailer(&mut streaming, 1, 3), Outcome::NoLeader));
}

#[test]
fn next_block_starts_afresh() {
    let mut streaming = new_loop();
    give_leader(&mut streaming, 1);
    give_data(&mut streaming, 1, 1, &[10]);
    assert!(matches!(give_leader(&mut streaming, 2), Outcome::Reopened));
    give_data(&mut streaming, 2, 1, &[20]);
    match give_trailer(&mut streaming, 2, 2) {
        Outcome::Complete(payload) => {
            assert_eq!(payload.id, 2);
            assert_eq!(payload.payload, vec![20]);
        }
        other => panic!("{:?}", other),
    }
}

#[test]
fn gap_gives_the_block_up() {
    let mut streaming = new_loop();
    give_leader(&mut streaming, 1);
    give_data(&mut streaming, 1, 1, &[10]);
    assert!(matches!(give_data(&mut streaming, 1, 3, &[12]), Outcome::Lost));
    assert!(matches!(give_data(&mut streaming, 1, 2, &[11]), Outcome::NoLeader));
    assert!(matches!(give_trailer(&mut streaming, 1, 4), Outcome::NoLeader));
}

#[test]
fn packet_of_a_later_block_gives_the_block_up() {
    let mut streaming = new_loop();
    give_leader(&mut streaming, 1);
    assert!(matches!(give_data(&mut streaming, 2, 1, &[12]), Outcome::Lost));
    assert!(matches!(give_data(&mut streaming, 1, 1, &[11]), Outcome::NoLeader));
}

#[test]
fn outdated_packet_is_ignored() {
    let mut streaming = new_loop();
    give_leader(&mut streaming, 5);
    give_data(&mut streaming, 5, 1, &[1]);
    assert!(matches!(give_data(&mut streaming, 4, 2, &[99]), Outcome::Outdated));
    assert!(matches!(give_data(&mut streaming, 5, 2, &[2]), Outcome::Appended));
    match give_trailer(&mut streaming, 5, 3) {
        Outcome::Complete(payload) => assert_eq!(payload.payload, vec![1, 2]),
        other => panic!("{:?}", other),
    }
}

#[test]
fn outdated_packet_is_ignored_whatever_its_number() {
    let mut streaming = new_loop();
    give_leader(&mut streaming, 5);
    assert!(matches!(give_data(&mut streaming, 4, 3, &[99]), Outcome::Outdated));
    assert!(matches!(give_data(&mut streaming, 5, 1, &[1]), Outcome::Appended));
    match give_trailer(&mut streaming, 5, 2) {
        Outcome::Complete(payload) => assert_eq!(payload.payload, vec![1]),
        other => panic!("{:?}", other),
    }
}

#[test]
fn outdated_trailer_is_ignored() {
    let mut streaming = new_loop();
    give_leader(&mut streaming, 8);
    give_data(&mut streaming, 8, 1, &[1, 2]);
    assert!(matches!(give_trailer(&mut streaming, 7, 2), Outcome::Outdated));
    assert!(matches!(give_trailer(&mut streaming, 7, 200), Outcome::Outdated));
    assert!(matches!(give_data(&mut streaming, 8, 2, &[3]), Outcome::Appended));
    match give_trailer(&mut streaming, 8, 3) {
        Outcome::Complete(payload) => {
            assert_eq!(payload.id, 8);
            assert_eq!(payload.payload, vec![1, 2, 3]);
        }
        other => panic!("{:?}", other),
    }
}

#[test]
fn trailer_past_a_gap_gives_the_block_up() {
    let mut streaming = new_loop();
    give_leader(&mut streaming, 5);
    assert!(matches!(give_trailer(&mut streaming, 5, 2), Outcome::Lost));
    assert!(matches!(give_trailer(&mut streaming, 5, 1), Outcome::NoLeader));
    give_leader(&mut streaming, 5);
    assert!(matches!(give_trailer(&mut streaming, 6, 1), Outcome::Lost));
    assert!(matches!(give_trailer(&mut streaming, 5, 1), Outcome::NoLeader));
}

#[test]
fn trailer_without_a_payload_type_leaves_the_block_open() {
    let mut streaming = new_loop();
    give_leader(&mut streaming, 5);
    let r = streaming.handle(Packet::Trailer(header(5, 1), ImagePart::NoType));
    assert!(matches!(r, Outcome::Unreadable));
    assert!(matches!(give_trailer(&mut streaming, 5, 1), Outcome::Complete(_)));
}

#[test]
fn trailer_that_is_not_of_an_image_closes_the_block() {
    let mut streaming = new_loop();
    give_leader(&mut streaming, 5);
    let r = streaming.handle(Packet::Trailer(header(5, 1), ImagePart::NotImage));
    assert!(matches!(r, Outcome::NotImage));
    assert!(matches!(give_trailer(&mut streaming, 5, 1), Outcome::NoLeader));
    give_leader(&mut streaming, 5);
    let r = streaming.handle(Packet::Trailer(header(5, 1), ImagePart::Malformed));
    assert!(matches!(r, Outcome::Unreadable));
    assert!(matches!(give_trailer(&mut streaming, 5, 1), Outcome::NoLeader));
    let r = streaming.handle(Packet::Trailer(header(5, 1), ImagePart::Malformed));
    assert!(matches!(r, Outcome::NoLeader));
}

#[test]
fn leader_that_cannot_be_used_leaves_the_block_open() {
    let mut streaming = new_loop();
    give_leader(&mut streaming, 5);
    let r = streaming.handle(Packet::Leader(header(6, 0), ImagePart::NotImage));
    assert!(matches!(r, Outcome::NotImage));
    let r = streaming.handle(Packet::Leader(header(6, 0), ImagePart::NoType));
    assert!(matches!(r, Outcome::Unreadable));
    let r = streaming.handle(Packet::Leader(header(6, 0), ImagePart::Malformed));
    assert!(matches!(r, Outcome::Unreadable));
    assert!(matches!(streaming.handle(Packet::Unreadable), Outcome::Unreadable));
    assert!(matches!(streaming.handle(Packet::H264Payload), Outcome::NotSupported));
    assert!(matches!(streaming.handle(Packet::MultiZonePayload), Outcome::NotSupported));
    assert!(matches!(give_trailer(&mut streaming, 5, 1), Outcome::Complete(_)));
}

#[test]
fn nothing_happens_without_a_leader() {
    let mut streaming = new_loop();
    assert!(matches!(give_data(&mut streaming, 1, 1, &[1]), Outcome::NoLeader));
    assert!(matches!(give_trailer(&mut streaming, 1, 2), Outcome::NoLeader));
    // Where no block is open, the bytes of a packet are not looked at.
    let far: Packet<Format, usize> = Packet::GenericPayload(header(1, 1), 99);
    assert!(streaming.can_handle(&far));
    assert!(matches!(streaming.handle(far), Outcome::NoLeader));
}

#[test]
fn packets_that_cannot_be_handled_are_recognised() {
    let mut streaming = new_loop();
    give_leader(&mut streaming, 1);
    give_data(&mut streaming, 1, 1, &[1]);
    assert!(!streaming.can_handle(&Packet::GenericPayload(header(1, 1), 8)));
    assert!(streaming.can_handle(&Packet::GenericPayload(header(1, 2), 8)));
    assert!(streaming.can_handle(&Packet::GenericPayload(header(1, 2), 9)));
    // The bytes would start behind the end of the datagram.
    assert!(!streaming.can_handle(&Packet::GenericPayload(header(1, 2), 10)));
    streaming.after_receive(Ok(65536));
    assert!(streaming.can_handle(&Packet::GenericPayload(header(1, 2), 0)));
    streaming.after_receive(Ok(65537));
    assert!(!streaming.can_handle(&Packet::GenericPayload(header(1, 2), 8)));
}

#[test]
fn bytes_of_an_earlier_datagram_stay_out_of_the_block() {
    let mut streaming = new_loop();
    give_leader(&mut streaming, 1);
    give_data(&mut streaming, 1, 1, &[1, 2, 3, 4]);
    // A shorter datagram leaves the end of the longer one in the buffer.
    give_data(&mut streaming, 1, 2, &[5]);
    assert_eq!(streaming.buffer()[8..12], [5, 2, 3, 4]);
    match give_trailer(&mut streaming, 1, 3) {
        Outcome::Complete(payload) => assert_eq!(payload.payload, vec![1, 2, 3, 4, 5]),
        other => panic!("{:?}", other),
    }
}

#[test]
fn failed_receive_keeps_the_last_datagram() {
    let mut streaming = new_loop();
    give_leader(&mut streaming, 1);
    streaming.after_receive(Ok(20));
    let report = streaming.after_receive(Err(RecvError::TimedOut));
    assert_eq!(report, Report::ReceiveFailed(RecvError::TimedOut));
    assert!(streaming.can_handle(&Packet::GenericPayload(header(1, 1), 20)));
    assert!(!streaming.can_handle(&Packet::GenericPayload(header(1, 1), 21)));
}

#[test]
fn lost_block_is_never_delivered() {
    let mut streaming = new_loop();
    give_leader(&mut streaming, 1);
    give_data(&mut streaming, 1, 1, &[10]);
    assert!(matches!(give_data(&mut streaming, 1, 3, &[12]), Outcome::Lost));
    for packet_id in 0..5 {
        assert!(matches!(give_data(&mut streaming, 1, packet_id, &[1]), Outcome::NoLeader));
        assert!(matches!(give_trailer(&mut streaming, 1, packet_id), Outcome::NoLeader));
        assert!(matches!(streaming.handle(Packet::Unreadable), Outcome::Unreadable));
    }
    assert!(matches!(give_leader(&mut streaming, 2), Outcome::Opened));
}

#[test]
fn receive_buffer_holds_the_largest_datagram() {
    let streaming = new_loop();
    assert_eq!(streaming.buffer().len(), 65536);
    assert!(streaming.buffer().iter().all(|byte| *byte == 0));
}

#[test]
fn image_part_is_read_for_images_only() {
    let never = || -> Option<u8> { panic!("read") };
    assert!(matches!(read_image_part(None, never), ImagePart::NoType));
    assert!(matches!(read_image_part(Some(false), never), ImagePart::NotImage));
    assert!(matches!(read_image_part(Some(true), || None::<u8>), ImagePart::Malformed));
    assert!(matches!(read_image_part(Some(true), || Some(7)), ImagePart::Image(7)));
}
