//! The packets of the stream protocol, as far as block assembly reads them.

use std::time::Duration;
use vstd::prelude::*;

verus! {

/// The place of a packet in the stream.
#[derive(Debug, Clone, Copy, PartialEq, Eq, Structural)]
pub struct PacketHeader {
    /// The block, that is the image, that the packet is a part of.
    pub block_id: u64,
    /// The position of the packet in its block.
    pub packet_id: u32,
}

/// What the leader packet of a block says of the image that follows.
///
/// `P` is the type that stands for pixel formats.
#[derive(Debug)]
pub struct ImageLeader<P> {
    /// Time on the camera at which the image was taken.
    pub timestamp: Duration,
    /// Format of the pixels.
    pub pixel_format: P,
    /// Width of the image.
    pub width: u32,
    /// Height of the image.
    pub height: u32,
    /// Horizontal offset of the image on the sensor.
    pub x_offset: u32,
    /// Vertical offset of the image on the sensor.
    pub y_offset: u32,
}

} // verus!
