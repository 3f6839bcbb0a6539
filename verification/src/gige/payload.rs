//! The complete blocks that are handed to the receiver of the stream.

use std::time::Duration;
use vstd::prelude::*;

verus! {

/// What a payload holds.
#[derive(Debug, Clone, Copy, PartialEq, Eq, Structural)]
pub enum PayloadType {
    /// One image.
    Image,
}

/// The shape of the image in a payload.
#[derive(Debug)]
pub struct ImageInfo<P> {
    /// Width of the image.
    pub width: usize,
    /// Height of the image.
    pub height: usize,
    /// Horizontal offset of the image on the sensor.
    pub x_offset: usize,
    /// Vertical offset of the image on the sensor.
    pub y_offset: usize,
    /// Format of the pixels.
    pub pixel_format: P,
    /// Size of the image in bytes.
    pub image_size: usize,
}

/// A complete block.
#[derive(Debug)]
pub struct Payload<P> {
    /// The block that the payload was assembled from.
    pub id: u64,
    /// What the payload holds.
    pub payload_type: PayloadType,
    /// The shape of the image.
    pub image_info: Option<ImageInfo<P>>,
    /// The bytes of the block.
    pub payload: Vec<u8>,
    /// How many of the bytes are valid.
    pub valid_payload_size: usize,
    /// Time on the camera at which the block was taken.
    pub timestamp: Duration,
}

/// A payload with its bytes as a sequence.
pub struct PayloadView<P> {
    pub id: u64,
    pub payload_type: PayloadType,
    pub image_info: Option<ImageInfo<P>>,
    pub payload: Seq<u8>,
    pub valid_payload_size: int,
    pub timestamp: Duration,
}

impl<P> View for Payload<P> {
    type V = PayloadView<P>;

    open spec fn view(&self) -> PayloadView<P> {
        PayloadView {
            id: self.id,
            payload_type: self.payload_type,
            image_info: self.image_info,
            payload: self.payload@,
            valid_payload_size: self.valid_payload_size as int,
            timestamp: self.timestamp,
        }
    }
}

} // verus!
