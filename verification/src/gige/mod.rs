//! Receiving the image stream of a GigE Vision camera.

pub mod assembly;
pub mod builder;
pub mod cancellation;
pub mod completion;
pub mod packet;
pub mod payload;
pub mod stream_handle;
pub mod streaming_loop;
