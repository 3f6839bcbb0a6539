//! The logic of a GenICam camera host, with its behaviour stated in contracts and proved.
//!
//! [`gige`] assembles the image blocks that a GigE Vision camera streams, and keeps the state of
//! the streaming loop that receives them. [`genapi`] holds the integer nodes of a camera's
//! feature description and the rules by which their limits are inherited.

pub mod genapi;
pub mod gige;
