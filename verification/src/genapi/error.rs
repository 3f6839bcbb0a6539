//! What can go wrong when a node is read or written.

use vstd::prelude::*;

verus! {

/// Why a node could not be read or written.
#[derive(Debug)]
pub enum GenApiError {
    /// The element that was to be written is not there.
    NotWritable,
    /// Another node, or the camera, failed. The text says how.
    Failed(String),
}

impl GenApiError {
    /// The error for a write to what cannot be written.
    pub fn not_writable() -> (err: GenApiError)
        ensures
            err is NotWritable,
    {
        GenApiError::NotWritable
    }
}

/// The result of reading or writing a node.
pub type GenApiResult<T> = Result<T, GenApiError>;

} // verus!
