//! The integer nodes of a camera's feature description.

pub mod elem_type;
pub mod error;
pub mod integer;
pub mod node_base;
pub mod store;
