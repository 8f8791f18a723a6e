//! What the routes decide once an operation has ended.

pub mod single;
pub mod videos;
