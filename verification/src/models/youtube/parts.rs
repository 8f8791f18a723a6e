//! The parts that upstream items are made of.

pub mod content_details;
pub mod id;
pub mod kind;
pub mod resource_id;
pub mod snippet;
pub mod stats;
pub mod thumbnails;
