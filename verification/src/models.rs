//! The entities that the proxy serves and the upstream documents that they
//! are made from.

pub mod channel;
pub mod channel_stats;
pub mod content_type;
pub mod playlist;
pub mod video;
pub mod youtube;
