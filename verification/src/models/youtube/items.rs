//! The items of the upstream's lists.

pub mod list_item;
pub mod playlist_item;
pub mod search_item;
