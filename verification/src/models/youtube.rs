//! The documents that the upstream answers with.

use crate::models::youtube::items::list_item::ListItem;
use crate::models::youtube::items::playlist_item::PlaylistItem;
use crate::models::youtube::items::search_item::SearchItem;
use vstd::prelude::*;

pub mod items;
pub mod parts;

verus! {

/// Why an upstream item is no entity of the kind asked for.
#[derive(Clone, Copy, Debug, PartialEq, Eq, Structural)]
pub enum ConversionError {
    NotAChannel,
    NotAVideo,
    NotAPlaylist,
    NotAVideoInPlaylist,
    /// The item is of the kind asked for and lacks a part that the entity
    /// needs.
    MissingPart,
}

#[derive(Debug)]
pub struct SearchResponse {
    pub items: Vec<SearchItem>,
}

#[derive(Debug)]
pub struct ListResponse {
    pub items: Option<Vec<ListItem>>,
    pub page_info: PageInfo,
}

#[derive(Debug)]
pub struct PageInfo {
    pub total_results: Option<usize>,
}

#[derive(Debug)]
pub struct PlaylistResponse {
    pub items: Vec<PlaylistItem>,
    pub next_page_token: Option<String>,
}

} // verus!
