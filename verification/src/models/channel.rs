use crate::text::optional_text;
use vstd::prelude::*;

verus! {

#[derive(Debug)]
pub struct Channel {
    pub id: String,
    pub title: String,
    pub thumbnail: String,
    pub video_count: Option<u64>,
    pub upload_playlist_id: Option<String>,
}

/// A channel as values.
pub struct ChannelView {
    pub id: Seq<char>,
    pub title: Seq<char>,
    pub thumbnail: Seq<char>,
    pub video_count: Option<u64>,
    pub upload_playlist_id: Option<Seq<char>>,
}

impl View for Channel {
    type V = ChannelView;

    open spec fn view(&self) -> ChannelView {
        ChannelView {
            id: self.id@,
            title: self.title@,
            thumbnail: self.thumbnail@,
            video_count: self.video_count,
            upload_playlist_id: optional_text(self.upload_playlist_id),
        }
    }
}

impl Channel {
    pub fn new(
        id: String,
        title: String,
        thumbnail: String,
        video_count: Option<u64>,
        upload_playlist_id: Option<String>,
    ) -> (channel: Self)
        ensures
            channel == (Channel { id, title, thumbnail, video_count, upload_playlist_id }),
    {
        Channel { id, title, thumbnail, video_count, upload_playlist_id }
    }

    /// The playlist that holds all uploads of the channel, where it is
    /// known.
    pub fn get_all_videos_playlist_id(&self) -> (id: Option<String>)
        ensures
            id == self.upload_playlist_id,
    {
        match &self.upload_playlist_id {
            Some(id) => Some(id.clone()),
            None => None,
        }
    }
}

} // verus!
