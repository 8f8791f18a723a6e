use vstd::prelude::*;

verus! {

#[derive(Debug)]
pub struct Playlist {
    pub id: String,
    pub title: String,
    pub thumbnail: String,
    pub channel_id: String,
    pub channel_title: String,
}

/// A playlist as values.
pub struct PlaylistView {
    pub id: Seq<char>,
    pub title: Seq<char>,
    pub thumbnail: Seq<char>,
    pub channel_id: Seq<char>,
    pub channel_title: Seq<char>,
}

impl View for Playlist {
    type V = PlaylistView;

    open spec fn view(&self) -> PlaylistView {
        PlaylistView {
            id: self.id@,
            title: self.title@,
            thumbnail: self.thumbnail@,
            channel_id: self.channel_id@,
            channel_title: self.channel_title@,
        }
    }
}

impl Playlist {
    pub fn new(
        id: String,
        title: String,
        thumbnail: String,
        channel_id: String,
        channel_title: String,
    ) -> (playlist: Self)
        ensures
            playlist == (Playlist { id, title, thumbnail, channel_id, channel_title }),
    {
        Playlist { id, title, thumbnail, channel_id, channel_title }
    }
}

} // verus!
