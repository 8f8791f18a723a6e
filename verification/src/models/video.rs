use crate::text::optional_text;
use vstd::prelude::*;

verus! {

#[derive(Debug)]
pub struct Video {
    pub id: String,
    pub title: String,
    pub date: String,
    pub thumbnail: String,
    pub channel_id: String,
    pub channel_title: String,
    pub description: Option<String>,
}

/// A video as values.
pub struct VideoView {
    pub id: Seq<char>,
    pub title: Seq<char>,
    pub date: Seq<char>,
    pub thumbnail: Seq<char>,
    pub channel_id: Seq<char>,
    pub channel_title: Seq<char>,
    pub description: Option<Seq<char>>,
}

impl View for Video {
    type V = VideoView;

    open spec fn view(&self) -> VideoView {
        VideoView {
            id: self.id@,
            title: self.title@,
            date: self.date@,
            thumbnail: self.thumbnail@,
            channel_id: self.channel_id@,
            channel_title: self.channel_title@,
            description: optional_text(self.description),
        }
    }
}

impl Video {
    pub fn new(
        id: String,
        title: String,
        date: String,
        thumbnail: String,
        channel_id: String,
        channel_title: String,
        description: Option<String>,
    ) -> (video: Self)
        ensures
            video == (Video { id, title, date, thumbnail, channel_id, channel_title, description }),
    {
        Video { id, title, date, thumbnail, channel_id, channel_title, description }
    }
}

} // verus!
