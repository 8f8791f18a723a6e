use crate::models::video::{Video, VideoView};
use crate::models::youtube::parts::snippet::Snippet;
use crate::models::youtube::ConversionError;
use crate::text::optional_text;
use vstd::prelude::*;

verus! {

/// An item of a playlist.
#[derive(Debug)]
pub struct PlaylistItem {
    pub snippet: Snippet,
    pub id: String,
}

impl PlaylistItem {
    /// The video that the item points to: the resource of its snippet,
    /// where that is a video.
    pub open spec fn as_video(self) -> Result<VideoView, ConversionError> {
        match self.snippet.resource_id {
            None => Err(ConversionError::MissingPart),
            Some(resource_id) => if !resource_id.kind.names_video() {
                Err(ConversionError::NotAVideoInPlaylist)
            } else {
                match (
                    self.snippet.published_at,
                    self.snippet.thumbnails,
                    self.snippet.channel_id,
                    self.snippet.channel_title,
                ) {
                    (Some(date), Some(thumbnails), Some(channel_id), Some(channel_title)) => Ok(
                        VideoView {
                            id: resource_id.video_id@,
                            title: self.snippet.title@,
                            date: date@,
                            thumbnail: thumbnails.best().url@,
                            channel_id: channel_id@,
                            channel_title: channel_title@,
                            description: optional_text(self.snippet.description),
                        },
                    ),
                    _ => Err(ConversionError::MissingPart),
                }
            },
        }
    }

    pub fn into_video(self) -> (video: Result<Video, ConversionError>)
        ensures
            match video {
                Ok(v) => Ok(v@),
                Err(error) => Err(error),
            } == self.as_video(),
    {
        let resource_id = match self.snippet.resource_id {
            Some(resource_id) => resource_id,
            None => {
                return Err(ConversionError::MissingPart);
            },
        };
        if resource_id.kind.is_video() {
            match (
                self.snippet.published_at,
                self.snippet.thumbnails,
                self.snippet.channel_id,
                self.snippet.channel_title,
            ) {
                (Some(date), Some(thumbnails), Some(channel_id), Some(channel_title)) => Ok(
                    Video::new(
                        resource_id.video_id,
                        self.snippet.title,
                        date,
                        thumbnails.get_url(),
                        channel_id,
                        channel_title,
                        self.snippet.description,
                    ),
                ),
                _ => Err(ConversionError::MissingPart),
            }
        } else {
            Err(ConversionError::NotAVideoInPlaylist)
        }
    }
}

} // verus!
