use crate::models::channel::{Channel, ChannelView};
use crate::models::playlist::{Playlist, PlaylistView};
use crate::models::video::{Video, VideoView};
use crate::models::youtube::parts::id::Id;
use crate::models::youtube::parts::snippet::Snippet;
use crate::models::youtube::parts::stats::Stats;
use crate::models::youtube::parts::thumbnails::Thumbnails;
use crate::models::youtube::ConversionError;
use crate::text::optional_text;
use vstd::prelude::*;

verus! {

/// An item of a search result.
#[derive(Debug)]
pub struct SearchItem {
    pub snippet: Snippet,
    pub statistics: Option<Stats>,
    pub id: Id,
}

impl SearchItem {
    /// The channel that the item describes.
    pub open spec fn as_channel(self) -> Result<ChannelView, ConversionError> {
        if !self.id.kind.names_channel() {
            Err(ConversionError::NotAChannel)
        } else {
            match (self.id.channel_id, self.snippet.thumbnails) {
                (Some(id), Some(thumbnails)) => Ok(
                    ChannelView {
                        id: id@,
                        title: self.snippet.title@,
                        thumbnail: thumbnails.best().url@,
                        video_count: None,
                        upload_playlist_id: None,
                    },
                ),
                _ => Err(ConversionError::MissingPart),
            }
        }
    }

    /// The video that the item describes.
    pub open spec fn as_video(self) -> Result<VideoView, ConversionError> {
        if !self.id.kind.names_video() {
            Err(ConversionError::NotAVideo)
        } else {
            match (
                self.id.video_id,
                self.snippet.published_at,
                self.snippet.thumbnails,
                self.snippet.channel_id,
                self.snippet.channel_title,
            ) {
                (Some(id), Some(date), Some(thumbnails), Some(channel_id), Some(channel_title)) => Ok(
                    VideoView {
                        id: id@,
                        title: self.snippet.title@,
                        date: date@,
                        thumbnail: thumbnails.best().url@,
                        channel_id: channel_id@,
                        channel_title: channel_title@,
                        description: optional_text(self.snippet.description),
                    },
                ),
                _ => Err(ConversionError::MissingPart),
            }
        }
    }

    /// The playlist that the item describes. A playlist without thumbnails
    /// gets an empty thumbnail address.
    pub open spec fn as_playlist(self) -> Result<PlaylistView, ConversionError> {
        if !self.id.kind.names_playlist() {
            Err(ConversionError::NotAPlaylist)
        } else {
            match (self.id.playlist_id, self.snippet.channel_id, self.snippet.channel_title) {
                (Some(id), Some(channel_id), Some(channel_title)) => Ok(
                    PlaylistView {
                        id: id@,
                        title: self.snippet.title@,
                        thumbnail: match self.snippet.thumbnails {
                            Some(thumbnails) => thumbnails.best().url@,
                            None => Seq::empty(),
                        },
                        channel_id: channel_id@,
                        channel_title: channel_title@,
                    },
                ),
                _ => Err(ConversionError::MissingPart),
            }
        }
    }

    pub fn into_channel(self) -> (channel: Result<Channel, ConversionError>)
        ensures
            match channel {
                Ok(c) => Ok(c@),
                Err(error) => Err(error),
            } == self.as_channel(),
    {
        if self.id.is_channel() {
            match (self.id.channel_id, self.snippet.thumbnails) {
                (Some(id), Some(thumbnails)) => Ok(
                    Channel::new(id, self.snippet.title, thumbnails.get_url(), None, None),
                ),
                _ => Err(ConversionError::MissingPart),
            }
        } else {
            Err(ConversionError::NotAChannel)
        }
    }

    pub fn into_video(self) -> (video: Result<Video, ConversionError>)
        ensures
            match video {
                Ok(v) => Ok(v@),
                Err(error) => Err(error),
            } == self.as_video(),
    {
        if self.id.is_video() {
            match (
                self.id.video_id,
                self.snippet.published_at,
                self.snippet.thumbnails,
                self.snippet.channel_id,
                self.snippet.channel_title,
            ) {
                (Some(id), Some(date), Some(thumbnails), Some(channel_id), Some(channel_title)) => Ok(
                    Video::new(
                        id,
                        self.snippet.title,
                        date,
                        thumbnails.get_url(),
                        channel_id,
                        channel_title,
                        self.snippet.description,
                    ),
                ),
                _ => Err(ConversionError::MissingPart),
            }
        } else {
            Err(ConversionError::NotAVideo)
        }
    }

    pub fn into_playlist(self) -> (playlist: Result<Playlist, ConversionError>)
        ensures
            match playlist {
                Ok(p) => Ok(p@),
                Err(error) => Err(error),
            } == self.as_playlist(),
    {
        if self.id.is_playlist() {
            match (self.id.playlist_id, self.snippet.channel_id, self.snippet.channel_title) {
                (Some(id), Some(channel_id), Some(channel_title)) => {
                    let thumbnail = match self.snippet.thumbnails {
                        Some(thumbnails) => thumbnails.get_url(),
                        None => Thumbnails::empty().get_url(),
                    };
                    Ok(Playlist::new(id, self.snippet.title, thumbnail, channel_id, channel_title))
                },
                _ => Err(ConversionError::MissingPart),
            }
        } else {
            Err(ConversionError::NotAPlaylist)
        }
    }
}

} // verus!
