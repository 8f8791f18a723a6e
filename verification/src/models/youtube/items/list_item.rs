use crate::models::channel::{Channel, ChannelView};
use crate::models::playlist::{Playlist, PlaylistView};
use crate::models::video::{Video, VideoView};
use crate::models::youtube::parts::content_details::ContentDetails;
use crate::models::youtube::parts::kind::Kind;
use crate::models::youtube::parts::snippet::Snippet;
use crate::models::youtube::parts::stats::Stats;
use crate::models::youtube::parts::thumbnails::Thumbnails;
use crate::models::youtube::ConversionError;
use crate::text::optional_text;
use vstd::prelude::*;

verus! {

/// An item of a list of channels, videos or playlists.
#[derive(Debug)]
pub struct ListItem {
    pub kind: Kind,
    pub snippet: Snippet,
    pub statistics: Option<Stats>,
    pub id: String,
    pub content_details: Option<ContentDetails>,
}

impl ListItem {
    /// The channel that the item describes. Its video count is that of the
    /// statistics, and 0 without statistics; its uploads are those of the
    /// content details.
    pub open spec fn as_channel(self) -> Result<ChannelView, ConversionError> {
        if !self.kind.names_channel() {
            Err(ConversionError::NotAChannel)
        } else {
            match self.snippet.thumbnails {
                Some(thumbnails) => Ok(
                    ChannelView {
                        id: self.id@,
                        title: self.snippet.title@,
                        thumbnail: thumbnails.best().url@,
                        video_count: Some(
                            match self.statistics {
                                Some(stats) => stats.count(),
                                None => 0,
                            },
                        ),
                        upload_playlist_id: match self.content_details {
                            Some(details) => Some(details.related_playlists.uploads@),
                            None => None,
                        },
                    },
                ),
                None => Err(ConversionError::MissingPart),
            }
        }
    }

    /// The video that the item describes.
    pub open spec fn as_video(self) -> Result<VideoView, ConversionError> {
        if !self.kind.names_video() {
            Err(ConversionError::NotAVideo)
        } else {
            match (
                self.snippet.published_at,
                self.snippet.thumbnails,
                self.snippet.channel_id,
                self.snippet.channel_title,
            ) {
                (Some(date), Some(thumbnails), Some(channel_id), Some(channel_title)) => Ok(
                    VideoView {
                        id: self.id@,
                        title: self.snippet.title@,
                        date: date@,
                        thumbnail: thumbnails.best().url@,
                        channel_id: channel_id@,
                        channel_title: channel_title@,
                        description: optional_text(self.snippet.description),
                    },
                ),
                _ => Err(ConversionError::MissingPart),
            }
        }
    }

    /// The playlist that the item describes. A playlist without thumbnails
    /// gets an empty thumbnail address.
    pub open spec fn as_playlist(self) -> Result<PlaylistView, ConversionError> {
        if !self.kind.names_playlist() {
            Err(ConversionError::NotAPlaylist)
        } else {
            match (self.snippet.channel_id, self.snippet.channel_title) {
                (Some(channel_id), Some(channel_title)) => Ok(
                    PlaylistView {
                        id: self.id@,
                        title: self.snippet.title@,
                        thumbnail: match self.snippet.thumbnails {
                            Some(thumbnails) => thumbnails.best().url@,
                            None => Seq::empty(),
                        },
                        channel_id: channel_id@,
                        channel_title: channel_title@,
                    },
                ),
                _ => Err(ConversionError::MissingPart),
            }
        }
    }

    pub fn into_channel(self) -> (channel: Result<Channel, ConversionError>)
        ensures
            match channel {
                Ok(c) => Ok(c@),
                Err(error) => Err(error),
            } == self.as_channel(),
    {
        if self.kind.is_channel() {
            match self.snippet.thumbnails {
                Some(thumbnails) => {
                    let video_count = match self.statistics {
                        Some(stats) => stats.get_video_count(),
                        None => Stats::default().get_video_count(),
                    };
                    let upload_playlist_id = match self.content_details {
                        Some(details) => details.get_upload_playlist_id(),
                        None => None,
                    };
                    Ok(
                        Channel::new(
                            self.id,
                            self.snippet.title,
                            thumbnails.get_url(),
                            Some(video_count),
                            upload_playlist_id,
                        ),
                    )
                },
                None => Err(ConversionError::MissingPart),
            }
        } else {
            Err(ConversionError::NotAChannel)
        }
    }

    pub fn into_video(self) -> (video: Result<Video, ConversionError>)
        ensures
            match video {
                Ok(v) => Ok(v@),
                Err(error) => Err(error),
            } == self.as_video(),
    {
        if self.kind.is_video() {
            match (
                self.snippet.published_at,
                self.snippet.thumbnails,
                self.snippet.channel_id,
                self.snippet.channel_title,
            ) {
                (Some(date), Some(thumbnails), Some(channel_id), Some(channel_title)) => Ok(
                    Video::new(
                        self.id,
                        self.snippet.title,
                        date,
                        thumbnails.get_url(),
                        channel_id,
                        channel_title,
                        self.snippet.description,
                    ),
                ),
                _ => Err(ConversionError::MissingPart),
            }
        } else {
            Err(ConversionError::NotAVideo)
        }
    }

    pub fn into_playlist(self) -> (playlist: Result<Playlist, ConversionError>)
        ensures
            match playlist {
                Ok(p) => Ok(p@),
                Err(error) => Err(error),
            } == self.as_playlist(),
    {
        if self.kind.is_playlist() {
            match (self.snippet.channel_id, self.snippet.channel_title) {
                (Some(channel_id), Some(channel_title)) => {
                    let thumbnail = match self.snippet.thumbnails {
                        Some(thumbnails) => thumbnails.get_url(),
                        None => Thumbnails::empty().get_url(),
                    };
                    Ok(
                        Playlist::new(
                            self.id,
                            self.snippet.title,
                            thumbnail,
                            channel_id,
                            channel_title,
                        ),
                    )
                },
                _ => Err(ConversionError::MissingPart),
            }
        } else {
            Err(ConversionError::NotAPlaylist)
        }
    }
}

} // verus!
