use crate::models::youtube::parts::kind::Kind;
use vstd::prelude::*;

verus! {

#[derive(Debug)]
pub struct Id {
    pub kind: Kind,
    pub channel_id: Option<String>,
    pub playlist_id: Option<String>,
    pub video_id: Option<String>,
}

impl Id {
    pub fn is_channel(&self) -> (is: bool)
        ensures
            is == self.kind.names_channel(),
    {
        self.kind.is_channel()
    }

    pub fn is_video(&self) -> (is: bool)
        ensures
            is == self.kind.names_video(),
    {
        self.kind.is_video()
    }

    pub fn is_playlist(&self) -> (is: bool)
        ensures
            is == self.kind.names_playlist(),
    {
        self.kind.is_playlist()
    }

    /// The identifier that goes with the kind: that of the channel for a
    /// channel, of the video for a video, of the playlist for a playlist.
    /// `None` for another kind, and where the identifier is missing.
    pub open spec fn id_of_kind(&self) -> Option<String> {
        if self.kind.names_channel() {
            self.channel_id
        } else if self.kind.names_video() {
            self.video_id
        } else if self.kind.names_playlist() {
            self.playlist_id
        } else {
            None
        }
    }

    /// The identifier that goes with the kind.
    pub fn get_id(&self) -> (id: String)
        requires
            self.id_of_kind() is Some,
        ensures
            Some(id) == self.id_of_kind(),
    {
        if self.is_channel() {
            self.channel_id.as_ref().unwrap().clone()
        } else if self.is_video() {
            self.video_id.as_ref().unwrap().clone()
        } else {
            self.playlist_id.as_ref().unwrap().clone()
        }
    }
}

} // verus!
